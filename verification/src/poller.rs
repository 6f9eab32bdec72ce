//! The poller: the registration table and the decisions around submitting,
//! cancelling and decoding poll operations.
//!
//! A single caller thread drives the poller. The kernel calls themselves
//! (device control to submit, handle-scoped cancel, dequeue from the
//! completion port) are performed by the surrounding program: the methods
//! here return the `Action` to perform and consume the plain results the
//! port handed back.

use crate::afd::{spec_event_mask, CompletionOutcome, spec_decode_completion, spec_classify_submit,
    SubmitOutcome, classify_submit, Readiness, INVALID_SOCKET, STATUS_PENDING};
use crate::interests::Interests;
use crate::request::{PollRequest, RequestModel, RequestState, spec_outstanding_state};
use std::collections::HashMap;
use vstd::prelude::*;

verus! {

/// A readiness event delivered to the caller, attributed to the token of
/// the registration it belongs to.
#[derive(Clone, Copy, PartialEq, Eq, Structural, Debug)]
pub struct Event {
    /// The caller's token for the registration.
    pub token: usize,
    /// The socket is readable (data, an incoming connection, or a close
    /// to observe by reading).
    pub readable: bool,
    /// The socket is writable.
    pub writable: bool,
    /// The operation or the connection failed; the caller is woken with
    /// an error indicator rather than silently dropped.
    pub error: bool,
}

/// A kernel operation the surrounding program must perform on behalf of
/// the poller.
#[derive(Clone, Copy, PartialEq, Eq, Structural, Debug)]
pub enum Action {
    /// Submit a poll operation to the device for this base handle, with
    /// this event mask, as the sole listener when `exclusive` is set.
    Submit { base_handle: usize, event_mask: u32, exclusive: bool },
    /// Cancel the outstanding operation keyed to this base handle.
    Cancel { base_handle: usize },
}

/// One completion dequeued from the port: which socket it belongs to, the
/// final status block value, the number of handles the device reported,
/// and the event bits of the polled handle.
#[derive(Clone, Copy, PartialEq, Eq, Structural, Debug)]
pub struct Completion {
    /// The caller's socket the completed operation was submitted for.
    pub socket: usize,
    /// The status block value at completion.
    pub status: i32,
    /// How many handles the device reported; zero means no transition.
    pub handle_count: u32,
    /// The event bits reported for the polled handle.
    pub events: u32,
}

/// A synchronously surfaced registration failure.
#[derive(Clone, Copy, PartialEq, Eq, Structural, Debug)]
pub enum RegistrationError {
    /// The socket is already registered.
    AlreadyRegistered,
    /// Base-handle resolution returned the invalid-handle sentinel; the
    /// original handle is never used as a fallback.
    ResolutionFailed,
    /// The device rejected the submission; carries the status. Never
    /// retried, since a malformed handle fails identically on retry.
    SubmitFailed(i32),
    /// No live registration exists for the socket.
    NotRegistered,
}

/// The mathematical model of one registration table entry.
pub ghost struct EntryModel {
    /// The caller's token, attributed to every event for this socket.
    pub token: usize,
    /// The interests currently requested for this socket.
    pub interests: Interests,
    /// The entry was deregistered; it survives only until the completion
    /// of its outstanding operation is observed, and yields no events.
    pub deregistered: bool,
    /// The model of the entry's poll request.
    pub request: RequestModel,
}

/// One registration: the current poll request, the interests, and the
/// caller's token.
pub struct Registration {
    token: usize,
    interests: Interests,
    deregistered: bool,
    request: PollRequest,
}

impl View for Registration {
    type V = EntryModel;

    closed spec fn view(&self) -> EntryModel {
        EntryModel {
            token: self.token,
            interests: self.interests,
            deregistered: self.deregistered,
            request: self.request@,
        }
    }
}

/// The poller: the registration table, keyed by socket identity.
pub struct Poller {
    table: HashMap<usize, Registration>,
}

impl View for Poller {
    type V = Map<usize, EntryModel>;

    closed spec fn view(&self) -> Map<usize, EntryModel> {
        Map::new(
            |s: usize| self.table@.dom().contains(s),
            |s: usize| self.table@[s]@,
        )
    }
}

/// An entry rearmed for a fresh one-shot submission: the mask its current
/// interests map to, the status block set to pending.
pub open spec fn spec_rearmed(e: EntryModel) -> EntryModel {
    EntryModel {
        request: RequestModel {
            mask: spec_event_mask(e.interests),
            state: RequestState::Submitted,
            status: STATUS_PENDING,
            ..e.request
        },
        ..e
    }
}

/// The submission the surrounding program must perform for an entry.
pub open spec fn spec_submit_action(e: EntryModel) -> Action {
    Action::Submit {
        base_handle: e.request.base_handle,
        event_mask: e.request.mask,
        exclusive: e.request.exclusive,
    }
}

/// The event a decoded readiness yields for a token: a closed socket is
/// reported as readable, so the close is observed by reading.
pub open spec fn spec_event_of(token: usize, rd: Readiness) -> Event {
    Event {
        token,
        readable: rd.readable || rd.closed,
        writable: rd.writable,
        error: rd.error,
    }
}

/// What one dequeued completion does to the table, and what it yields.
///
/// A completion for a socket without a live outstanding operation is
/// ignored: in particular one for a socket whose entry was already removed
/// within the same wait. A deregistered entry is removed once its
/// completion is observed, and yields no event. Otherwise the completion
/// is decoded: a no-op (zero handles or benign cancellation) rearms the
/// one-shot request with the entry's current interests; a readiness report
/// yields one event and rearms as well; a failing status yields an
/// error-flagged event for the owning token and leaves the request
/// completed, so the caller can deregister or reregister.
pub open spec fn spec_step(m: Map<usize, EntryModel>, c: Completion) -> (
    Map<usize, EntryModel>,
    Option<Event>,
    Option<Action>,
) {
    if !m.dom().contains(c.socket) {
        (m, None, None)
    } else {
        let e = m[c.socket];
        if !spec_outstanding_state(e.request.state) {
            (m, None, None)
        } else if e.deregistered {
            (m.remove(c.socket), None, None)
        } else {
            match spec_decode_completion(c.status, c.handle_count, c.events) {
                CompletionOutcome::NoEvent => {
                    let e2 = spec_rearmed(e);
                    (m.insert(c.socket, e2), None, Some(spec_submit_action(e2)))
                },
                CompletionOutcome::Ready(rd) => {
                    let e2 = spec_rearmed(e);
                    (
                        m.insert(c.socket, e2),
                        Some(spec_event_of(e.token, rd)),
                        Some(spec_submit_action(e2)),
                    )
                },
                CompletionOutcome::Failed => {
                    let e2 = EntryModel {
                        request: RequestModel {
                            state: RequestState::Completed,
                            status: c.status,
                            ..e.request
                        },
                        ..e
                    };
                    (
                        m.insert(c.socket, e2),
                        Some(Event { token: e.token, readable: false, writable: false, error: true }),
                        None,
                    )
                },
            }
        }
    }
}

/// The singleton sequence of a present option, the empty sequence of an
/// absent one.
pub open spec fn opt_to_seq<T>(o: Option<T>) -> Seq<T> {
    match o {
        Some(x) => seq![x],
        None => Seq::empty(),
    }
}

/// The table, events and actions after the first `n` completions of a
/// batch, in dequeue order.
pub open spec fn spec_run(m: Map<usize, EntryModel>, batch: Seq<Completion>, n: int) -> (
    Map<usize, EntryModel>,
    Seq<Event>,
    Seq<Action>,
)
    decreases n,
{
    if n <= 0 {
        (m, Seq::empty(), Seq::empty())
    } else {
        let prev = spec_run(m, batch, n - 1);
        let step = spec_step(prev.0, batch[n - 1]);
        (step.0, prev.1 + opt_to_seq(step.1), prev.2 + opt_to_seq(step.2))
    }
}

impl Poller {
    /// A poller with an empty registration table.
    pub fn new() -> (p: Poller)
        ensures
            p@ == Map::<usize, EntryModel>::empty(),
    {
        let p = Poller { table: HashMap::new() };
        proof {
            assert(p@ =~= Map::<usize, EntryModel>::empty());
        }
        p
    }

    /// How many sockets the table holds, deregistered-pending entries
    /// included.
    pub fn num_registered(&self) -> (n: usize)
        ensures
            n == self@.dom().len(),
    {
        proof {
            assert(self@.dom() =~= self.table@.dom());
        }
        self.table.len()
    }

    /// Whether the socket has an entry in the table.
    pub fn is_registered(&self, socket: usize) -> (b: bool)
        ensures
            b == self@.dom().contains(socket),
    {
        self.table.contains_key(&socket)
    }

    /// Whether the device handle may be torn down now: only once the table
    /// is empty, so no poll request remains outstanding against it.
    /// Closing earlier is undefined at the kernel level, so the owner must
    /// drain every registration — deregistration and the completions it
    /// awaits included — before closing.
    pub fn may_teardown(&self) -> (b: bool)
        ensures
            b == self@.is_empty(),
            b ==> forall|s: usize|
                !(self@.dom().contains(s) && spec_outstanding_state(self@[s].request.state)),
    {
        proof {
            if self.table@.is_empty() {
                assert(self@.is_empty()) by {
                    assert(self@.dom() =~= self.table@.dom());
                }
            } else {
                let w = choose|s: usize| self.table@.dom().contains(s);
                assert(self@.dom().contains(w));
            }
        }
        self.table.is_empty()
    }

    /// Registers a socket: records the entry and returns the submission
    /// the surrounding program must perform. `base_handle` is what the
    /// base-handle query resolved the socket to; the invalid-handle
    /// sentinel is a fatal registration error, never silently replaced by
    /// the original handle. Fails on a duplicate registration. The status
    /// block starts out pending; the program reports the submission's
    /// return status through `on_submit_result`.
    pub fn register(&mut self, socket: usize, base_handle: usize, interests: Interests, token: usize)
        -> (r: Result<Action, RegistrationError>)
        ensures
            base_handle == INVALID_SOCKET ==> r == Err::<Action, RegistrationError>(
                RegistrationError::ResolutionFailed,
            ) && final(self)@ == old(self)@,
            base_handle != INVALID_SOCKET && old(self)@.dom().contains(socket) ==> r == Err::<
                Action,
                RegistrationError,
            >(RegistrationError::AlreadyRegistered) && final(self)@ == old(self)@,
            base_handle != INVALID_SOCKET && !old(self)@.dom().contains(socket) ==> r == Ok::<
                Action,
                RegistrationError,
            >(
                Action::Submit {
                    base_handle,
                    event_mask: spec_event_mask(interests),
                    exclusive: true,
                },
            ) && final(self)@ == old(self)@.insert(
                socket,
                (EntryModel {
                    token,
                    interests,
                    deregistered: false,
                    request: RequestModel {
                        base_handle,
                        mask: spec_event_mask(interests),
                        exclusive: true,
                        state: RequestState::Submitted,
                        status: STATUS_PENDING,
                    },
                }),
            ),
    {
        if base_handle == INVALID_SOCKET {
            return Err(RegistrationError::ResolutionFailed);
        }
        if self.table.contains_key(&socket) {
            return Err(RegistrationError::AlreadyRegistered);
        }
        let mut request = PollRequest::new(base_handle, interests);
        request.begin_submit();
        let action = Action::Submit {
            base_handle: request.base_handle(),
            event_mask: request.mask(),
            exclusive: request.exclusive(),
        };
        let entry = Registration { token, interests, deregistered: false, request };
        self.table.insert(socket, entry);
        proof {
            assert(final(self)@ =~= old(self)@.insert(socket, entry@));
        }
        Ok(action)
    }

    /// Consumes the return status of a submission that was just performed
    /// for this socket. Immediate success and pending both leave the
    /// completion to the port, uniformly. A hard error removes the entry
    /// and surfaces the failure; nothing is outstanding for it afterwards.
    pub fn on_submit_result(&mut self, socket: usize, status: i32)
        -> (r: Result<(), RegistrationError>)
        ensures
            !(old(self)@.dom().contains(socket) && spec_outstanding_state(
                old(self)@[socket].request.state,
            )) ==> r == Err::<(), RegistrationError>(RegistrationError::NotRegistered) && final(self)@ == old(self)@,
            old(self)@.dom().contains(socket) && spec_outstanding_state(
                old(self)@[socket].request.state,
            ) ==> {
                if spec_classify_submit(status) is Failed {
                    r == Err::<(), RegistrationError>(RegistrationError::SubmitFailed(status))
                        && final(self)@ == old(self)@.remove(socket)
                } else {
                    r == Ok::<(), RegistrationError>(()) && final(self)@ == old(self)@
                }
            },
    {
        let outstanding = match self.table.get(&socket) {
            None => false,
            Some(entry) => {
                let st = entry.request.state();
                match st {
                    RequestState::Submitted => true,
                    RequestState::CancelPending => true,
                    _ => false,
                }
            },
        };
        if !outstanding {
            return Err(RegistrationError::NotRegistered);
        }
        match classify_submit(status) {
            SubmitOutcome::Failed(_) => {
                self.table.remove(&socket);
                proof {
                    assert(final(self)@ =~= old(self)@.remove(socket));
                }
                Err(RegistrationError::SubmitFailed(status))
            },
            _ => Ok(()),
        }
    }

    /// Changes the interests of a live registration, preserving its token.
    /// An outstanding operation is cancelled first; the fresh submission
    /// with the new interests happens when the cancellation's completion
    /// is observed, so no transition is lost across the boundary. When a
    /// cancel is already pending, only the interests change. When nothing
    /// is outstanding, the request is rearmed at once and the submission
    /// to perform is returned.
    pub fn reregister(&mut self, socket: usize, interests: Interests)
        -> (r: Result<Option<Action>, RegistrationError>)
        ensures
            !(old(self)@.dom().contains(socket) && !old(self)@[socket].deregistered) ==> r == Err::<
                Option<Action>,
                RegistrationError,
            >(RegistrationError::NotRegistered) && final(self)@ == old(self)@,
            old(self)@.dom().contains(socket) && !old(self)@[socket].deregistered ==> {
                let e = old(self)@[socket];
                if e.request.state == RequestState::Submitted {
                    r == Ok::<Option<Action>, RegistrationError>(
                        Some(Action::Cancel { base_handle: e.request.base_handle }),
                    ) && final(self)@ == old(self)@.insert(
                        socket,
                        (EntryModel {
                            interests,
                            request: RequestModel { state: RequestState::CancelPending, ..e.request },
                            ..e
                        }),
                    )
                } else if e.request.state == RequestState::CancelPending {
                    r == Ok::<Option<Action>, RegistrationError>(None) && final(self)@ == old(self)@.insert(socket, (EntryModel { interests, ..e }))
                } else {
                    r == Ok::<Option<Action>, RegistrationError>(
                        Some(
                            Action::Submit {
                                base_handle: e.request.base_handle,
                                event_mask: spec_event_mask(interests),
                                exclusive: e.request.exclusive,
                            },
                        ),
                    ) && final(self)@ == old(self)@.insert(
                        socket,
                        (EntryModel {
                            interests,
                            request: RequestModel {
                                mask: spec_event_mask(interests),
                                state: RequestState::Submitted,
                                status: STATUS_PENDING,
                                ..e.request
                            },
                            ..e
                        }),
                    )
                }
            },
    {
        match self.table.remove(&socket) {
            None => Err(RegistrationError::NotRegistered),
            Some(mut entry) => {
                if entry.deregistered {
                    self.table.insert(socket, entry);
                    proof {
                        assert(final(self)@ =~= old(self)@);
                    }
                    return Err(RegistrationError::NotRegistered);
                }
                entry.interests = interests;
                let st = entry.request.state();
                match st {
                    RequestState::Submitted => {
                        entry.request.begin_cancel();
                        let action = Action::Cancel { base_handle: entry.request.base_handle() };
                        self.table.insert(socket, entry);
                        proof {
                            assert(final(self)@ =~= old(self)@.insert(
                                socket,
                                (EntryModel {
                                    interests,
                                    request: RequestModel {
                                        state: RequestState::CancelPending,
                                        ..old(self)@[socket].request
                                    },
                                    ..old(self)@[socket]
                                }),
                            ));
                        }
                        Ok(Some(action))
                    },
                    RequestState::CancelPending => {
                        self.table.insert(socket, entry);
                        proof {
                            assert(final(self)@ =~= old(self)@.insert(
                                socket,
                                (EntryModel { interests, ..old(self)@[socket] }),
                            ));
                        }
                        Ok(None)
                    },
                    _ => {
                        entry.request.update_interests(interests);
                        entry.request.begin_submit();
                        let action = Action::Submit {
                            base_handle: entry.request.base_handle(),
                            event_mask: entry.request.mask(),
                            exclusive: entry.request.exclusive(),
                        };
                        self.table.insert(socket, entry);
                        proof {
                            assert(final(self)@ =~= old(self)@.insert(
                                socket,
                                (EntryModel {
                                    interests,
                                    request: RequestModel {
                                        mask: spec_event_mask(interests),
                                        state: RequestState::Submitted,
                                        status: STATUS_PENDING,
                                        ..old(self)@[socket].request
                                    },
                                    ..old(self)@[socket]
                                }),
                            ));
                        }
                        Ok(Some(action))
                    },
                }
            },
        }
    }

    /// Deregisters a socket. An outstanding operation is cancelled and the
    /// entry survives, yielding no events, until its completion is
    /// observed; when nothing is outstanding the entry is removed at once.
    /// The caller's handle is never closed here.
    pub fn deregister(&mut self, socket: usize) -> (r: Result<Option<Action>, RegistrationError>)
        ensures
            !(old(self)@.dom().contains(socket) && !old(self)@[socket].deregistered) ==> r == Err::<
                Option<Action>,
                RegistrationError,
            >(RegistrationError::NotRegistered) && final(self)@ == old(self)@,
            old(self)@.dom().contains(socket) && !old(self)@[socket].deregistered ==> {
                let e = old(self)@[socket];
                if e.request.state == RequestState::Submitted {
                    r == Ok::<Option<Action>, RegistrationError>(
                        Some(Action::Cancel { base_handle: e.request.base_handle }),
                    ) && final(self)@ == old(self)@.insert(
                        socket,
                        (EntryModel {
                            deregistered: true,
                            request: RequestModel { state: RequestState::CancelPending, ..e.request },
                            ..e
                        }),
                    )
                } else if e.request.state == RequestState::CancelPending {
                    r == Ok::<Option<Action>, RegistrationError>(None) && final(self)@ == old(self)@.insert(socket, (EntryModel { deregistered: true, ..e }))
                } else {
                    r == Ok::<Option<Action>, RegistrationError>(None) && final(self)@ == old(self)@.remove(socket)
                }
            },
    {
        match self.table.remove(&socket) {
            None => Err(RegistrationError::NotRegistered),
            Some(mut entry) => {
                if entry.deregistered {
                    self.table.insert(socket, entry);
                    proof {
                        assert(final(self)@ =~= old(self)@);
                    }
                    return Err(RegistrationError::NotRegistered);
                }
                let st = entry.request.state();
                match st {
                    RequestState::Submitted => {
                        entry.deregistered = true;
                        entry.request.begin_cancel();
                        let action = Action::Cancel { base_handle: entry.request.base_handle() };
                        self.table.insert(socket, entry);
                        proof {
                            assert(final(self)@ =~= old(self)@.insert(
                                socket,
                                (EntryModel {
                                    deregistered: true,
                                    request: RequestModel {
                                        state: RequestState::CancelPending,
                                        ..old(self)@[socket].request
                                    },
                                    ..old(self)@[socket]
                                }),
                            ));
                        }
                        Ok(Some(action))
                    },
                    RequestState::CancelPending => {
                        entry.deregistered = true;
                        self.table.insert(socket, entry);
                        proof {
                            assert(final(self)@ =~= old(self)@.insert(
                                socket,
                                (EntryModel { deregistered: true, ..old(self)@[socket] }),
                            ));
                        }
                        Ok(None)
                    },
                    _ => {
                        proof {
                            assert(final(self)@ =~= old(self)@.remove(socket));
                        }
                        Ok(None)
                    },
                }
            },
        }
    }

    /// Consumes one completion dequeued from the port, as `spec_step`
    /// says: the event to deliver, if any, and the submission to perform
    /// for the rearmed one-shot request, if any.
    pub fn process_completion(&mut self, c: Completion) -> (r: (Option<Event>, Option<Action>))
        ensures
            final(self)@ == spec_step(old(self)@, c).0,
            r.0 == spec_step(old(self)@, c).1,
            r.1 == spec_step(old(self)@, c).2,
    {
        match self.table.remove(&c.socket) {
            None => {
                proof {
                    assert(final(self)@ =~= old(self)@);
                }
                (None, None)
            },
            Some(mut entry) => {
                let st = entry.request.state();
                let outstanding = match st {
                    RequestState::Submitted => true,
                    RequestState::CancelPending => true,
                    _ => false,
                };
                if !outstanding {
                    self.table.insert(c.socket, entry);
                    proof {
                        assert(final(self)@ =~= old(self)@);
                    }
                    (None, None)
                } else if entry.deregistered {
                    proof {
                        assert(final(self)@ =~= old(self)@.remove(c.socket));
                    }
                    (None, None)
                } else {
                    let outcome = entry.request.on_completion(c.status, c.handle_count, c.events);
                    match outcome {
                        CompletionOutcome::NoEvent => {
                            entry.request.update_interests(entry.interests);
                            entry.request.begin_submit();
                            let action = Action::Submit {
                                base_handle: entry.request.base_handle(),
                                event_mask: entry.request.mask(),
                                exclusive: entry.request.exclusive(),
                            };
                            self.table.insert(c.socket, entry);
                            proof {
                                assert(final(self)@ =~= spec_step(old(self)@, c).0);
                            }
                            (None, Some(action))
                        },
                        CompletionOutcome::Ready(rd) => {
                            let event = Event {
                                token: entry.token,
                                readable: rd.readable || rd.closed,
                                writable: rd.writable,
                                error: rd.error,
                            };
                            entry.request.update_interests(entry.interests);
                            entry.request.begin_submit();
                            let action = Action::Submit {
                                base_handle: entry.request.base_handle(),
                                event_mask: entry.request.mask(),
                                exclusive: entry.request.exclusive(),
                            };
                            self.table.insert(c.socket, entry);
                            proof {
                                assert(final(self)@ =~= spec_step(old(self)@, c).0);
                            }
                            (Some(event), Some(action))
                        },
                        CompletionOutcome::Failed => {
                            let event = Event {
                                token: entry.token,
                                readable: false,
                                writable: false,
                                error: true,
                            };
                            self.table.insert(c.socket, entry);
                            proof {
                                assert(final(self)@ =~= spec_step(old(self)@, c).0);
                            }
                            (Some(event), None)
                        },
                    }
                }
            },
        }
    }

    /// Consumes a whole batch of completions in dequeue order, as the wait
    /// call does: the events to deliver and the submissions to perform, in
    /// that same order. No cross-socket ordering is promised beyond it. An
    /// empty batch — a wait that timed out with nothing ready — yields no
    /// events and no actions.
    pub fn process_completions(&mut self, batch: &Vec<Completion>)
        -> (r: (Vec<Event>, Vec<Action>))
        ensures
            final(self)@ == spec_run(old(self)@, batch@, batch@.len() as int).0,
            r.0@ == spec_run(old(self)@, batch@, batch@.len() as int).1,
            r.1@ == spec_run(old(self)@, batch@, batch@.len() as int).2,
            batch@.len() == 0 ==> r.0@ == Seq::<Event>::empty() && r.1@ == Seq::<Action>::empty(),
    {
        let mut events: Vec<Event> = Vec::new();
        let mut actions: Vec<Action> = Vec::new();
        let mut i: usize = 0;
        while i < batch.len()
            invariant
                i <= batch@.len(),
                self@ == spec_run(old(self)@, batch@, i as int).0,
                events@ == spec_run(old(self)@, batch@, i as int).1,
                actions@ == spec_run(old(self)@, batch@, i as int).2,
            decreases batch@.len() - i,
        {
            let c = batch[i];
            let (event, action) = self.process_completion(c);
            if let Some(e) = event {
                events.push(e);
            }
            if let Some(a) = action {
                actions.push(a);
            }
            i = i + 1;
            proof {
                let prev = spec_run(old(self)@, batch@, i - 1);
                let step = spec_step(prev.0, batch@[i - 1]);
                assert(events@ =~= prev.1 + opt_to_seq(step.1));
                assert(actions@ =~= prev.2 + opt_to_seq(step.2));
            }
        }
        (events, actions)
    }
}

/// A completion for a socket without a table entry changes nothing and
/// yields nothing: events for sockets deregistered and removed within the
/// same wait are suppressed.
pub proof fn lemma_unknown_completion_ignored(m: Map<usize, EntryModel>, c: Completion)
    requires
        !m.dom().contains(c.socket),
    ensures
        spec_step(m, c).0 == m,
        spec_step(m, c).1 is None,
        spec_step(m, c).2 is None,
{
}

/// An event is only ever attributed to the token of a live registration of
/// the completed socket: a deregistered or absent entry yields none.
pub proof fn lemma_event_token_from_live_entry(m: Map<usize, EntryModel>, c: Completion)
    ensures
        spec_step(m, c).1 matches Some(ev) ==> m.dom().contains(c.socket)
            && !m[c.socket].deregistered && ev.token == m[c.socket].token,
{
}

/// Once a socket is deregistered, observing the completion of its
/// outstanding operation — the cancellation's own completion included —
/// yields no event for its token and removes the entry, whatever the
/// completion carried.
pub proof fn lemma_deregistered_completion_suppressed(m: Map<usize, EntryModel>, c: Completion)
    requires
        m.dom().contains(c.socket),
        m[c.socket].deregistered,
    ensures
        spec_step(m, c).1 is None,
        spec_step(m, c).2 is None,
        spec_outstanding_state(m[c.socket].request.state) ==> spec_step(m, c).0 == m.remove(
            c.socket,
        ),
{
}

/// A socket watched for writable readiness that reports exactly a send
/// transition yields exactly one event, writable and not readable, and the
/// request is rearmed at once — submitted again with the mask of the
/// entry's current interests — so a future writable transition is detected
/// despite one-shot semantics.
pub proof fn lemma_writable_transition_fires_and_rearms(m: Map<usize, EntryModel>, c: Completion)
    requires
        m.dom().contains(c.socket),
        !m[c.socket].deregistered,
        spec_outstanding_state(m[c.socket].request.state),
        c.status == crate::afd::STATUS_SUCCESS,
        c.handle_count > 0,
        c.events == crate::afd::POLL_SEND,
    ensures
        spec_step(m, c).1 == Some(
            Event { token: m[c.socket].token, readable: false, writable: true, error: false },
        ),
        spec_step(m, c).0[c.socket].request.state == RequestState::Submitted,
        spec_step(m, c).0[c.socket].request.mask == spec_event_mask(m[c.socket].interests),
        spec_step(m, c).2 == Some(spec_submit_action(spec_rearmed(m[c.socket]))),
{
    assert(0x4u32 & (0x1u32 | 0x2u32 | 0x80u32) == 0 && 0x4u32 & 0x4u32 != 0 && 0x4u32 & (
        0x10u32 | 0x100u32) == 0 && 0x4u32 & (0x8u32 | 0x20u32) == 0) by (bit_vector);
}

/// A benign cancellation completion — as one-shot rearming or an interest
/// change produces — yields no event and rearms the request with the mask
/// of the entry's current interests: a transition concurrent with the
/// interest change is either carried by this completion or watched again
/// by the fresh submission, never silently dropped.
pub proof fn lemma_cancel_completion_rearms(m: Map<usize, EntryModel>, c: Completion)
    requires
        m.dom().contains(c.socket),
        !m[c.socket].deregistered,
        spec_outstanding_state(m[c.socket].request.state),
        c.status == crate::afd::STATUS_CANCELLED || (c.status == crate::afd::STATUS_SUCCESS
            && c.handle_count == 0),
    ensures
        spec_step(m, c).1 is None,
        spec_step(m, c).0[c.socket].request.state == RequestState::Submitted,
        spec_step(m, c).0[c.socket].request.mask == spec_event_mask(m[c.socket].interests),
        spec_step(m, c).2 == Some(spec_submit_action(spec_rearmed(m[c.socket]))),
{
}

} // verus!
