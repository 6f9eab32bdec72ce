//! One in-flight or completed asynchronous poll operation for one socket.
//!
//! The request owns its buffer and status block, and its lifecycle enforces
//! the buffer-reuse rule: a new submission is only issued after the prior
//! operation's completion — including the completion of a cancellation, if
//! one was issued — has been observed on the port.

use crate::afd::{spec_event_mask, event_mask, CompletionOutcome, spec_decode_completion,
    decode_completion, STATUS_PENDING};
use crate::interests::Interests;
use vstd::prelude::*;

verus! {

/// The lifecycle of one asynchronous poll operation.
#[derive(Clone, Copy, PartialEq, Eq, Structural, Debug)]
pub enum RequestState {
    /// Built; nothing has been submitted, the buffer is free.
    Idle,
    /// Submitted to the device; the kernel owns the buffer and status
    /// block until the completion is dequeued.
    Submitted,
    /// A cancel was issued for the outstanding operation; its completion
    /// is still awaited, and the buffer is still kernel-owned.
    CancelPending,
    /// The completion was observed on the port; the buffer is reusable.
    Completed,
}

/// Whether a state still awaits a completion on the port: the operation's
/// buffer and status block are kernel-owned exactly then.
pub open spec fn spec_outstanding_state(s: RequestState) -> bool {
    s == RequestState::Submitted || s == RequestState::CancelPending
}

/// The mathematical model of a poll request.
pub ghost struct RequestModel {
    /// The base socket handle the operation targets.
    pub base_handle: usize,
    /// The kernel event mask the operation watches.
    pub mask: u32,
    /// The request is the sole listener for its socket.
    pub exclusive: bool,
    /// Where the operation stands in its lifecycle.
    pub state: RequestState,
    /// The status block value. Kernel-owned while the operation is
    /// outstanding: meaningful to the caller only once completed.
    pub status: i32,
}

/// One poll operation: target base handle, derived event mask, status
/// block, and lifecycle state.
pub struct PollRequest {
    base_handle: usize,
    mask: u32,
    exclusive: bool,
    state: RequestState,
    status: i32,
}

impl View for PollRequest {
    type V = RequestModel;

    closed spec fn view(&self) -> RequestModel {
        RequestModel {
            base_handle: self.base_handle,
            mask: self.mask,
            exclusive: self.exclusive,
            state: self.state,
            status: self.status,
        }
    }
}

impl PollRequest {
    /// Whether a submission may be issued now: only when no prior
    /// operation's result could still be outstanding.
    pub open spec fn spec_may_submit(self) -> bool {
        self@.state == RequestState::Idle || self@.state == RequestState::Completed
    }

    /// Whether a completion for this request is still awaited on the port.
    pub open spec fn spec_outstanding(self) -> bool {
        spec_outstanding_state(self@.state)
    }

    /// Builds an idle request for one socket, as the sole listener, with
    /// the event mask its interests map to.
    pub fn new(base_handle: usize, interests: Interests) -> (r: PollRequest)
        ensures
            r@ == (RequestModel {
                base_handle,
                mask: spec_event_mask(interests),
                exclusive: true,
                state: RequestState::Idle,
                status: 0,
            }),
    {
        PollRequest {
            base_handle,
            mask: event_mask(interests),
            exclusive: true,
            state: RequestState::Idle,
            status: 0,
        }
    }

    /// The current lifecycle state.
    pub fn state(&self) -> (s: RequestState)
        ensures
            s == self@.state,
    {
        self.state
    }

    /// The base socket handle the operation targets.
    pub fn base_handle(&self) -> (h: usize)
        ensures
            h == self@.base_handle,
    {
        self.base_handle
    }

    /// The kernel event mask the operation watches.
    pub fn mask(&self) -> (m: u32)
        ensures
            m == self@.mask,
    {
        self.mask
    }

    /// Whether the request is the sole listener for its socket.
    pub fn exclusive(&self) -> (e: bool)
        ensures
            e == self@.exclusive,
    {
        self.exclusive
    }

    /// Moves to `Submitted` for a fresh submission. The status block is
    /// set to pending before the submission is issued; from here on it is
    /// kernel-owned until the completion is dequeued. Requires that no
    /// prior operation is still outstanding: that is the buffer-reuse rule.
    pub fn begin_submit(&mut self)
        requires
            old(self).spec_may_submit(),
        ensures
            final(self)@ == (RequestModel {
                state: RequestState::Submitted,
                status: STATUS_PENDING,
                ..old(self)@
            }),
    {
        self.status = STATUS_PENDING;
        self.state = RequestState::Submitted;
    }

    /// Replaces the watched event mask with the one the given interests
    /// map to. Only allowed while the buffer is not kernel-owned.
    pub fn update_interests(&mut self, interests: Interests)
        requires
            old(self).spec_may_submit(),
        ensures
            final(self)@ == (RequestModel { mask: spec_event_mask(interests), ..old(self)@ }),
    {
        self.mask = event_mask(interests);
    }

    /// Marks that a handle-scoped cancel was issued for the outstanding
    /// operation. The operation stays outstanding: its completion — now
    /// possibly a cancellation completion — must still be observed before
    /// the buffer is reused.
    pub fn begin_cancel(&mut self)
        requires
            old(self).spec_outstanding(),
        ensures
            final(self)@ == (RequestModel { state: RequestState::CancelPending, ..old(self)@ }),
    {
        self.state = RequestState::CancelPending;
    }

    /// Records the completion dequeued from the port and decodes it. The
    /// buffer becomes reusable; the status block now holds the final
    /// status.
    pub fn on_completion(&mut self, status: i32, handle_count: u32, events: u32)
        -> (r: CompletionOutcome)
        requires
            old(self).spec_outstanding(),
        ensures
            final(self)@ == (RequestModel {
                state: RequestState::Completed,
                status,
                ..old(self)@
            }),
            r == spec_decode_completion(status, handle_count, events),
    {
        self.status = status;
        self.state = RequestState::Completed;
        decode_completion(status, handle_count, events)
    }
}

} // verus!
