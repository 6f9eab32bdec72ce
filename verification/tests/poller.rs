use afd_poller::afd::{INVALID_SOCKET, POLL_RECEIVE, POLL_SEND, STATUS_CANCELLED, STATUS_PENDING,
    STATUS_SUCCESS};
use afd_poller::interests::Interests;
use afd_poller::poller::{Action, Completion, Event, Poller, RegistrationError};

fn completion(socket: usize, status: i32, handle_count: u32, events: u32) -> Completion {
    Completion { socket, status, handle_count, events }
}

#[test]
fn register_returns_the_submission_to_perform() {
    let mut p = Poller::new();
    let act = p.register(7, 1000, Interests::writable(), 42).unwrap();
    assert_eq!(
        act,
        Action::Submit { base_handle: 1000, event_mask: POLL_SEND, exclusive: true }
    );
    assert!(p.is_registered(7));
    assert_eq!(p.num_registered(), 1);
    assert_eq!(p.on_submit_result(7, STATUS_PENDING), Ok(()));
}

#[test]
fn register_rejects_the_invalid_handle_sentinel() {
    let mut p = Poller::new();
    let r = p.register(7, INVALID_SOCKET, Interests::readable(), 42);
    assert_eq!(r, Err(RegistrationError::ResolutionFailed));
    assert!(!p.is_registered(7));
}

#[test]
fn register_rejects_a_duplicate() {
    let mut p = Poller::new();
    p.register(7, 1000, Interests::readable(), 1).unwrap();
    let r = p.register(7, 1000, Interests::writable(), 2);
    assert_eq!(r, Err(RegistrationError::AlreadyRegistered));
    assert_eq!(p.num_registered(), 1);
}

#[test]
fn submit_failure_removes_the_entry() {
    let mut p = Poller::new();
    p.register(7, 1000, Interests::writable(), 42).unwrap();
    let r = p.on_submit_result(7, -1073741790);
    assert_eq!(r, Err(RegistrationError::SubmitFailed(-1073741790)));
    assert!(!p.is_registered(7));
    assert_eq!(p.deregister(7), Err(RegistrationError::NotRegistered));
}

#[test]
fn register_then_deregister_then_wait_leaves_the_table_empty() {
    let mut p = Poller::new();
    p.register(7, 1000, Interests::writable(), 42).unwrap();
    p.on_submit_result(7, STATUS_PENDING).unwrap();
    let act = p.deregister(7).unwrap();
    assert_eq!(act, Some(Action::Cancel { base_handle: 1000 }));
    // The cancellation's own completion is dequeued by the next wait; it
    // yields no event for the token and removes the entry.
    let (events, actions) =
        p.process_completions(&vec![completion(7, STATUS_CANCELLED, 0, 0)]);
    assert!(events.is_empty());
    assert!(actions.is_empty());
    assert_eq!(p.num_registered(), 0);
    // A later wait has nothing left to attribute to the token.
    let (events, _) = p.process_completions(&vec![completion(7, STATUS_SUCCESS, 1, POLL_SEND)]);
    assert!(events.is_empty());
}

#[test]
fn writable_transition_yields_one_event_and_rearms() {
    let mut p = Poller::new();
    p.register(7, 1000, Interests::writable(), 42).unwrap();
    p.on_submit_result(7, STATUS_PENDING).unwrap();
    let (events, actions) =
        p.process_completions(&vec![completion(7, STATUS_SUCCESS, 1, POLL_SEND)]);
    assert_eq!(
        events,
        vec![Event { token: 42, readable: false, writable: true, error: false }]
    );
    // One-shot semantics: the request was resubmitted with the same mask.
    assert_eq!(
        actions,
        vec![Action::Submit { base_handle: 1000, event_mask: POLL_SEND, exclusive: true }]
    );
    p.on_submit_result(7, STATUS_PENDING).unwrap();
    // Still armed: a later writable transition is detected again.
    let (events, _) = p.process_completions(&vec![completion(7, STATUS_SUCCESS, 1, POLL_SEND)]);
    assert_eq!(events.len(), 1);
    assert!(events[0].writable);
}

#[test]
fn reregister_cancels_and_rearms_with_the_new_interests() {
    let mut p = Poller::new();
    p.register(7, 1000, Interests::readable(), 42).unwrap();
    p.on_submit_result(7, STATUS_PENDING).unwrap();
    let act = p.reregister(7, Interests::writable()).unwrap();
    assert_eq!(act, Some(Action::Cancel { base_handle: 1000 }));
    // The cancellation completed without carrying a transition: the fresh
    // submission watches the new interests, so nothing is dropped.
    let (events, actions) =
        p.process_completions(&vec![completion(7, STATUS_CANCELLED, 0, 0)]);
    assert!(events.is_empty());
    assert_eq!(
        actions,
        vec![Action::Submit { base_handle: 1000, event_mask: POLL_SEND, exclusive: true }]
    );
    p.on_submit_result(7, STATUS_PENDING).unwrap();
    let (events, _) = p.process_completions(&vec![completion(7, STATUS_SUCCESS, 1, POLL_SEND)]);
    assert_eq!(
        events,
        vec![Event { token: 42, readable: false, writable: true, error: false }]
    );
}

#[test]
fn reregister_does_not_drop_a_transition_carried_by_the_old_poll() {
    let mut p = Poller::new();
    p.register(7, 1000, Interests::readable(), 42).unwrap();
    p.on_submit_result(7, STATUS_PENDING).unwrap();
    p.reregister(7, Interests::writable()).unwrap();
    // The in-flight poll completed with the transition instead of the
    // cancellation: the event is still delivered, and the rearm already
    // watches the new interests.
    let (events, actions) =
        p.process_completions(&vec![completion(7, STATUS_SUCCESS, 1, POLL_RECEIVE)]);
    assert_eq!(
        events,
        vec![Event { token: 42, readable: true, writable: false, error: false }]
    );
    assert_eq!(
        actions,
        vec![Action::Submit { base_handle: 1000, event_mask: POLL_SEND, exclusive: true }]
    );
}

#[test]
fn wait_with_nothing_ready_returns_an_empty_sequence() {
    let mut p = Poller::new();
    p.register(7, 1000, Interests::writable(), 42).unwrap();
    p.on_submit_result(7, STATUS_PENDING).unwrap();
    let (events, actions) = p.process_completions(&vec![]);
    assert!(events.is_empty());
    assert!(actions.is_empty());
    assert_eq!(p.num_registered(), 1);
}

#[test]
fn deregister_while_submitted_suppresses_the_cancellation_event() {
    let mut p = Poller::new();
    p.register(7, 1000, Interests::writable(), 42).unwrap();
    p.on_submit_result(7, STATUS_PENDING).unwrap();
    p.register(8, 2000, Interests::writable(), 43).unwrap();
    p.on_submit_result(8, STATUS_PENDING).unwrap();
    let act = p.deregister(7).unwrap();
    assert_eq!(act, Some(Action::Cancel { base_handle: 1000 }));
    // The wait dequeues the cancellation completion for 7 and a real
    // transition for 8: only 8's token is woken.
    let (events, _) = p.process_completions(&vec![
        completion(7, STATUS_CANCELLED, 0, 0),
        completion(8, STATUS_SUCCESS, 1, POLL_SEND),
    ]);
    assert_eq!(events.len(), 1);
    assert_eq!(events[0].token, 43);
    assert!(!p.is_registered(7));
    assert!(p.is_registered(8));
}

#[test]
fn a_failing_completion_wakes_the_owner_with_an_error() {
    let mut p = Poller::new();
    p.register(7, 1000, Interests::writable(), 42).unwrap();
    p.on_submit_result(7, STATUS_PENDING).unwrap();
    let (events, actions) = p.process_completions(&vec![completion(7, -1073741790, 0, 0)]);
    assert_eq!(
        events,
        vec![Event { token: 42, readable: false, writable: false, error: true }]
    );
    // An errored request is not blindly retried.
    assert!(actions.is_empty());
    // Nothing is outstanding for it, so deregistration removes it at once.
    assert_eq!(p.deregister(7), Ok(None));
    assert_eq!(p.num_registered(), 0);
}

#[test]
fn zero_handle_completions_rearm_without_an_event() {
    let mut p = Poller::new();
    p.register(7, 1000, Interests::readable(), 42).unwrap();
    p.on_submit_result(7, STATUS_PENDING).unwrap();
    let (events, actions) = p.process_completions(&vec![completion(7, STATUS_SUCCESS, 0, 0)]);
    assert!(events.is_empty());
    assert_eq!(actions.len(), 1);
}

#[test]
fn reregister_and_deregister_need_a_live_registration() {
    let mut p = Poller::new();
    assert_eq!(
        p.reregister(9, Interests::readable()),
        Err(RegistrationError::NotRegistered)
    );
    assert_eq!(p.deregister(9), Err(RegistrationError::NotRegistered));
    assert_eq!(p.on_submit_result(9, STATUS_SUCCESS), Err(RegistrationError::NotRegistered));
    // A deregistered-pending entry is no longer a live registration.
    p.register(7, 1000, Interests::writable(), 42).unwrap();
    p.on_submit_result(7, STATUS_PENDING).unwrap();
    p.deregister(7).unwrap();
    assert_eq!(
        p.reregister(7, Interests::readable()),
        Err(RegistrationError::NotRegistered)
    );
    assert_eq!(p.deregister(7), Err(RegistrationError::NotRegistered));
}

#[test]
fn teardown_waits_for_the_table_to_drain() {
    let mut p = Poller::new();
    assert!(p.may_teardown());
    p.register(7, 1000, Interests::writable(), 42).unwrap();
    p.on_submit_result(7, STATUS_PENDING).unwrap();
    assert!(!p.may_teardown());
    p.deregister(7).unwrap();
    // The cancellation is still outstanding: closing now would be unsound.
    assert!(!p.may_teardown());
    p.process_completions(&vec![completion(7, STATUS_CANCELLED, 0, 0)]);
    assert!(p.may_teardown());
}

#[test]
fn a_closed_peer_is_reported_as_readable() {
    let mut p = Poller::new();
    p.register(7, 1000, Interests::readable(), 42).unwrap();
    p.on_submit_result(7, STATUS_PENDING).unwrap();
    let (events, _) = p.process_completions(&vec![completion(
        7,
        STATUS_SUCCESS,
        1,
        afd_poller::afd::POLL_DISCONNECT,
    )]);
    assert_eq!(events.len(), 1);
    assert!(events[0].readable);
    assert!(!events[0].error);
}
