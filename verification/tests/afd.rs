use afd_poller::afd::{classify_submit, decode_completion, decode_events, device_open_outcome,
    event_mask, CompletionOutcome, InitializationError, Readiness, SubmitOutcome, IOCTL_AFD_POLL,
    POLL_ABORT, POLL_ACCEPT, POLL_CONNECT_FAIL, POLL_DISCONNECT, POLL_LOCAL_CLOSE, POLL_RECEIVE,
    POLL_SEND, STATUS_CANCELLED, STATUS_PENDING, STATUS_SUCCESS};
use afd_poller::interests::Interests;

#[test]
fn control_code_and_status_values_are_pinned() {
    assert_eq!(IOCTL_AFD_POLL, 0x0001_2024);
    assert_eq!(STATUS_SUCCESS, 0);
    assert_eq!(STATUS_PENDING, 0x103);
    assert_eq!(STATUS_CANCELLED, 0xC000_0120_u32 as i32);
}

#[test]
fn event_mask_for_readable_watches_receive_accept_disconnect() {
    let m = event_mask(Interests::readable());
    assert_eq!(m, POLL_RECEIVE | POLL_ACCEPT | POLL_DISCONNECT);
    assert_eq!(m, 0x89);
}

#[test]
fn event_mask_for_writable_watches_send() {
    let m = event_mask(Interests::writable());
    assert_eq!(m, POLL_SEND);
    assert_eq!(m, 0x04);
}

#[test]
fn event_mask_for_both_is_the_union() {
    let m = event_mask(Interests::readable() | Interests::writable());
    assert_eq!(m, 0x8D);
}

#[test]
fn event_mask_ignores_aio_and_lio() {
    assert_eq!(event_mask(Interests::aio()), 0);
    assert_eq!(event_mask(Interests::lio()), 0);
    assert_eq!(event_mask(Interests::writable() | Interests::aio()), POLL_SEND);
}

#[test]
fn decode_events_maps_each_bit_group() {
    let r = decode_events(POLL_RECEIVE);
    assert_eq!(
        r,
        Readiness { readable: true, writable: false, error: false, closed: false }
    );
    let w = decode_events(POLL_SEND);
    assert_eq!(
        w,
        Readiness { readable: false, writable: true, error: false, closed: false }
    );
    let e = decode_events(POLL_ABORT | POLL_CONNECT_FAIL);
    assert!(e.error && !e.readable && !e.writable);
    let c = decode_events(POLL_DISCONNECT | POLL_LOCAL_CLOSE);
    assert!(c.closed && !c.error);
    let mixed = decode_events(POLL_RECEIVE | POLL_SEND);
    assert!(mixed.readable && mixed.writable);
}

#[test]
fn completion_success_with_handles_reports_readiness() {
    let out = decode_completion(STATUS_SUCCESS, 1, POLL_SEND);
    assert_eq!(
        out,
        CompletionOutcome::Ready(Readiness {
            readable: false,
            writable: true,
            error: false,
            closed: false,
        })
    );
}

#[test]
fn completion_success_with_zero_handles_is_a_noop() {
    assert_eq!(decode_completion(STATUS_SUCCESS, 0, POLL_SEND), CompletionOutcome::NoEvent);
}

#[test]
fn completion_cancelled_is_benign() {
    assert_eq!(decode_completion(STATUS_CANCELLED, 0, 0), CompletionOutcome::NoEvent);
    assert_eq!(decode_completion(STATUS_CANCELLED, 1, POLL_SEND), CompletionOutcome::NoEvent);
}

#[test]
fn completion_other_status_is_an_error() {
    assert_eq!(decode_completion(-1, 0, 0), CompletionOutcome::Failed);
    assert_eq!(decode_completion(STATUS_PENDING, 0, 0), CompletionOutcome::Failed);
}

#[test]
fn submit_status_classification() {
    assert_eq!(classify_submit(STATUS_SUCCESS), SubmitOutcome::Ready);
    assert_eq!(classify_submit(STATUS_PENDING), SubmitOutcome::Pending);
    assert_eq!(classify_submit(-1073741790), SubmitOutcome::Failed(-1073741790));
}

#[test]
fn device_open_is_fatal_on_failure() {
    assert_eq!(device_open_outcome(STATUS_SUCCESS), Ok(()));
    assert_eq!(
        device_open_outcome(-1073741772),
        Err(InitializationError::DeviceOpenFailed(-1073741772))
    );
}
