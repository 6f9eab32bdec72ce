//! The polling device's event bits and status codes, the kernel event
//! mask a set of interests maps to, and the decoding of submission and
//! completion results.

use crate::interests::Interests;
use vstd::prelude::*;

verus! {

/// The device signalled incoming data.
pub const POLL_RECEIVE: u32 = 0x0001;

/// The device signalled incoming out-of-band data.
pub const POLL_RECEIVE_EXPEDITED: u32 = 0x0002;

/// The device signalled that sending is possible.
pub const POLL_SEND: u32 = 0x0004;

/// The device signalled a graceful remote close.
pub const POLL_DISCONNECT: u32 = 0x0008;

/// The device signalled an aborted connection.
pub const POLL_ABORT: u32 = 0x0010;

/// The device signalled that the socket was closed locally.
pub const POLL_LOCAL_CLOSE: u32 = 0x0020;

/// The device signalled an incoming connection to accept.
pub const POLL_ACCEPT: u32 = 0x0080;

/// The device signalled a failed connection attempt.
pub const POLL_CONNECT_FAIL: u32 = 0x0100;

/// Control code of the poll operation on the device.
pub const IOCTL_AFD_POLL: u32 = 0x00012024;

/// Status code: the operation finished successfully.
pub const STATUS_SUCCESS: i32 = 0;

/// Status code: the operation was queued and will be delivered through the
/// completion port.
pub const STATUS_PENDING: i32 = 0x103;

/// Status code: the operation was cancelled; benign, produces no
/// caller-visible event.
pub const STATUS_CANCELLED: i32 = -1073741536;

/// The sentinel the base-handle query returns when resolution fails.
pub const INVALID_SOCKET: usize = usize::MAX;

/// The kernel event mask a set of interests maps to: readable
/// interest watches receive, accept and disconnect events; writable
/// interest watches send events. The polling device defines no bits for
/// AIO or LIO completion, so those flags add nothing to the mask.
pub open spec fn spec_event_mask(i: Interests) -> u32 {
    (if i.spec_readable() {
        POLL_RECEIVE | POLL_ACCEPT | POLL_DISCONNECT
    } else {
        0u32
    }) | (if i.spec_writable() {
        POLL_SEND
    } else {
        0u32
    })
}

/// Builds the kernel event mask submitted to the device for a set of
/// interests.
pub fn event_mask(i: Interests) -> (r: u32)
    ensures
        r == spec_event_mask(i),
{
    let readable_part: u32 = if i.is_readable() {
        POLL_RECEIVE | POLL_ACCEPT | POLL_DISCONNECT
    } else {
        0
    };
    let writable_part: u32 = if i.is_writable() {
        POLL_SEND
    } else {
        0
    };
    readable_part | writable_part
}

/// Readiness kinds decoded from one handle's reported event bits.
#[derive(Clone, Copy, PartialEq, Eq, Structural, Debug)]
pub struct Readiness {
    /// Data, out-of-band data, or a connection to accept is available.
    pub readable: bool,
    /// Sending is possible.
    pub writable: bool,
    /// The connection aborted or a connection attempt failed.
    pub error: bool,
    /// The peer disconnected or the socket was closed locally.
    pub closed: bool,
}

/// The readiness the reported event bits map to.
pub open spec fn spec_decode_events(events: u32) -> Readiness {
    Readiness {
        readable: events & (POLL_RECEIVE | POLL_RECEIVE_EXPEDITED | POLL_ACCEPT) != 0,
        writable: events & POLL_SEND != 0,
        error: events & (POLL_ABORT | POLL_CONNECT_FAIL) != 0,
        closed: events & (POLL_DISCONNECT | POLL_LOCAL_CLOSE) != 0,
    }
}

/// Decodes the event bits the device reported for one handle.
pub fn decode_events(events: u32) -> (r: Readiness)
    ensures
        r == spec_decode_events(events),
{
    Readiness {
        readable: events & (POLL_RECEIVE | POLL_RECEIVE_EXPEDITED | POLL_ACCEPT) != 0,
        writable: events & POLL_SEND != 0,
        error: events & (POLL_ABORT | POLL_CONNECT_FAIL) != 0,
        closed: events & (POLL_DISCONNECT | POLL_LOCAL_CLOSE) != 0,
    }
}

/// What one dequeued completion means for the registration that owns it.
#[derive(Clone, Copy, PartialEq, Eq, Structural, Debug)]
pub enum CompletionOutcome {
    /// No caller-visible event: the operation reported no transitions, or
    /// it was a benign cancellation.
    NoEvent,
    /// At least one transition occurred; carries the decoded readiness.
    Ready(Readiness),
    /// A non-benign failing status: the owner is woken with an error
    /// indicator rather than silently dropped.
    Failed,
}

/// The meaning of a dequeued completion: success with a non-zero handle
/// count reports at least one transition; success with zero handles, or a
/// benign cancellation, is a no-op; any other status is an error for the
/// owning registration.
pub open spec fn spec_decode_completion(status: i32, handle_count: u32, events: u32)
    -> CompletionOutcome {
    if status == STATUS_SUCCESS {
        if handle_count == 0 {
            CompletionOutcome::NoEvent
        } else {
            CompletionOutcome::Ready(spec_decode_events(events))
        }
    } else if status == STATUS_CANCELLED {
        CompletionOutcome::NoEvent
    } else {
        CompletionOutcome::Failed
    }
}

/// Decodes one dequeued completion: its status block value, the number of
/// handles the device reported, and the event bits of the polled handle.
pub fn decode_completion(status: i32, handle_count: u32, events: u32) -> (r: CompletionOutcome)
    ensures
        r == spec_decode_completion(status, handle_count, events),
{
    if status == STATUS_SUCCESS {
        if handle_count == 0 {
            CompletionOutcome::NoEvent
        } else {
            CompletionOutcome::Ready(decode_events(events))
        }
    } else if status == STATUS_CANCELLED {
        CompletionOutcome::NoEvent
    } else {
        CompletionOutcome::Failed
    }
}

/// What the submission call's return status means.
#[derive(Clone, Copy, PartialEq, Eq, Structural, Debug)]
pub enum SubmitOutcome {
    /// Immediate success: data was already ready. The completion is still
    /// delivered uniformly through the port, not special-cased.
    Ready,
    /// The operation was queued and awaits completion-port delivery.
    Pending,
    /// A hard error; carries the status. Surfaced to the registration and
    /// never retried, since a malformed handle fails identically on retry.
    Failed(i32),
}

/// The classification of a submission status: success and pending both
/// leave the operation to the port; anything else is a hard error.
pub open spec fn spec_classify_submit(status: i32) -> SubmitOutcome {
    if status == STATUS_SUCCESS {
        SubmitOutcome::Ready
    } else if status == STATUS_PENDING {
        SubmitOutcome::Pending
    } else {
        SubmitOutcome::Failed(status)
    }
}

/// Classifies the status the submission call returned.
pub fn classify_submit(status: i32) -> (r: SubmitOutcome)
    ensures
        r == spec_classify_submit(status),
{
    if status == STATUS_SUCCESS {
        SubmitOutcome::Ready
    } else if status == STATUS_PENDING {
        SubmitOutcome::Pending
    } else {
        SubmitOutcome::Failed(status)
    }
}

/// A failure at poller construction: the device could not be opened or the
/// completion port could not be created. Fatal, with no retry and no
/// degraded mode.
#[derive(Clone, Copy, PartialEq, Eq, Structural, Debug)]
pub enum InitializationError {
    /// The polling device did not open; carries the status of the open.
    DeviceOpenFailed(i32),
}

/// Judges the status of the device open: anything but success is a fatal
/// initialization error.
pub fn device_open_outcome(status: i32) -> (r: Result<(), InitializationError>)
    ensures
        status == STATUS_SUCCESS <==> r is Ok,
        status != STATUS_SUCCESS ==> r == Result::<(), InitializationError>::Err(
            InitializationError::DeviceOpenFailed(status),
        ),
{
    if status == STATUS_SUCCESS {
        Ok(())
    } else {
        Err(InitializationError::DeviceOpenFailed(status))
    }
}

} // verus!
