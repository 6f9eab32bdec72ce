//! Readiness notification for sockets on top of a completion-based kernel
//! polling device.
//!
//! The library holds the verified core of the backend: the `Interests`
//! bitset, the mapping between interests and kernel poll event masks,
//! the decoding of completion results, the lifecycle of one asynchronous
//! poll request, and the poller's registration table. The kernel calls
//! themselves (device open, device control, base-handle query, completion
//! port operations) are performed by the surrounding program, which hands
//! their plain results to the functions here.

pub mod afd;
pub mod interests;
pub mod poller;
pub mod request;
