//! A request/response gateway: synchronous client calls are forwarded to one
//! member of a pool of connected workers, and each worker reply is reunited
//! with the call that is waiting for it.
//!
//! The library holds the decisions of the gateway: which worker is picked,
//! which requests are pending, how one client call proceeds and how a worker
//! connection lives and dies. Waiting, sockets and timers stay with the caller,
//! which performs the actions that the library hands out and reports back what
//! happened.

pub mod api;
pub mod camera;
pub mod correlation;
pub mod messages;
pub mod pool;
pub mod web_socket_actor;
