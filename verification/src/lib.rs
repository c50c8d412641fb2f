//! Lifecycle of an asynchronous request: the states it moves through, the
//! operations that move it, and cancellation.

pub mod abort;
pub mod error;
pub mod lifecycle;
pub mod model;
pub mod notifier;
pub mod ready_state;
pub mod request;
pub mod response;
pub mod transport;
