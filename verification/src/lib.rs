//! Message passing over interchangeable carriers.
//!
//! Every carrier follows one contract for sending, receiving and closing.
//! The modules hold the parts of that contract that do not depend on an
//! executor: the error model, the shared receive state with its registry of
//! parked receivers, the length-prefixed stream framing, the datagram and
//! frame-oriented carriers' decisions, and the decorators that number messages
//! and keep only the latest of them.

pub mod browser;
pub mod buffer;
pub mod channel;
pub mod common;
pub mod error;
pub mod io;
pub mod latest_only;
pub mod loopback;
pub mod numbered;
pub mod poll;
pub mod tcp;
pub mod transport;
pub mod udp;
pub mod waker;
pub mod websocket;
pub mod webworker;

pub use error::Error;
pub use poll::{Advance, Polled};
