//! A WebRTC signaling relay: the wire codec for signaling messages, the
//! registry that routes them between sessions, and the state machine of one
//! session.

pub mod error;
pub mod json;
pub mod signal;
pub mod signal_router;
pub mod signal_socket;

pub use error::Error;
pub use signal::Signal;
pub use signal_router::{ExitMessage, JoinMessage, SignalMessage, SignalRouter};
pub use signal_socket::SignalSocket;
