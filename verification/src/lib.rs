//! Asynchronous named-pipe accept and connect state machines.
//!
//! A named-pipe server is a set of same-named pipe instances, each able to
//! serve exactly one client: "accepting" means completing a pending client
//! connection on the live instance and then replacing that instance with a
//! fresh one for the next client.  This crate verifies the protocol logic of
//! that model: the listener's accept-and-re-arm cycle, the one-shot client
//! connect future, the never-ending accept sequence, and the byte transport
//! of a connected pipe.  The OS calls themselves (instance creation, the
//! non-blocking connect, readiness registration with a reactor) are performed
//! by the surrounding runtime, which feeds their outcomes back as events.

pub mod channel;
pub mod error;
pub mod handle;
pub mod incoming;
pub mod listener;
pub mod readiness;
pub mod stream;

pub use incoming::Incoming;
pub use listener::NamedPipeListener;
pub use stream::ConnectFuture;
pub use stream::NamedPipeStream;
