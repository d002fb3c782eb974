//! Session layer of a client for the Wörterbuch publish/subscribe key-value
//! protocol.
//!
//! A session starts with a one-time handshake and then runs two independent
//! message flows: commands going out to the server and events coming in from
//! it. This crate holds the decisions of that lifecycle as verified code. The
//! transport itself (connecting, reading and writing frames, awaiting) is left
//! to the caller, which feeds what it reads to the functions here and performs
//! what they answer.
//!
//! - [`endpoint`] writes the address at which the server is reached.
//! - [`transport`] says what one read from the transport can yield.
//! - [`codec`] turns commands into frames and frames into messages; the work
//!   is done by `worterbuch_common`.
//! - [`handshake`] judges the first frame.
//! - [`session`] wires up the command queue, the event bus and the handle
//!   that the application keeps; the two channels are those of `tokio`,
//!   reached through [`channels`].
//! - [`outbound`] and [`inbound`] are the two pumps, each a state machine
//!   with the laws that hold of every run of it.

pub mod channels;
pub mod codec;
pub mod endpoint;
pub mod handshake;
pub mod inbound;
pub mod outbound;
pub mod parameters;
pub mod session;
pub mod transport;

pub use handshake::HandshakeError;
pub use parameters::SessionParameters;
pub use session::{establish, Connection, QueueClosed, Session};
pub use transport::{Frame, FrameRead};
