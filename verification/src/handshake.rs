//! The handshake: the one exchange that opens a session.
//!
//! Right after the transport is established the server announces itself with
//! a handshake message. Exactly one frame is read for it. Whatever else that
//! read yields is fatal to the attempt: there is no retry on the same
//! transport.

use vstd::prelude::*;
use worterbuch_common::error::DecodeError;
use worterbuch_common::ServerMessage;

use crate::codec::{decode, decoding, holds_message, Decoded};
use crate::parameters::SessionParameters;
use crate::transport::FrameRead;

verus! {

/// Why no session came of a transport.
#[derive(Debug)]
pub enum HandshakeError<E> {
    /// The connection was closed before a handshake arrived.
    Aborted,
    /// The transport failed while the handshake was awaited.
    Transport(E),
    /// The first frame's bytes are no message of the protocol.
    Decode(DecodeError),
    /// The first frame holds a message, but no handshake. The message is kept
    /// for diagnostics.
    UnexpectedMessage(ServerMessage),
}

/// The first read from the transport, with the frame's payload decoded.
#[derive(Debug)]
pub enum FirstRead<E> {
    /// The stream ended before any frame came.
    Closed,
    /// The read failed.
    Failed(E),
    /// A frame came, and this is what its payload holds.
    Decoded(Decoded),
}

/// What the handshake comes to, for each thing the first read can yield.
pub open spec fn handshake_outcome<E>(first: FirstRead<E>) -> Result<
    SessionParameters,
    HandshakeError<E>,
> {
    match first {
        FirstRead::Closed => Err(HandshakeError::Aborted),
        FirstRead::Failed(error) => Err(HandshakeError::Transport(error)),
        FirstRead::Decoded(Decoded::Malformed(error)) => Err(HandshakeError::Decode(error)),
        FirstRead::Decoded(Decoded::EndOfSession) => Err(HandshakeError::Aborted),
        FirstRead::Decoded(Decoded::Event(message)) => Err(
            HandshakeError::UnexpectedMessage(message),
        ),
        FirstRead::Decoded(Decoded::Handshake { parameters, message }) => Ok(parameters),
    }
}

/// The first read as the handshake sees it: the payload of whatever frame
/// came is decoded, of whichever kind the frame is.
pub open spec fn first_read<E>(read: FrameRead<E>) -> FirstRead<E> {
    match read {
        FrameRead::Closed => FirstRead::Closed,
        FrameRead::Failed(error) => FirstRead::Failed(error),
        FrameRead::Frame(frame) => FirstRead::Decoded(decoding(frame.data@)),
    }
}

/// Whether the first read brought no message at all: the stream has ended,
/// or the frame that came does not hold a whole message.
pub open spec fn lacks_message<E>(read: FrameRead<E>) -> bool {
    match read {
        FrameRead::Closed => true,
        FrameRead::Failed(_) => false,
        FrameRead::Frame(frame) => !holds_message(frame.data@),
    }
}

/// Judges the first read once its payload is decoded.
///
/// A handshake is the only way to success, and it yields exactly the
/// parameters that the handshake announces.
pub fn conclude<E>(first: FirstRead<E>) -> (outcome: Result<SessionParameters, HandshakeError<E>>)
    ensures
        outcome == handshake_outcome(first),
        outcome is Ok <==> (first matches FirstRead::Decoded(Decoded::Handshake { .. })),
{
    match first {
        FirstRead::Closed => Err(HandshakeError::Aborted),
        FirstRead::Failed(error) => Err(HandshakeError::Transport(error)),
        FirstRead::Decoded(decoded) => match decoded {
            Decoded::Malformed(error) => Err(HandshakeError::Decode(error)),
            Decoded::EndOfSession => Err(HandshakeError::Aborted),
            Decoded::Event(message) => Err(HandshakeError::UnexpectedMessage(message)),
            Decoded::Handshake { parameters, message: _ } => Ok(parameters),
        },
    }
}

/// Negotiates the session from the first read off a fresh transport.
///
/// The attempt is aborted when the stream has ended, and as well when the
/// first frame does not hold a whole message.
pub fn negotiate<E>(read: FrameRead<E>) -> (outcome: Result<SessionParameters, HandshakeError<E>>)
    ensures
        outcome == handshake_outcome(first_read(read)),
        (outcome matches Err(HandshakeError::Aborted)) <==> lacks_message(read),
{
    let first = match read {
        FrameRead::Closed => FirstRead::Closed,
        FrameRead::Failed(error) => FirstRead::Failed(error),
        FrameRead::Frame(frame) => FirstRead::Decoded(decode(frame.data.as_slice())),
    };
    conclude(first)
}

} // verus!
