//! The wire codec, as far as a session needs it.
//!
//! Encoding and decoding are done by `worterbuch_common`. Its messages pass
//! through this crate untouched; what the session reads of a decoded frame is
//! held in [`Decoded`].

use futures_util::FutureExt;
use vstd::prelude::*;
use worterbuch_common::error::DecodeError;
use worterbuch_common::nonblocking::read_server_message;
use worterbuch_common::{encode_message, ClientMessage, ServerMessage};

use crate::parameters::SessionParameters;

verus! {

/// A request of the client, as `worterbuch_common` defines it.
#[verifier::external_type_specification]
#[verifier::external_body]
pub struct ExClientMessage(worterbuch_common::ClientMessage);

/// A message of the server, as `worterbuch_common` defines it.
#[verifier::external_type_specification]
#[verifier::external_body]
pub struct ExServerMessage(worterbuch_common::ServerMessage);

/// Why bytes are no message of the protocol, as `worterbuch_common` reports it.
#[verifier::external_type_specification]
#[verifier::external_body]
pub struct ExDecodeError(worterbuch_common::error::DecodeError);

/// The bytes that `worterbuch_common::encode_message` makes of a command, or
/// `None` where it refuses the command.
pub uninterp spec fn command_encoding(command: ClientMessage) -> Option<Seq<u8>>;

/// What `worterbuch_common::nonblocking::read_server_message` reads from the
/// bytes of a frame that holds a whole message.
pub uninterp spec fn frame_decoding(data: Seq<u8>) -> Result<Option<ServerMessage>, DecodeError>;

/// The number of bytes that a frame announces to follow its first four: those
/// four read as one number, the most significant byte first.
pub open spec fn announced_length(data: Seq<u8>) -> nat
    recommends
        data.len() >= 4,
{
    data[0] as nat * 0x100_0000 + data[1] as nat * 0x1_0000 + data[2] as nat * 0x100
        + data[3] as nat
}

/// Whether a frame holds a whole message: the four bytes of its length, and
/// at least as many more as they announce.
pub open spec fn holds_message(data: Seq<u8>) -> bool {
    data.len() >= 4 && data.len() - 4 >= announced_length(data)
}

/// The parameters that a server message announces: those of a handshake, and
/// `None` for every other message.
pub uninterp spec fn announced_parameters(message: ServerMessage) -> Option<SessionParameters>;

/// Calls `worterbuch_common::encode_message` and drops the reason of a
/// refusal. The encoder is a function of the command alone, so its result has
/// a name, [`command_encoding`]; nothing else is claimed of it.
#[verifier::external_body]
pub(crate) fn encode_command(command: &ClientMessage) -> (encoded: Option<Vec<u8>>)
    ensures
        match encoded {
            Some(bytes) => command_encoding(*command) == Some(bytes@),
            None => command_encoding(*command).is_none(),
        },
{
    encode_message(command).ok()
}

/// Calls `worterbuch_common::nonblocking::read_server_message` on the bytes
/// of a frame that holds a whole message. Reading from a byte slice never
/// waits, so one poll completes the call; a poll that did not would come
/// back as an error of the kind `WouldBlock`. The decoder is a function of
/// the bytes alone, so its result has a name, [`frame_decoding`].
///
/// The decoder allocates as many bytes as the frame announces before it
/// reads them, and it returns `Ok(None)` where the frame runs out before
/// that. Both are kept out here: a frame that holds a whole message
/// announces no more than it has, and what the decoder makes of it is a
/// message or an error, never `Ok(None)`.
#[verifier::external_body]
pub(crate) fn read_frame(data: &[u8]) -> (decoded: Result<Option<ServerMessage>, DecodeError>)
    requires
        holds_message(data@),
    ensures
        decoded == frame_decoding(data@),
        !(decoded matches Ok(None)),
{
    match read_server_message(data).now_or_never() {
        Some(decoded) => decoded,
        None => Err(DecodeError::IoError(std::io::ErrorKind::WouldBlock.into())),
    }
}

/// Reads a `worterbuch_common::ServerMessage`: tells its `Handshake` variant
/// from the others and moves the handshake's `separator`, `wildcard` and
/// `multi_wildcard` out. Nothing is computed. The message is opaque to the
/// proofs, so what is read of it has a name, [`announced_parameters`].
#[verifier::external_body]
pub(crate) fn handshake_parameters(message: &ServerMessage) -> (announced: Option<
    SessionParameters,
>)
    ensures
        announced == announced_parameters(*message),
{
    match message {
        ServerMessage::Handshake(handshake) => Some(
            SessionParameters {
                separator: handshake.separator,
                wildcard: handshake.wildcard,
                multi_wildcard: handshake.multi_wildcard,
            },
        ),
        ServerMessage::PState(_) => None,
        ServerMessage::Ack(_) => None,
        ServerMessage::State(_) => None,
        ServerMessage::Err(_) => None,
    }
}

/// What the session reads of one frame's bytes.
#[derive(Debug)]
pub enum Decoded {
    /// A handshake: the parameters it announces, and the message itself.
    Handshake { parameters: SessionParameters, message: ServerMessage },
    /// Any other message of the server.
    Event(ServerMessage),
    /// The frame holds no message: the peer has ended the session.
    EndOfSession,
    /// The bytes are no message of the protocol.
    Malformed(DecodeError),
}

/// How the result of the decoder is read.
pub open spec fn classified(decoded: Result<Option<ServerMessage>, DecodeError>) -> Decoded {
    match decoded {
        Err(error) => Decoded::Malformed(error),
        Ok(None) => Decoded::EndOfSession,
        Ok(Some(message)) => match announced_parameters(message) {
            Some(parameters) => Decoded::Handshake { parameters, message },
            None => Decoded::Event(message),
        },
    }
}

/// What [`decode`] makes of a frame's bytes. A frame that does not hold a
/// whole message is the peer's end of the session; every other frame is
/// what the decoder makes of it.
pub open spec fn decoding(data: Seq<u8>) -> Decoded {
    if holds_message(data) {
        classified(frame_decoding(data))
    } else {
        Decoded::EndOfSession
    }
}

/// Whether a frame holds a whole message.
pub fn is_whole(data: &[u8]) -> (whole: bool)
    ensures
        whole == holds_message(data@),
{
    if data.len() < 4 {
        return false;
    }
    let high: u64 = (data[0] as u64) * 0x100_0000 + (data[1] as u64) * 0x1_0000;
    let low: u64 = (data[2] as u64) * 0x100 + (data[3] as u64);
    (data.len() - 4) as u64 >= high + low
}

/// Decodes the bytes of one frame.
///
/// A frame that does not hold a whole message is the end of the session, and
/// no other frame is. Only whole messages are handed to the decoder.
pub fn decode(data: &[u8]) -> (decoded: Decoded)
    ensures
        decoded == decoding(data@),
        decoded is EndOfSession <==> !holds_message(data@),
{
    if !is_whole(data) {
        return Decoded::EndOfSession;
    }
    match read_frame(data) {
        Err(error) => Decoded::Malformed(error),
        Ok(None) => Decoded::EndOfSession,
        Ok(Some(message)) => match handshake_parameters(&message) {
            Some(parameters) => Decoded::Handshake { parameters, message },
            None => Decoded::Event(message),
        },
    }
}

} // verus!
