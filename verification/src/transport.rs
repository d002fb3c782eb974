//! What the framed transport hands to the session.
//!
//! The transport is a duplex stream of discrete frames. Reading it yields a
//! frame, a failure of that one read, or the end of the stream. The session
//! keeps the transport's error type open: it only passes such errors on.

use vstd::prelude::*;

verus! {

/// One frame as it came off the transport.
#[derive(Debug)]
pub struct Frame {
    /// Whether the frame is a binary one. Only binary frames carry messages;
    /// every other kind is a control signal of the transport.
    pub binary: bool,
    /// The frame's payload.
    pub data: Vec<u8>,
}

/// The outcome of one read from the transport.
#[derive(Debug)]
pub enum FrameRead<E> {
    /// The stream has ended: no frame came, and none will.
    Closed,
    /// This read failed.
    Failed(E),
    /// A frame arrived.
    Frame(Frame),
}

impl Frame {
    /// A binary frame with the given payload.
    pub fn binary(data: Vec<u8>) -> (frame: Frame)
        ensures
            frame.binary,
            frame.data == data,
    {
        Frame { binary: true, data }
    }

    /// A frame of any other kind, with the payload it came with.
    pub fn control(data: Vec<u8>) -> (frame: Frame)
        ensures
            !frame.binary,
            frame.data == data,
    {
        Frame { binary: false, data }
    }
}

} // verus!
