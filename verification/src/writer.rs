//! The sending side: what a frame writer offers, and the steps by which a
//! frame is handed to a stream.

use crate::codec::encode_header;
use crate::codec::header_bytes;
use crate::codec::MAX_FRAME_LEN;
use crate::error::WriteErr;
use vstd::prelude::*;

verus! {

/// The write half of a connection: whole frames go out, one call each.
pub trait FrameWriter {
    /// Hands one frame to the stream: the length field, then the payload. A
    /// payload that the length field cannot announce is refused before
    /// anything is written, and no other payload is.
    fn write_frame(&mut self, frame: &mut [u8]) -> (r: Result<(), WriteErr>)
        ensures
            old(frame)@.len() > MAX_FRAME_LEN ==> r matches Err(WriteErr::TooLongFrame),
            old(frame)@.len() <= MAX_FRAME_LEN ==> !(r matches Err(WriteErr::TooLongFrame)),
    ;

    /// Forces what the stream has buffered out to the transport.
    fn flush(&mut self) -> Result<(), std::io::Error>;
}

/// Where the writing of one frame stands: what is to be handed to the stream
/// next, or how the write has ended.
#[derive(Debug)]
pub enum WriteStep {
    /// Hand these four bytes, the length field, to the stream.
    Header([u8; 4]),
    /// The stream has the length field: hand it the payload.
    Payload,
    /// Nothing is left to do. This is the result of the write.
    Done(Result<(), WriteErr>),
}

impl WriteStep {
    /// The bytes that this step hands to the stream while a frame with the
    /// payload `payload` is written.
    pub open spec fn output(self, payload: Seq<u8>) -> Seq<u8> {
        match self {
            WriteStep::Header(header) => header@,
            WriteStep::Payload => payload,
            WriteStep::Done(_) => Seq::empty(),
        }
    }

    /// The step that follows when the stream reports `outcome` for what this
    /// step asked of it. A failure ends the write with the stream's error; a
    /// finished write stays as it is.
    pub open spec fn next(self, outcome: Result<(), std::io::Error>) -> WriteStep {
        match (self, outcome) {
            (WriteStep::Done(result), _) => WriteStep::Done(result),
            (_, Err(err)) => WriteStep::Done(Err(WriteErr::I0(err))),
            (WriteStep::Header(_), Ok(_)) => WriteStep::Payload,
            (WriteStep::Payload, Ok(_)) => WriteStep::Done(Ok(())),
        }
    }

    /// The first step of writing a payload of `len` bytes. A payload that is
    /// too long ends the write at once, before the stream is asked for
    /// anything.
    pub fn begin(len: usize) -> (step: WriteStep)
        ensures
            len > MAX_FRAME_LEN ==> step == WriteStep::Done(Err(WriteErr::TooLongFrame)),
            len <= MAX_FRAME_LEN ==> (step matches WriteStep::Header(header) && header@
                == header_bytes(len as nat)),
    {
        if len > MAX_FRAME_LEN {
            WriteStep::Done(Err(WriteErr::TooLongFrame))
        } else {
            WriteStep::Header(encode_header(len as u32))
        }
    }

    /// Takes the stream's answer to this step and gives the step that follows.
    pub fn after(self, outcome: Result<(), std::io::Error>) -> (step: WriteStep)
        ensures
            step == self.next(outcome),
    {
        match self {
            WriteStep::Done(result) => WriteStep::Done(result),
            WriteStep::Header(_) => match outcome {
                Ok(_) => WriteStep::Payload,
                Err(err) => WriteStep::Done(Err(WriteErr::I0(err))),
            },
            WriteStep::Payload => match outcome {
                Ok(_) => WriteStep::Done(Ok(())),
                Err(err) => WriteStep::Done(Err(WriteErr::I0(err))),
            },
        }
    }
}

} // verus!
