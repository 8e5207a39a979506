//! The receiving side: what a frame reader offers, and the steps by which a
//! frame is taken off a stream.

use crate::codec::decode_header;
use crate::codec::header_value;
use crate::codec::MAX_FRAME_LEN;
use vstd::prelude::*;

verus! {

/// The read half of a connection: whole frames come in, one call each.
pub trait FrameReader: Iterator {
    /// Takes one frame off the stream: the length field, then as many payload
    /// bytes as it announces. Either the whole payload is returned or the
    /// stream's error; never a part of a frame.
    fn read_frame(&mut self) -> (r: Result<Vec<u8>, std::io::Error>)
        ensures
            r matches Ok(frame) ==> frame@.len() <= MAX_FRAME_LEN,
    ;
}

/// Where the reading of one frame stands: the buffer that the stream is to
/// fill next, or how the read has ended.
#[derive(Debug)]
pub enum ReadStep {
    /// Fill these four bytes, the length field, from the stream.
    Header([u8; 4]),
    /// The length field has arrived. Fill this buffer, which has the length
    /// that the field announced, from the stream: it becomes the frame.
    Payload(Vec<u8>),
    /// Nothing is left to do. This is the result of the read.
    Done(Result<Vec<u8>, std::io::Error>),
}

impl ReadStep {
    /// Whether `next` follows this step when the stream reports `outcome` for
    /// the buffer that this step had it fill. A failure ends the read with
    /// the stream's error, whatever was read before. A length field that has
    /// arrived is followed by a buffer of zeros, as long as the field says.
    /// A payload that has arrived is the frame. A finished read stays as it
    /// is.
    pub open spec fn leads_to(self, outcome: Result<(), std::io::Error>, next: ReadStep) -> bool {
        match (self, outcome) {
            (ReadStep::Done(result), _) => next == ReadStep::Done(result),
            (_, Err(err)) => next == ReadStep::Done(Err(err)),
            (ReadStep::Header(header), Ok(_)) => next matches ReadStep::Payload(payload)
                && payload@ == Seq::new(header_value(header@), |i: int| 0u8),
            (ReadStep::Payload(payload), Ok(_)) => next == ReadStep::Done(Ok(payload)),
        }
    }

    /// The first step of reading a frame: the length field comes first.
    pub fn begin() -> (step: ReadStep)
        ensures
            step == ReadStep::Header([0u8, 0, 0, 0]),
    {
        ReadStep::Header([0u8, 0, 0, 0])
    }

    /// Takes the stream's answer to this step and gives the step that
    /// follows.
    pub fn after(self, outcome: Result<(), std::io::Error>) -> (step: ReadStep)
        ensures
            self.leads_to(outcome, step),
    {
        match self {
            ReadStep::Done(result) => ReadStep::Done(result),
            ReadStep::Header(header) => match outcome {
                Ok(_) => {
                    let len = decode_header(&header) as usize;
                    let payload = vec![0u8; len];
                    assert(payload@ =~= Seq::new(header_value(header@), |i: int| 0u8));
                    ReadStep::Payload(payload)
                },
                Err(err) => ReadStep::Done(Err(err)),
            },
            ReadStep::Payload(payload) => match outcome {
                Ok(_) => ReadStep::Done(Ok(payload)),
                Err(err) => ReadStep::Done(Err(err)),
            },
        }
    }
}

} // verus!
