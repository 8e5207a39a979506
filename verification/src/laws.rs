//! What holds of the wire format, for every payload and every stream of
//! frames.

use crate::codec::header_bytes;
use crate::codec::header_value;
use crate::codec::parse_frame;
use crate::codec::parse_stream;
use crate::codec::wire_frame;
use crate::codec::wire_stream;
use crate::codec::MAX_FRAME_LEN;
use crate::reader::ReadStep;
use crate::writer::WriteStep;
use vstd::prelude::*;

verus! {

/// A length field carries the length that was written into it: four bytes
/// whose value is `len`, for every length up to the largest that a frame can
/// have.
pub proof fn lemma_header_round_trip(len: nat)
    requires
        len <= MAX_FRAME_LEN,
    ensures
        header_bytes(len).len() == 4,
        header_value(header_bytes(len)) == len,
{
}

/// The base-256 digits of a number that is written with four such digits.
proof fn lemma_base_256_digits(d0: int, d1: int, d2: int, d3: int)
    requires
        0 <= d0 < 0x100,
        0 <= d1 < 0x100,
        0 <= d2 < 0x100,
        0 <= d3 < 0x100,
    ensures
        ({
            let n = d0 * 0x100_0000 + d1 * 0x1_0000 + d2 * 0x100 + d3;
            &&& 0 <= n <= 0xFFFF_FFFF
            &&& (n / 0x100_0000) % 0x100 == d0
            &&& (n / 0x1_0000) % 0x100 == d1
            &&& (n / 0x100) % 0x100 == d2
            &&& n % 0x100 == d3
        }),
{
    let n = d0 * 0x100_0000 + d1 * 0x1_0000 + d2 * 0x100 + d3;
    assert(n / 0x100_0000 == d0);
    assert(n / 0x1_0000 == d0 * 0x100 + d1);
    assert(n / 0x100 == d0 * 0x1_0000 + d1 * 0x100 + d2);
}

/// Every four bytes are the length field of exactly one length, and that
/// length is one that a frame can have.
pub proof fn lemma_header_unique(header: Seq<u8>)
    requires
        header.len() == 4,
    ensures
        header_value(header) <= MAX_FRAME_LEN,
        header_bytes(header_value(header)) == header,
{
    lemma_base_256_digits(header[0] as int, header[1] as int, header[2] as int, header[3] as int);
    assert(header_bytes(header_value(header)) =~= header);
}

/// The layout of a frame on the wire: four bytes more than the payload, of
/// which the first four carry the payload's length and the others are the
/// payload itself.
pub proof fn lemma_wire_frame_layout(payload: Seq<u8>)
    requires
        payload.len() <= MAX_FRAME_LEN,
    ensures
        wire_frame(payload).len() == payload.len() + 4,
        wire_frame(payload).subrange(0, 4) == header_bytes(payload.len()),
        header_value(wire_frame(payload).subrange(0, 4)) == payload.len(),
        wire_frame(payload).subrange(4, 4 + payload.len() as int) == payload,
{
    lemma_header_round_trip(payload.len());
}

/// Decoding undoes encoding: a receiver that is handed an encoded payload
/// reads that payload and has nothing left; where other bytes follow the
/// encoded payload, it has those bytes left.
pub proof fn lemma_decode_encode(payload: Seq<u8>, rest: Seq<u8>)
    requires
        payload.len() <= MAX_FRAME_LEN,
    ensures
        parse_frame(wire_frame(payload)) == Some((payload, Seq::<u8>::empty())),
        parse_frame(wire_frame(payload) + rest) == Some((payload, rest)),
{
    lemma_wire_frame_layout(payload);
}

/// Framing is unambiguous: bytes from which a receiver reads a payload are
/// that payload encoded, followed by the bytes that the receiver has left.
pub proof fn lemma_encode_decode(wire: Seq<u8>)
    requires
        parse_frame(wire) is Some,
    ensures
        parse_frame(wire).unwrap().0.len() <= MAX_FRAME_LEN,
        wire == wire_frame(parse_frame(wire).unwrap().0) + parse_frame(wire).unwrap().1,
{
    lemma_header_unique(wire.subrange(0, 4));
}

/// A frame that was cut short is no frame: from an encoded payload of which
/// the last byte, or more, is missing, a receiver reads nothing, whether the
/// cut falls into the length field or into the payload.
pub proof fn lemma_cut_frame(payload: Seq<u8>, kept: int)
    requires
        payload.len() <= MAX_FRAME_LEN,
        0 <= kept < 4 + payload.len(),
    ensures
        parse_frame(wire_frame(payload).subrange(0, kept)) is None,
{
    lemma_wire_frame_layout(payload);
}

/// Frames arrive in the order in which they were sent: a receiver that reads
/// as many frames as were encoded one after another reads those frames, in
/// that order, and has left what followed them.
pub proof fn lemma_stream_round_trip(frames: Seq<Seq<u8>>, rest: Seq<u8>)
    requires
        forall|i: int| 0 <= i < frames.len() ==> (#[trigger] frames[i]).len() <= MAX_FRAME_LEN,
    ensures
        parse_stream(wire_stream(frames) + rest, frames.len()) == Some((frames, rest)),
    decreases frames.len(),
{
    if frames.len() > 0 {
        let first = frames.first();
        let others = frames.drop_first();
        let tail = wire_stream(others) + rest;
        assert(wire_stream(frames) + rest =~= wire_frame(first) + tail);
        lemma_decode_encode(first, tail);
        lemma_stream_round_trip(others, rest);
    }
}

/// A write that the stream does not fail hands it the encoded payload and
/// nothing else: the length field at the first step, the payload at the
/// second, and with that the write has succeeded.
pub proof fn lemma_write_steps(payload: Seq<u8>, header: [u8; 4])
    requires
        payload.len() <= MAX_FRAME_LEN,
        header@ == header_bytes(payload.len()),
    ensures
        ({
            let first = WriteStep::Header(header);
            let second = first.next(Ok(()));
            &&& first.output(payload) + second.output(payload) == wire_frame(payload)
            &&& second.next(Ok(())) == WriteStep::Done(Ok(()))
        }),
{
}

/// A read that the stream does not fail takes one frame off it: where the
/// stream holds `wire`, the step that follows the length field asks for as
/// many bytes as the first frame's payload has, and the payload that the
/// stream then delivers into that step's buffer is the result.
pub proof fn lemma_read_steps(
    wire: Seq<u8>,
    header: [u8; 4],
    second: ReadStep,
    delivered: Vec<u8>,
    last: ReadStep,
)
    requires
        parse_frame(wire) is Some,
        header@ == wire.subrange(0, 4),
        delivered@ == parse_frame(wire).unwrap().0,
        ReadStep::Header(header).leads_to(Ok(()), second),
        ReadStep::Payload(delivered).leads_to(Ok(()), last),
    ensures
        second matches ReadStep::Payload(buffer) && buffer@.len() == delivered@.len(),
        last == ReadStep::Done(Ok(delivered)),
{
    lemma_header_unique(header@);
}

/// A stream that fails while a frame is read ends the read with the stream's
/// own error, at the length field as well as inside the payload: no frame
/// comes out of a read that the stream did not carry to its end.
pub proof fn lemma_read_failure(step: ReadStep, err: std::io::Error, next: ReadStep)
    requires
        !(step is Done),
        step.leads_to(Err(err), next),
    ensures
        next == ReadStep::Done(Err(err)),
{
}

} // verus!
