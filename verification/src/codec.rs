//! The wire format: a payload and the bytes that carry it.

use crate::error::WriteErr;
use vstd::prelude::*;
use vstd::slice::slice_subrange;
use vstd::slice::slice_to_vec;

verus! {

/// Number of bytes in the length field that precedes every payload.
pub const HEADER_LEN: usize = 4;

/// Largest payload length that the length field can carry.
pub const MAX_FRAME_LEN: usize = 0xFFFF_FFFF;

/// The four bytes that carry `len` in base 256, most significant first.
pub open spec fn header_bytes(len: nat) -> Seq<u8> {
    seq![
        ((len / 0x100_0000) % 0x100) as u8,
        ((len / 0x1_0000) % 0x100) as u8,
        ((len / 0x100) % 0x100) as u8,
        (len % 0x100) as u8,
    ]
}

/// The number that four bytes carry in base 256, most significant first.
pub open spec fn header_value(header: Seq<u8>) -> nat
    recommends
        header.len() == 4,
{
    (header[0] as nat) * 0x100_0000 + (header[1] as nat) * 0x1_0000 + (header[2] as nat) * 0x100
        + (header[3] as nat)
}

/// A frame as it travels: the length field, then the payload and nothing else.
pub open spec fn wire_frame(payload: Seq<u8>) -> Seq<u8> {
    header_bytes(payload.len()) + payload
}

/// What a receiver makes of the bytes `wire`: the payload of the frame that
/// they begin with, and the bytes that follow that frame. `None` where `wire`
/// ends inside the length field or inside the payload that the field announces.
pub open spec fn parse_frame(wire: Seq<u8>) -> Option<(Seq<u8>, Seq<u8>)> {
    if wire.len() < 4 {
        None
    } else {
        let end = 4 + header_value(wire.subrange(0, 4)) as int;
        if wire.len() < end {
            None
        } else {
            Some((wire.subrange(4, end), wire.subrange(end, wire.len() as int)))
        }
    }
}

/// Frames as they travel one after another over one stream, first frame first.
pub open spec fn wire_stream(frames: Seq<Seq<u8>>) -> Seq<u8>
    decreases frames.len(),
{
    if frames.len() == 0 {
        Seq::empty()
    } else {
        wire_frame(frames.first()) + wire_stream(frames.drop_first())
    }
}

/// What a receiver makes of the bytes `wire` when it reads `count` frames off
/// them in turn: the payloads in the order of their arrival, and the bytes
/// that follow the last of them. `None` where `wire` ends before the last
/// frame does.
pub open spec fn parse_stream(wire: Seq<u8>, count: nat) -> Option<(Seq<Seq<u8>>, Seq<u8>)>
    decreases count,
{
    if count == 0 {
        Some((Seq::empty(), wire))
    } else {
        match parse_frame(wire) {
            None => None,
            Some((payload, rest)) => match parse_stream(rest, (count - 1) as nat) {
                None => None,
                Some((frames, tail)) => Some((seq![payload] + frames, tail)),
            },
        }
    }
}

/// Writes a payload length as the length field of a frame.
pub fn encode_header(len: u32) -> (header: [u8; 4])
    ensures
        header@ == header_bytes(len as nat),
{
    [
        (len / 0x100_0000) as u8,
        ((len / 0x1_0000) % 0x100) as u8,
        ((len / 0x100) % 0x100) as u8,
        (len % 0x100) as u8,
    ]
}

/// Reads the payload length out of a length field. Every four bytes are a
/// valid length field.
pub fn decode_header(header: &[u8; 4]) -> (len: u32)
    ensures
        len as nat == header_value(header@),
{
    (header[0] as u32) * 0x100_0000 + (header[1] as u32) * 0x1_0000 + (header[2] as u32) * 0x100
        + (header[3] as u32)
}

/// Serialises a payload: the length field followed by the payload. A payload
/// that the length field cannot announce is refused.
pub fn encode(payload: &[u8]) -> (r: Result<Vec<u8>, WriteErr>)
    ensures
        match r {
            Ok(wire) => payload@.len() <= MAX_FRAME_LEN && wire@ == wire_frame(payload@),
            Err(err) => payload@.len() > MAX_FRAME_LEN && err is TooLongFrame,
        },
{
    let len = payload.len();
    if len > MAX_FRAME_LEN {
        return Err(WriteErr::TooLongFrame);
    }
    let header = encode_header(len as u32);
    let mut wire: Vec<u8> = Vec::new();
    wire.push(header[0]);
    wire.push(header[1]);
    wire.push(header[2]);
    wire.push(header[3]);
    wire.extend_from_slice(payload);
    Ok(wire)
}

/// Takes the first frame off `wire`: its payload, and how many bytes of `wire`
/// the frame took up. `None` where `wire` ends before the frame does.
pub fn decode(wire: &[u8]) -> (r: Option<(Vec<u8>, usize)>)
    ensures
        match parse_frame(wire@) {
            Some((payload, rest)) => r matches Some((frame, used)) && frame@ == payload && used
                == 4 + payload.len() && wire@.subrange(used as int, wire@.len() as int) == rest,
            None => r is None,
        },
{
    if wire.len() < HEADER_LEN {
        return None;
    }
    let header: [u8; 4] = [wire[0], wire[1], wire[2], wire[3]];
    let len = decode_header(&header) as usize;
    if wire.len() - HEADER_LEN < len {
        return None;
    }
    let used = HEADER_LEN + len;
    let frame = slice_to_vec(slice_subrange(wire, HEADER_LEN, used));
    Some((frame, used))
}

} // verus!
