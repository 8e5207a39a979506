//! Simple Frame Protocol: discrete, length-delimited messages over an ordered
//! byte stream.
//!
//! Every frame travels as a four-byte big-endian length followed by exactly
//! that many payload bytes, and nothing else is ever put on the wire. This
//! crate holds the protocol itself and performs no input or output of its
//! own:
//!
//! - [`codec`] is the wire format: a payload and the bytes that carry it.
//! - [`writer`] and [`reader`] are the two halves of a connection. Each names
//!   what such a half offers, and gives the steps by which one frame is
//!   written or read. Whoever owns the stream carries out a step, reports how
//!   the stream answered, and is told the next step or the result.
//! - [`sequence`] is the view of incoming frames and of accepted connections
//!   as a sequence that ends with the first failure.
//! - [`error`] is the failure of a write.
//! - [`laws`] states what holds of all of this for every payload.

pub mod codec;
pub mod error;
pub mod laws;
pub mod reader;
pub mod sequence;
pub mod writer;

pub use crate::error::WriteErr;
pub use crate::reader::FrameReader;
pub use crate::reader::ReadStep;
pub use crate::writer::FrameWriter;
pub use crate::writer::WriteStep;
