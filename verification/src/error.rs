//! Why a frame could not be written.

use vstd::prelude::*;

verus! {

/// `std::io::Error`, the error of a stream. Nothing is known of what one
/// holds: it is carried from the stream to the caller as it came.
#[verifier::external_type_specification]
#[verifier::external_body]
pub struct ExIoError(std::io::Error);

/// The failure of a frame write.
#[derive(Debug)]
pub enum WriteErr {
    /// The stream failed while it took the frame's bytes. The stream's own
    /// error is kept as it came.
    I0(std::io::Error),
    /// The payload is longer than the length field can say. Nothing was
    /// handed to the stream.
    TooLongFrame,
}

impl WriteErr {
    /// The text that this error prints as: the stream's own text for a stream
    /// failure, a fixed sentence for a payload that is too long.
    pub fn to_string(&self) -> (text: String)
        ensures
            self is TooLongFrame ==> text@ == "Frame is too long to send by SFP"@,
            self matches WriteErr::I0(err) ==> vstd::string::to_string_from_display_ensures::<
                std::io::Error,
            >(err, text),
    {
        match self {
            WriteErr::I0(err) => err.to_string(),
            WriteErr::TooLongFrame => "Frame is too long to send by SFP".to_owned(),
        }
    }
}

} // verus!
