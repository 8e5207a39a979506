//! Frames, and accepted connections, as a sequence that ends with the first
//! failure.

use vstd::prelude::*;

verus! {

/// What a sequence of incoming frames, or of accepted connections, yields for
/// the outcome of one read or one accept: the value that arrived, or the end
/// of the sequence where the transport failed. The error itself is dropped;
/// who needs it calls the read or the accept directly.
pub fn next_item<T>(outcome: Result<T, std::io::Error>) -> (item: Option<T>)
    ensures
        item == match outcome {
            Ok(value) => Some(value),
            Err(_) => None,
        },
{
    match outcome {
        Ok(value) => Some(value),
        Err(_) => None,
    }
}

} // verus!
