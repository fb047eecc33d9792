//! Errors of the frame decoders.

use vstd::prelude::*;

verus! {

/// Why a frame could not be decoded.
#[derive(Clone, Copy, Debug, PartialEq, Eq, Structural)]
pub enum DecodeError {
    /// The input ended before the frame was complete.
    UnexpectedEof,
    /// A field held a value that no frame may hold.
    InvalidData,
}

} // verus!
