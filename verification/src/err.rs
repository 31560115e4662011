use vstd::prelude::*;

verus! {

/// Error raised when a frame cannot be built from the given parts.
#[derive(Clone, Copy, Debug, PartialEq, Eq, Structural)]
pub enum ConstructionError {
    /// The numeric id does not fit the 29-bit extended address space.
    IDTooLarge,
    /// The payload is longer than the frame kind allows.
    TooMuchData,
}

/// Failure of the decode-error entry point.
#[derive(Clone, Copy, Debug, PartialEq, Eq, Structural)]
pub enum CanErrorDecodingFailure {
    /// The frame does not carry the error flag, so there is nothing to decode.
    NotAnError,
}

/// A well-formed bus-error notification, as handed to the transport layer's
/// error decoder.  Classifying the cause in detail is the decoder's concern;
/// this layer only guarantees that the word comes from a frame whose error
/// flag is set, masked to the valid error bits.
#[derive(Clone, Copy, Debug, PartialEq, Eq, Structural)]
pub struct CanError {
    /// The id word of the error frame, masked to the valid error bits.
    pub error_word: u32,
}

} // verus!
