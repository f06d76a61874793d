//! The errors of the decoding pipeline.

use vstd::prelude::*;

verus! {

/// A failure reported by the codec or scaling backend.
#[derive(Clone, Copy, Debug, PartialEq, Eq, Structural)]
pub enum BackendError {
    /// A frame handed to a configured stage does not match the parameters
    /// the stage was configured with.
    InputChanged,
    /// Any other backend failure, as an errno-style code.
    Other(i64),
}

/// An error of a construction or decode call.
#[derive(Clone, Copy, Debug, PartialEq, Eq, Structural)]
pub enum Error {
    /// No suitable video stream exists in the input.
    StreamNotFound,
    /// The native pixel format or the dimensions reported by the codec are
    /// invalid, so no scaler could be configured from them.
    MissingCodecParameters,
    /// A failure originating from the codec or scaler stages.
    BackendError(BackendError),
    /// The reader has no more packets for the stream: end of stream.
    ReadExhausted,
    /// The reader failed to produce a packet, with an errno-style code.
    ReadError(i64),
}

} // verus!
