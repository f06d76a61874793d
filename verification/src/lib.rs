//! Decoding of a compressed video elementary stream into uniformly formatted
//! raw picture buffers.
//!
//! The crate holds the decode-and-scale pipeline: resolving target
//! dimensions from a resize strategy, validating codec parameters, rebasing
//! packet timestamps between time bases, the feed/pull retry protocol around
//! a stateful codec, scaling with frame-property propagation, and the
//! bounded drain that runs at teardown. The blocking backend calls
//! (demuxing, the codec itself, pixel conversion) stay with the caller, who
//! reports each outcome to the protocol as an event.

pub mod decode;
pub mod drain;
pub mod error;
pub mod frame;
pub mod resize;
pub mod scale;
pub mod time;
