//! Picture buffers and compressed packets, as far as the decode logic reads
//! them: pixel layout and timing. The pixel data itself stays with the
//! backend that produced the buffer.

use vstd::prelude::*;

verus! {

/// A pixel format.
#[derive(Clone, Copy, Debug, PartialEq, Eq, Structural)]
pub enum PixelFormat {
    /// No usable pixel format: what an empty frame carries, and what a
    /// codec without valid parameters reports.
    Unknown,
    /// Packed 8-bit RGB: the fixed output format of the pipeline.
    Rgb24,
    /// Any other format, as the backend's format code.
    Other(u32),
}

/// The pixel format every decoded frame is converted to.
pub const FRAME_PIXEL_FORMAT: PixelFormat = PixelFormat::Rgb24;

/// A decoded picture buffer: its pixel layout and its timing metadata.
#[derive(Clone, Copy, Debug, PartialEq, Eq)]
pub struct RawFrame {
    pub format: PixelFormat,
    pub width: u32,
    pub height: u32,
    /// Presentation timestamp, in the producing decoder's time base.
    pub pts: Option<i64>,
    /// Decode timestamp of the packet that produced the frame, in the
    /// producing decoder's time base.
    pub pkt_dts: Option<i64>,
}

impl RawFrame {
    /// An empty frame: no pixel layout and no timing metadata, as a frame
    /// starts out before a decode or scale call fills it.
    pub fn empty() -> (r: RawFrame)
        ensures
            r == (RawFrame {
                format: PixelFormat::Unknown,
                width: 0,
                height: 0,
                pts: None,
                pkt_dts: None,
            }),
    {
        RawFrame { format: PixelFormat::Unknown, width: 0, height: 0, pts: None, pkt_dts: None }
    }
}

/// A compressed access unit read from one stream, as far as the decode
/// logic reads it: its timestamps, expressed in some time base.
#[derive(Clone, Copy, Debug, PartialEq, Eq)]
pub struct Packet {
    /// Presentation timestamp.
    pub pts: Option<i64>,
    /// Decode timestamp.
    pub dts: Option<i64>,
}

/// Copies the timing properties of `src` onto `dst`, leaving the pixel
/// layout of `dst` as it is. The scaling stage does not preserve these
/// properties itself, so this copy is what keeps timestamps on scaled
/// frames; in particular, a timestamp that is set on `src` is set on `dst`
/// afterwards.
pub fn copy_frame_props(src: &RawFrame, dst: &mut RawFrame)
    ensures
        final(dst).format == old(dst).format,
        final(dst).width == old(dst).width,
        final(dst).height == old(dst).height,
        final(dst).pts == src.pts,
        final(dst).pkt_dts == src.pkt_dts,
        src.pkt_dts is Some ==> final(dst).pkt_dts is Some,
{
    dst.pts = src.pts;
    dst.pkt_dts = src.pkt_dts;
}

} // verus!
