//! The scaling stage: a pixel-format and size converter configured once,
//! from the native picture parameters of a stream to a fixed output layout.

use vstd::prelude::*;
use crate::error::{BackendError, Error};
use crate::frame::{PixelFormat, RawFrame};

verus! {

/// A configured scaler. It is configured exactly once, at construction of
/// the decoder that owns it, and never reconfigured.
#[derive(Clone, Copy, Debug, PartialEq, Eq, Structural)]
pub struct Scaler {
    pub src_format: PixelFormat,
    pub src_width: u32,
    pub src_height: u32,
    pub dst_format: PixelFormat,
    pub dst_width: u32,
    pub dst_height: u32,
}

impl Scaler {
    /// A frame the scaler accepts: one whose pixel layout is exactly the
    /// configured input layout.
    pub open spec fn accepts(self, frame: RawFrame) -> bool {
        &&& frame.format == self.src_format
        &&& frame.width == self.src_width
        &&& frame.height == self.src_height
    }

    /// The picture a scale run produces: the configured output layout, with
    /// no timing metadata, which a scale run does not preserve.
    pub open spec fn output_spec(self) -> RawFrame {
        RawFrame {
            format: self.dst_format,
            width: self.dst_width,
            height: self.dst_height,
            pts: None,
            pkt_dts: None,
        }
    }

    /// The one logical stage of scaling a decoded frame and copying its
    /// properties back: the configured output layout, carrying the input
    /// frame's timing metadata.
    pub open spec fn scaled_with_props_spec(self, frame: RawFrame) -> RawFrame {
        RawFrame {
            format: self.dst_format,
            width: self.dst_width,
            height: self.dst_height,
            pts: frame.pts,
            pkt_dts: frame.pkt_dts,
        }
    }

    /// Configures a scaler from an input pixel layout to an output pixel
    /// layout.
    pub fn get(
        src_format: PixelFormat,
        src_width: u32,
        src_height: u32,
        dst_format: PixelFormat,
        dst_width: u32,
        dst_height: u32,
    ) -> (r: Scaler)
        ensures
            r == (Scaler {
                src_format,
                src_width,
                src_height,
                dst_format,
                dst_width,
                dst_height,
            }),
    {
        Scaler { src_format, src_width, src_height, dst_format, dst_width, dst_height }
    }

    /// Converts `input` to the configured output layout, writing the result
    /// over `output`. A frame that does not match the configured input
    /// layout is rejected, and `output` is left as it was: the backend
    /// refuses a frame whose parameters changed mid-stream.
    pub fn run(&self, input: &RawFrame, output: &mut RawFrame) -> (r: Result<(), Error>)
        ensures
            self.accepts(*input) ==> r is Ok && *final(output) == self.output_spec(),
            !self.accepts(*input) ==> r == Err::<(), Error>(
                Error::BackendError(BackendError::InputChanged),
            ) && *final(output) == *old(output),
    {
        if input.format == self.src_format && input.width == self.src_width && input.height
            == self.src_height {
            *output = RawFrame {
                format: self.dst_format,
                width: self.dst_width,
                height: self.dst_height,
                pts: None,
                pkt_dts: None,
            };
            Ok(())
        } else {
            Err(Error::BackendError(BackendError::InputChanged))
        }
    }
}

} // verus!
