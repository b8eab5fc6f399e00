//! The values the worker sends back to the host: image metadata, decoded
//! frames, and the descriptor that carries the pixels.

use vstd::prelude::*;

use crate::format::MemoryFormat;

verus! {

/// Pixel-buffer descriptor handed from the worker to the host.  Ownership of
/// the file descriptor moves with the value: whoever holds the `Texture`
/// holds the descriptor.
#[derive(Debug)]
pub enum Texture {
    /// A sealable anonymous memory object, by its file descriptor.  Its
    /// first `stride * height` bytes hold the pixels of the frame it came
    /// with, rows top to bottom.
    MemFd(i32),
}

/// Image metadata, the reply to `init`.  Physical dimensions are of no
/// concern to the protocol core and live with the embedding application's
/// wire type.
#[derive(Debug)]
pub struct ImageInfo {
    /// Image width in pixels.
    pub width: u32,
    /// Image height in pixels.
    pub height: u32,
    /// Free-form printable name of the format.
    pub format_name: String,
    /// Raw EXIF block, forwarded unchanged.
    pub exif: Option<Vec<u8>>,
    /// Raw XMP block, forwarded unchanged.
    pub xmp: Option<Vec<u8>>,
    /// When true, the pixels already reflect the EXIF orientation and the
    /// consumer must not reapply it.
    pub transformations_applied: bool,
    /// Optional display string for the dimensions.
    pub dimensions_text: Option<String>,
}

impl ImageInfo {
    pub fn new(width: u32, height: u32, format_name: String) -> (r: ImageInfo)
        ensures
            r.width == width,
            r.height == height,
            r.format_name == format_name,
            r.exif is None,
            r.xmp is None,
            !r.transformations_applied,
            r.dimensions_text is None,
    {
        ImageInfo {
            width,
            height,
            format_name,
            exif: None,
            xmp: None,
            transformations_applied: false,
            dimensions_text: None,
        }
    }
}

/// What the host asks of `decode_frame`.  Both fields default to absent;
/// clip coordinates are relative to the un-scaled image, and when both are
/// present the clip is applied first, then the scale.
#[derive(Debug, Clone, Copy)]
pub struct FrameRequest {
    /// Target size `(width, height)` to scale to.
    pub scale: Option<(u32, u32)>,
    /// Part of the image to decode: `(x, y, width, height)`.
    pub clip: Option<(u32, u32, u32, u32)>,
}

impl Default for FrameRequest {
    fn default() -> (r: FrameRequest)
        ensures
            r.scale is None,
            r.clip is None,
    {
        FrameRequest { scale: None, clip: None }
    }
}

/// One decoded picture.
#[derive(Debug)]
pub struct Frame {
    /// Frame width in pixels.
    pub width: u32,
    /// Frame height in pixels.
    pub height: u32,
    /// Bytes per pixel row; the law of this field is [`Frame::wf`].
    pub stride: u32,
    /// Layout of one pixel.
    pub memory_format: MemoryFormat,
    /// Where the pixels are.
    pub texture: Texture,
    /// Raw ICC profile, forwarded unchanged.
    pub iccp: Option<Vec<u8>>,
    /// Raw CICP bytes, forwarded unchanged.
    pub cicp: Option<Vec<u8>>,
    /// How long an animation shows this frame, in microseconds.
    pub delay: Option<u64>,
}

impl Frame {
    /// The stride law: the row length in bytes is exactly the pixel size
    /// times the width.
    pub open spec fn wf(self) -> bool {
        self.stride == self.memory_format.bytes_per_pixel() * self.width
    }

    /// The least number of bytes the memory object behind the frame must
    /// hold: one stride per row.
    pub open spec fn min_texture_bytes(self) -> int {
        self.stride * self.height
    }

    pub fn new(width: u32, height: u32, memory_format: MemoryFormat, texture: Texture) -> (r:
        Frame)
        requires
            memory_format.bytes_per_pixel() * width <= u32::MAX,
        ensures
            r.width == width,
            r.height == height,
            r.memory_format == memory_format,
            r.texture == texture,
            r.stride == memory_format.bytes_per_pixel() * width,
            r.wf(),
            r.iccp is None,
            r.cicp is None,
            r.delay is None,
    {
        let stride = memory_format.n_bytes().u32() * width;
        Frame {
            width,
            height,
            stride,
            memory_format,
            texture,
            iccp: None,
            cicp: None,
            delay: None,
        }
    }

    /// Checks the stride law; the receiver of a frame must validate it
    /// before trusting the buffer layout.
    pub fn stride_ok(&self) -> (r: bool)
        ensures
            r == self.wf(),
    {
        let bytes_per_pixel = self.memory_format.n_bytes().u32();
        (bytes_per_pixel as u64) * (self.width as u64) == self.stride as u64
    }
}

} // verus!
