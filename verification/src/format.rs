//! The closed set of pixel memory layouts a frame can use, and the two
//! attributes derived from a layout: bytes per pixel and channel count.

use vstd::prelude::*;

verus! {

/// Pixel memory layout of a decoded frame.
#[derive(Debug, Clone, Copy, PartialEq, Eq, Structural)]
pub enum MemoryFormat {
    B8g8r8a8Premultiplied,
    A8r8g8b8Premultiplied,
    R8g8b8a8Premultiplied,
    B8g8r8a8,
    A8r8g8b8,
    R8g8b8a8,
    A8b8g8r8,
    R8g8b8,
    B8g8r8,
    R16g16b16,
    R16g16b16a16Premultiplied,
    R16g16b16a16,
    R16g16b16Float,
    R16g16b16a16Float,
    R32g32b32Float,
    R32g32b32a32FloatPremultiplied,
    R32g32b32a32Float,
    G8a8,
    G8,
    G16a16,
    G16,
}

/// Size of one pixel in bytes; only these sizes occur.
#[derive(Debug, Clone, Copy, PartialEq, Eq, Structural)]
pub enum MemoryFormatBytes {
    B1,
    B2,
    B3,
    B4,
    B6,
    B8,
    B12,
    B16,
}

impl MemoryFormatBytes {
    /// The byte count this variant stands for.
    pub open spec fn value(self) -> int {
        match self {
            MemoryFormatBytes::B1 => 1,
            MemoryFormatBytes::B2 => 2,
            MemoryFormatBytes::B3 => 3,
            MemoryFormatBytes::B4 => 4,
            MemoryFormatBytes::B6 => 6,
            MemoryFormatBytes::B8 => 8,
            MemoryFormatBytes::B12 => 12,
            MemoryFormatBytes::B16 => 16,
        }
    }

    pub fn u32(self) -> (r: u32)
        ensures
            r == self.value(),
    {
        match self {
            MemoryFormatBytes::B1 => 1,
            MemoryFormatBytes::B2 => 2,
            MemoryFormatBytes::B3 => 3,
            MemoryFormatBytes::B4 => 4,
            MemoryFormatBytes::B6 => 6,
            MemoryFormatBytes::B8 => 8,
            MemoryFormatBytes::B12 => 12,
            MemoryFormatBytes::B16 => 16,
        }
    }

    pub fn u64(self) -> (r: u64)
        ensures
            r == self.value(),
    {
        self.u32() as u64
    }

    pub fn usize(self) -> (r: usize)
        ensures
            r == self.value(),
    {
        self.u32() as usize
    }
}

impl MemoryFormat {
    /// Bytes one pixel occupies in this layout.
    pub open spec fn bytes_per_pixel(self) -> int {
        match self {
            MemoryFormat::B8g8r8a8Premultiplied => 4,
            MemoryFormat::A8r8g8b8Premultiplied => 4,
            MemoryFormat::R8g8b8a8Premultiplied => 4,
            MemoryFormat::B8g8r8a8 => 4,
            MemoryFormat::A8r8g8b8 => 4,
            MemoryFormat::R8g8b8a8 => 4,
            MemoryFormat::A8b8g8r8 => 4,
            MemoryFormat::R8g8b8 => 3,
            MemoryFormat::B8g8r8 => 3,
            MemoryFormat::R16g16b16 => 6,
            MemoryFormat::R16g16b16a16Premultiplied => 8,
            MemoryFormat::R16g16b16a16 => 8,
            MemoryFormat::R16g16b16Float => 6,
            MemoryFormat::R16g16b16a16Float => 8,
            MemoryFormat::R32g32b32Float => 12,
            MemoryFormat::R32g32b32a32FloatPremultiplied => 16,
            MemoryFormat::R32g32b32a32Float => 16,
            MemoryFormat::G8a8 => 2,
            MemoryFormat::G8 => 1,
            MemoryFormat::G16a16 => 4,
            MemoryFormat::G16 => 2,
        }
    }

    /// Number of channels one pixel carries in this layout.
    pub open spec fn channel_count(self) -> int {
        match self {
            MemoryFormat::B8g8r8a8Premultiplied => 4,
            MemoryFormat::A8r8g8b8Premultiplied => 4,
            MemoryFormat::R8g8b8a8Premultiplied => 4,
            MemoryFormat::B8g8r8a8 => 4,
            MemoryFormat::A8r8g8b8 => 4,
            MemoryFormat::R8g8b8a8 => 4,
            MemoryFormat::A8b8g8r8 => 4,
            MemoryFormat::R8g8b8 => 3,
            MemoryFormat::B8g8r8 => 3,
            MemoryFormat::R16g16b16 => 3,
            MemoryFormat::R16g16b16a16Premultiplied => 4,
            MemoryFormat::R16g16b16a16 => 4,
            MemoryFormat::R16g16b16Float => 3,
            MemoryFormat::R16g16b16a16Float => 4,
            MemoryFormat::R32g32b32Float => 3,
            MemoryFormat::R32g32b32a32FloatPremultiplied => 4,
            MemoryFormat::R32g32b32a32Float => 4,
            MemoryFormat::G8a8 => 2,
            MemoryFormat::G8 => 1,
            MemoryFormat::G16a16 => 2,
            MemoryFormat::G16 => 1,
        }
    }

    pub fn n_bytes(self) -> (r: MemoryFormatBytes)
        ensures
            r.value() == self.bytes_per_pixel(),
    {
        match self {
            MemoryFormat::B8g8r8a8Premultiplied => MemoryFormatBytes::B4,
            MemoryFormat::A8r8g8b8Premultiplied => MemoryFormatBytes::B4,
            MemoryFormat::R8g8b8a8Premultiplied => MemoryFormatBytes::B4,
            MemoryFormat::B8g8r8a8 => MemoryFormatBytes::B4,
            MemoryFormat::A8r8g8b8 => MemoryFormatBytes::B4,
            MemoryFormat::R8g8b8a8 => MemoryFormatBytes::B4,
            MemoryFormat::A8b8g8r8 => MemoryFormatBytes::B4,
            MemoryFormat::R8g8b8 => MemoryFormatBytes::B3,
            MemoryFormat::B8g8r8 => MemoryFormatBytes::B3,
            MemoryFormat::R16g16b16 => MemoryFormatBytes::B6,
            MemoryFormat::R16g16b16a16Premultiplied => MemoryFormatBytes::B8,
            MemoryFormat::R16g16b16a16 => MemoryFormatBytes::B8,
            MemoryFormat::R16g16b16Float => MemoryFormatBytes::B6,
            MemoryFormat::R16g16b16a16Float => MemoryFormatBytes::B8,
            MemoryFormat::R32g32b32Float => MemoryFormatBytes::B12,
            MemoryFormat::R32g32b32a32FloatPremultiplied => MemoryFormatBytes::B16,
            MemoryFormat::R32g32b32a32Float => MemoryFormatBytes::B16,
            MemoryFormat::G8a8 => MemoryFormatBytes::B2,
            MemoryFormat::G8 => MemoryFormatBytes::B1,
            MemoryFormat::G16a16 => MemoryFormatBytes::B4,
            MemoryFormat::G16 => MemoryFormatBytes::B2,
        }
    }

    pub fn n_channels(self) -> (r: u8)
        ensures
            r == self.channel_count(),
    {
        match self {
            MemoryFormat::B8g8r8a8Premultiplied => 4,
            MemoryFormat::A8r8g8b8Premultiplied => 4,
            MemoryFormat::R8g8b8a8Premultiplied => 4,
            MemoryFormat::B8g8r8a8 => 4,
            MemoryFormat::A8r8g8b8 => 4,
            MemoryFormat::R8g8b8a8 => 4,
            MemoryFormat::A8b8g8r8 => 4,
            MemoryFormat::R8g8b8 => 3,
            MemoryFormat::B8g8r8 => 3,
            MemoryFormat::R16g16b16 => 3,
            MemoryFormat::R16g16b16a16Premultiplied => 4,
            MemoryFormat::R16g16b16a16 => 4,
            MemoryFormat::R16g16b16Float => 3,
            MemoryFormat::R16g16b16a16Float => 4,
            MemoryFormat::R32g32b32Float => 3,
            MemoryFormat::R32g32b32a32FloatPremultiplied => 4,
            MemoryFormat::R32g32b32a32Float => 4,
            MemoryFormat::G8a8 => 2,
            MemoryFormat::G8 => 1,
            MemoryFormat::G16a16 => 2,
            MemoryFormat::G16 => 1,
        }
    }
}

} // verus!
