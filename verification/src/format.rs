//! Pixel and sample format types.
use vstd::prelude::*;

verus! {

/// Video pixel formats.
///
/// This is a subset of formats commonly encountered in media pipelines.
#[derive(Clone, Copy, Debug, PartialEq, Eq, Hash, Structural)]
pub enum PixelFormat {
    /// Planar YUV 4:2:0, 12bpp (most common video format)
    Yuv420p,
    /// Semi-planar YUV 4:2:0, 12bpp (common hardware decoder output)
    Nv12,
    /// Packed BGRA, 32bpp
    Bgra,
    /// Packed RGBA, 32bpp
    Rgba,
    /// Packed RGB, 24bpp
    Rgb24,
    /// Packed BGR, 24bpp
    Bgr24,
    /// Planar YUV 4:2:2, 16bpp
    Yuv422p,
    /// Planar YUV 4:4:4, 24bpp
    Yuv444p,
    /// Planar YUV 4:2:0, 10-bit
    Yuv420p10,
    /// Semi-planar YUV 4:2:0, 10-bit little-endian
    P010le,
}

impl PixelFormat {
    /// Average number of bits per pixel of the format.
    pub open spec fn spec_bits_per_pixel(self) -> u32 {
        match self {
            PixelFormat::Yuv420p | PixelFormat::Nv12 => 12,
            PixelFormat::Yuv420p10 | PixelFormat::P010le => 15,
            PixelFormat::Yuv422p => 16,
            PixelFormat::Rgb24 | PixelFormat::Bgr24 | PixelFormat::Yuv444p => 24,
            PixelFormat::Bgra | PixelFormat::Rgba => 32,
        }
    }

    /// Whether the format stores its components in separate planes
    /// (semi-planar formats count as planar).
    pub open spec fn spec_is_planar(self) -> bool {
        match self {
            PixelFormat::Bgra | PixelFormat::Rgba | PixelFormat::Rgb24 | PixelFormat::Bgr24 => false,
            _ => true,
        }
    }

    /// Returns the number of bits per pixel for this format.
    ///
    /// For planar formats, this is the average bits per pixel.
    pub fn bits_per_pixel(self) -> (r: u32)
        ensures
            r == self.spec_bits_per_pixel(),
    {
        match self {
            PixelFormat::Yuv420p | PixelFormat::Nv12 => 12,
            PixelFormat::Yuv420p10 | PixelFormat::P010le => 15,
            PixelFormat::Yuv422p => 16,
            PixelFormat::Rgb24 | PixelFormat::Bgr24 | PixelFormat::Yuv444p => 24,
            PixelFormat::Bgra | PixelFormat::Rgba => 32,
        }
    }

    /// Returns true if this is a planar format.
    pub fn is_planar(self) -> (r: bool)
        ensures
            r == self.spec_is_planar(),
    {
        match self {
            PixelFormat::Yuv420p | PixelFormat::Yuv422p | PixelFormat::Yuv444p
            | PixelFormat::Yuv420p10 => true,
            PixelFormat::Nv12 | PixelFormat::P010le => true,
            PixelFormat::Bgra | PixelFormat::Rgba | PixelFormat::Rgb24 | PixelFormat::Bgr24 => false,
        }
    }
}

/// Audio sample formats.
#[derive(Clone, Copy, Debug, PartialEq, Eq, Hash, Structural)]
pub enum SampleFormat {
    /// 32-bit floating point
    F32,
    /// 64-bit floating point
    F64,
    /// Signed 16-bit integer
    S16,
    /// Signed 32-bit integer
    S32,
    /// Unsigned 8-bit integer
    U8,
}

impl SampleFormat {
    /// Size in bytes of one sample of one channel.
    pub open spec fn spec_bytes_per_sample(self) -> usize {
        match self {
            SampleFormat::U8 => 1,
            SampleFormat::S16 => 2,
            SampleFormat::S32 | SampleFormat::F32 => 4,
            SampleFormat::F64 => 8,
        }
    }

    /// Whether the samples are floating-point numbers.
    pub open spec fn spec_is_float(self) -> bool {
        self == SampleFormat::F32 || self == SampleFormat::F64
    }

    /// Returns the number of bytes per sample.
    pub fn bytes_per_sample(self) -> (r: usize)
        ensures
            r == self.spec_bytes_per_sample(),
    {
        match self {
            SampleFormat::U8 => 1,
            SampleFormat::S16 => 2,
            SampleFormat::S32 | SampleFormat::F32 => 4,
            SampleFormat::F64 => 8,
        }
    }

    /// Returns true if this is a floating-point format.
    pub fn is_float(self) -> (r: bool)
        ensures
            r == self.spec_is_float(),
    {
        match self {
            SampleFormat::F32 | SampleFormat::F64 => true,
            _ => false,
        }
    }
}

/// Audio channel layout.
#[derive(Clone, Copy, Debug, PartialEq, Eq, Hash, Structural)]
pub enum ChannelLayout {
    /// Single channel
    Mono,
    /// Left and right channels
    Stereo,
    /// 5.1 surround (FL, FR, FC, LFE, BL, BR)
    Surround5_1,
    /// 7.1 surround (FL, FR, FC, LFE, BL, BR, SL, SR)
    Surround7_1,
}

impl ChannelLayout {
    /// Number of channels of the layout.
    pub open spec fn spec_channels(self) -> u16 {
        match self {
            ChannelLayout::Mono => 1,
            ChannelLayout::Stereo => 2,
            ChannelLayout::Surround5_1 => 6,
            ChannelLayout::Surround7_1 => 8,
        }
    }

    /// The layout chosen for a channel count: the exact layout where one
    /// exists, mono for no channels, 5.1 for three to five channels, 7.1 for
    /// seven or more.
    pub open spec fn spec_from_count(count: u16) -> ChannelLayout {
        if count <= 1 {
            ChannelLayout::Mono
        } else if count == 2 {
            ChannelLayout::Stereo
        } else if count == 6 {
            ChannelLayout::Surround5_1
        } else if count == 8 {
            ChannelLayout::Surround7_1
        } else if 3 <= count <= 5 {
            ChannelLayout::Surround5_1
        } else {
            ChannelLayout::Surround7_1
        }
    }

    /// Returns the number of channels.
    pub fn channels(self) -> (r: u16)
        ensures
            r == self.spec_channels(),
    {
        match self {
            ChannelLayout::Mono => 1,
            ChannelLayout::Stereo => 2,
            ChannelLayout::Surround5_1 => 6,
            ChannelLayout::Surround7_1 => 8,
        }
    }

    /// Create a channel layout from a channel count.
    ///
    /// Falls back to the closest matching layout.
    pub fn from_count(count: u16) -> (r: ChannelLayout)
        ensures
            r == ChannelLayout::spec_from_count(count),
    {
        match count {
            0 | 1 => ChannelLayout::Mono,
            2 => ChannelLayout::Stereo,
            6 => ChannelLayout::Surround5_1,
            8 => ChannelLayout::Surround7_1,
            3..=5 => ChannelLayout::Surround5_1,
            _ => ChannelLayout::Surround7_1,
        }
    }
}

/// A layout is recovered from its own channel count.
pub proof fn lemma_from_count_of_channels(layout: ChannelLayout)
    ensures
        ChannelLayout::spec_from_count(layout.spec_channels()) == layout,
{
}

/// For a channel count of at most eight, the chosen layout has at least as
/// many channels as were asked for.
pub proof fn lemma_from_count_covers(count: u16)
    requires
        count <= 8,
    ensures
        ChannelLayout::spec_from_count(count).spec_channels() >= count,
{
}

/// The layout chosen for a count of at most eight channels is the closest
/// one: the smallest layout with at least that many channels. Larger counts
/// get the largest layout.
pub proof fn lemma_from_count_closest(count: u16, other: ChannelLayout)
    ensures
        count <= 8 && other.spec_channels() >= count ==> ChannelLayout::spec_from_count(
            count,
        ).spec_channels() <= other.spec_channels(),
        count > 8 ==> ChannelLayout::spec_from_count(count).spec_channels()
            >= other.spec_channels(),
{
}

} // verus!
