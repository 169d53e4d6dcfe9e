//! What is known of the input image before it is encoded.

use vstd::prelude::*;
use crate::encoder_frame::SampleFormat;

verus! {

/// The layout of the pixels that the image decoder delivers: which channels
/// a pixel has and how a sample is held.
#[derive(Debug, Copy, Clone, PartialEq, Eq, Hash, Structural)]
pub enum ColorType {
    /// 8-bit luminance.
    L8,
    /// 8-bit luminance with alpha.
    La8,
    /// 8-bit red, green and blue.
    Rgb8,
    /// 8-bit red, green and blue with alpha.
    Rgba8,
    /// 16-bit luminance.
    L16,
    /// 16-bit luminance with alpha.
    La16,
    /// 16-bit red, green and blue.
    Rgb16,
    /// 16-bit red, green and blue with alpha.
    Rgba16,
    /// 32-bit float red, green and blue.
    Rgb32F,
    /// 32-bit float red, green and blue with alpha.
    Rgba32F,
}

/// How decoded pixels are handed to the engine.
#[derive(Debug, Copy, Clone, PartialEq, Eq, Hash, Structural)]
pub struct PixelLayout {
    /// The number of interleaved channels, alpha included.
    pub num_channels: u32,
    /// How a sample is held.
    pub sample_format: SampleFormat,
    /// Whether one of the channels is alpha.
    pub has_alpha: bool,
}

impl ColorType {
    /// Whether a pixel has an alpha channel.
    pub open spec fn spec_has_alpha(self) -> bool {
        match self {
            ColorType::La8 | ColorType::Rgba8 | ColorType::La16 | ColorType::Rgba16
            | ColorType::Rgba32F => true,
            _ => false,
        }
    }

    /// The number of channels of a pixel.
    pub open spec fn spec_channel_count(self) -> u8 {
        match self {
            ColorType::L8 | ColorType::L16 => 1,
            ColorType::La8 | ColorType::La16 => 2,
            ColorType::Rgb8 | ColorType::Rgb16 | ColorType::Rgb32F => 3,
            ColorType::Rgba8 | ColorType::Rgba16 | ColorType::Rgba32F => 4,
        }
    }

    /// How a sample is held.
    pub open spec fn spec_sample_format(self) -> SampleFormat {
        match self {
            ColorType::L8 | ColorType::La8 | ColorType::Rgb8 | ColorType::Rgba8 => SampleFormat::U8,
            ColorType::L16 | ColorType::La16 | ColorType::Rgb16 | ColorType::Rgba16 => SampleFormat::U16,
            ColorType::Rgb32F | ColorType::Rgba32F => SampleFormat::F32,
        }
    }

    /// `image::ColorType::has_alpha`, on the colour type of the same name:
    /// whether a pixel has an alpha channel. That is so for luminance with
    /// alpha and for the three kinds of RGBA, and for no other.
    #[verifier::external_body]
    fn image_has_alpha(self) -> (r: bool)
        ensures
            r == self.spec_has_alpha(),
    {
        let color = match self {
            ColorType::L8 => image::ColorType::L8,
            ColorType::La8 => image::ColorType::La8,
            ColorType::Rgb8 => image::ColorType::Rgb8,
            ColorType::Rgba8 => image::ColorType::Rgba8,
            ColorType::L16 => image::ColorType::L16,
            ColorType::La16 => image::ColorType::La16,
            ColorType::Rgb16 => image::ColorType::Rgb16,
            ColorType::Rgba16 => image::ColorType::Rgba16,
            ColorType::Rgb32F => image::ColorType::Rgb32F,
            ColorType::Rgba32F => image::ColorType::Rgba32F,
        };
        color.has_alpha()
    }

    /// `image::ColorType::channel_count`, on the colour type of the same
    /// name: the number of channels of a pixel. That is 1 for luminance, 2
    /// for luminance with alpha, 3 for RGB and 4 for RGBA.
    #[verifier::external_body]
    fn image_channel_count(self) -> (r: u8)
        ensures
            r == self.spec_channel_count(),
    {
        let color = match self {
            ColorType::L8 => image::ColorType::L8,
            ColorType::La8 => image::ColorType::La8,
            ColorType::Rgb8 => image::ColorType::Rgb8,
            ColorType::Rgba8 => image::ColorType::Rgba8,
            ColorType::L16 => image::ColorType::L16,
            ColorType::La16 => image::ColorType::La16,
            ColorType::Rgb16 => image::ColorType::Rgb16,
            ColorType::Rgba16 => image::ColorType::Rgba16,
            ColorType::Rgb32F => image::ColorType::Rgb32F,
            ColorType::Rgba32F => image::ColorType::Rgba32F,
        };
        color.channel_count()
    }

    /// The layout in which pixels of this colour type are handed to the
    /// engine.
    pub open spec fn spec_layout(self) -> PixelLayout {
        PixelLayout {
            num_channels: self.spec_channel_count() as u32,
            sample_format: self.spec_sample_format(),
            has_alpha: self.spec_has_alpha(),
        }
    }

    /// The layout in which pixels of this colour type are handed to the
    /// engine: the number of channels, how a sample is held, and whether
    /// one of the channels is alpha.
    pub fn layout(self) -> (r: PixelLayout)
        ensures
            r == self.spec_layout(),
    {
        PixelLayout {
            num_channels: self.image_channel_count() as u32,
            sample_format: self.sample_format(),
            has_alpha: self.image_has_alpha(),
        }
    }

    /// How a sample of the decoded pixels is held.
    pub fn sample_format(self) -> (r: SampleFormat)
        ensures
            r == self.spec_sample_format(),
    {
        match self {
            ColorType::L8 | ColorType::La8 | ColorType::Rgb8 | ColorType::Rgba8 => SampleFormat::U8,
            ColorType::L16 | ColorType::La16 | ColorType::Rgb16 | ColorType::Rgba16 => SampleFormat::U16,
            ColorType::Rgb32F | ColorType::Rgba32F => SampleFormat::F32,
        }
    }
}

/// The bit depth of one sample of an image whose pixels have
/// `bits_per_pixel` bits in `channel_count` channels. An image without
/// channels has no samples.
pub open spec fn spec_bits_per_sample(bits_per_pixel: u16, channel_count: u8) -> Option<u32> {
    if channel_count == 0 {
        None
    } else {
        Some((bits_per_pixel as int / channel_count as int) as u32)
    }
}

/// The bit depth of one sample of an image whose pixels have
/// `bits_per_pixel` bits in `channel_count` channels.
pub fn bits_per_sample(bits_per_pixel: u16, channel_count: u8) -> (r: Option<u32>)
    ensures
        r == spec_bits_per_sample(bits_per_pixel, channel_count),
{
    if channel_count == 0 {
        None
    } else {
        Some(bits_per_pixel as u32 / channel_count as u32)
    }
}

/// What the image decoder reports of an input before any pixel is decoded.
#[derive(Debug, Copy, Clone, PartialEq, Eq, Hash, Structural)]
pub struct SourceInfo {
    /// The size of the input in bytes.
    pub input_size: usize,
    /// Whether the input is a JPEG bitstream.
    pub is_jpeg: bool,
    /// The width in pixels.
    pub width: u32,
    /// The height in pixels.
    pub height: u32,
    /// The layout of the pixels that the decoder delivers.
    pub color_type: ColorType,
    /// The bit depth of one sample as the input stores it.
    pub bits_per_sample: u32,
    /// Whether the input carries a colour profile.
    pub has_icc: bool,
}

} // verus!
