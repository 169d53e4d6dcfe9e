//! What a session tells the engine about the image as a whole: its basic
//! properties and its colour encoding.

use vstd::prelude::*;

verus! {

/// The engine's code of the RGB colour space.
pub const COLOR_SPACE_RGB: u32 = 0;

/// The engine's code of the D65 white point.
pub const WHITE_POINT_D65: u32 = 1;

/// The engine's code of the sRGB primaries.
pub const PRIMARIES_SRGB: u32 = 1;

/// The engine's code of the linear transfer function.
pub const TRANSFER_FUNCTION_LINEAR: u32 = 8;

/// The engine's code of the sRGB transfer function.
pub const TRANSFER_FUNCTION_SRGB: u32 = 13;

/// The basic properties of an image that a session states. Every other
/// property stays as the engine initialises it.
#[derive(Debug, Copy, Clone, PartialEq, Eq, Hash, Structural)]
pub struct BasicInfo {
    /// The width in pixels.
    pub xsize: u32,
    /// The height in pixels.
    pub ysize: u32,
    /// The bit depth of the colour channels.
    pub bits_per_sample: u32,
    /// Whether the colour data is kept in the original colour profile, as
    /// lossless encoding needs.
    pub uses_original_profile: bool,
    /// The number of channels besides the colour channels.
    pub num_extra_channels: u32,
    /// The bit depth of the alpha channel, 0 without one.
    pub alpha_bits: u32,
    /// Whether the colour channels are premultiplied by alpha.
    pub alpha_premultiplied: bool,
}

impl BasicInfo {
    /// The properties of an image of `width` by `height` pixels with
    /// `bits_per_sample` bits in each sample: the colour data stays in the
    /// original profile exactly for a lossless encode, and an image with
    /// alpha has one extra channel, of the same depth and not premultiplied.
    pub open spec fn of_image(
        width: u32,
        height: u32,
        bits_per_sample: u32,
        is_lossless: bool,
        has_alpha: bool,
    ) -> BasicInfo {
        BasicInfo {
            xsize: width,
            ysize: height,
            bits_per_sample,
            uses_original_profile: is_lossless,
            num_extra_channels: if has_alpha {
                1
            } else {
                0
            },
            alpha_bits: if has_alpha {
                bits_per_sample
            } else {
                0
            },
            alpha_premultiplied: false,
        }
    }

    /// The properties to state for an image that is encoded from pixels.
    pub fn for_image(
        width: u32,
        height: u32,
        bits_per_sample: u32,
        is_lossless: bool,
        has_alpha: bool,
    ) -> (info: BasicInfo)
        ensures
            info == Self::of_image(width, height, bits_per_sample, is_lossless, has_alpha),
    {
        let mut info = BasicInfo {
            xsize: width,
            ysize: height,
            bits_per_sample,
            uses_original_profile: is_lossless,
            num_extra_channels: 0,
            alpha_bits: 0,
            alpha_premultiplied: false,
        };
        if has_alpha {
            info.num_extra_channels = 1;
            info.alpha_bits = bits_per_sample;
        }
        info
    }
}

/// How colours outside the target gamut are brought into it.
#[derive(Debug, Copy, Clone, PartialEq, Eq, Hash, Structural)]
pub enum RenderingIntent {
    Perceptual,
    Relative,
    Saturation,
    Absolute,
}

impl RenderingIntent {
    /// The engine's code of the intent.
    pub open spec fn code(self) -> u32 {
        match self {
            RenderingIntent::Perceptual => 0,
            RenderingIntent::Relative => 1,
            RenderingIntent::Saturation => 2,
            RenderingIntent::Absolute => 3,
        }
    }
}

impl From<RenderingIntent> for u32 {
    /// The engine's code of the intent.
    fn from(value: RenderingIntent) -> (r: u32) {
        match value {
            RenderingIntent::Perceptual => 0,
            RenderingIntent::Relative => 1,
            RenderingIntent::Saturation => 2,
            RenderingIntent::Absolute => 3,
        }
    }
}

impl vstd::std_specs::convert::FromSpecImpl<RenderingIntent> for u32 {
    open spec fn obeys_from_spec() -> bool {
        true
    }

    open spec fn from_spec(value: RenderingIntent) -> u32 {
        value.code()
    }
}

/// A colour encoding named by the engine's codes. Chromaticities and gamma,
/// which only custom encodings carry, are not held: the named ones leave
/// them at zero.
#[derive(Debug, Copy, Clone, PartialEq, Eq, Hash, Structural)]
pub struct ColorEncoding {
    /// The engine's code of the colour space.
    pub color_space: u32,
    /// The engine's code of the white point.
    pub white_point: u32,
    /// The engine's code of the primaries.
    pub primaries: u32,
    /// The engine's code of the transfer function.
    pub transfer_function: u32,
    /// The engine's code of the rendering intent.
    pub rendering_intent: u32,
}

impl ColorEncoding {
    /// The RGB encoding with D65 white point and sRGB primaries that has the
    /// transfer function `transfer_function`.
    pub open spec fn rgb_d65(transfer_function: u32, intent: RenderingIntent) -> ColorEncoding {
        ColorEncoding {
            color_space: COLOR_SPACE_RGB,
            white_point: WHITE_POINT_D65,
            primaries: PRIMARIES_SRGB,
            transfer_function,
            rendering_intent: intent.code(),
        }
    }

    /// sRGB.
    pub fn srgb(intent: RenderingIntent) -> (r: ColorEncoding)
        ensures
            r == Self::rgb_d65(TRANSFER_FUNCTION_SRGB, intent),
    {
        ColorEncoding {
            color_space: COLOR_SPACE_RGB,
            white_point: WHITE_POINT_D65,
            primaries: PRIMARIES_SRGB,
            transfer_function: TRANSFER_FUNCTION_SRGB,
            rendering_intent: u32::from(intent),
        }
    }

    /// sRGB with a linear transfer function.
    pub fn srgb_linear(intent: RenderingIntent) -> (r: ColorEncoding)
        ensures
            r == Self::rgb_d65(TRANSFER_FUNCTION_LINEAR, intent),
    {
        ColorEncoding {
            color_space: COLOR_SPACE_RGB,
            white_point: WHITE_POINT_D65,
            primaries: PRIMARIES_SRGB,
            transfer_function: TRANSFER_FUNCTION_LINEAR,
            rendering_intent: u32::from(intent),
        }
    }
}

} // verus!
