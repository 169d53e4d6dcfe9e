//! Planning the encode of one image: from what the user asked for to the
//! parameters of the engine.

use vstd::prelude::*;
use crate::error::Error;
use crate::frame_settings::{
    decoding_speed_value, distance_request, lf_level_value, option_request, tri_state, Distance,
    Effort, FrameSettings, SettingsCall, DEFAULT_LOSSY_BITS,
};
use crate::codes::{
    FRAME_SETTING_DECODING_SPEED, FRAME_SETTING_EFFORT, FRAME_SETTING_MODULAR,
    FRAME_SETTING_PROGRESSIVE_AC, FRAME_SETTING_PROGRESSIVE_DC, FRAME_SETTING_QPROGRESSIVE_AC,
    FRAME_SETTING_RESPONSIVE,
};

verus! {

/// What the user asks of an encode.
#[derive(Debug, Copy, Clone, PartialEq, Eq, Structural)]
pub struct EncodeOptions {
    /// The distance; where none is given it follows from `force_modular`.
    pub distance: Option<Distance>,
    /// The number of the effort tier, 1 to 11.
    pub effort: i64,
    /// How progressive the output is: 0 for not at all, more passes with
    /// each step up.
    pub progressive: u8,
    /// The decoding speed tier, 0 to 4.
    pub decoding_speed: u32,
    /// Encode in modular mode even where the encode is lossy.
    pub force_modular: bool,
    /// Encode from pixels even where the input could be repackaged.
    pub force_from_pixels: bool,
    /// Decode the output again and compare it with the input.
    pub verify: bool,
}

/// The quality parameters of an encode.
#[derive(Debug, Copy, Clone, PartialEq, Eq, Structural)]
pub struct Quality {
    /// The distance handed to the engine: zero for every lossless encode.
    pub distance: Distance,
    /// Whether the encode is lossless.
    pub is_lossless: bool,
    /// The effort tier.
    pub effort: Effort,
    /// Whether the frame is encoded in modular mode.
    pub is_modular: bool,
}

/// The distance that `options` ask for: the one given, else zero for a
/// forced modular encode and one for any other.
pub open spec fn requested_distance(options: EncodeOptions) -> Distance {
    match options.distance {
        Some(distance) => distance,
        None => if options.force_modular {
            Distance { bits: 0 }
        } else {
            Distance { bits: DEFAULT_LOSSY_BITS }
        },
    }
}

impl Quality {
    /// The quality parameters that `options` come to. A requested distance
    /// below the threshold makes the encode lossless, and the distance is
    /// then zero, whatever was asked. The encode is modular where it is
    /// lossless or modular mode is forced. An effort that names no tier is a
    /// usage error.
    pub open spec fn of(options: EncodeOptions) -> Result<Quality, Error> {
        match Effort::from_level(options.effort) {
            Err(e) => Err(e),
            Ok(effort) => {
                let requested = requested_distance(options);
                Ok(
                    Quality {
                        distance: if requested.lossless() {
                            Distance { bits: 0 }
                        } else {
                            requested
                        },
                        is_lossless: requested.lossless(),
                        effort,
                        is_modular: requested.lossless() || options.force_modular,
                    },
                )
            },
        }
    }

    /// Derives the quality parameters from what the user asked for.
    pub fn new(options: &EncodeOptions) -> (r: Result<Quality, Error>)
        ensures
            r == Self::of(*options),
    {
        let mut distance = match options.distance {
            Some(distance) => distance,
            None => if options.force_modular {
                Distance::zero()
            } else {
                Distance::one()
            },
        };
        let is_lossless = distance.is_lossless();
        let effort = Effort::try_from(options.effort)?;
        if is_lossless {
            distance = Distance::zero();
        }
        let is_modular = is_lossless || options.force_modular;
        Ok(Quality { distance, is_lossless, effort, is_modular })
    }
}

/// The progressive controls of a frame. `None` leaves a control as the
/// engine chooses.
#[derive(Debug, Copy, Clone, PartialEq, Eq, Structural)]
pub struct Progressive {
    /// Responsive encoding of a modular frame.
    pub modular_responsive: Option<bool>,
    /// The number of low-frequency passes of a transform-coded frame.
    pub lf_frames: Option<u32>,
    /// Spectral progression of the high-frequency coefficients.
    pub hf: Option<bool>,
    /// Quantization progression of the high-frequency coefficients.
    pub hf_quant: Option<bool>,
}

impl Progressive {
    /// No control set.
    pub open spec fn unset() -> Progressive {
        Progressive { modular_responsive: None, lf_frames: None, hf: None, hf_quant: None }
    }

    /// The controls for progressive intensity `intensity`. Nothing is set
    /// for intensity 0, nor where a transcode is attempted. A modular frame
    /// is made responsive, and that is all. A transform-coded frame gets one
    /// low-frequency pass, and two from intensity 4; from intensity 2 also
    /// the quantization progression, and from intensity 3 also the spectral
    /// progression of the high-frequency coefficients.
    pub open spec fn of(intensity: u8, is_modular: bool, do_transcode: bool) -> Progressive {
        if do_transcode || intensity == 0 {
            Self::unset()
        } else if is_modular {
            Progressive { modular_responsive: Some(true), ..Self::unset() }
        } else {
            Progressive {
                modular_responsive: None,
                lf_frames: Some(
                    if intensity >= 4 {
                        2u32
                    } else {
                        1u32
                    },
                ),
                hf: if intensity >= 3 {
                    Some(true)
                } else {
                    None
                },
                hf_quant: if intensity >= 2 {
                    Some(true)
                } else {
                    None
                },
            }
        }
    }

    /// Derives the progressive controls.
    pub fn derive(intensity: u8, is_modular: bool, do_transcode: bool) -> (r: Progressive)
        ensures
            r == Self::of(intensity, is_modular, do_transcode),
            r.lf_frames matches Some(passes) ==> 1 <= passes <= 2,
    {
        let mut controls = Progressive {
            modular_responsive: None,
            lf_frames: None,
            hf: None,
            hf_quant: None,
        };
        if !do_transcode && intensity > 0 {
            if is_modular {
                controls.modular_responsive = Some(true);
            } else {
                controls.lf_frames = Some(
                    if intensity >= 4 {
                        2u32
                    } else {
                        1u32
                    },
                );
                if intensity >= 2 {
                    controls.hf_quant = Some(true);
                }
                if intensity >= 3 {
                    controls.hf = Some(true);
                }
            }
        }
        controls
    }
}

/// The controls of a transform-coded frame that is encoded from pixels, one
/// line for each intensity: none; one low-frequency pass; the quantization
/// progression as well; the spectral progression as well; and from there on
/// two low-frequency passes.
pub proof fn lemma_progressive_table(intensity: u8)
    ensures
        Progressive::of(0, false, false) == Progressive::unset(),
        Progressive::of(1, false, false) == (Progressive {
            modular_responsive: None,
            lf_frames: Some(1u32),
            hf: None,
            hf_quant: None,
        }),
        Progressive::of(2, false, false) == (Progressive {
            modular_responsive: None,
            lf_frames: Some(1u32),
            hf: None,
            hf_quant: Some(true),
        }),
        Progressive::of(3, false, false) == (Progressive {
            modular_responsive: None,
            lf_frames: Some(1u32),
            hf: Some(true),
            hf_quant: Some(true),
        }),
        intensity >= 4 ==> Progressive::of(intensity, false, false) == (Progressive {
            modular_responsive: None,
            lf_frames: Some(2u32),
            hf: Some(true),
            hf_quant: Some(true),
        }),
{
}

/// The number of requests that configure the frame settings of an encode.
pub const SETTINGS_CALLS: u8 = 8;

/// Everything that is decided before the engine is asked for anything.
#[derive(Debug, Copy, Clone, PartialEq, Eq, Structural)]
pub struct EncodePlan {
    /// The quality parameters.
    pub quality: Quality,
    /// Whether repackaging the input is attempted.
    pub do_transcode: bool,
    /// Whether the output is verified, as far as is known before the encode.
    pub do_verify: bool,
    /// The progressive controls.
    pub progressive: Progressive,
    /// The decoding speed tier.
    pub decoding_speed: u32,
}

impl EncodePlan {
    /// The plan for `options` on an input that is a JPEG bitstream or not.
    /// Repackaging is attempted for a JPEG input unless pixels are forced.
    /// The output can be verified where it holds the input exactly: in a
    /// lossless encode and in a transcode.
    pub open spec fn of(options: EncodeOptions, is_jpeg: bool) -> Result<EncodePlan, Error> {
        match Quality::of(options) {
            Err(e) => Err(e),
            Ok(quality) => {
                let do_transcode = is_jpeg && !options.force_from_pixels;
                Ok(
                    EncodePlan {
                        quality,
                        do_transcode,
                        do_verify: options.verify && (quality.is_lossless || do_transcode),
                        progressive: Progressive::of(
                            options.progressive,
                            quality.is_modular,
                            do_transcode,
                        ),
                        decoding_speed: options.decoding_speed,
                    },
                )
            },
        }
    }

    /// Makes the plan.
    pub fn new(options: &EncodeOptions, is_jpeg: bool) -> (r: Result<EncodePlan, Error>)
        ensures
            r == Self::of(*options, is_jpeg),
    {
        let quality = Quality::new(options)?;
        let do_transcode = is_jpeg && !options.force_from_pixels;
        let mut do_verify = options.verify;
        if !quality.is_lossless && !do_transcode {
            do_verify = false;
        }
        let progressive = Progressive::derive(options.progressive, quality.is_modular, do_transcode);
        Ok(
            EncodePlan {
                quality,
                do_transcode,
                do_verify,
                progressive,
                decoding_speed: options.decoding_speed,
            },
        )
    }

    /// The `index`-th of the requests that configure `settings`, in the
    /// order in which they are sent: distance, effort, responsive encoding,
    /// low-frequency passes, spectral progression, quantization
    /// progression, modular mode, decoding speed. Modular mode is forced on
    /// for a modular frame and else left to the engine. A value out of range
    /// is a usage error, and so is an index past the last request.
    pub open spec fn settings_call(self, settings: usize, index: u8) -> Result<
        SettingsCall,
        Error,
    > {
        if index == 0 {
            Ok(distance_request(settings, self.quality.distance))
        } else if index == 1 {
            Ok(option_request(settings, FRAME_SETTING_EFFORT, self.quality.effort.level()))
        } else if index == 2 {
            Ok(
                option_request(
                    settings,
                    FRAME_SETTING_RESPONSIVE,
                    tri_state(self.progressive.modular_responsive),
                ),
            )
        } else if index == 3 {
            match lf_level_value(self.progressive.lf_frames) {
                Ok(value) => Ok(option_request(settings, FRAME_SETTING_PROGRESSIVE_DC, value)),
                Err(e) => Err(e),
            }
        } else if index == 4 {
            Ok(option_request(settings, FRAME_SETTING_PROGRESSIVE_AC, tri_state(self.progressive.hf)))
        } else if index == 5 {
            Ok(
                option_request(
                    settings,
                    FRAME_SETTING_QPROGRESSIVE_AC,
                    tri_state(self.progressive.hf_quant),
                ),
            )
        } else if index == 6 {
            Ok(
                option_request(
                    settings,
                    FRAME_SETTING_MODULAR,
                    tri_state(
                        if self.quality.is_modular {
                            Some(true)
                        } else {
                            None
                        },
                    ),
                ),
            )
        } else if index == 7 {
            match decoding_speed_value(self.decoding_speed) {
                Ok(value) => Ok(option_request(settings, FRAME_SETTING_DECODING_SPEED, value)),
                Err(e) => Err(e),
            }
        } else {
            Err(Error::ApiUsage)
        }
    }

    /// The `index`-th of the requests that configure `settings`.
    pub fn configure(&self, settings: &FrameSettings, index: u8) -> (r: Result<SettingsCall, Error>)
        ensures
            r == self.settings_call(settings.handle(), index),
    {
        if index == 0 {
            Ok(settings.distance(self.quality.distance))
        } else if index == 1 {
            Ok(settings.effort(self.quality.effort))
        } else if index == 2 {
            Ok(settings.modular_progressive(self.progressive.modular_responsive))
        } else if index == 3 {
            settings.vardct_progressive_lf(self.progressive.lf_frames)
        } else if index == 4 {
            Ok(settings.vardct_progressive_hf(self.progressive.hf))
        } else if index == 5 {
            Ok(settings.vardct_progressive_hf_quant(self.progressive.hf_quant))
        } else if index == 6 {
            Ok(
                settings.modular(
                    if self.quality.is_modular {
                        Some(true)
                    } else {
                        None
                    },
                ),
            )
        } else if index == 7 {
            settings.decoding_speed(self.decoding_speed)
        } else {
            Err(Error::ApiUsage)
        }
    }
}

/// Every distance below the threshold gives the same encode as distance
/// zero: two requests that differ only in their distance, both below the
/// threshold, come to the same plan; the distance of that plan is zero; and
/// the request that sets the distance is the engine's lossless switch.
pub proof fn lemma_lossless_requests_agree(
    a: EncodeOptions,
    b: EncodeOptions,
    is_jpeg: bool,
    settings: usize,
)
    requires
        requested_distance(a).lossless(),
        requested_distance(b).lossless(),
        a == (EncodeOptions { distance: a.distance, ..b }),
    ensures
        EncodePlan::of(a, is_jpeg) == EncodePlan::of(b, is_jpeg),
        EncodePlan::of(a, is_jpeg) matches Ok(plan) ==> {
            &&& plan.quality.is_lossless
            &&& plan.quality.is_modular
            &&& plan.quality.distance.bits == 0
            &&& plan.settings_call(settings, 0) == Ok::<SettingsCall, Error>(
                SettingsCall::SetLossless { settings },
            )
        },
{
}

} // verus!
