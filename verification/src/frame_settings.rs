//! Frame settings: the key that names one in its session, the resolved
//! settings object, and the requests that configure it.

use vstd::prelude::*;
use crate::codes::{
    FRAME_SETTING_DECODING_SPEED, FRAME_SETTING_EFFORT, FRAME_SETTING_MODULAR,
    FRAME_SETTING_PROGRESSIVE_AC, FRAME_SETTING_PROGRESSIVE_DC, FRAME_SETTING_QPROGRESSIVE_AC,
    FRAME_SETTING_RESPONSIVE,
};
use crate::encoder::{EncoderView, JxlEncoder};
use crate::error::Error;

verus! {

/// Names one frame-settings object of one session: the session's engine
/// handle and the index of the settings in the session's table. A key owns
/// nothing and keeps nothing alive.
#[derive(Debug, Copy, Clone, PartialEq, Eq, Hash, Structural)]
pub struct FrameSettingsKey(usize, usize);

impl FrameSettingsKey {
    /// The engine handle of the session that made the key.
    pub closed spec fn engine(self) -> usize {
        self.0
    }

    /// The index of the settings in that session's table.
    pub closed spec fn index(self) -> usize {
        self.1
    }

    /// The key names an entry of `encoder`: it was made by that session and
    /// its index is in the table.
    pub open spec fn resolves_in(self, encoder: EncoderView) -> bool {
        self.engine() == encoder.engine && self.index() < encoder.settings.len()
    }

    /// What resolving the key against `encoder` gives: the handle at the
    /// key's index, or a usage error for a key that does not name an entry.
    pub open spec fn resolve(self, encoder: EncoderView) -> Result<usize, Error> {
        if self.resolves_in(encoder) {
            Ok(encoder.settings[self.index() as int])
        } else {
            Err(Error::ApiUsage)
        }
    }

    pub(crate) fn new(engine: usize, index: usize) -> (key: FrameSettingsKey)
        ensures
            key.engine() == engine,
            key.index() == index,
    {
        FrameSettingsKey(engine, index)
    }

    /// Whether the key was made by `encoder`.
    #[inline]
    pub fn is_for_encoder(self, encoder: &JxlEncoder) -> (r: bool)
        ensures
            r == (self.engine() == encoder@.engine),
    {
        self.0 == encoder.engine()
    }

    /// Resolves the key to the engine's handle of the settings.
    pub fn try_index_raw(self, encoder: &JxlEncoder) -> (r: Result<usize, Error>)
        ensures
            r == self.resolve(encoder@),
    {
        if !self.is_for_encoder(encoder) {
            return Err(Error::ApiUsage);
        }
        match encoder.settings_handle(self.1) {
            Some(handle) => Ok(handle),
            None => Err(Error::ApiUsage),
        }
    }

    /// Resolves the key to the settings object.
    pub fn try_index(self, encoder: &JxlEncoder) -> (r: Result<FrameSettings, Error>)
        ensures
            match self.resolve(encoder@) {
                Ok(handle) => r is Ok && r->Ok_0.engine() == encoder@.engine && r->Ok_0.handle()
                    == handle,
                Err(e) => r == Err::<FrameSettings, Error>(e),
            },
    {
        let handle = self.try_index_raw(encoder)?;
        Ok(FrameSettings::from_raw(encoder.engine(), handle))
    }
}

/// One frame-settings object of a session, resolved: the engine's handle of
/// the encoder and the engine's handle of the settings.
#[derive(Debug, Copy, Clone, PartialEq, Eq, Hash, Structural)]
pub struct FrameSettings {
    encoder: usize,
    settings: usize,
}

impl FrameSettings {
    /// The engine's handle of the encoder that owns the settings.
    pub closed spec fn engine(self) -> usize {
        self.encoder
    }

    /// The engine's handle of the settings.
    pub closed spec fn handle(self) -> usize {
        self.settings
    }

    #[inline]
    pub(crate) fn from_raw(encoder: usize, settings: usize) -> (r: FrameSettings)
        ensures
            r.engine() == encoder,
            r.handle() == settings,
    {
        FrameSettings { encoder, settings }
    }

    /// The engine's handle of the settings, to address requests to.
    pub fn raw(&self) -> (r: usize)
        ensures
            r == self.handle(),
    {
        self.settings
    }

    /// What creating settings in `encoder` comes to, where `created` is the
    /// handle that the engine returned for the request (0: it could not
    /// allocate): a usage error for a source key that names no entry of the
    /// session, else an allocation failure, else success.
    pub open spec fn create_outcome(
        encoder: EncoderView,
        source: Option<FrameSettingsKey>,
        created: usize,
    ) -> Result<(), Error> {
        if source is Some && !source->0.resolves_in(encoder) {
            Err(Error::ApiUsage)
        } else if created == 0 {
            Err(Error::OutOfMemory)
        } else {
            Ok(())
        }
    }

    /// Takes newly created settings into the session. The host has asked the
    /// engine for settings that copy those of `source` (engine defaults
    /// without a source), and `created` is the handle that came back, 0 where
    /// the engine could not allocate. On success the handle is appended to
    /// the session's table and the key of the new entry is returned with the
    /// settings. On failure the session is unchanged.
    pub fn new(encoder: &mut JxlEncoder, source: Option<FrameSettingsKey>, created: usize) -> (r:
        Result<(FrameSettings, FrameSettingsKey), Error>)
        ensures
            match Self::create_outcome(old(encoder)@, source, created) {
                Ok(()) => {
                    &&& r is Ok
                    &&& r->Ok_0.0.engine() == old(encoder)@.engine
                    &&& r->Ok_0.0.handle() == created
                    &&& r->Ok_0.1.engine() == old(encoder)@.engine
                    &&& r->Ok_0.1.index() == old(encoder)@.settings.len()
                    &&& final(encoder)@ == (EncoderView {
                        settings: old(encoder)@.settings.push(created),
                        ..old(encoder)@
                    })
                },
                Err(e) => r == Err::<(FrameSettings, FrameSettingsKey), Error>(e) && final(encoder)@
                    == old(encoder)@,
            },
            final(encoder)@.extends(old(encoder)@),
    {
        if let Some(key) = source {
            if key.try_index_raw(encoder).is_err() {
                return Err(Error::ApiUsage);
            }
        }
        if created == 0 {
            return Err(Error::OutOfMemory);
        }
        let engine = encoder.engine();
        let index = encoder.register(created);
        Ok((FrameSettings::from_raw(engine, created), FrameSettingsKey::new(engine, index)))
    }
}

/// A distance: the quality knob of the engine, 0 for lossless and growing
/// with the loss that is accepted. It is held as the bit pattern of the
/// single-precision value that the engine takes, and compared as such.
#[derive(Debug, Copy, Clone, PartialEq, Eq, Hash, Structural)]
pub struct Distance {
    /// The bit pattern of the value.
    pub bits: u32,
}

/// The bit pattern of the single-precision value nearest to 0.01, the
/// threshold below which a distance means lossless.
pub const LOSSLESS_THRESHOLD_BITS: u32 = 0x3C23_D70A;

/// The bit pattern of negative zero, the smallest pattern with the sign bit.
pub const SIGN_BIT: u32 = 0x8000_0000;

/// The bit pattern of negative infinity, the largest pattern of a negative
/// value that is a number.
pub const NEGATIVE_INFINITY_BITS: u32 = 0xFF80_0000;

/// The bit pattern of 1.0, the default distance of a lossy encode.
pub const DEFAULT_LOSSY_BITS: u32 = 0x3F80_0000;

/// Whether the single-precision value with the pattern `bits` is below the
/// lossless threshold. Patterns without the sign bit are ordered as their
/// values are, so a value from positive zero up is below the threshold
/// exactly when its pattern is below that of the threshold. Every negative
/// number is below it: those are the patterns from negative zero to negative
/// infinity. The remaining patterns are not numbers and compare as not below.
pub open spec fn below_lossless_threshold(bits: u32) -> bool {
    bits < LOSSLESS_THRESHOLD_BITS || SIGN_BIT <= bits <= NEGATIVE_INFINITY_BITS
}

impl Distance {
    /// Whether the distance asks for lossless encoding.
    pub open spec fn lossless(self) -> bool {
        below_lossless_threshold(self.bits)
    }

    /// The distance whose single-precision value has the pattern `bits`.
    pub fn from_bits(bits: u32) -> (r: Distance)
        ensures
            r == (Distance { bits }),
    {
        Distance { bits }
    }

    /// The bit pattern of the single-precision value.
    pub fn to_bits(self) -> (r: u32)
        ensures
            r == self.bits,
    {
        self.bits
    }

    /// The distance zero: lossless.
    pub fn zero() -> (r: Distance)
        ensures
            r == (Distance { bits: 0 }),
    {
        Distance { bits: 0 }
    }

    /// The distance one, at which a lossy encode is visually lossless.
    pub fn one() -> (r: Distance)
        ensures
            r == (Distance { bits: DEFAULT_LOSSY_BITS }),
    {
        Distance { bits: DEFAULT_LOSSY_BITS }
    }

    /// Whether the distance asks for lossless encoding: whether its value is
    /// below 0.01.
    pub fn is_lossless(self) -> (r: bool)
        ensures
            r == self.lossless(),
    {
        self.bits < LOSSLESS_THRESHOLD_BITS || (SIGN_BIT <= self.bits && self.bits
            <= NEGATIVE_INFINITY_BITS)
    }
}

/// How a layer is blended onto the canvas.
#[derive(Debug, Copy, Clone, PartialEq, Eq, Hash, Structural)]
pub struct BlendInfo {
    /// The engine's code of the blend mode.
    pub blendmode: u32,
    /// The reference frame to blend onto.
    pub source: u32,
    /// The extra channel that holds the alpha to blend with.
    pub alpha: u32,
    /// Whether alpha is clamped to the unit range before blending.
    pub clamp: bool,
}

/// Where a frame lies on the canvas.
#[derive(Debug, Copy, Clone, PartialEq, Eq, Hash, Structural)]
pub struct LayerInfo {
    /// Whether the frame covers only a part of the canvas.
    pub have_crop: bool,
    /// The horizontal offset of the frame.
    pub crop_x0: i32,
    /// The vertical offset of the frame.
    pub crop_y0: i32,
    /// The width of the frame.
    pub xsize: u32,
    /// The height of the frame.
    pub ysize: u32,
    /// How the frame is blended.
    pub blend_info: BlendInfo,
    /// The slot in which the frame is kept for later reference, 0 for none.
    pub save_as_reference: u32,
}

/// The structural header of a frame.
#[derive(Debug, Copy, Clone, PartialEq, Eq, Hash, Structural)]
pub struct FrameHeader {
    /// How long the frame is shown, in ticks.
    pub duration: u32,
    /// The SMPTE timecode of the frame.
    pub timecode: u32,
    /// The length of the frame's name in bytes.
    pub name_length: u32,
    /// Whether this is the last frame.
    pub is_last: bool,
    /// Where the frame lies on the canvas.
    pub layer_info: LayerInfo,
}

/// One request to the engine about a frame-settings object. The host sends
/// it and then reads the encoder's error state.
#[derive(Debug, Copy, Clone, PartialEq, Eq, Hash, Structural)]
pub enum SettingsCall {
    /// Set the integer option `option` of `settings` to `value`.
    SetOption { settings: usize, option: u32, value: i64 },
    /// Switch `settings` to lossless encoding.
    SetLossless { settings: usize },
    /// Set the distance of `settings`.
    SetDistance { settings: usize, distance: Distance },
    /// Set the frame header of `settings`.
    SetFrameHeader { settings: usize, header: FrameHeader },
}

/// The value that an option with an unset state takes: -1 for "as the engine
/// chooses", else 0 or 1.
pub open spec fn tri_state(value: Option<bool>) -> i64 {
    match value {
        None => (-1) as i64,
        Some(false) => 0,
        Some(true) => 1,
    }
}

/// What a request for `lf_level` low-frequency passes comes to: the option
/// value, -1 for "as the engine chooses"; a usage error for more than 2.
pub open spec fn lf_level_value(lf_level: Option<u32>) -> Result<i64, Error> {
    match lf_level {
        None => Ok((-1) as i64),
        Some(level) => if level <= 2 {
            Ok(level as i64)
        } else {
            Err(Error::ApiUsage)
        },
    }
}

/// What a request for decoding speed tier `speed` comes to: the option
/// value; a usage error for a tier above 4.
pub open spec fn decoding_speed_value(speed: u32) -> Result<i64, Error> {
    if speed <= 4 {
        Ok(speed as i64)
    } else {
        Err(Error::ApiUsage)
    }
}

/// The request that sets the distance of the settings with the handle
/// `settings`: below the threshold it is the engine's lossless switch,
/// whatever the value, else the distance itself.
pub open spec fn distance_request(settings: usize, distance: Distance) -> SettingsCall {
    if distance.lossless() {
        SettingsCall::SetLossless { settings }
    } else {
        SettingsCall::SetDistance { settings, distance }
    }
}

/// The request that sets the integer option `option` of the settings with
/// the handle `settings` to `value`.
pub open spec fn option_request(settings: usize, option: u32, value: i64) -> SettingsCall {
    SettingsCall::SetOption { settings, option, value }
}

impl FrameSettings {
    /// The request that sets `option` of these settings to `value`.
    pub open spec fn option_call(self, option: u32, value: i64) -> SettingsCall {
        option_request(self.handle(), option, value)
    }

    /// The request that sets the distance: below the threshold it is the
    /// engine's lossless switch, whatever the value, else the distance itself.
    pub open spec fn distance_call(self, distance: Distance) -> SettingsCall {
        distance_request(self.handle(), distance)
    }

    #[inline]
    fn set_raw_i64(&self, option: u32, value: i64) -> (call: SettingsCall)
        ensures
            call == self.option_call(option, value),
    {
        SettingsCall::SetOption { settings: self.settings, option, value }
    }

    #[inline]
    fn set_tri_state(&self, option: u32, value: Option<bool>) -> (call: SettingsCall)
        ensures
            call == self.option_call(option, tri_state(value)),
    {
        let raw: i64 = match value {
            None => -1,
            Some(false) => 0,
            Some(true) => 1,
        };
        self.set_raw_i64(option, raw)
    }

    /// The request that sets the frame header.
    pub fn frame_header(&self, frame_header: &FrameHeader) -> (call: SettingsCall)
        ensures
            call == (SettingsCall::SetFrameHeader { settings: self.handle(), header: *frame_header }),
    {
        SettingsCall::SetFrameHeader { settings: self.settings, header: *frame_header }
    }

    /// The request that sets the effort.
    pub fn effort(&self, effort: Effort) -> (call: SettingsCall)
        ensures
            call == self.option_call(FRAME_SETTING_EFFORT, effort.level()),
    {
        self.set_raw_i64(FRAME_SETTING_EFFORT, effort.to_level())
    }

    /// The request that sets the distance. A distance below 0.01 asks for
    /// lossless encoding and goes to the engine's lossless switch; no
    /// distance switches lossless off again.
    pub fn distance(&self, distance: Distance) -> (call: SettingsCall)
        ensures
            call == self.distance_call(distance),
    {
        if distance.is_lossless() {
            SettingsCall::SetLossless { settings: self.settings }
        } else {
            SettingsCall::SetDistance { settings: self.settings, distance }
        }
    }

    /// The request that sets responsive encoding of a modular frame.
    pub fn modular_progressive(&self, progressive: Option<bool>) -> (call: SettingsCall)
        ensures
            call == self.option_call(FRAME_SETTING_RESPONSIVE, tri_state(progressive)),
    {
        self.set_tri_state(FRAME_SETTING_RESPONSIVE, progressive)
    }

    /// The request that sets the number of low-frequency passes of a
    /// transform-coded frame: 0, 1 or 2, or as the engine chooses.
    pub fn vardct_progressive_lf(&self, lf_level: Option<u32>) -> (r: Result<SettingsCall, Error>)
        ensures
            match lf_level_value(lf_level) {
                Ok(value) => r == Ok::<SettingsCall, Error>(
                    self.option_call(FRAME_SETTING_PROGRESSIVE_DC, value),
                ),
                Err(e) => r == Err::<SettingsCall, Error>(e),
            },
    {
        let value: i64 = match lf_level {
            Some(level) => {
                if level > 2 {
                    return Err(Error::ApiUsage);
                }
                level as i64
            },
            None => -1,
        };
        Ok(self.set_raw_i64(FRAME_SETTING_PROGRESSIVE_DC, value))
    }

    /// The request that sets spectral progression of the high-frequency
    /// coefficients of a transform-coded frame.
    pub fn vardct_progressive_hf(&self, progressive: Option<bool>) -> (call: SettingsCall)
        ensures
            call == self.option_call(FRAME_SETTING_PROGRESSIVE_AC, tri_state(progressive)),
    {
        self.set_tri_state(FRAME_SETTING_PROGRESSIVE_AC, progressive)
    }

    /// The request that sets quantization progression of the high-frequency
    /// coefficients of a transform-coded frame.
    pub fn vardct_progressive_hf_quant(&self, progressive: Option<bool>) -> (call: SettingsCall)
        ensures
            call == self.option_call(FRAME_SETTING_QPROGRESSIVE_AC, tri_state(progressive)),
    {
        self.set_tri_state(FRAME_SETTING_QPROGRESSIVE_AC, progressive)
    }

    /// The request that forces modular mode on or off, or leaves it to the engine.
    pub fn modular(&self, modular: Option<bool>) -> (call: SettingsCall)
        ensures
            call == self.option_call(FRAME_SETTING_MODULAR, tri_state(modular)),
    {
        self.set_tri_state(FRAME_SETTING_MODULAR, modular)
    }

    /// The request that sets the decoding speed tier, 0 to 4.
    pub fn decoding_speed(&self, speed: u32) -> (r: Result<SettingsCall, Error>)
        ensures
            match decoding_speed_value(speed) {
                Ok(value) => r == Ok::<SettingsCall, Error>(
                    self.option_call(FRAME_SETTING_DECODING_SPEED, value),
                ),
                Err(e) => r == Err::<SettingsCall, Error>(e),
            },
    {
        if speed > 4 {
            return Err(Error::ApiUsage);
        }
        Ok(self.set_raw_i64(FRAME_SETTING_DECODING_SPEED, speed as i64))
    }
}

/// All distances below the threshold give the same request, the lossless
/// switch, in which nothing of the distance is left.
pub proof fn lemma_lossless_distances_agree(settings: FrameSettings, a: Distance, b: Distance)
    requires
        a.lossless(),
        b.lossless(),
    ensures
        settings.distance_call(a) == settings.distance_call(b),
        settings.distance_call(a) == (SettingsCall::SetLossless { settings: settings.handle() }),
{
}

/// Encoder effort, from the fastest tier to the slowest.
#[derive(Debug, Copy, Clone, PartialEq, Eq, PartialOrd, Ord, Hash, Structural)]
pub enum Effort {
    Lightning,
    Thunder,
    Falcon,
    Cheetah,
    Hare,
    Wombat,
    Squirrel,
    Kitten,
    Tortoise,
    Glacier,
    TectonicPlate,
}

impl Effort {
    /// The number of the tier, 1 for the fastest and 11 for the slowest: the
    /// value that the engine's effort option takes.
    pub open spec fn level(self) -> i64 {
        match self {
            Effort::Lightning => 1,
            Effort::Thunder => 2,
            Effort::Falcon => 3,
            Effort::Cheetah => 4,
            Effort::Hare => 5,
            Effort::Wombat => 6,
            Effort::Squirrel => 7,
            Effort::Kitten => 8,
            Effort::Tortoise => 9,
            Effort::Glacier => 10,
            Effort::TectonicPlate => 11,
        }
    }

    /// The tier with the number `value`: the numbers 1 to 11 each name one
    /// tier, and any other number is a usage error.
    pub open spec fn from_level(value: i64) -> Result<Effort, Error> {
        if value == 1 {
            Ok(Effort::Lightning)
        } else if value == 2 {
            Ok(Effort::Thunder)
        } else if value == 3 {
            Ok(Effort::Falcon)
        } else if value == 4 {
            Ok(Effort::Cheetah)
        } else if value == 5 {
            Ok(Effort::Hare)
        } else if value == 6 {
            Ok(Effort::Wombat)
        } else if value == 7 {
            Ok(Effort::Squirrel)
        } else if value == 8 {
            Ok(Effort::Kitten)
        } else if value == 9 {
            Ok(Effort::Tortoise)
        } else if value == 10 {
            Ok(Effort::Glacier)
        } else if value == 11 {
            Ok(Effort::TectonicPlate)
        } else {
            Err(Error::ApiUsage)
        }
    }

    /// The number of the tier.
    pub fn to_level(self) -> (r: i64)
        ensures
            r == self.level(),
            1 <= r <= 11,
    {
        match self {
            Effort::Lightning => 1,
            Effort::Thunder => 2,
            Effort::Falcon => 3,
            Effort::Cheetah => 4,
            Effort::Hare => 5,
            Effort::Wombat => 6,
            Effort::Squirrel => 7,
            Effort::Kitten => 8,
            Effort::Tortoise => 9,
            Effort::Glacier => 10,
            Effort::TectonicPlate => 11,
        }
    }
}

impl Default for Effort {
    fn default() -> (r: Effort)
        ensures
            r == Effort::Squirrel,
    {
        Effort::Squirrel
    }
}

impl TryFrom<i64> for Effort {
    type Error = crate::error::Error;

    /// The tier with the number `value`; a usage error for a number outside 1 to 11.
    fn try_from(value: i64) -> (r: Result<Effort, crate::error::Error>) {
        if value == 1 {
            Ok(Effort::Lightning)
        } else if value == 2 {
            Ok(Effort::Thunder)
        } else if value == 3 {
            Ok(Effort::Falcon)
        } else if value == 4 {
            Ok(Effort::Cheetah)
        } else if value == 5 {
            Ok(Effort::Hare)
        } else if value == 6 {
            Ok(Effort::Wombat)
        } else if value == 7 {
            Ok(Effort::Squirrel)
        } else if value == 8 {
            Ok(Effort::Kitten)
        } else if value == 9 {
            Ok(Effort::Tortoise)
        } else if value == 10 {
            Ok(Effort::Glacier)
        } else if value == 11 {
            Ok(Effort::TectonicPlate)
        } else {
            Err(crate::error::Error::ApiUsage)
        }
    }
}

impl vstd::std_specs::convert::TryFromSpecImpl<i64> for Effort {
    open spec fn obeys_try_from_spec() -> bool {
        true
    }

    open spec fn try_from_spec(value: i64) -> Result<Effort, crate::error::Error> {
        Effort::from_level(value)
    }
}

/// The tiers and the numbers 1 to 11 name each other: every tier is the
/// tier of its own number, a number names a tier exactly if it is one of 1
/// to 11, and the tier that a number names has that number.
pub proof fn lemma_effort_levels(effort: Effort, value: i64)
    ensures
        1 <= effort.level() <= 11,
        Effort::from_level(effort.level()) == Ok::<Effort, Error>(effort),
        Effort::from_level(value) is Ok <==> 1 <= value <= 11,
        Effort::from_level(value) matches Ok(e) ==> e.level() == value,
        Effort::from_level(value) matches Err(e) ==> e == Error::ApiUsage,
{
}

} // verus!
