//! Frame submission: a single-use object bound to the settings of one key.

use vstd::prelude::*;
use crate::codes::{NATIVE_ENDIAN, TYPE_FLOAT, TYPE_FLOAT16, TYPE_UINT16, TYPE_UINT8};
use crate::encoder::JxlEncoder;
use crate::error::Error;
use crate::frame_settings::FrameSettingsKey;

verus! {

/// How one sample of a pixel buffer is held.
#[derive(Debug, Copy, Clone, PartialEq, Eq, Hash, Structural)]
pub enum SampleFormat {
    /// 8-bit unsigned integer.
    U8,
    /// 16-bit unsigned integer.
    U16,
    /// 16-bit float.
    F16,
    /// 32-bit float.
    F32,
}

impl SampleFormat {
    /// The engine's code of the sample type.
    pub open spec fn data_type(self) -> u32 {
        match self {
            SampleFormat::U8 => TYPE_UINT8,
            SampleFormat::U16 => TYPE_UINT16,
            SampleFormat::F16 => TYPE_FLOAT16,
            SampleFormat::F32 => TYPE_FLOAT,
        }
    }

    /// The engine's code of the sample type.
    pub fn to_data_type(self) -> (r: u32)
        ensures
            r == self.data_type(),
    {
        match self {
            SampleFormat::U8 => TYPE_UINT8,
            SampleFormat::U16 => TYPE_UINT16,
            SampleFormat::F16 => TYPE_FLOAT16,
            SampleFormat::F32 => TYPE_FLOAT,
        }
    }
}

/// The layout of a pixel buffer, as the engine takes it.
#[derive(Debug, Copy, Clone, PartialEq, Eq, Hash, Structural)]
pub struct PixelFormat {
    /// The number of interleaved channels.
    pub num_channels: u32,
    /// The engine's code of the sample type.
    pub data_type: u32,
    /// The engine's code of the byte order.
    pub endianness: u32,
    /// The alignment of scanlines in bytes, 0 for none.
    pub align: usize,
}

impl PixelFormat {
    /// The layout of `num_channels` interleaved channels of `sample_format`
    /// samples in the byte order of the machine, scanlines not aligned.
    pub open spec fn interleaved(num_channels: u32, sample_format: SampleFormat) -> PixelFormat {
        PixelFormat {
            num_channels,
            data_type: sample_format.data_type(),
            endianness: NATIVE_ENDIAN,
            align: 0,
        }
    }

    /// The layout of `num_channels` interleaved channels of `sample_format`
    /// samples in the byte order of the machine, scanlines not aligned.
    pub fn new(num_channels: u32, sample_format: SampleFormat) -> (r: PixelFormat)
        ensures
            r == Self::interleaved(num_channels, sample_format),
    {
        PixelFormat {
            num_channels,
            data_type: sample_format.to_data_type(),
            endianness: NATIVE_ENDIAN,
            align: 0,
        }
    }
}

/// A payload offered for a frame.
#[derive(Debug, Copy, Clone, PartialEq, Eq, Hash, Structural)]
pub enum Submission {
    /// A pixel buffer of `size` bytes.
    Pixels { num_channels: u32, sample_format: SampleFormat, size: usize },
    /// A JPEG bitstream of `size` bytes, to be repackaged without decoding.
    Jpeg { size: usize },
}

/// One request to the engine that submits a frame. The host sends it with
/// the buffer the submission was made with, and then reads the encoder's
/// error state.
#[derive(Debug, Copy, Clone, PartialEq, Eq, Hash, Structural)]
pub enum FrameCall {
    /// Add a frame of pixels in the layout `format`, read from `size` bytes.
    AddImageFrame { settings: usize, format: PixelFormat, size: usize },
    /// Add a frame that repackages a JPEG bitstream of `size` bytes.
    AddJpegFrame { settings: usize, size: usize },
}

/// The request that submits `payload` with the settings that have the
/// handle `settings`. Pixels are interleaved, in the byte order of the
/// machine, with scanlines not aligned.
pub open spec fn submission_call(settings: usize, payload: Submission) -> FrameCall {
    match payload {
        Submission::Pixels { num_channels, sample_format, size } => FrameCall::AddImageFrame {
            settings,
            format: PixelFormat::interleaved(num_channels, sample_format),
            size,
        },
        Submission::Jpeg { size } => FrameCall::AddJpegFrame { settings, size },
    }
}

/// A frame about to be submitted with the settings of one key. It takes one
/// payload, once.
#[derive(Debug)]
pub struct EncoderFrame {
    encoder: usize,
    settings: Option<usize>,
}

impl EncoderFrame {
    /// The engine's handle of the encoder that the frame goes to.
    pub closed spec fn engine(self) -> usize {
        self.encoder
    }

    /// The engine's handle of the settings the frame is bound to, as long as
    /// no payload has been offered.
    pub closed spec fn pending(self) -> Option<usize> {
        self.settings
    }

    /// What offering `payload` comes to: the engine request for the first
    /// payload offered, a usage error for any later one.
    pub open spec fn request(self, payload: Submission) -> Result<FrameCall, Error> {
        match self.pending() {
            None => Err(Error::ApiUsage),
            Some(settings) => Ok(submission_call(settings, payload)),
        }
    }

    /// Binds a frame to the settings that `settings_key` names in `encoder`.
    pub fn new(encoder: &JxlEncoder, settings_key: FrameSettingsKey) -> (r: Result<
        EncoderFrame,
        Error,
    >)
        ensures
            match settings_key.resolve(encoder@) {
                Err(e) => r == Err::<EncoderFrame, Error>(e),
                Ok(handle) => r is Ok && r->Ok_0.engine() == encoder@.engine && r->Ok_0.pending()
                    == Some(handle),
            },
    {
        let settings = settings_key.try_index_raw(encoder)?;
        Ok(EncoderFrame { encoder: encoder.engine(), settings: Some(settings) })
    }

    /// Whether a payload has been offered.
    pub fn is_used(&self) -> (r: bool)
        ensures
            r == (self.pending() is None),
    {
        self.settings.is_none()
    }

    /// Offers a payload. The first payload offered uses the frame up and
    /// gives the request that submits it; every later one is a usage error.
    pub fn offer(&mut self, payload: Submission) -> (r: Result<FrameCall, Error>)
        ensures
            r == old(self).request(payload),
            final(self).pending() is None,
            final(self).engine() == old(self).engine(),
    {
        let settings = match self.settings.take() {
            Some(settings) => settings,
            None => {
                return Err(Error::ApiUsage);
            },
        };
        match payload {
            Submission::Pixels { num_channels, sample_format, size } => Ok(
                FrameCall::AddImageFrame {
                    settings,
                    format: PixelFormat::new(num_channels, sample_format),
                    size,
                },
            ),
            Submission::Jpeg { size } => Ok(FrameCall::AddJpegFrame { settings, size }),
        }
    }

    /// Offers a buffer of pixels: `num_channels` interleaved channels of
    /// `sample_format` samples in the byte order of the machine. The engine
    /// reads the buffer during the request; it must not change until then.
    pub fn color_channels(
        &mut self,
        num_channels: u32,
        sample_format: SampleFormat,
        buffer: &[u8],
    ) -> (r: Result<FrameCall, Error>)
        ensures
            r == old(self).request(
                Submission::Pixels { num_channels, sample_format, size: buffer@.len() as usize },
            ),
            final(self).pending() is None,
            final(self).engine() == old(self).engine(),
    {
        self.offer(Submission::Pixels { num_channels, sample_format, size: buffer.len() })
    }

    /// Offers a JPEG bitstream, to be repackaged without decoding. The
    /// engine may reject the bitstream; the caller then encodes from pixels,
    /// with a new frame on the same settings.
    pub fn jpeg(&mut self, buffer: &[u8]) -> (r: Result<FrameCall, Error>)
        ensures
            r == old(self).request(Submission::Jpeg { size: buffer@.len() as usize }),
            final(self).pending() is None,
            final(self).engine() == old(self).engine(),
    {
        self.offer(Submission::Jpeg { size: buffer.len() })
    }
}

/// Of two payloads offered to one frame, whatever they are, the second is
/// refused with a usage error: `used` is the frame as the first offer left
/// it. What the first came to does not depend on the second, and is a
/// request where the frame was fresh.
pub proof fn lemma_second_submission_fails(
    fresh: EncoderFrame,
    used: EncoderFrame,
    first: Submission,
    second: Submission,
)
    requires
        fresh.pending() is Some,
        used.pending() is None,
    ensures
        fresh.request(first) is Ok,
        used.request(second) == Err::<FrameCall, Error>(Error::ApiUsage),
{
}

} // verus!
