//! Numeric codes of the engine's C interface, as its headers define them.

use vstd::prelude::*;

verus! {

/// The engine's "true".
pub const JXL_TRUE: i32 = 1;

/// The engine's "false".
pub const JXL_FALSE: i32 = 0;

/// Encoder status: the call succeeded; for output processing, nothing is left to emit.
pub const ENC_SUCCESS: u32 = 0;

/// Encoder status: the call failed; the cause is in the encoder's error state.
pub const ENC_ERROR: u32 = 1;

/// Encoder status: the output buffer is used up and more output is pending.
pub const ENC_NEED_MORE_OUTPUT: u32 = 2;

/// Encoder error state: no error.
pub const ENC_ERR_OK: u32 = 0;

/// Encoder error state: unspecified failure.
pub const ENC_ERR_GENERIC: u32 = 1;

/// Encoder error state: allocation failed.
pub const ENC_ERR_OOM: u32 = 2;

/// Encoder error state: JPEG bitstream reconstruction data cannot be produced.
pub const ENC_ERR_JBRD: u32 = 3;

/// Encoder error state: the input was rejected.
pub const ENC_ERR_BAD_INPUT: u32 = 4;

/// Encoder error state: the feature is not available.
pub const ENC_ERR_NOT_SUPPORTED: u32 = 0x80;

/// Encoder error state: the interface was used wrongly.
pub const ENC_ERR_API_USAGE: u32 = 0x81;

/// Frame option: encoder effort.
pub const FRAME_SETTING_EFFORT: u32 = 0;

/// Frame option: decoding speed tier.
pub const FRAME_SETTING_DECODING_SPEED: u32 = 1;

/// Frame option: modular mode.
pub const FRAME_SETTING_MODULAR: u32 = 11;

/// Frame option: responsive (progressive modular) encoding.
pub const FRAME_SETTING_RESPONSIVE: u32 = 16;

/// Frame option: spectral progression of the high-frequency coefficients.
pub const FRAME_SETTING_PROGRESSIVE_AC: u32 = 17;

/// Frame option: quantization progression of the high-frequency coefficients.
pub const FRAME_SETTING_QPROGRESSIVE_AC: u32 = 18;

/// Frame option: number of low-frequency passes.
pub const FRAME_SETTING_PROGRESSIVE_DC: u32 = 19;

/// Sample type: 32-bit float.
pub const TYPE_FLOAT: u32 = 0;

/// Sample type: 8-bit unsigned.
pub const TYPE_UINT8: u32 = 2;

/// Sample type: 16-bit unsigned.
pub const TYPE_UINT16: u32 = 3;

/// Sample type: 16-bit float.
pub const TYPE_FLOAT16: u32 = 5;

/// Byte order: that of the machine.
pub const NATIVE_ENDIAN: u32 = 0;

/// Parallel runner result: the region ran.
pub const PARALLEL_RET_SUCCESS: i32 = 0;

/// Parallel runner result: the runner could not schedule the region.
pub const PARALLEL_RET_RUNNER_ERROR: i32 = -1;

/// Decoder status: the call succeeded; for input processing, decoding is finished.
pub const DEC_SUCCESS: u32 = 0;

/// Decoder status: the call failed.
pub const DEC_ERROR: u32 = 1;

/// Decoder status: the input ended too early.
pub const DEC_NEED_MORE_INPUT: u32 = 2;

/// Decoder status: a pixel buffer must be set before decoding goes on.
pub const DEC_NEED_IMAGE_OUT_BUFFER: u32 = 5;

/// Decoder status: the JPEG output buffer is used up.
pub const DEC_JPEG_NEED_MORE_OUTPUT: u32 = 6;

/// Decoder event: a full frame was decoded.
pub const DEC_FULL_IMAGE: u32 = 0x1000;

/// Decoder event: JPEG reconstruction data was decoded.
pub const DEC_JPEG_RECONSTRUCTION: u32 = 0x2000;

} // verus!
