//! The decision core of a JPEG XL encoding tool.
//!
//! The codec engine is a foreign, stateful library, and this crate never
//! calls it. It holds everything that the session layer decides: which
//! request goes to the engine, with which arguments, and what each answer of
//! the engine means for the session. The host sends the requests and hands
//! the answers back as plain values. Engine objects appear as their handles,
//! the addresses that the engine gave them, with 0 for "none".

pub mod basic_info;
pub mod codes;
pub mod decoder;
pub mod encode;
pub mod encoder;
pub mod encoder_frame;
pub mod error;
pub mod frame_settings;
pub mod job;
pub mod job_laws;
pub mod parallel_runner;
pub mod sink;
pub mod source;
pub mod verify;

pub use basic_info::{BasicInfo, ColorEncoding, RenderingIntent};
pub use decoder::{DecodeJob, DecodeStep, DecodeTarget, DecoderAnswer, JxlDecoder};
pub use encode::{EncodeOptions, EncodePlan, Progressive, Quality};
pub use encoder::{
    CloseState, EncoderCall, EncoderView, EngineOutput, JxlEncoder, OutputPull, OutputStatus,
    PullStep,
};
pub use encoder_frame::{EncoderFrame, FrameCall, PixelFormat, SampleFormat, Submission};
pub use error::Error;
pub use frame_settings::{
    BlendInfo, Distance, Effort, FrameHeader, FrameSettings, FrameSettingsKey, LayerInfo,
    SettingsCall,
};
pub use job::{
    encode_single, EncodeFailure, EncodeJob, EncodingStats, Event, Operation, Step, VerifyFailure,
};
pub use sink::{ensure_file_inexist, PathError, PathMeta};
pub use source::{ColorType, PixelLayout, SourceInfo};
pub use verify::verify_single;
