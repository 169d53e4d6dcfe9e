//! The encode of one image as a dialogue with the host. The job says what
//! the host does next; the host does it and reports what came of it; the job
//! takes the report and moves on.
//!
//! The dialogue follows one path. The encoder and one frame-settings object
//! are created and the settings are configured, all of them before any frame
//! is submitted. Where repackaging is attempted, the JPEG bitstream is
//! submitted first; if the engine rejects it, the pixels are decoded and
//! submitted with the same settings. Then the input is closed, the output is
//! drained into the sink, and the output is verified where that was asked
//! for and is possible.

use vstd::prelude::*;
use crate::basic_info::{BasicInfo, ColorEncoding, RenderingIntent, TRANSFER_FUNCTION_SRGB};
use crate::encode::{EncodeOptions, EncodePlan, SETTINGS_CALLS};
use crate::encoder::{EngineOutput, JxlEncoder, OutputPull, PullStep};
use crate::encoder_frame::{submission_call, FrameCall, PixelFormat, Submission};
use crate::error::{encoder_error, Error};
use crate::frame_settings::{FrameSettings, FrameSettingsKey, SettingsCall};
use crate::source::SourceInfo;

verus! {

/// The size of the buffer that the host drains the output through.
pub const OUTPUT_BUFFER_SIZE: usize = 0x10_0000;

/// The engine requests of an encode, to say which of them failed.
#[derive(Debug, Copy, Clone, PartialEq, Eq, Hash, Structural)]
pub enum Operation {
    /// Creating the frame settings.
    CreateSettings,
    /// Configuring the frame settings.
    Configure,
    /// Switching the storing of JPEG reconstruction data on or off.
    StoreJpegMetadata,
    /// Submitting the JPEG bitstream.
    AddJpegFrame,
    /// Stating the basic properties of the image.
    SetBasicInfo,
    /// Stating the colour profile or the colour encoding.
    SetColor,
    /// Submitting the pixels.
    AddImageFrame,
    /// Emitting output.
    PullOutput,
}

/// Why the output did not verify.
#[derive(Debug, Copy, Clone, PartialEq, Eq, Hash, Structural)]
pub enum VerifyFailure {
    /// The engine could not create a decoder.
    CreateDecoder,
    /// The output could not be decoded.
    Decode(Error),
    /// The JPEG bitstream reconstructed from the output is not the input.
    JpegMismatch,
    /// The pixels decoded from the output are not those that were encoded.
    PixelMismatch,
}

/// Why an encode failed.
#[derive(Debug, Copy, Clone, PartialEq, Eq, Hash, Structural)]
pub enum EncodeFailure {
    /// The engine could not create an encoder.
    CreateEncoder,
    /// An engine request failed.
    Engine { operation: Operation, error: Error },
    /// The host could not decode the pixels of the input.
    DecodeInput,
    /// The host could not open the sink or write to it.
    Sink,
    /// The output did not verify. This is a failure of the data, not of the
    /// engine.
    Verify(VerifyFailure),
    /// The host reported something that does not answer the pending step.
    Protocol,
}

/// What came of an encode.
#[derive(Debug, Copy, Clone, PartialEq, Eq, Hash, Structural)]
pub struct EncodingStats {
    /// Whether the encode was lossless.
    pub is_lossless: bool,
    /// Whether the input was repackaged rather than encoded from pixels.
    pub is_transcoded: bool,
    /// Whether the output was verified.
    pub is_verified: bool,
    /// The size of the output in bytes, as far as it can be counted.
    pub output_size: u64,
}

/// What the host does next.
#[derive(Debug, Copy, Clone, PartialEq, Eq, Structural)]
pub enum Step {
    /// Ask the engine for an encoder; report the handle.
    CreateEncoder,
    /// Ask the engine for frame settings with its defaults; report the handle.
    CreateSettings,
    /// Send the `index`-th configuring request; report the error state.
    Configure { index: u8, call: SettingsCall },
    /// Tell the engine to store JPEG reconstruction data, or not to; report
    /// the error state.
    StoreJpegMetadata { store: bool },
    /// Submit the input as a JPEG bitstream; report the error state.
    AddJpegFrame { frame: FrameCall },
    /// State the basic properties of the image; report the error state.
    SetBasicInfo { info: BasicInfo },
    /// State the colour profile of the input; report the error state.
    SetIccProfile,
    /// State a named colour encoding; report the error state.
    SetColorEncoding { encoding: ColorEncoding },
    /// Decode the pixels of the input; report the size of the buffer.
    DecodePixels,
    /// Submit the decoded pixels, and keep them for verification where
    /// `keep_pixels` says so; report the error state.
    AddImageFrame { frame: FrameCall, keep_pixels: bool },
    /// Tell the engine that the input is complete.
    CloseInput,
    /// Open the sink.
    OpenSink,
    /// Ask the engine to emit into the unused end of the buffer; report its
    /// answer.
    ProcessOutput { pull: OutputPull },
    /// Write the first `len` bytes of the buffer to the sink, and keep them
    /// for verification where `keep` says so.
    Emit { len: usize, keep: bool, last: bool },
    /// Decode the output and compare it with the input bitstream, for a
    /// transcode, or with the encoded pixels; report the outcome.
    Verify { transcoded: bool },
    /// The encode is done.
    Finished { stats: EncodingStats },
    /// The encode failed.
    Failed { failure: EncodeFailure },
}

/// What the host reports.
#[derive(Debug, Copy, Clone)]
pub enum Event {
    /// The handle that the engine returned for what it was asked to create,
    /// 0 where it could not allocate.
    Created { handle: usize },
    /// The encoder's error state after a request.
    Engine { code: u32 },
    /// The pixels are decoded into a buffer of `len` bytes.
    Decoded { len: usize },
    /// The engine's answer to a request for output.
    Output { answer: EngineOutput },
    /// The outcome of the verification.
    Verified { outcome: Result<(), VerifyFailure> },
    /// The step is done and has nothing to report.
    Done,
    /// The host could not do the step.
    HostFailed,
}

/// Whether a rejection of the JPEG bitstream is of the kind that is
/// answered by encoding from pixels: the engine found the input bad or
/// cannot produce the reconstruction data for it.
pub open spec fn is_transcode_rejection(error: Error) -> bool {
    error == Error::BadInput || error == Error::JpegBitstreamReconstruction
}

/// An encode job, to its contracts.
pub struct JobView {
    /// What was decided before the encode began.
    pub plan: EncodePlan,
    /// What is known of the input.
    pub source: SourceInfo,
    /// The engine's handle of the frame settings, once they are created.
    pub settings: usize,
    /// What the host does next.
    pub step: Step,
    /// Whether the engine rejected the JPEG bitstream.
    pub transcode_failed: bool,
    /// Whether the engine accepted the JPEG bitstream.
    pub transcoded: bool,
    /// Whether the output will be verified.
    pub do_verify: bool,
    /// The number of bytes written to the sink.
    pub output_size: u64,
}

/// The step of a job that failed in an engine request.
pub open spec fn engine_failure(operation: Operation, error: Error) -> Step {
    Step::Failed { failure: EncodeFailure::Engine { operation, error } }
}

/// The step after the engine answered a request with the error state
/// `code`: failed in `operation` where that is an error, else `then`.
pub open spec fn checked(code: u32, operation: Operation, then: Step) -> Step {
    match encoder_error(code) {
        Err(error) => engine_failure(operation, error),
        Ok(()) => then,
    }
}

/// The step that sends the `index`-th configuring request to the settings
/// with the handle `settings`, or the failure where that request cannot be
/// made.
pub open spec fn configure_step(plan: EncodePlan, settings: usize, index: u8) -> Step {
    match plan.settings_call(settings, index) {
        Ok(call) => Step::Configure { index, call },
        Err(error) => engine_failure(Operation::Configure, error),
    }
}

/// The step as a pull of output goes on: asking the engine again, emitting
/// what the pull gave, or failed.
pub open spec fn pull_step(pull: PullStep, do_verify: bool) -> Step {
    match pull {
        PullStep::Process(pull) => Step::ProcessOutput { pull },
        PullStep::Done(status) => Step::Emit {
            len: status.bytes_written,
            keep: do_verify,
            last: !status.need_more_output,
        },
        PullStep::Failed(error) => engine_failure(Operation::PullOutput, error),
    }
}

/// The size of an output of `size` bytes after `len` more: their sum, or the
/// largest count there is where the sum is beyond it.
pub open spec fn counted_size(size: u64, len: usize) -> u64 {
    if size + len > u64::MAX {
        u64::MAX
    } else {
        (size + len) as u64
    }
}

impl JobView {
    /// The job at its beginning.
    pub open spec fn start(plan: EncodePlan, source: SourceInfo) -> JobView {
        JobView {
            plan,
            source,
            settings: 0,
            step: Step::CreateEncoder,
            transcode_failed: false,
            transcoded: false,
            do_verify: plan.do_verify,
            output_size: 0,
        }
    }

    /// The job at the step `step`.
    pub open spec fn goto(self, step: Step) -> JobView {
        JobView { step, ..self }
    }

    /// The job, failed.
    pub open spec fn fail(self, failure: EncodeFailure) -> JobView {
        self.goto(Step::Failed { failure })
    }

    /// What the job reports when it is done.
    pub open spec fn stats(self) -> EncodingStats {
        EncodingStats {
            is_lossless: self.plan.quality.is_lossless,
            is_transcoded: self.transcoded,
            is_verified: self.do_verify,
            output_size: self.output_size,
        }
    }

    /// The request that submits the input as a JPEG bitstream.
    pub open spec fn jpeg_call(self) -> FrameCall {
        FrameCall::AddJpegFrame { settings: self.settings, size: self.source.input_size }
    }

    /// The request that submits `len` bytes of decoded pixels.
    pub open spec fn pixels_call(self, len: usize) -> FrameCall {
        FrameCall::AddImageFrame {
            settings: self.settings,
            format: PixelFormat::interleaved(
                self.source.color_type.spec_layout().num_channels,
                self.source.color_type.spec_layout().sample_format,
            ),
            size: len,
        }
    }

    /// The basic properties that the job states of the image.
    pub open spec fn basic_info(self) -> BasicInfo {
        BasicInfo::of_image(
            self.source.width,
            self.source.height,
            self.source.bits_per_sample,
            self.plan.quality.is_lossless,
            self.source.color_type.spec_layout().has_alpha,
        )
    }

    /// The step that states the colour of the image: its profile where the
    /// input carries one, else sRGB with the relative intent.
    pub open spec fn color_step(self) -> Step {
        if self.source.has_icc {
            Step::SetIccProfile
        } else {
            Step::SetColorEncoding {
                encoding: ColorEncoding::rgb_d65(TRANSFER_FUNCTION_SRGB, RenderingIntent::Relative),
            }
        }
    }

    /// The step after the last of the output is in the sink: verifying
    /// where the job is to verify, else done.
    pub open spec fn drained_step(self) -> Step {
        if self.do_verify {
            Step::Verify { transcoded: self.transcoded }
        } else {
            Step::Finished { stats: self.stats() }
        }
    }

    /// The job after the engine answered the submission of the JPEG
    /// bitstream. Accepted, the input is transcoded and nothing is left to
    /// submit. Rejected, the job goes on to encode from pixels, with the
    /// same settings, and the output of a lossy encode will not be
    /// verified. Any other error ends the job.
    pub open spec fn after_jpeg(self, code: u32) -> JobView {
        match encoder_error(code) {
            Ok(()) => JobView { transcoded: true, step: Step::CloseInput, ..self },
            Err(error) => if is_transcode_rejection(error) {
                JobView {
                    transcode_failed: true,
                    do_verify: self.do_verify && self.plan.quality.is_lossless,
                    step: Step::StoreJpegMetadata { store: false },
                    ..self
                }
            } else {
                self.goto(engine_failure(Operation::AddJpegFrame, error))
            },
        }
    }

    /// The job after `len` bytes went to the sink: they are counted, up to
    /// the largest count there is, and the next pull begins unless this was
    /// the last.
    pub open spec fn emitted(self, len: usize, last: bool) -> JobView {
        let counted = JobView { output_size: counted_size(self.output_size, len), ..self };
        if last {
            counted.goto(counted.drained_step())
        } else {
            counted.goto(pull_step(OutputPull::begin(OUTPUT_BUFFER_SIZE), self.do_verify))
        }
    }

    /// The job after the host reported `event` for the pending step. A job
    /// that is done or has failed stays as it is. A report that does not
    /// answer the pending step ends the job.
    pub open spec fn next(self, event: Event) -> JobView {
        match self.step {
            Step::Finished { .. } | Step::Failed { .. } => self,
            Step::CreateEncoder => match event {
                Event::Created { handle } => if handle == 0 {
                    self.fail(EncodeFailure::CreateEncoder)
                } else {
                    self.goto(Step::CreateSettings)
                },
                _ => self.fail(EncodeFailure::Protocol),
            },
            Step::CreateSettings => match event {
                Event::Created { handle } => if handle == 0 {
                    self.goto(engine_failure(Operation::CreateSettings, Error::OutOfMemory))
                } else {
                    JobView {
                        settings: handle,
                        step: configure_step(self.plan, handle, 0),
                        ..self
                    }
                },
                _ => self.fail(EncodeFailure::Protocol),
            },
            Step::Configure { index, .. } => match event {
                Event::Engine { code } => self.goto(
                    checked(
                        code,
                        Operation::Configure,
                        if index + 1 < SETTINGS_CALLS {
                            configure_step(self.plan, self.settings, (index + 1) as u8)
                        } else {
                            Step::StoreJpegMetadata { store: self.plan.do_transcode }
                        },
                    ),
                ),
                _ => self.fail(EncodeFailure::Protocol),
            },
            Step::StoreJpegMetadata { store } => match event {
                Event::Engine { code } => self.goto(
                    checked(
                        code,
                        Operation::StoreJpegMetadata,
                        if store {
                            Step::AddJpegFrame { frame: self.jpeg_call() }
                        } else {
                            Step::SetBasicInfo { info: self.basic_info() }
                        },
                    ),
                ),
                _ => self.fail(EncodeFailure::Protocol),
            },
            Step::AddJpegFrame { .. } => match event {
                Event::Engine { code } => self.after_jpeg(code),
                _ => self.fail(EncodeFailure::Protocol),
            },
            Step::SetBasicInfo { .. } => match event {
                Event::Engine { code } => self.goto(
                    checked(code, Operation::SetBasicInfo, self.color_step()),
                ),
                _ => self.fail(EncodeFailure::Protocol),
            },
            Step::SetIccProfile | Step::SetColorEncoding { .. } => match event {
                Event::Engine { code } => self.goto(
                    checked(code, Operation::SetColor, Step::DecodePixels),
                ),
                _ => self.fail(EncodeFailure::Protocol),
            },
            Step::DecodePixels => match event {
                Event::Decoded { len } => self.goto(
                    Step::AddImageFrame { frame: self.pixels_call(len), keep_pixels: self.do_verify },
                ),
                Event::HostFailed => self.fail(EncodeFailure::DecodeInput),
                _ => self.fail(EncodeFailure::Protocol),
            },
            Step::AddImageFrame { .. } => match event {
                Event::Engine { code } => self.goto(
                    checked(code, Operation::AddImageFrame, Step::CloseInput),
                ),
                _ => self.fail(EncodeFailure::Protocol),
            },
            Step::CloseInput => match event {
                Event::Done => self.goto(Step::OpenSink),
                _ => self.fail(EncodeFailure::Protocol),
            },
            Step::OpenSink => match event {
                Event::Done => self.goto(
                    pull_step(OutputPull::begin(OUTPUT_BUFFER_SIZE), self.do_verify),
                ),
                Event::HostFailed => self.fail(EncodeFailure::Sink),
                _ => self.fail(EncodeFailure::Protocol),
            },
            Step::ProcessOutput { pull } => match event {
                Event::Output { answer } => self.goto(pull_step(pull.next(answer), self.do_verify)),
                _ => self.fail(EncodeFailure::Protocol),
            },
            Step::Emit { len, last, .. } => match event {
                Event::Done => self.emitted(len, last),
                Event::HostFailed => self.fail(EncodeFailure::Sink),
                _ => self.fail(EncodeFailure::Protocol),
            },
            Step::Verify { .. } => match event {
                Event::Verified { outcome } => match outcome {
                    Ok(()) => self.goto(Step::Finished { stats: self.stats() }),
                    Err(failure) => self.fail(EncodeFailure::Verify(failure)),
                },
                _ => self.fail(EncodeFailure::Protocol),
            },
        }
    }

    /// The job after the host reported `events`, one after the other.
    pub open spec fn run(self, events: Seq<Event>) -> JobView
        decreases events.len(),
    {
        if events.len() == 0 {
            self
        } else {
            self.run(events.drop_last()).next(events.last())
        }
    }
}

/// Whether the session of a job has what the pending step needs: an encoder
/// from the moment it is created, and from the moment the settings are
/// created until the last frame is begun, the settings and a key that
/// resolves to them; and before each is created, nothing of it.
spec fn session_fits(
    encoder: Option<JxlEncoder>,
    settings: Option<(FrameSettings, FrameSettingsKey)>,
    step: Step,
) -> bool {
    match step {
        Step::Finished { .. } | Step::Failed { .. } => true,
        Step::CreateEncoder => encoder is None && settings is None,
        Step::CreateSettings => encoder is Some && settings is None,
        Step::AddImageFrame { .. } | Step::CloseInput | Step::OpenSink | Step::ProcessOutput { .. }
        | Step::Emit { .. } | Step::Verify { .. } => encoder is Some,
        _ => {
            &&& encoder matches Some(session)
            &&& settings matches Some((created, key))
            &&& key.resolve(session@) == Ok::<usize, Error>(created.handle())
        },
    }
}

/// What a job has found out so far.
#[derive(Debug, Copy, Clone)]
struct Progress {
    transcode_failed: bool,
    transcoded: bool,
    do_verify: bool,
    output_size: u64,
}

impl Progress {
    /// What the job `job` has found out.
    spec fn of(job: JobView) -> Progress {
        Progress {
            transcode_failed: job.transcode_failed,
            transcoded: job.transcoded,
            do_verify: job.do_verify,
            output_size: job.output_size,
        }
    }

    /// The job `job` at the step `step`, having found out `self`.
    spec fn at(self, job: JobView, step: Step) -> JobView {
        JobView {
            step,
            transcode_failed: self.transcode_failed,
            transcoded: self.transcoded,
            do_verify: self.do_verify,
            output_size: self.output_size,
            ..job
        }
    }
}

/// The encode of one image.
#[derive(Debug)]
pub struct EncodeJob {
    plan: EncodePlan,
    source: SourceInfo,
    encoder: Option<JxlEncoder>,
    settings: Option<(FrameSettings, FrameSettingsKey)>,
    step: Step,
    progress: Progress,
}

/// The handle of the settings of a job, 0 before they are created.
spec fn settings_handle(settings: Option<(FrameSettings, FrameSettingsKey)>) -> usize {
    match settings {
        Some((created, _)) => created.handle(),
        None => 0,
    }
}

impl View for EncodeJob {
    type V = JobView;

    closed spec fn view(&self) -> JobView {
        JobView {
            plan: self.plan,
            source: self.source,
            settings: settings_handle(self.settings),
            step: self.step,
            transcode_failed: self.progress.transcode_failed,
            transcoded: self.progress.transcoded,
            do_verify: self.progress.do_verify,
            output_size: self.progress.output_size,
        }
    }
}

fn engine_failed(operation: Operation, error: Error) -> (step: Step)
    ensures
        step == engine_failure(operation, error),
{
    Step::Failed { failure: EncodeFailure::Engine { operation, error } }
}

fn configure(plan: &EncodePlan, settings: &FrameSettings, index: u8) -> (step: Step)
    ensures
        step == configure_step(*plan, settings.handle(), index),
{
    match plan.configure(settings, index) {
        Ok(call) => Step::Configure { index, call },
        Err(error) => engine_failed(Operation::Configure, error),
    }
}

fn pulling(pull: PullStep, do_verify: bool) -> (step: Step)
    ensures
        step == pull_step(pull, do_verify),
{
    match pull {
        PullStep::Process(pull) => Step::ProcessOutput { pull },
        PullStep::Done(status) => Step::Emit {
            len: status.bytes_written(),
            keep: do_verify,
            last: !status.need_more_output(),
        },
        PullStep::Failed(error) => engine_failed(Operation::PullOutput, error),
    }
}

/// Begins a frame on the settings that `key` names and offers `payload`
/// for it.
fn frame_call(encoder: &mut JxlEncoder, key: FrameSettingsKey, payload: Submission) -> (r: Result<
    FrameCall,
    Error,
>)
    ensures
        final(encoder)@ == old(encoder)@,
        match key.resolve(old(encoder)@) {
            Ok(settings) => r == Ok::<FrameCall, Error>(submission_call(settings, payload)),
            Err(error) => r == Err::<FrameCall, Error>(error),
        },
{
    let mut frame = encoder.add_frame(key)?;
    frame.offer(payload)
}

/// The step after the report on the creation of the encoder.
fn on_create_encoder(encoder: &mut Option<JxlEncoder>, event: Event, Ghost(job): Ghost<JobView>) -> (step:
    Step)
    requires
        job.step is CreateEncoder,
        *old(encoder) is None,
    ensures
        job.next(event) == job.goto(step),
        session_fits(*final(encoder), None, step),
{
    match event {
        Event::Created { handle } => match JxlEncoder::new(handle) {
            None => Step::Failed { failure: EncodeFailure::CreateEncoder },
            Some(session) => {
                *encoder = Some(session);
                Step::CreateSettings
            },
        },
        _ => Step::Failed { failure: EncodeFailure::Protocol },
    }
}

/// The step after the report on the creation of the settings, which are
/// taken into the session.
fn on_create_settings(
    plan: &EncodePlan,
    encoder: &mut JxlEncoder,
    event: Event,
    Ghost(job): Ghost<JobView>,
) -> (r: (Step, Option<(FrameSettings, FrameSettingsKey)>))
    requires
        job.step is CreateSettings,
        job.plan == *plan,
        job.settings == 0,
    ensures
        job.next(event) == (JobView { settings: settings_handle(r.1), step: r.0, ..job }),
        session_fits(Some(*final(encoder)), r.1, r.0),
{
    match event {
        Event::Created { handle } => match FrameSettings::new(encoder, None, handle) {
            Err(error) => (engine_failed(Operation::CreateSettings, error), None),
            Ok((created, key)) => (configure(plan, &created, 0), Some((created, key))),
        },
        _ => (Step::Failed { failure: EncodeFailure::Protocol }, None),
    }
}

/// The step after the report on a configuring request.
fn on_configure(
    plan: &EncodePlan,
    settings: &FrameSettings,
    index: u8,
    event: Event,
    Ghost(job): Ghost<JobView>,
) -> (step: Step)
    requires
        job.step matches Step::Configure { index: pending, .. } && pending == index,
        job.plan == *plan,
        job.settings == settings.handle(),
    ensures
        job.next(event) == job.goto(step),
        step is Configure || step is StoreJpegMetadata || step is Failed,
{
    match event {
        Event::Engine { code } => match Error::try_from_libjxl_encoder(code) {
            Err(error) => engine_failed(Operation::Configure, error),
            Ok(()) => if index < SETTINGS_CALLS - 1 {
                configure(plan, settings, index + 1)
            } else {
                Step::StoreJpegMetadata { store: plan.do_transcode }
            },
        },
        _ => Step::Failed { failure: EncodeFailure::Protocol },
    }
}

/// The step after the report on switching the storing of JPEG
/// reconstruction data: the submission of the bitstream where it was
/// switched on, else the first step of the encode from pixels.
fn on_store_jpeg_metadata(
    plan: &EncodePlan,
    source: &SourceInfo,
    encoder: &mut JxlEncoder,
    settings: &FrameSettings,
    key: FrameSettingsKey,
    store: bool,
    event: Event,
    Ghost(job): Ghost<JobView>,
) -> (step: Step)
    requires
        job.step == (Step::StoreJpegMetadata { store }),
        job.plan == *plan,
        job.source == *source,
        job.settings == settings.handle(),
        key.resolve(old(encoder)@) == Ok::<usize, Error>(settings.handle()),
    ensures
        job.next(event) == job.goto(step),
        final(encoder)@ == old(encoder)@,
        step is AddJpegFrame || step is SetBasicInfo || step is Failed,
{
    match event {
        Event::Engine { code } => match Error::try_from_libjxl_encoder(code) {
            Err(error) => engine_failed(Operation::StoreJpegMetadata, error),
            Ok(()) => if store {
                match frame_call(encoder, key, Submission::Jpeg { size: source.input_size }) {
                    Ok(frame) => Step::AddJpegFrame { frame },
                    Err(_) => Step::Failed { failure: EncodeFailure::Protocol },
                }
            } else {
                Step::SetBasicInfo {
                    info: BasicInfo::for_image(
                        source.width,
                        source.height,
                        source.bits_per_sample,
                        plan.quality.is_lossless,
                        source.color_type.layout().has_alpha,
                    ),
                }
            },
        },
        _ => Step::Failed { failure: EncodeFailure::Protocol },
    }
}

/// The step after the engine answered the submission of the bitstream.
fn on_jpeg_frame(plan: &EncodePlan, progress: &mut Progress, event: Event, Ghost(job): Ghost<JobView>) -> (step:
    Step)
    requires
        job.step is AddJpegFrame,
        job.plan == *plan,
        *old(progress) == Progress::of(job),
    ensures
        job.next(event) == final(progress).at(job, step),
        step is CloseInput || step is StoreJpegMetadata || step is Failed,
{
    match event {
        Event::Engine { code } => match Error::try_from_libjxl_encoder(code) {
            Ok(()) => {
                progress.transcoded = true;
                Step::CloseInput
            },
            Err(error) => match error {
                Error::BadInput | Error::JpegBitstreamReconstruction => {
                    progress.transcode_failed = true;
                    if !plan.quality.is_lossless {
                        progress.do_verify = false;
                    }
                    Step::StoreJpegMetadata { store: false }
                },
                _ => engine_failed(Operation::AddJpegFrame, error),
            },
        },
        _ => Step::Failed { failure: EncodeFailure::Protocol },
    }
}

/// The step after the report on a request that stated a property of the
/// image.
fn on_image_info(source: &SourceInfo, step: Step, event: Event, Ghost(job): Ghost<JobView>) -> (next:
    Step)
    requires
        job.step == step,
        job.source == *source,
        step is SetBasicInfo || step is SetIccProfile || step is SetColorEncoding,
    ensures
        job.next(event) == job.goto(next),
        next is SetIccProfile || next is SetColorEncoding || next is DecodePixels || next
            is Failed,
{
    match event {
        Event::Engine { code } => match Error::try_from_libjxl_encoder(code) {
            Err(error) => match step {
                Step::SetBasicInfo { .. } => engine_failed(Operation::SetBasicInfo, error),
                _ => engine_failed(Operation::SetColor, error),
            },
            Ok(()) => match step {
                Step::SetBasicInfo { .. } => if source.has_icc {
                    Step::SetIccProfile
                } else {
                    Step::SetColorEncoding { encoding: ColorEncoding::srgb(RenderingIntent::Relative) }
                },
                _ => Step::DecodePixels,
            },
        },
        _ => Step::Failed { failure: EncodeFailure::Protocol },
    }
}

/// The step after the report on the decoding of the pixels: their
/// submission.
fn on_decode_pixels(
    source: &SourceInfo,
    encoder: &mut JxlEncoder,
    settings: &FrameSettings,
    key: FrameSettingsKey,
    do_verify: bool,
    event: Event,
    Ghost(job): Ghost<JobView>,
) -> (step: Step)
    requires
        job.step is DecodePixels,
        job.source == *source,
        job.settings == settings.handle(),
        job.do_verify == do_verify,
        key.resolve(old(encoder)@) == Ok::<usize, Error>(settings.handle()),
    ensures
        job.next(event) == job.goto(step),
        final(encoder)@ == old(encoder)@,
        step is AddImageFrame || step is Failed,
{
    match event {
        Event::Decoded { len } => {
            let layout = source.color_type.layout();
            let payload = Submission::Pixels {
                num_channels: layout.num_channels,
                sample_format: layout.sample_format,
                size: len,
            };
            match frame_call(encoder, key, payload) {
                Ok(frame) => Step::AddImageFrame { frame, keep_pixels: do_verify },
                Err(_) => Step::Failed { failure: EncodeFailure::Protocol },
            }
        },
        Event::HostFailed => Step::Failed { failure: EncodeFailure::DecodeInput },
        _ => Step::Failed { failure: EncodeFailure::Protocol },
    }
}

/// What a job with the plan `plan` that has found out `progress` reports
/// when it is done.
fn stats_of(plan: &EncodePlan, progress: &Progress) -> (stats: EncodingStats)
    ensures
        stats == (EncodingStats {
            is_lossless: plan.quality.is_lossless,
            is_transcoded: progress.transcoded,
            is_verified: progress.do_verify,
            output_size: progress.output_size,
        }),
{
    EncodingStats {
        is_lossless: plan.quality.is_lossless,
        is_transcoded: progress.transcoded,
        is_verified: progress.do_verify,
        output_size: progress.output_size,
    }
}

/// The step after the report that output went to the sink.
fn on_emit(
    plan: &EncodePlan,
    len: usize,
    last: bool,
    progress: &mut Progress,
    event: Event,
    Ghost(job): Ghost<JobView>,
) -> (next: Step)
    requires
        job.step matches Step::Emit { len: pending, last: ends, .. } && pending == len && ends
            == last,
        job.plan == *plan,
        *old(progress) == Progress::of(job),
    ensures
        job.next(event) == final(progress).at(job, next),
        next is ProcessOutput || next is Emit || next is Verify || next is Finished || next
            is Failed,
{
    match event {
        Event::Done => {
            progress.output_size = progress.output_size.saturating_add(len as u64);
            if !last {
                pulling(OutputPull::start(OUTPUT_BUFFER_SIZE), progress.do_verify)
            } else if progress.do_verify {
                Step::Verify { transcoded: progress.transcoded }
            } else {
                Step::Finished { stats: stats_of(plan, progress) }
            }
        },
        Event::HostFailed => Step::Failed { failure: EncodeFailure::Sink },
        _ => Step::Failed { failure: EncodeFailure::Protocol },
    }
}

/// The step after the report on a step that follows the submission and
/// changes nothing but the step.
fn on_output(
    plan: &EncodePlan,
    step: Step,
    progress: &Progress,
    event: Event,
    Ghost(job): Ghost<JobView>,
) -> (next: Step)
    requires
        job.step == step,
        job.plan == *plan,
        step is AddImageFrame || step is OpenSink || step is ProcessOutput || step is Verify,
        *progress == Progress::of(job),
    ensures
        job.next(event) == job.goto(next),
        next is CloseInput || next is ProcessOutput || next is Emit || next is Finished || next
            is Failed,
{
    let protocol = Step::Failed { failure: EncodeFailure::Protocol };
    match step {
        Step::AddImageFrame { .. } => match event {
            Event::Engine { code } => match Error::try_from_libjxl_encoder(code) {
                Err(error) => engine_failed(Operation::AddImageFrame, error),
                Ok(()) => Step::CloseInput,
            },
            _ => protocol,
        },
        Step::OpenSink => match event {
            Event::Done => pulling(OutputPull::start(OUTPUT_BUFFER_SIZE), progress.do_verify),
            Event::HostFailed => Step::Failed { failure: EncodeFailure::Sink },
            _ => protocol,
        },
        Step::ProcessOutput { pull } => match event {
            Event::Output { answer } => pulling(pull.advance(answer), progress.do_verify),
            _ => protocol,
        },
        _ => match event {
            Event::Verified { outcome } => match outcome {
                Ok(()) => Step::Finished { stats: stats_of(plan, progress) },
                Err(failure) => Step::Failed { failure: EncodeFailure::Verify(failure) },
            },
            _ => protocol,
        },
    }
}

impl EncodeJob {
    #[verifier::type_invariant]
    spec fn inv(self) -> bool {
        session_fits(self.encoder, self.settings, self.step)
    }

    /// Begins the encode of the input `source` as `plan` says.
    pub fn new(plan: EncodePlan, source: SourceInfo) -> (job: EncodeJob)
        ensures
            job@ == JobView::start(plan, source),
    {
        EncodeJob {
            plan,
            source,
            encoder: None,
            settings: None,
            step: Step::CreateEncoder,
            progress: Progress {
                transcode_failed: false,
                transcoded: false,
                do_verify: plan.do_verify,
                output_size: 0,
            },
        }
    }

    /// What the host does next.
    pub fn step(&self) -> (step: Step)
        ensures
            step == self@.step,
    {
        self.step
    }

    /// Whether the job is over, done or failed.
    pub fn is_over(&self) -> (r: bool)
        ensures
            r == (self@.step is Finished || self@.step is Failed),
    {
        match self.step {
            Step::Finished { .. } | Step::Failed { .. } => true,
            _ => false,
        }
    }

    /// Takes the host's report on the pending step and moves to the next
    /// step.
    pub fn advance(self, event: Event) -> (job: EncodeJob)
        ensures
            job@ == self@.next(event),
    {
        proof {
            use_type_invariant(&self);
        }
        let ghost before = self@;
        let EncodeJob { plan, source, encoder, settings, step, progress } = self;
        let mut encoder = encoder;
        let mut settings = settings;
        let mut progress = progress;
        let protocol = Step::Failed { failure: EncodeFailure::Protocol };
        let next = match step {
            Step::Finished { .. } | Step::Failed { .. } => step,
            Step::CreateEncoder => on_create_encoder(&mut encoder, event, Ghost(before)),
            Step::CreateSettings => match encoder.take() {
                Some(mut session) => {
                    let (next, created) = on_create_settings(
                        &plan,
                        &mut session,
                        event,
                        Ghost(before),
                    );
                    encoder = Some(session);
                    settings = created;
                    next
                },
                None => protocol,
            },
            Step::Configure { index, .. } => match settings {
                Some((created, _)) => on_configure(&plan, &created, index, event, Ghost(before)),
                None => protocol,
            },
            Step::StoreJpegMetadata { store } => match (encoder.take(), settings) {
                (Some(mut session), Some((created, key))) => {
                    let next = on_store_jpeg_metadata(
                        &plan,
                        &source,
                        &mut session,
                        &created,
                        key,
                        store,
                        event,
                        Ghost(before),
                    );
                    encoder = Some(session);
                    next
                },
                (session, _) => {
                    encoder = session;
                    protocol
                },
            },
            Step::AddJpegFrame { .. } => on_jpeg_frame(&plan, &mut progress, event, Ghost(before)),
            Step::SetBasicInfo { .. } | Step::SetIccProfile | Step::SetColorEncoding { .. } => {
                on_image_info(&source, step, event, Ghost(before))
            },
            Step::DecodePixels => match (encoder.take(), settings) {
                (Some(mut session), Some((created, key))) => {
                    let next = on_decode_pixels(
                        &source,
                        &mut session,
                        &created,
                        key,
                        progress.do_verify,
                        event,
                        Ghost(before),
                    );
                    encoder = Some(session);
                    next
                },
                (session, _) => {
                    encoder = session;
                    protocol
                },
            },
            Step::CloseInput => match (event, encoder.take()) {
                (Event::Done, Some(mut session)) => {
                    session.close_input();
                    encoder = Some(session);
                    Step::OpenSink
                },
                (_, session) => {
                    encoder = session;
                    protocol
                },
            },
            Step::Emit { len, last, .. } => on_emit(
                &plan,
                len,
                last,
                &mut progress,
                event,
                Ghost(before),
            ),
            _ => on_output(&plan, step, &progress, event, Ghost(before)),
        };
        EncodeJob { plan, source, encoder, settings, step: next, progress }
    }
}

/// Plans the encode that `options` ask for on the input `source` and begins
/// it. An effort that names no tier is a usage error.
pub fn encode_single(options: &EncodeOptions, source: SourceInfo) -> (r: Result<EncodeJob, Error>)
    ensures
        match EncodePlan::of(*options, source.is_jpeg) {
            Ok(plan) => r is Ok && r->Ok_0@ == JobView::start(plan, source),
            Err(error) => r is Err && r->Err_0 == error,
        },
{
    let plan = EncodePlan::new(options, source.is_jpeg)?;
    Ok(EncodeJob::new(plan, source))
}

} // verus!
