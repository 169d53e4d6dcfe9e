//! The encoder session: the table of frame settings, the close state and the
//! output-pull protocol.

use vstd::prelude::*;
use crate::basic_info::{BasicInfo, ColorEncoding};
use crate::codes::{ENC_ERROR, ENC_SUCCESS, JXL_FALSE, JXL_TRUE};
use crate::encoder_frame::EncoderFrame;
use crate::error::{encoder_error, Error};
use crate::frame_settings::{FrameSettings, FrameSettingsKey};

verus! {

/// How far a session's input has been closed. The order of the variants is
/// the order in which a session passes through them.
#[derive(Debug, Clone, Copy, PartialEq, Eq, Hash, Structural)]
pub enum CloseState {
    /// Frames may still be added.
    Open,
    /// No more frames; boxes may still be added.
    FramesClosed,
    /// Nothing more will be added: output can be drained to its end.
    InputClosed,
}

impl CloseState {
    /// The position of the state in the one-way order.
    pub open spec fn rank(self) -> nat {
        match self {
            CloseState::Open => 0,
            CloseState::FramesClosed => 1,
            CloseState::InputClosed => 2,
        }
    }
}

/// What a session is, to its contracts.
pub struct EncoderView {
    /// The engine's handle of the encoder, which is also the session's identity.
    pub engine: usize,
    /// The engine's handles of the frame settings, in the order of their creation.
    pub settings: Seq<usize>,
    /// How far the input has been closed.
    pub close_state: CloseState,
}

impl EncoderView {
    /// `self` is a later state of the session `before`: the same engine, every
    /// settings handle of `before` still at its index, and the close state not
    /// moved back.
    pub open spec fn extends(self, before: EncoderView) -> bool {
        &&& self.engine == before.engine
        &&& before.settings.len() <= self.settings.len()
        &&& forall|i: int| 0 <= i < before.settings.len() ==> self.settings[i] == before.settings[i]
        &&& before.close_state.rank() <= self.close_state.rank()
    }
}

/// One request to the engine about the encoder as a whole. The host sends
/// it and then reads the encoder's error state.
#[derive(Debug, Copy, Clone, PartialEq, Eq, Hash, Structural)]
pub enum EncoderCall {
    /// State the basic properties of the image.
    SetBasicInfo { info: BasicInfo },
    /// State a named colour encoding.
    SetColorEncoding { encoding: ColorEncoding },
    /// State a colour profile of `size` bytes.
    SetIccProfile { size: usize },
    /// Store the data that reconstructs a JPEG bitstream, or do not: `store`
    /// is the engine's true or false.
    StoreJpegMetadata { store: i32 },
}

/// What creating and configuring settings returns, where the new entry has
/// the index `index` in the session of `engine` and the configuration ended
/// with `configured`: the key of the entry if that succeeded, else its error.
pub open spec fn configured_key(
    engine: usize,
    index: usize,
    configured: Result<(), Error>,
    r: Result<FrameSettingsKey, Error>,
) -> bool {
    match configured {
        Ok(()) => r is Ok && r->Ok_0.engine() == engine && r->Ok_0.index() == index,
        Err(e) => r == Err::<FrameSettingsKey, Error>(e),
    }
}

/// An encoder session. It owns the engine's encoder handle and the handles of
/// all frame settings created in it; the engine frees them all together when
/// the encoder is destroyed.
#[derive(Debug)]
pub struct JxlEncoder {
    encoder: usize,
    frame_settings: Vec<usize>,
    close_state: CloseState,
}

impl View for JxlEncoder {
    type V = EncoderView;

    closed spec fn view(&self) -> EncoderView {
        EncoderView {
            engine: self.encoder,
            settings: self.frame_settings@,
            close_state: self.close_state,
        }
    }
}

impl JxlEncoder {
    /// Starts a session on the encoder that the engine created. `engine` is
    /// the handle that the engine returned, 0 where it could not allocate.
    pub fn new(engine: usize) -> (r: Option<JxlEncoder>)
        ensures
            engine == 0 ==> r is None,
            engine != 0 ==> r is Some && r->0@ == (EncoderView {
                engine,
                settings: Seq::empty(),
                close_state: CloseState::Open,
            }),
    {
        if engine == 0 {
            None
        } else {
            Some(JxlEncoder { encoder: engine, frame_settings: Vec::new(), close_state: CloseState::Open })
        }
    }

    /// The engine's handle of the encoder.
    pub fn engine(&self) -> (r: usize)
        ensures
            r == self@.engine,
    {
        self.encoder
    }

    /// How far the input has been closed.
    pub fn close_state(&self) -> (r: CloseState)
        ensures
            r == self@.close_state,
    {
        self.close_state
    }

    /// The number of frame settings created in this session.
    pub fn settings_len(&self) -> (r: usize)
        ensures
            r == self@.settings.len(),
    {
        self.frame_settings.len()
    }

    /// The handle of the `index`-th frame settings, if that many were created.
    pub fn settings_handle(&self, index: usize) -> (r: Option<usize>)
        ensures
            index < self@.settings.len() ==> r == Some(self@.settings[index as int]),
            index >= self@.settings.len() ==> r is None,
    {
        if index < self.frame_settings.len() {
            Some(self.frame_settings[index])
        } else {
            None
        }
    }

    /// Appends the handle of newly created frame settings and returns its index.
    pub(crate) fn register(&mut self, handle: usize) -> (index: usize)
        ensures
            index == old(self)@.settings.len(),
            final(self)@ == (EncoderView { settings: old(self)@.settings.push(handle), ..old(self)@ }),
    {
        let index = self.frame_settings.len();
        self.frame_settings.push(handle);
        index
    }

    /// Creates frame settings with the engine's defaults and configures them.
    /// The host has asked the engine for new settings, and `created` is the
    /// handle that came back, 0 where the engine could not allocate. The
    /// settings are taken into the session, then `f` configures them; the
    /// key is returned only if `f` succeeds.
    pub fn create_frame_settings_with<F: FnOnce(FrameSettings) -> Result<(), Error>>(
        &mut self,
        created: usize,
        f: F,
    ) -> (r: Result<FrameSettingsKey, Error>)
        requires
            forall|s: FrameSettings| s.handle() == created ==> call_requires(f, (s,)),
        ensures
            final(self)@.extends(old(self)@),
            created == 0 ==> r == Err::<FrameSettingsKey, Error>(Error::OutOfMemory) && final(self)@
                == old(self)@,
            created != 0 ==> {
                &&& final(self)@ == (EncoderView {
                    settings: old(self)@.settings.push(created),
                    ..old(self)@
                })
                &&& exists|s: FrameSettings, c: Result<(), Error>|
                    {
                        &&& #[trigger] call_ensures(f, (s,), c)
                        &&& s.engine() == old(self)@.engine
                        &&& s.handle() == created
                        &&& configured_key(
                            old(self)@.engine,
                            old(self)@.settings.len() as usize,
                            c,
                            r,
                        )
                    }
            },
    {
        let (settings, key) = FrameSettings::new(self, None, created)?;
        let configured = f(settings);
        match configured {
            Ok(()) => Ok(key),
            Err(e) => Err(e),
        }
    }

    /// Creates frame settings that start as a copy of those of `source`, and
    /// configures them. The host has asked the engine for settings copied
    /// from the handle that `source` resolves to, and `created` is the handle
    /// that came back, 0 where the engine could not allocate. A source key
    /// that names no settings of this session is a usage error.
    pub fn clone_modify_frame_settings_with<F: FnOnce(FrameSettings) -> Result<(), Error>>(
        &mut self,
        source: FrameSettingsKey,
        created: usize,
        f: F,
    ) -> (r: Result<FrameSettingsKey, Error>)
        requires
            forall|s: FrameSettings| s.handle() == created ==> call_requires(f, (s,)),
        ensures
            final(self)@.extends(old(self)@),
            match FrameSettings::create_outcome(old(self)@, Some(source), created) {
                Err(e) => r == Err::<FrameSettingsKey, Error>(e) && final(self)@ == old(self)@,
                Ok(()) => {
                    &&& final(self)@ == (EncoderView {
                        settings: old(self)@.settings.push(created),
                        ..old(self)@
                    })
                    &&& exists|s: FrameSettings, c: Result<(), Error>|
                        {
                            &&& #[trigger] call_ensures(f, (s,), c)
                            &&& s.engine() == old(self)@.engine
                            &&& s.handle() == created
                            &&& configured_key(
                                old(self)@.engine,
                                old(self)@.settings.len() as usize,
                                c,
                                r,
                            )
                        }
                },
            },
    {
        let (settings, key) = FrameSettings::new(self, Some(source), created)?;
        let configured = f(settings);
        match configured {
            Ok(()) => Ok(key),
            Err(e) => Err(e),
        }
    }

    /// Configures the settings that `settings_key` names. A key that names no
    /// settings of this session is a usage error, and `f` is not called.
    pub fn update_frame_settings_with<F: FnOnce(FrameSettings) -> Result<(), Error>>(
        &mut self,
        settings_key: FrameSettingsKey,
        f: F,
    ) -> (r: Result<(), Error>)
        requires
            forall|s: FrameSettings|
                settings_key.resolve(old(self)@) == Ok::<usize, Error>(s.handle())
                    ==> call_requires(f, (s,)),
        ensures
            final(self)@ == old(self)@,
            match settings_key.resolve(old(self)@) {
                Err(e) => r == Err::<(), Error>(e),
                Ok(handle) => exists|s: FrameSettings|
                    {
                        &&& #[trigger] call_ensures(f, (s,), r)
                        &&& s.engine() == old(self)@.engine
                        &&& s.handle() == handle
                    },
            },
    {
        let settings = settings_key.try_index(self)?;
        f(settings)
    }

    /// The request that states the basic properties of the image. The
    /// engine takes it only before the first frame.
    pub fn set_basic_info(&mut self, basic_info: &BasicInfo) -> (call: EncoderCall)
        ensures
            final(self)@ == old(self)@,
            call == (EncoderCall::SetBasicInfo { info: *basic_info }),
    {
        EncoderCall::SetBasicInfo { info: *basic_info }
    }

    /// The request that states a named colour encoding. The engine takes it
    /// only before the first frame.
    pub fn set_color_encoding(&mut self, color_encoding: &ColorEncoding) -> (call: EncoderCall)
        ensures
            final(self)@ == old(self)@,
            call == (EncoderCall::SetColorEncoding { encoding: *color_encoding }),
    {
        EncoderCall::SetColorEncoding { encoding: *color_encoding }
    }

    /// The request that states the colour profile `icc`. The engine takes
    /// it only before the first frame.
    pub fn set_icc_profile(&mut self, icc: &[u8]) -> (call: EncoderCall)
        ensures
            final(self)@ == old(self)@,
            call == (EncoderCall::SetIccProfile { size: icc@.len() as usize }),
    {
        EncoderCall::SetIccProfile { size: icc.len() }
    }

    /// The request that switches the storing of JPEG reconstruction data on
    /// or off.
    pub fn set_jpeg_reconstruction(&mut self, store_jpeg_metadata: bool) -> (call: EncoderCall)
        ensures
            final(self)@ == old(self)@,
            call == (EncoderCall::StoreJpegMetadata {
                store: if store_jpeg_metadata {
                    JXL_TRUE
                } else {
                    JXL_FALSE
                },
            }),
    {
        let store = if store_jpeg_metadata {
            JXL_TRUE
        } else {
            JXL_FALSE
        };
        EncoderCall::StoreJpegMetadata { store }
    }

    /// Begins the submission of a frame with the settings that
    /// `settings_key` names. A key that names no settings of this session is
    /// a usage error.
    pub fn add_frame(&mut self, settings_key: FrameSettingsKey) -> (r: Result<EncoderFrame, Error>)
        ensures
            final(self)@ == old(self)@,
            match settings_key.resolve(old(self)@) {
                Err(e) => r == Err::<EncoderFrame, Error>(e),
                Ok(handle) => r is Ok && r->Ok_0.engine() == old(self)@.engine && r->Ok_0.pending()
                    == Some(handle),
            },
    {
        EncoderFrame::new(self, settings_key)
    }

    /// Records that the host told the engine to accept no more frames. A
    /// session whose input is closed stays so.
    pub fn close_frames(&mut self)
        ensures
            final(self)@ == (EncoderView {
                close_state: if old(self)@.close_state == CloseState::InputClosed {
                    CloseState::InputClosed
                } else {
                    CloseState::FramesClosed
                },
                ..old(self)@
            }),
            final(self)@.extends(old(self)@),
    {
        match self.close_state {
            CloseState::InputClosed => {},
            _ => {
                self.close_state = CloseState::FramesClosed;
            },
        }
    }

    /// Records that the host told the engine to accept no more input at all.
    pub fn close_input(&mut self)
        ensures
            final(self)@ == (EncoderView { close_state: CloseState::InputClosed, ..old(self)@ }),
            final(self)@.extends(old(self)@),
    {
        self.close_state = CloseState::InputClosed;
    }
}

/// The smallest buffer that the engine can make progress with.
pub const MIN_OUTPUT_BUFFER: usize = 32;

/// The result of one pull of output.
#[derive(Debug, Copy, Clone, PartialEq, Eq, Structural)]
pub struct OutputStatus {
    /// The number of bytes written to the front of the buffer.
    pub bytes_written: usize,
    /// Whether more output remains, so that the caller pulls again.
    pub need_more_output: bool,
}

impl OutputStatus {
    /// The number of bytes written to the front of the buffer.
    pub fn bytes_written(&self) -> (r: usize)
        ensures
            r == self.bytes_written,
    {
        self.bytes_written
    }

    /// Whether more output remains, so that the caller pulls again.
    pub fn need_more_output(&self) -> (r: bool)
        ensures
            r == self.need_more_output,
    {
        self.need_more_output
    }
}

/// What the engine answered to one request for output.
#[derive(Debug, Copy, Clone, PartialEq, Eq, Structural)]
pub struct EngineOutput {
    /// The status that the request returned.
    pub status: u32,
    /// The number of bytes that the engine left unused at the end of the buffer.
    pub bytes_avail: usize,
    /// The encoder's error state after the request.
    pub error: u32,
}

/// A pull of output in progress.
#[derive(Debug, Copy, Clone, PartialEq, Eq, Structural)]
pub struct OutputPull {
    /// The size of the caller's buffer.
    pub capacity: usize,
    /// The number of bytes still unused at the end of the buffer.
    pub avail: usize,
}

/// Where a pull of output stands.
#[derive(Debug, Copy, Clone, PartialEq, Eq, Structural)]
pub enum PullStep {
    /// The host asks the engine to emit into the unused end of the buffer
    /// and hands the answer to [`OutputPull::advance`].
    Process(OutputPull),
    /// The pull is over.
    Done(OutputStatus),
    /// The pull failed.
    Failed(Error),
}

/// The error of a failed output request: what the encoder's error state
/// says, and bad input where that state names no error.
pub open spec fn output_error(code: u32) -> Error {
    match encoder_error(code) {
        Err(e) => e,
        Ok(()) => Error::BadInput,
    }
}

impl OutputPull {
    /// The first step of a pull into a buffer of `capacity` bytes. With less
    /// than 32 bytes the engine cannot make progress: the pull is over at
    /// once, with nothing written and more output to come.
    pub open spec fn begin(capacity: usize) -> PullStep {
        if capacity < MIN_OUTPUT_BUFFER {
            PullStep::Done(OutputStatus { bytes_written: 0, need_more_output: true })
        } else {
            PullStep::Process(OutputPull { capacity, avail: capacity })
        }
    }

    /// The step after the engine answered `answer`. A pull that claims more
    /// unused room than its buffer has was not made by this session. A
    /// failed request ends the pull with the encoder's error. An engine that
    /// reports more unused room than it was given has broken the protocol.
    /// On success nothing is left to emit. Otherwise more output is pending:
    /// the host asks again while at least 32 bytes are unused, and else the
    /// caller gets what was written and pulls again.
    pub open spec fn next(self, answer: EngineOutput) -> PullStep {
        if self.avail > self.capacity {
            PullStep::Failed(Error::ApiUsage)
        } else if answer.status == ENC_ERROR {
            PullStep::Failed(output_error(answer.error))
        } else if answer.bytes_avail > self.avail {
            PullStep::Failed(Error::Unknown)
        } else if answer.status == ENC_SUCCESS {
            PullStep::Done(
                OutputStatus {
                    bytes_written: (self.capacity - answer.bytes_avail) as usize,
                    need_more_output: false,
                },
            )
        } else if answer.bytes_avail >= MIN_OUTPUT_BUFFER {
            PullStep::Process(OutputPull { capacity: self.capacity, avail: answer.bytes_avail })
        } else {
            PullStep::Done(
                OutputStatus {
                    bytes_written: (self.capacity - answer.bytes_avail) as usize,
                    need_more_output: true,
                },
            )
        }
    }

    /// Begins a pull into a buffer of `capacity` bytes.
    pub fn start(capacity: usize) -> (step: PullStep)
        ensures
            step == Self::begin(capacity),
    {
        if capacity < MIN_OUTPUT_BUFFER {
            PullStep::Done(OutputStatus { bytes_written: 0, need_more_output: true })
        } else {
            PullStep::Process(OutputPull { capacity, avail: capacity })
        }
    }

    /// The offset in the buffer at which the engine goes on writing.
    pub fn offset(&self) -> (r: usize)
        ensures
            r == if self.avail <= self.capacity {
                self.capacity - self.avail
            } else {
                0
            },
    {
        if self.avail <= self.capacity {
            self.capacity - self.avail
        } else {
            0
        }
    }

    /// Takes the engine's answer to the request and says how the pull goes on.
    pub fn advance(self, answer: EngineOutput) -> (step: PullStep)
        ensures
            step == self.next(answer),
    {
        if self.avail > self.capacity {
            PullStep::Failed(Error::ApiUsage)
        } else if answer.status == ENC_ERROR {
            let error = match Error::try_from_libjxl_encoder(answer.error) {
                Err(e) => e,
                Ok(()) => Error::BadInput,
            };
            PullStep::Failed(error)
        } else if answer.bytes_avail > self.avail {
            PullStep::Failed(Error::Unknown)
        } else if answer.status == ENC_SUCCESS {
            PullStep::Done(
                OutputStatus {
                    bytes_written: self.capacity - answer.bytes_avail,
                    need_more_output: false,
                },
            )
        } else if answer.bytes_avail >= MIN_OUTPUT_BUFFER {
            PullStep::Process(OutputPull { capacity: self.capacity, avail: answer.bytes_avail })
        } else {
            PullStep::Done(
                OutputStatus {
                    bytes_written: self.capacity - answer.bytes_avail,
                    need_more_output: true,
                },
            )
        }
    }
}

impl JxlEncoder {
    /// Begins a pull of output into `buffer`. A buffer of less than 32
    /// bytes ends the pull at once, with nothing written and more output to
    /// come, whatever state the session is in. Else the host asks the engine
    /// to emit into the buffer, and [`OutputPull::advance`] takes each answer
    /// until the pull is over.
    pub fn pull_outputs(&mut self, buffer: &[u8]) -> (step: PullStep)
        ensures
            final(self)@ == old(self)@,
            step == OutputPull::begin(buffer@.len() as usize),
    {
        OutputPull::start(buffer.len())
    }
}

/// A pull never loses ground and never leaves the buffer: a pull that goes
/// on has the same buffer and no more unused room than before, and still
/// enough for the engine to make progress; a pull that is over has written
/// no more than the buffer holds.
pub proof fn lemma_pull_makes_bounded_progress(pull: OutputPull, answer: EngineOutput)
    ensures
        pull.next(answer) matches PullStep::Process(then) ==> then.capacity == pull.capacity
            && MIN_OUTPUT_BUFFER <= then.avail <= pull.avail,
        pull.next(answer) matches PullStep::Done(status) ==> status.bytes_written
            <= pull.capacity,
{
}

/// A buffer of less than 32 bytes always gives nothing written, more output
/// to come and no error.
pub proof fn lemma_small_buffer_pulls_nothing(capacity: usize)
    requires
        capacity < MIN_OUTPUT_BUFFER,
    ensures
        OutputPull::begin(capacity) == PullStep::Done(
            OutputStatus { bytes_written: 0, need_more_output: true },
        ),
{
}

/// A later state of a later state is a later state, and every state is a
/// later state of itself.
pub proof fn lemma_extends_is_an_order(a: EncoderView, b: EncoderView, c: EncoderView)
    requires
        b.extends(a),
        c.extends(b),
    ensures
        c.extends(a),
        a.extends(a),
{
}

/// The key that a creation returns names the created settings for the life
/// of the session. `key` is the key returned when `created` was taken into
/// the session in state `before`: it carries the index that the table had as
/// its length then. In every later state of the session, whatever was done
/// in between, it resolves to `created`.
pub proof fn lemma_key_resolves_for_life(
    before: EncoderView,
    created: usize,
    key: FrameSettingsKey,
    later: EncoderView,
)
    requires
        key.engine() == before.engine,
        key.index() == before.settings.len(),
        later.extends(EncoderView { settings: before.settings.push(created), ..before }),
    ensures
        key.resolve(later) == Ok::<usize, Error>(created),
{
    let after = EncoderView { settings: before.settings.push(created), ..before };
    assert(after.settings[key.index() as int] == created);
}

/// Keys resolve in the order of creation. From the state `start` on, the
/// settings with the handles `handles` are taken into a session one after
/// the other, so that the key of the `i`-th of them carries the index that
/// the table had when it came. In every later state of the session that key
/// resolves to the `i`-th handle. In a session that began empty, the `i`-th
/// key resolves to the `i`-th settings ever created.
pub proof fn lemma_keys_resolve_in_creation_order(
    start: EncoderView,
    handles: Seq<usize>,
    i: int,
    key: FrameSettingsKey,
    later: EncoderView,
)
    requires
        0 <= i < handles.len(),
        key.engine() == start.engine,
        key.index() == start.settings.len() + i,
        later.extends(EncoderView { settings: start.settings + handles, ..start }),
    ensures
        key.resolve(later) == Ok::<usize, Error>(handles[i]),
{
    let after = EncoderView { settings: start.settings + handles, ..start };
    assert(after.settings[key.index() as int] == handles[i]);
}

/// Resolution is stable: a key that names settings in one state of a session
/// names the same settings in every later state.
pub proof fn lemma_resolution_is_stable(key: FrameSettingsKey, before: EncoderView, later: EncoderView)
    requires
        later.extends(before),
        key.resolves_in(before),
    ensures
        key.resolve(later) == key.resolve(before),
{
}

/// A key of one session never resolves in another: two sessions differ in
/// their engine handle, and the key of the one is a usage error in the other.
pub proof fn lemma_foreign_key_is_rejected(key: FrameSettingsKey, own: EncoderView, other: EncoderView)
    requires
        key.engine() == own.engine,
        other.engine != own.engine,
    ensures
        key.resolve(other) == Err::<usize, Error>(Error::ApiUsage),
{
}

} // verus!
