//! What holds of every encode job, whatever the host reports.

use vstd::prelude::*;
use crate::encode::{EncodeOptions, EncodePlan};
use crate::encoder_frame::FrameCall;
use crate::error::encoder_error;
use crate::frame_settings::SettingsCall;
use crate::job::{is_transcode_rejection, Event, JobView, Step};
use crate::source::SourceInfo;

verus! {

/// The place of a step on the path of an encode. Steps that alternate, as
/// asking for output and emitting it do, share a place.
pub open spec fn rank(step: Step) -> nat {
    match step {
        Step::CreateEncoder => 0,
        Step::CreateSettings => 1,
        Step::Configure { .. } => 2,
        Step::StoreJpegMetadata { store } => if store {
            3
        } else {
            5
        },
        Step::AddJpegFrame { .. } => 4,
        Step::SetBasicInfo { .. } => 6,
        Step::SetIccProfile | Step::SetColorEncoding { .. } => 7,
        Step::DecodePixels => 8,
        Step::AddImageFrame { .. } => 9,
        Step::CloseInput => 10,
        Step::OpenSink => 11,
        Step::ProcessOutput { .. } | Step::Emit { .. } => 12,
        Step::Verify { .. } => 13,
        Step::Finished { .. } | Step::Failed { .. } => 14,
    }
}

/// Whether a step belongs to the encode from pixels.
pub open spec fn on_pixel_path(step: Step) -> bool {
    5 <= rank(step) <= 9
}

/// The handle of the settings that a submission is made with.
pub open spec fn frame_settings_of(frame: FrameCall) -> usize {
    match frame {
        FrameCall::AddImageFrame { settings, .. } => settings,
        FrameCall::AddJpegFrame { settings, .. } => settings,
    }
}

/// The handle of the settings that a configuring request goes to.
pub open spec fn call_settings_of(call: SettingsCall) -> usize {
    match call {
        SettingsCall::SetOption { settings, .. } => settings,
        SettingsCall::SetLossless { settings } => settings,
        SettingsCall::SetDistance { settings, .. } => settings,
        SettingsCall::SetFrameHeader { settings, .. } => settings,
    }
}

/// What holds of a job at every moment of its life, whatever its plan.
pub open spec fn on_course(job: JobView) -> bool {
    // The pixel path is entered only after a rejection, where a transcode is planned.
    &&& job.plan.do_transcode && on_pixel_path(job.step) ==> job.transcode_failed
    // A transcode happens only where it is planned, and never after a rejection.
    &&& job.transcoded ==> job.plan.do_transcode && !job.transcode_failed && rank(job.step)
        >= 10
    &&& job.transcode_failed ==> job.plan.do_transcode && rank(job.step) >= 5
    // Without a planned transcode the bitstream is never submitted.
    &&& !job.plan.do_transcode ==> rank(job.step) != 3 && rank(job.step) != 4
    // Past the submission, an encode is transcoded exactly if it did not go through the pixels.
    &&& 10 <= rank(job.step) <= 13 ==> (job.transcoded <==> job.plan.do_transcode
        && !job.transcode_failed)
    // Every request names the settings of the job.
    &&& job.step matches Step::Configure { call, .. } ==> call_settings_of(call) == job.settings
    &&& job.step matches Step::AddJpegFrame { frame } ==> frame == job.jpeg_call()
    &&& job.step matches Step::AddImageFrame { frame, .. } ==> frame_settings_of(frame)
        == job.settings
    // What verification will compare is kept.
    &&& job.step matches Step::AddImageFrame { keep_pixels, .. } ==> keep_pixels == job.do_verify
    &&& job.step matches Step::Emit { keep, .. } ==> keep == job.do_verify
    // What the job reports is what it found out.
    &&& job.step matches Step::Finished { stats } ==> stats.is_transcoded == job.transcoded
        && stats.is_lossless == job.plan.quality.is_lossless
    &&& job.step matches Step::Verify { transcoded } ==> transcoded == job.transcoded
        && job.do_verify
}

/// Whether a job verifies only an output that holds its input exactly: that
/// of a lossless encode, and that of a transcode.
pub open spec fn verifies_exact_output(job: JobView) -> bool {
    job.do_verify ==> job.plan.quality.is_lossless || (job.plan.do_transcode
        && !job.transcode_failed)
}

/// Every configuring request of a plan goes to the settings it is made for.
pub proof fn lemma_settings_calls_name_settings(plan: EncodePlan, settings: usize, index: u8)
    ensures
        plan.settings_call(settings, index) matches Ok(call) ==> call_settings_of(call) == settings,
{
}

/// A job begins on course.
pub proof fn lemma_start_is_on_course(plan: EncodePlan, source: SourceInfo)
    ensures
        on_course(JobView::start(plan, source)),
{
}

/// A report leaves a job on course, and never takes it back on its path:
/// the settings are complete before a frame is submitted, and no frame is
/// submitted once the input is closed. The settings, once created, stay the
/// settings of the job. A job that is over stays as it is.
pub proof fn lemma_next_keeps_course(job: JobView, event: Event)
    requires
        on_course(job),
    ensures
        on_course(job.next(event)),
        rank(job.next(event).step) >= rank(job.step),
        rank(job.step) >= 2 ==> job.next(event).settings == job.settings,
        rank(job.step) == 14 ==> job.next(event) == job,
        job.next(event).plan == job.plan,
        job.next(event).source == job.source,
        job.transcoded ==> job.next(event).transcoded,
{
    match job.step {
        Step::Configure { index, .. } => {
            if index + 1 < crate::encode::SETTINGS_CALLS {
                lemma_settings_calls_name_settings(job.plan, job.settings, (index + 1) as u8);
            }
        },
        Step::CreateSettings => {
            match event {
                Event::Created { handle } => {
                    lemma_settings_calls_name_settings(job.plan, handle, 0);
                },
                _ => {},
            }
        },
        _ => {},
    }
}

/// Whatever the host reports, a job stays on course and keeps its plan.
pub proof fn lemma_run_keeps_course(job: JobView, events: Seq<Event>)
    requires
        on_course(job),
    ensures
        on_course(job.run(events)),
        rank(job.run(events).step) >= rank(job.step),
        job.run(events).plan == job.plan,
        job.run(events).source == job.source,
        rank(job.step) >= 2 ==> job.run(events).settings == job.settings,
        job.transcoded ==> job.run(events).transcoded,
    decreases events.len(),
{
    if events.len() > 0 {
        lemma_run_keeps_course(job, events.drop_last());
        lemma_next_keeps_course(job.run(events.drop_last()), events.last());
    }
}

/// A rejection is recorded only when the engine rejects the bitstream: the
/// pending step is its submission, and the engine answers with one of the
/// two errors that mean rejection.
pub proof fn lemma_rejection_is_recorded(job: JobView, event: Event)
    requires
        !job.transcode_failed,
        job.next(event).transcode_failed,
    ensures
        job.step is AddJpegFrame,
        event matches Event::Engine { code } && encoder_error(code) matches Err(error)
            && is_transcode_rejection(error),
{
}

/// An encode that is not to transcode never submits the bitstream,
/// whatever the host reports, and what it reports at its end is not a
/// transcode. This is so for every input that is no JPEG bitstream and for
/// every encode that is forced to go from pixels.
pub proof fn lemma_forced_pixels_never_transcode(
    plan: EncodePlan,
    source: SourceInfo,
    events: Seq<Event>,
)
    requires
        !plan.do_transcode,
    ensures
        !(JobView::start(plan, source).run(events).step is AddJpegFrame),
        JobView::start(plan, source).run(events).step != (Step::StoreJpegMetadata { store: true }),
        !JobView::start(plan, source).run(events).transcoded,
        JobView::start(plan, source).run(events).step matches Step::Finished { stats }
            ==> !stats.is_transcoded,
{
    lemma_start_is_on_course(plan, source);
    lemma_run_keeps_course(JobView::start(plan, source), events);
}

/// Forcing pixels plans no transcode, whatever the input is.
pub proof fn lemma_forced_pixels_plan_no_transcode(options: EncodeOptions, is_jpeg: bool)
    requires
        options.force_from_pixels,
    ensures
        EncodePlan::of(options, is_jpeg) matches Ok(plan) ==> !plan.do_transcode,
{
}

/// An encode that is to transcode submits the bitstream first: it is on the
/// way of the pixels only after the engine rejected the bitstream.
pub proof fn lemma_transcode_is_tried_first(plan: EncodePlan, source: SourceInfo, events: Seq<Event>)
    requires
        plan.do_transcode,
    ensures
        on_pixel_path(JobView::start(plan, source).run(events).step) ==> JobView::start(
            plan,
            source,
        ).run(events).transcode_failed,
{
    lemma_start_is_on_course(plan, source);
    lemma_run_keeps_course(JobView::start(plan, source), events);
}

/// Once the engine has accepted the bitstream, no pixel is decoded or
/// submitted, whatever the host reports from there on, and what the encode
/// reports at its end is a transcode. The job has come to the submission of
/// the bitstream by the reports `before`; the engine answers it with `code`,
/// which is no error; the reports `after` follow.
pub proof fn lemma_accepted_transcode_skips_pixels(
    plan: EncodePlan,
    source: SourceInfo,
    before: Seq<Event>,
    code: u32,
    after: Seq<Event>,
)
    requires
        JobView::start(plan, source).run(before).step is AddJpegFrame,
        encoder_error(code) is Ok,
    ensures
        ({
            let accepted = JobView::start(plan, source).run(before).next(Event::Engine { code });
            &&& accepted.transcoded
            &&& accepted.step == Step::CloseInput
            &&& !on_pixel_path(accepted.run(after).step)
            &&& accepted.run(after).step matches Step::Finished { stats } ==> stats.is_transcoded
        }),
{
    let job = JobView::start(plan, source).run(before);
    let accepted = job.next(Event::Engine { code });
    lemma_start_is_on_course(plan, source);
    lemma_run_keeps_course(JobView::start(plan, source), before);
    lemma_next_keeps_course(job, Event::Engine { code });
    lemma_run_keeps_course(accepted, after);
}

/// After a rejection the pixels are submitted with the settings that the
/// bitstream was submitted with: from the moment the settings of a job are
/// created, every submission, of either kind, names them.
pub proof fn lemma_submissions_share_settings(
    plan: EncodePlan,
    source: SourceInfo,
    before: Seq<Event>,
    after: Seq<Event>,
)
    requires
        rank(JobView::start(plan, source).run(before).step) >= 2,
    ensures
        ({
            let created = JobView::start(plan, source).run(before);
            let later = created.run(after);
            &&& later.step matches Step::AddJpegFrame { frame } ==> frame_settings_of(frame)
                == created.settings
            &&& later.step matches Step::AddImageFrame { frame, .. } ==> frame_settings_of(frame)
                == created.settings
            &&& later.step matches Step::Configure { call, .. } ==> call_settings_of(call)
                == created.settings
        }),
{
    let created = JobView::start(plan, source).run(before);
    lemma_start_is_on_course(plan, source);
    lemma_run_keeps_course(JobView::start(plan, source), before);
    lemma_run_keeps_course(created, after);
}

/// Every plan that is made of a request verifies only what can be verified.
pub proof fn lemma_plans_verify_what_they_can(options: EncodeOptions, is_jpeg: bool, source: SourceInfo)
    ensures
        EncodePlan::of(options, is_jpeg) matches Ok(plan) ==> verifies_exact_output(
            JobView::start(plan, source),
        ),
{
}

/// A job that verifies only an exact output goes on doing so: after a
/// rejected transcode, a lossy encode is no longer verified.
pub proof fn lemma_verification_stays_exact(job: JobView, events: Seq<Event>)
    requires
        on_course(job),
        verifies_exact_output(job),
    ensures
        verifies_exact_output(job.run(events)),
    decreases events.len(),
{
    if events.len() > 0 {
        lemma_verification_stays_exact(job, events.drop_last());
        lemma_run_keeps_course(job, events.drop_last());
    }
}

/// A job reports a verified output only after a verification that
/// succeeded: the step before the end is the verification, and the host
/// reported that the decoded output is what went in.
pub proof fn lemma_verified_finish_was_verified(job: JobView, event: Event)
    requires
        on_course(job),
        !(job.step is Finished),
        job.next(event).step matches Step::Finished { stats } && stats.is_verified,
    ensures
        job.step is Verify,
        event matches Event::Verified { outcome } && outcome is Ok,
{
}

} // verus!
