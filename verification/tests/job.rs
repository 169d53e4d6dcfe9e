use jexcel::encoder::MIN_OUTPUT_BUFFER;
use jexcel::job::OUTPUT_BUFFER_SIZE;
use jexcel::{
    encode_single, BasicInfo, ColorEncoding, ColorType, Distance, EncodeFailure, EncodeJob,
    EncodeOptions, EncodingStats, EngineOutput, Error, Event, FrameCall, Operation, OutputPull,
    PixelFormat, RenderingIntent, SampleFormat, SettingsCall, SourceInfo, Step, VerifyFailure,
};

const ENCODER: usize = 0x1000;
const SETTINGS: usize = 0x2000;

fn options() -> EncodeOptions {
    EncodeOptions {
        distance: None,
        effort: 7,
        progressive: 0,
        decoding_speed: 0,
        force_modular: false,
        force_from_pixels: false,
        verify: false,
    }
}

fn source(is_jpeg: bool) -> SourceInfo {
    SourceInfo {
        input_size: 5000,
        is_jpeg,
        width: 64,
        height: 48,
        color_type: ColorType::Rgb8,
        bits_per_sample: 8,
        has_icc: false,
    }
}

fn ok() -> Event {
    Event::Engine { code: 0 }
}

/// Reports `events` one after the other and returns every pending step on the way.
fn run(job: EncodeJob, events: &[Event]) -> (EncodeJob, Vec<Step>) {
    let mut steps = vec![job.step()];
    let mut job = job;
    for event in events {
        job = job.advance(*event);
        steps.push(job.step());
    }
    (job, steps)
}

/// The reports up to the end of the configuration, all of them good.
fn configured() -> Vec<Event> {
    let mut events =
        vec![Event::Created { handle: ENCODER }, Event::Created { handle: SETTINGS }];
    events.extend(std::iter::repeat(ok()).take(8));
    events
}

/// The reports that drain `sizes` bytes of output, one pull each. Every pull
/// but the last must leave less than 32 bytes of the buffer unused.
fn drained(sizes: &[usize]) -> Vec<Event> {
    let mut events = Vec::new();
    for (i, size) in sizes.iter().enumerate() {
        let last = i + 1 == sizes.len();
        events.push(Event::Output {
            answer: EngineOutput {
                status: if last { 0 } else { 2 },
                bytes_avail: OUTPUT_BUFFER_SIZE - size,
                error: 0,
            },
        });
        events.push(Event::Done);
    }
    events
}

fn is_pixel_step(step: &Step) -> bool {
    matches!(
        step,
        Step::SetBasicInfo { .. }
            | Step::SetIccProfile
            | Step::SetColorEncoding { .. }
            | Step::DecodePixels
            | Step::AddImageFrame { .. }
    )
}

#[test]
fn jpeg_input_is_transcoded_when_the_engine_accepts_it() {
    let job = encode_single(&options(), source(true)).unwrap();
    let mut events = configured();
    events.push(ok()); // store JPEG metadata
    events.push(ok()); // add JPEG frame
    events.push(Event::Done); // close input
    events.push(Event::Done); // open sink
    events.extend(drained(&[700]));
    let (job, steps) = run(job, &events);

    assert_eq!(steps[0], Step::CreateEncoder);
    assert_eq!(steps[1], Step::CreateSettings);
    assert_eq!(steps[10], Step::StoreJpegMetadata { store: true });
    assert_eq!(
        steps[11],
        Step::AddJpegFrame { frame: FrameCall::AddJpegFrame { settings: SETTINGS, size: 5000 } }
    );
    assert_eq!(steps[12], Step::CloseInput);
    assert_eq!(steps[13], Step::OpenSink);
    assert_eq!(
        steps[14],
        Step::ProcessOutput {
            pull: OutputPull { capacity: OUTPUT_BUFFER_SIZE, avail: OUTPUT_BUFFER_SIZE }
        }
    );
    assert_eq!(steps[15], Step::Emit { len: 700, keep: false, last: true });
    assert_eq!(
        job.step(),
        Step::Finished {
            stats: EncodingStats {
                is_lossless: false,
                is_transcoded: true,
                is_verified: false,
                output_size: 700,
            }
        }
    );
    assert!(job.is_over());
    // The bitstream is the first and only submission; no pixel is decoded.
    assert!(steps.iter().all(|step| !is_pixel_step(step)));
    assert_eq!(steps.iter().filter(|step| matches!(step, Step::AddJpegFrame { .. })).count(), 1);
}

#[test]
fn forced_pixels_never_submit_the_bitstream() {
    let forced = EncodeOptions { force_from_pixels: true, ..options() };
    let job = encode_single(&forced, source(true)).unwrap();
    let mut events = configured();
    events.push(ok()); // do not store JPEG metadata
    events.push(ok()); // basic info
    events.push(ok()); // colour encoding
    events.push(Event::Decoded { len: 64 * 48 * 3 });
    events.push(ok()); // add image frame
    events.push(Event::Done); // close input
    events.push(Event::Done); // open sink
    events.extend(drained(&[OUTPUT_BUFFER_SIZE, 123]));
    let (job, steps) = run(job, &events);

    assert!(steps.iter().all(|step| !matches!(step, Step::AddJpegFrame { .. })));
    assert!(steps.iter().all(|step| *step != Step::StoreJpegMetadata { store: true }));
    assert_eq!(steps[10], Step::StoreJpegMetadata { store: false });
    assert_eq!(
        steps[11],
        Step::SetBasicInfo {
            info: BasicInfo {
                xsize: 64,
                ysize: 48,
                bits_per_sample: 8,
                uses_original_profile: false,
                num_extra_channels: 0,
                alpha_bits: 0,
                alpha_premultiplied: false,
            }
        }
    );
    assert_eq!(
        steps[12],
        Step::SetColorEncoding { encoding: ColorEncoding::srgb(RenderingIntent::Relative) }
    );
    assert_eq!(steps[13], Step::DecodePixels);
    assert_eq!(
        steps[14],
        Step::AddImageFrame {
            frame: FrameCall::AddImageFrame {
                settings: SETTINGS,
                format: PixelFormat::new(3, SampleFormat::U8),
                size: 64 * 48 * 3,
            },
            keep_pixels: false,
        }
    );
    assert_eq!(
        job.step(),
        Step::Finished {
            stats: EncodingStats {
                is_lossless: false,
                is_transcoded: false,
                is_verified: false,
                output_size: (OUTPUT_BUFFER_SIZE + 123) as u64,
            }
        }
    );
}

#[test]
fn other_formats_go_from_pixels() {
    let job = encode_single(&options(), source(false)).unwrap();
    let mut events = configured();
    events.push(ok());
    let (_, steps) = run(job, &events);
    assert_eq!(steps[10], Step::StoreJpegMetadata { store: false });
    assert!(matches!(steps[11], Step::SetBasicInfo { .. }));
}

#[test]
fn rejected_bitstream_falls_back_to_pixels_with_the_same_settings() {
    for code in [4u32, 3] {
        let job = encode_single(&options(), source(true)).unwrap();
        let mut events = configured();
        events.push(ok()); // store JPEG metadata
        events.push(Event::Engine { code }); // the engine rejects the bitstream
        events.push(ok()); // do not store JPEG metadata
        events.push(ok()); // basic info
        events.push(ok()); // colour encoding
        events.push(Event::Decoded { len: 9216 });
        events.push(ok()); // add image frame
        events.push(Event::Done);
        events.push(Event::Done);
        events.extend(drained(&[10]));
        let (job, steps) = run(job, &events);

        assert_eq!(
            steps[11],
            Step::AddJpegFrame {
                frame: FrameCall::AddJpegFrame { settings: SETTINGS, size: 5000 }
            }
        );
        assert_eq!(steps[12], Step::StoreJpegMetadata { store: false });
        assert_eq!(
            steps[16],
            Step::AddImageFrame {
                frame: FrameCall::AddImageFrame {
                    settings: SETTINGS,
                    format: PixelFormat::new(3, SampleFormat::U8),
                    size: 9216,
                },
                keep_pixels: false,
            }
        );
        // No settings are created or configured again.
        let created = steps.iter().filter(|step| **step == Step::CreateSettings).count();
        assert_eq!(created, 1);
        assert!(steps[12..].iter().all(|step| !matches!(step, Step::Configure { .. })));
        assert_eq!(
            job.step(),
            Step::Finished {
                stats: EncodingStats {
                    is_lossless: false,
                    is_transcoded: false,
                    is_verified: false,
                    output_size: 10,
                }
            }
        );
    }
}

#[test]
fn other_errors_of_the_bitstream_submission_are_fatal() {
    for (code, error) in [
        (2u32, Error::OutOfMemory),
        (0x80, Error::NotSupported),
        (0x81, Error::ApiUsage),
        (1, Error::Unknown),
    ] {
        let job = encode_single(&options(), source(true)).unwrap();
        let mut events = configured();
        events.push(ok());
        events.push(Event::Engine { code });
        let (job, _) = run(job, &events);
        assert_eq!(
            job.step(),
            Step::Failed {
                failure: EncodeFailure::Engine { operation: Operation::AddJpegFrame, error }
            }
        );
    }
}

#[test]
fn rejection_ends_verification_of_a_lossy_encode_only() {
    let verify = EncodeOptions { verify: true, ..options() };
    let lossless =
        EncodeOptions { distance: Some(Distance::from_bits(0.0f32.to_bits())), ..verify };
    for (options, verified) in [(verify, false), (lossless, true)] {
        let job = encode_single(&options, source(true)).unwrap();
        let mut events = configured();
        events.push(ok());
        events.push(Event::Engine { code: 4 });
        events.push(ok());
        events.push(ok());
        events.push(ok());
        events.push(Event::Decoded { len: 9216 });
        let (job, steps) = run(job, &events);
        assert!(matches!(
            job.step(),
            Step::AddImageFrame { keep_pixels, .. } if keep_pixels == verified
        ));
        assert_eq!(steps[11], Step::AddJpegFrame {
            frame: FrameCall::AddJpegFrame { settings: SETTINGS, size: 5000 }
        });
        let mut events = vec![ok(), Event::Done, Event::Done];
        events.extend(drained(&[40]));
        let (job, steps) = run(job, &events);
        assert_eq!(steps[4], Step::Emit { len: 40, keep: verified, last: true });
        if verified {
            assert_eq!(job.step(), Step::Verify { transcoded: false });
        } else {
            assert!(matches!(job.step(), Step::Finished { stats } if !stats.is_verified));
        }
    }
}

#[test]
fn verified_transcode_compares_bitstreams() {
    let verify = EncodeOptions { verify: true, ..options() };
    let job = encode_single(&verify, source(true)).unwrap();
    let mut events = configured();
    events.extend([ok(), ok(), Event::Done, Event::Done]);
    events.extend(drained(&[OUTPUT_BUFFER_SIZE - 10, 200]));
    let (job, steps) = run(job, &events);
    assert_eq!(job.step(), Step::Verify { transcoded: true });
    assert!(steps.contains(&Step::Emit { len: OUTPUT_BUFFER_SIZE - 10, keep: true, last: false }));
    assert!(steps.contains(&Step::Emit { len: 200, keep: true, last: true }));

    let done = run(job, &[Event::Verified { outcome: Ok(()) }]).0;
    assert_eq!(
        done.step(),
        Step::Finished {
            stats: EncodingStats {
                is_lossless: false,
                is_transcoded: true,
                is_verified: true,
                output_size: (OUTPUT_BUFFER_SIZE + 190) as u64,
            }
        }
    );
}

#[test]
fn mismatch_is_a_failure_of_its_own_kind() {
    let verify = EncodeOptions { verify: true, ..options() };
    for failure in [
        VerifyFailure::JpegMismatch,
        VerifyFailure::PixelMismatch,
        VerifyFailure::CreateDecoder,
        VerifyFailure::Decode(Error::Unknown),
    ] {
        let job = encode_single(&verify, source(true)).unwrap();
        let mut events = configured();
        events.extend([ok(), ok(), Event::Done, Event::Done]);
        events.extend(drained(&[300]));
        events.push(Event::Verified { outcome: Err(failure) });
        let (job, _) = run(job, &events);
        assert_eq!(job.step(), Step::Failed { failure: EncodeFailure::Verify(failure) });
    }
}

#[test]
fn settings_are_complete_before_any_submission() {
    let job = encode_single(
        &EncodeOptions { progressive: 2, decoding_speed: 3, effort: 3, ..options() },
        source(false),
    )
    .unwrap();
    let (_, steps) = run(job, &configured());
    let option =
        |option: u32, value: i64| SettingsCall::SetOption { settings: SETTINGS, option, value };
    let expected = [
        SettingsCall::SetDistance {
            settings: SETTINGS,
            distance: Distance::from_bits(1.0f32.to_bits()),
        },
        option(0, 3),
        option(16, -1),
        option(19, 1),
        option(17, -1),
        option(18, 1),
        option(11, -1),
        option(1, 3),
    ];
    for (index, call) in expected.iter().enumerate() {
        assert_eq!(steps[2 + index], Step::Configure { index: index as u8, call: *call });
    }
    assert_eq!(steps[10], Step::StoreJpegMetadata { store: false });
}

#[test]
fn failures_name_the_request_that_failed() {
    let engine = |operation, error| Step::Failed {
        failure: EncodeFailure::Engine { operation, error },
    };
    // (reports before the failing one, the failing report, the step that results)
    let encoder_fails = (0usize, Event::Created { handle: 0 });
    let job = encode_single(&options(), source(false)).unwrap();
    let (job, _) = run(job, &[encoder_fails.1]);
    assert_eq!(job.step(), Step::Failed { failure: EncodeFailure::CreateEncoder });

    let job = encode_single(&options(), source(false)).unwrap();
    let (job, _) =
        run(job, &[Event::Created { handle: ENCODER }, Event::Created { handle: 0 }]);
    assert_eq!(job.step(), engine(Operation::CreateSettings, Error::OutOfMemory));

    let cases = [
        (2usize, Operation::Configure),
        (9, Operation::Configure),
        (10, Operation::StoreJpegMetadata),
        (11, Operation::SetBasicInfo),
        (12, Operation::SetColor),
    ];
    for (good, operation) in cases {
        let job = encode_single(&options(), source(false)).unwrap();
        let mut events = configured();
        events.extend([ok(), ok(), ok()]);
        events.truncate(good);
        events.push(Event::Engine { code: 0x81 });
        let (job, _) = run(job, &events);
        assert_eq!(job.step(), engine(operation, Error::ApiUsage));
    }

    let job = encode_single(&options(), source(false)).unwrap();
    let mut events = configured();
    events.extend([ok(), ok(), ok(), Event::Decoded { len: 4 }, Event::Engine { code: 4 }]);
    let (job, _) = run(job, &events);
    assert_eq!(job.step(), engine(Operation::AddImageFrame, Error::BadInput));

    let job = encode_single(&options(), source(false)).unwrap();
    let mut events = configured();
    events.extend([ok(), ok(), ok(), Event::HostFailed]);
    let (job, _) = run(job, &events);
    assert_eq!(job.step(), Step::Failed { failure: EncodeFailure::DecodeInput });
}

#[test]
fn output_failures_end_the_job() {
    let to_sink = || {
        let job = encode_single(&options(), source(true)).unwrap();
        let mut events = configured();
        events.extend([ok(), ok(), Event::Done]);
        run(job, &events).0
    };
    assert_eq!(to_sink().step(), Step::OpenSink);
    let (job, _) = run(to_sink(), &[Event::HostFailed]);
    assert_eq!(job.step(), Step::Failed { failure: EncodeFailure::Sink });

    let answer = EngineOutput { status: 1, bytes_avail: OUTPUT_BUFFER_SIZE, error: 2 };
    let (job, _) = run(to_sink(), &[Event::Done, Event::Output { answer }]);
    assert_eq!(
        job.step(),
        Step::Failed {
            failure: EncodeFailure::Engine {
                operation: Operation::PullOutput,
                error: Error::OutOfMemory,
            }
        }
    );

    let answer = EngineOutput { status: 2, bytes_avail: 0, error: 0 };
    let (job, steps) =
        run(to_sink(), &[Event::Done, Event::Output { answer }, Event::HostFailed]);
    assert_eq!(steps[2], Step::Emit { len: OUTPUT_BUFFER_SIZE, keep: false, last: false });
    assert_eq!(job.step(), Step::Failed { failure: EncodeFailure::Sink });
}

#[test]
fn engine_is_asked_again_while_the_buffer_has_room() {
    let job = encode_single(&options(), source(true)).unwrap();
    let mut events = configured();
    events.extend([ok(), ok(), Event::Done, Event::Done]);
    let room = OUTPUT_BUFFER_SIZE - 1000;
    events.push(Event::Output {
        answer: EngineOutput { status: 2, bytes_avail: room, error: 0 },
    });
    let (job, _) = run(job, &events);
    assert_eq!(
        job.step(),
        Step::ProcessOutput { pull: OutputPull { capacity: OUTPUT_BUFFER_SIZE, avail: room } }
    );
    let answer = EngineOutput { status: 2, bytes_avail: MIN_OUTPUT_BUFFER - 1, error: 0 };
    let (job, _) = run(job, &[Event::Output { answer }]);
    assert_eq!(
        job.step(),
        Step::Emit { len: OUTPUT_BUFFER_SIZE - 31, keep: false, last: false }
    );
    let (job, _) = run(job, &[Event::Done]);
    assert_eq!(
        job.step(),
        Step::ProcessOutput {
            pull: OutputPull { capacity: OUTPUT_BUFFER_SIZE, avail: OUTPUT_BUFFER_SIZE }
        }
    );
}

#[test]
fn report_that_answers_another_step_ends_the_job() {
    let protocol = Step::Failed { failure: EncodeFailure::Protocol };
    let job = encode_single(&options(), source(true)).unwrap();
    assert_eq!(run(job, &[ok()]).0.step(), protocol);
    let job = encode_single(&options(), source(true)).unwrap();
    let (job, _) = run(job, &[Event::Created { handle: ENCODER }, Event::Done]);
    assert_eq!(job.step(), protocol);
    let job = encode_single(&options(), source(true)).unwrap();
    let mut events = configured();
    events.push(Event::Created { handle: 7 });
    assert_eq!(run(job, &events).0.step(), protocol);
}

#[test]
fn job_that_is_over_stays_as_it_is() {
    let job = encode_single(&options(), source(true)).unwrap();
    let (job, _) = run(job, &[Event::Created { handle: 0 }]);
    let failed = job.step();
    let (job, steps) = run(
        job,
        &[ok(), Event::Done, Event::Created { handle: 5 }, Event::HostFailed],
    );
    assert!(steps.iter().all(|step| *step == failed));
    assert!(job.is_over());
}

#[test]
fn image_with_profile_and_alpha() {
    let rgba = SourceInfo {
        color_type: ColorType::Rgba16,
        bits_per_sample: 16,
        has_icc: true,
        ..source(false)
    };
    let lossless = EncodeOptions { distance: Some(Distance::zero()), verify: true, ..options() };
    let job = encode_single(&lossless, rgba).unwrap();
    let mut events = configured();
    events.extend([ok(), ok(), ok(), Event::Decoded { len: 64 * 48 * 8 }]);
    let (job, steps) = run(job, &events);
    assert_eq!(steps[2], Step::Configure {
        index: 0,
        call: SettingsCall::SetLossless { settings: SETTINGS },
    });
    assert_eq!(
        steps[11],
        Step::SetBasicInfo {
            info: BasicInfo {
                xsize: 64,
                ysize: 48,
                bits_per_sample: 16,
                uses_original_profile: true,
                num_extra_channels: 1,
                alpha_bits: 16,
                alpha_premultiplied: false,
            }
        }
    );
    assert_eq!(steps[12], Step::SetIccProfile);
    assert_eq!(
        job.step(),
        Step::AddImageFrame {
            frame: FrameCall::AddImageFrame {
                settings: SETTINGS,
                format: PixelFormat::new(4, SampleFormat::U16),
                size: 64 * 48 * 8,
            },
            keep_pixels: true,
        }
    );
}

#[test]
fn invalid_effort_begins_no_job() {
    let bad = EncodeOptions { effort: 0, ..options() };
    assert_eq!(encode_single(&bad, source(true)).err(), Some(Error::ApiUsage));
}
