//! Decoding an encoded image again, to its pixels or to the JPEG bitstream
//! it was made of, as a dialogue with the host. It serves to verify an
//! encode and takes no part in encoding.

use vstd::prelude::*;
use crate::codes::{
    DEC_ERROR, DEC_FULL_IMAGE, DEC_JPEG_NEED_MORE_OUTPUT, DEC_JPEG_RECONSTRUCTION,
    DEC_NEED_IMAGE_OUT_BUFFER, DEC_NEED_MORE_INPUT, DEC_SUCCESS,
};
use crate::encoder_frame::{PixelFormat, SampleFormat};
use crate::error::{decoder_error, Error};

verus! {

/// The size in which the buffer for a reconstructed JPEG bitstream grows.
pub const JPEG_BUFFER_CHUNK: usize = 0x10_0000;

/// The events that a decode to a JPEG bitstream subscribes to: the
/// reconstruction data and the full image.
pub const DEC_JPEG_EVENTS: u32 = 0x3000;

/// What an encoded image is decoded to.
#[derive(Debug, Copy, Clone, PartialEq, Eq, Structural)]
pub enum DecodeTarget {
    /// Pixels in the layout `format`.
    Pixels { format: PixelFormat },
    /// The JPEG bitstream that the image was made of.
    Jpeg,
}

/// What the host asks of the decoder next.
#[derive(Debug, Copy, Clone, PartialEq, Eq, Structural)]
pub enum DecodeStep {
    /// Reset the decoder. There is nothing to report.
    Reset,
    /// Subscribe to `events`; report the status.
    SubscribeEvents { events: u32 },
    /// Tell the decoder to leave the orientation of the image as it is;
    /// report the status.
    SetKeepOrientation,
    /// Hand the decoder the whole input of `size` bytes; report the status.
    SetInput { size: usize },
    /// Let the decoder work until it has something to say, for the first
    /// time where `first` says so; report the status.
    ProcessInput { first: bool },
    /// Ask for the size of the pixel buffer; report the status and the size.
    ImageOutBufferSize { format: PixelFormat },
    /// Allocate `size` bytes, zeroed, and hand them to the decoder as the
    /// pixel buffer; report the status.
    SetImageOutBuffer { format: PixelFormat, size: usize },
    /// Allocate room for at least `capacity` bytes of bitstream; report the
    /// capacity of what was allocated.
    Allocate { capacity: usize },
    /// Hand the decoder the `size` bytes of the buffer that begin at
    /// `offset`; report the status.
    SetJpegBuffer { offset: usize, size: usize },
    /// Take the buffer back from the decoder, for the last time where
    /// `last` says so; report the number of bytes it left unused.
    ReleaseJpegBuffer { last: bool },
    /// Keep the first `filled` bytes of the buffer and make room for
    /// `additional` more; report the new capacity.
    Reserve { filled: usize, additional: usize },
    /// Take the input back from the decoder. There is nothing to report.
    ReleaseInput,
    /// The decode is done: the first `len` bytes of the buffer are the
    /// result.
    Done { len: usize },
    /// The decode failed.
    Failed { error: Error },
}

/// What the host reports of a request.
#[derive(Debug, Copy, Clone, PartialEq, Eq, Structural)]
pub struct DecoderAnswer {
    /// The status that the request returned, where it returns one.
    pub status: u32,
    /// The size that the request reported, where it reports one.
    pub size: usize,
}

/// A decode in progress.
#[derive(Debug, Copy, Clone, PartialEq, Eq, Structural)]
pub struct DecodeJob {
    /// What the image is decoded to.
    pub target: DecodeTarget,
    /// The size of the encoded image in bytes.
    pub input_size: usize,
    /// The capacity of the buffer that the result is written to.
    pub capacity: usize,
    /// The number of bytes of the result that are in the buffer.
    pub filled: usize,
    /// What the host asks of the decoder next.
    pub step: DecodeStep,
}

/// What a status of the decoder means while the image is drained.
#[derive(Debug, Copy, Clone, PartialEq, Eq, Structural)]
pub enum Drain {
    /// The image is complete.
    Complete,
    /// The decode cannot go on.
    Stuck,
    /// The buffer for the bitstream is used up.
    BufferFull,
    /// The decoder has more to do.
    Going,
}

/// What `status` means while the image is drained: the full image ends the
/// decode; success without an image, an error and the wish for more input
/// are failures, since the whole input was given; a full bitstream buffer
/// asks for more room; anything else is an event to pass over.
pub open spec fn drain_of(status: u32) -> Drain {
    if status == DEC_FULL_IMAGE {
        Drain::Complete
    } else if status == DEC_SUCCESS || status == DEC_ERROR || status == DEC_NEED_MORE_INPUT {
        Drain::Stuck
    } else if status == DEC_JPEG_NEED_MORE_OUTPUT {
        Drain::BufferFull
    } else {
        Drain::Going
    }
}

/// Says what a status of the decoder means while the image is drained.
pub fn drain(status: u32) -> (r: Drain)
    ensures
        r == drain_of(status),
{
    if status == DEC_FULL_IMAGE {
        Drain::Complete
    } else if status == DEC_SUCCESS || status == DEC_ERROR || status == DEC_NEED_MORE_INPUT {
        Drain::Stuck
    } else if status == DEC_JPEG_NEED_MORE_OUTPUT {
        Drain::BufferFull
    } else {
        Drain::Going
    }
}

impl DecodeJob {
    /// The decode of an image of `input_size` bytes to `target`, at its
    /// beginning.
    pub open spec fn start(target: DecodeTarget, input_size: usize) -> DecodeJob {
        DecodeJob { target, input_size, capacity: 0, filled: 0, step: DecodeStep::Reset }
    }

    /// The decode at the step `step`.
    pub open spec fn goto(self, step: DecodeStep) -> DecodeJob {
        DecodeJob { step, ..self }
    }

    /// The decode after a request answered `status`: failed where that is
    /// no success, else at `then`.
    pub open spec fn checked(self, status: u32, then: DecodeStep) -> DecodeJob {
        match decoder_error(status) {
            Err(error) => self.goto(DecodeStep::Failed { error }),
            Ok(()) => self.goto(then),
        }
    }

    /// The events that the decode subscribes to.
    pub open spec fn events(self) -> u32 {
        match self.target {
            DecodeTarget::Pixels { .. } => DEC_FULL_IMAGE,
            DecodeTarget::Jpeg => DEC_JPEG_EVENTS,
        }
    }

    /// The decode after the decoder stopped for the first time. It must
    /// have stopped to ask for the pixel buffer, or at the reconstruction
    /// data of the bitstream.
    pub open spec fn after_first_stop(self, status: u32) -> DecodeJob {
        match self.target {
            DecodeTarget::Pixels { format } => if status == DEC_NEED_IMAGE_OUT_BUFFER {
                self.goto(DecodeStep::ImageOutBufferSize { format })
            } else {
                self.goto(DecodeStep::Failed { error: Error::Unknown })
            },
            DecodeTarget::Jpeg => if status == DEC_JPEG_RECONSTRUCTION {
                self.goto(DecodeStep::Allocate { capacity: JPEG_BUFFER_CHUNK })
            } else {
                self.goto(DecodeStep::Failed { error: Error::Unknown })
            },
        }
    }

    /// The decode after the decoder stopped while the image is drained.
    pub open spec fn after_stop(self, status: u32) -> DecodeJob {
        match drain_of(status) {
            Drain::Complete => match self.target {
                DecodeTarget::Pixels { .. } => self.goto(DecodeStep::ReleaseInput),
                DecodeTarget::Jpeg => self.goto(DecodeStep::ReleaseJpegBuffer { last: true }),
            },
            Drain::Stuck => self.goto(DecodeStep::Failed { error: Error::Unknown }),
            Drain::BufferFull => match self.target {
                DecodeTarget::Pixels { .. } => self.goto(DecodeStep::ProcessInput { first: false }),
                DecodeTarget::Jpeg => self.goto(DecodeStep::ReleaseJpegBuffer { last: false }),
            },
            Drain::Going => self.goto(DecodeStep::ProcessInput { first: false }),
        }
    }

    /// The decode after the decoder gave the bitstream buffer back with
    /// `unused` bytes unused. What it wrote is kept. At the end that is the
    /// result; else the buffer grows by what was unused and one chunk more.
    /// A decoder that claims more unused bytes than the buffer has broke
    /// the protocol, and room that cannot be counted cannot be had.
    pub open spec fn after_release(self, unused: usize, last: bool) -> DecodeJob {
        if unused > self.capacity {
            self.goto(DecodeStep::Failed { error: Error::Unknown })
        } else {
            let filled = (self.capacity - unused) as usize;
            if last {
                DecodeJob { filled, step: DecodeStep::ReleaseInput, ..self }
            } else if unused + JPEG_BUFFER_CHUNK > usize::MAX {
                DecodeJob { filled, step: DecodeStep::Failed { error: Error::OutOfMemory }, ..self }
            } else {
                DecodeJob {
                    filled,
                    step: DecodeStep::Reserve {
                        filled,
                        additional: (unused + JPEG_BUFFER_CHUNK) as usize,
                    },
                    ..self
                }
            }
        }
    }

    /// The decode after the host reported `answer` to the pending request.
    /// A decode that is over stays as it is.
    pub open spec fn next(self, answer: DecoderAnswer) -> DecodeJob {
        match self.step {
            DecodeStep::Done { .. } | DecodeStep::Failed { .. } => self,
            DecodeStep::Reset => self.goto(DecodeStep::SubscribeEvents { events: self.events() }),
            DecodeStep::SubscribeEvents { .. } => self.checked(
                answer.status,
                match self.target {
                    DecodeTarget::Pixels { .. } => DecodeStep::SetKeepOrientation,
                    DecodeTarget::Jpeg => DecodeStep::SetInput { size: self.input_size },
                },
            ),
            DecodeStep::SetKeepOrientation => self.checked(
                answer.status,
                DecodeStep::SetInput { size: self.input_size },
            ),
            DecodeStep::SetInput { .. } => self.checked(
                answer.status,
                DecodeStep::ProcessInput { first: true },
            ),
            DecodeStep::ProcessInput { first } => if first {
                self.after_first_stop(answer.status)
            } else {
                self.after_stop(answer.status)
            },
            DecodeStep::ImageOutBufferSize { format } => (DecodeJob {
                capacity: answer.size,
                filled: answer.size,
                ..self
            }).checked(answer.status, DecodeStep::SetImageOutBuffer { format, size: answer.size }),
            DecodeStep::SetImageOutBuffer { .. } => self.checked(
                answer.status,
                DecodeStep::ProcessInput { first: false },
            ),
            DecodeStep::Allocate { capacity } => if answer.size < capacity {
                self.goto(DecodeStep::Failed { error: Error::OutOfMemory })
            } else {
                DecodeJob {
                    capacity: answer.size,
                    step: DecodeStep::SetJpegBuffer { offset: 0, size: answer.size },
                    ..self
                }
            },
            DecodeStep::SetJpegBuffer { .. } => self.checked(
                answer.status,
                DecodeStep::ProcessInput { first: false },
            ),
            DecodeStep::ReleaseJpegBuffer { last } => self.after_release(answer.size, last),
            DecodeStep::Reserve { filled, additional } => if answer.size < filled + additional {
                self.goto(DecodeStep::Failed { error: Error::OutOfMemory })
            } else {
                DecodeJob {
                    capacity: answer.size,
                    step: DecodeStep::SetJpegBuffer {
                        offset: filled,
                        size: (answer.size - filled) as usize,
                    },
                    ..self
                }
            },
            DecodeStep::ReleaseInput => self.goto(DecodeStep::Done { len: self.filled }),
        }
    }

    /// The decode after the host reported `answers`, one after the other.
    pub open spec fn run(self, answers: Seq<DecoderAnswer>) -> DecodeJob
        decreases answers.len(),
    {
        if answers.len() == 0 {
            self
        } else {
            self.run(answers.drop_last()).next(answers.last())
        }
    }

    fn check(self, status: u32, then: DecodeStep) -> (job: DecodeJob)
        ensures
            job == self.checked(status, then),
    {
        match Error::try_from_libjxl_decoder(status) {
            Err(error) => DecodeJob { step: DecodeStep::Failed { error }, ..self },
            Ok(()) => DecodeJob { step: then, ..self },
        }
    }

    fn unknown(self) -> (job: DecodeJob)
        ensures
            job == self.goto(DecodeStep::Failed { error: Error::Unknown }),
    {
        DecodeJob { step: DecodeStep::Failed { error: Error::Unknown }, ..self }
    }

    fn first_stop(self, status: u32) -> (job: DecodeJob)
        ensures
            job == self.after_first_stop(status),
    {
        match self.target {
            DecodeTarget::Pixels { format } => if status == DEC_NEED_IMAGE_OUT_BUFFER {
                DecodeJob { step: DecodeStep::ImageOutBufferSize { format }, ..self }
            } else {
                self.unknown()
            },
            DecodeTarget::Jpeg => if status == DEC_JPEG_RECONSTRUCTION {
                DecodeJob { step: DecodeStep::Allocate { capacity: JPEG_BUFFER_CHUNK }, ..self }
            } else {
                self.unknown()
            },
        }
    }

    fn stop(self, status: u32) -> (job: DecodeJob)
        ensures
            job == self.after_stop(status),
    {
        let again = DecodeStep::ProcessInput { first: false };
        match drain(status) {
            Drain::Complete => match self.target {
                DecodeTarget::Pixels { .. } => DecodeJob { step: DecodeStep::ReleaseInput, ..self },
                DecodeTarget::Jpeg => DecodeJob {
                    step: DecodeStep::ReleaseJpegBuffer { last: true },
                    ..self
                },
            },
            Drain::Stuck => self.unknown(),
            Drain::BufferFull => match self.target {
                DecodeTarget::Pixels { .. } => DecodeJob { step: again, ..self },
                DecodeTarget::Jpeg => DecodeJob {
                    step: DecodeStep::ReleaseJpegBuffer { last: false },
                    ..self
                },
            },
            Drain::Going => DecodeJob { step: again, ..self },
        }
    }

    fn release(self, unused: usize, last: bool) -> (job: DecodeJob)
        ensures
            job == self.after_release(unused, last),
    {
        if unused > self.capacity {
            return self.unknown();
        }
        let filled = self.capacity - unused;
        if last {
            DecodeJob { filled, step: DecodeStep::ReleaseInput, ..self }
        } else {
            match unused.checked_add(JPEG_BUFFER_CHUNK) {
                None => DecodeJob {
                    filled,
                    step: DecodeStep::Failed { error: Error::OutOfMemory },
                    ..self
                },
                Some(additional) => DecodeJob {
                    filled,
                    step: DecodeStep::Reserve { filled, additional },
                    ..self
                },
            }
        }
    }

    /// Takes the host's report on the pending request and moves to the
    /// next request.
    pub fn advance(self, answer: DecoderAnswer) -> (job: DecodeJob)
        ensures
            job == self.next(answer),
    {
        match self.step {
            DecodeStep::Done { .. } | DecodeStep::Failed { .. } => self,
            DecodeStep::Reset => {
                let events = match self.target {
                    DecodeTarget::Pixels { .. } => DEC_FULL_IMAGE,
                    DecodeTarget::Jpeg => DEC_JPEG_EVENTS,
                };
                DecodeJob { step: DecodeStep::SubscribeEvents { events }, ..self }
            },
            DecodeStep::SubscribeEvents { .. } => {
                let then = match self.target {
                    DecodeTarget::Pixels { .. } => DecodeStep::SetKeepOrientation,
                    DecodeTarget::Jpeg => DecodeStep::SetInput { size: self.input_size },
                };
                self.check(answer.status, then)
            },
            DecodeStep::SetKeepOrientation => self.check(
                answer.status,
                DecodeStep::SetInput { size: self.input_size },
            ),
            DecodeStep::SetInput { .. } => self.check(
                answer.status,
                DecodeStep::ProcessInput { first: true },
            ),
            DecodeStep::ProcessInput { first } => if first {
                self.first_stop(answer.status)
            } else {
                self.stop(answer.status)
            },
            DecodeStep::ImageOutBufferSize { format } => {
                let sized = DecodeJob { capacity: answer.size, filled: answer.size, ..self };
                sized.check(
                    answer.status,
                    DecodeStep::SetImageOutBuffer { format, size: answer.size },
                )
            },
            DecodeStep::SetImageOutBuffer { .. } => self.check(
                answer.status,
                DecodeStep::ProcessInput { first: false },
            ),
            DecodeStep::Allocate { capacity } => if answer.size < capacity {
                DecodeJob { step: DecodeStep::Failed { error: Error::OutOfMemory }, ..self }
            } else {
                DecodeJob {
                    capacity: answer.size,
                    step: DecodeStep::SetJpegBuffer { offset: 0, size: answer.size },
                    ..self
                }
            },
            DecodeStep::SetJpegBuffer { .. } => self.check(
                answer.status,
                DecodeStep::ProcessInput { first: false },
            ),
            DecodeStep::ReleaseJpegBuffer { last } => self.release(answer.size, last),
            DecodeStep::Reserve { filled, additional } => {
                let enough = match filled.checked_add(additional) {
                    Some(needed) => answer.size >= needed,
                    None => false,
                };
                if !enough {
                    DecodeJob { step: DecodeStep::Failed { error: Error::OutOfMemory }, ..self }
                } else {
                    DecodeJob {
                        capacity: answer.size,
                        step: DecodeStep::SetJpegBuffer {
                            offset: filled,
                            size: answer.size - filled,
                        },
                        ..self
                    }
                }
            },
            DecodeStep::ReleaseInput => DecodeJob {
                step: DecodeStep::Done { len: self.filled },
                ..self
            },
        }
    }
}

/// A decoder. It owns the engine's handle of the decoder.
#[derive(Debug)]
pub struct JxlDecoder {
    decoder: usize,
}

impl JxlDecoder {
    /// The engine's handle of the decoder.
    pub closed spec fn engine(self) -> usize {
        self.decoder
    }

    /// Takes the decoder that the engine created. `engine` is the handle
    /// that the engine returned, 0 where it could not allocate.
    pub fn new(engine: usize) -> (r: Option<JxlDecoder>)
        ensures
            engine == 0 ==> r is None,
            engine != 0 ==> r is Some && r->0.engine() == engine,
    {
        if engine == 0 {
            None
        } else {
            Some(JxlDecoder { decoder: engine })
        }
    }

    /// The engine's handle of the decoder.
    pub fn raw(&self) -> (r: usize)
        ensures
            r == self.engine(),
    {
        self.decoder
    }

    /// Begins the decode of `input_buf` to pixels: `num_channels`
    /// interleaved channels of `sample_format` samples in the byte order of
    /// the machine.
    pub fn decode_to_pixels(
        &mut self,
        input_buf: &[u8],
        num_channels: u32,
        sample_format: SampleFormat,
    ) -> (job: DecodeJob)
        ensures
            final(self).engine() == old(self).engine(),
            job == DecodeJob::start(
                DecodeTarget::Pixels {
                    format: PixelFormat::interleaved(num_channels, sample_format),
                },
                input_buf@.len() as usize,
            ),
    {
        DecodeJob {
            target: DecodeTarget::Pixels { format: PixelFormat::new(num_channels, sample_format) },
            input_size: input_buf.len(),
            capacity: 0,
            filled: 0,
            step: DecodeStep::Reset,
        }
    }

    /// Begins the decode of `input_buf` to the JPEG bitstream it was made of.
    pub fn decode_to_jpeg(&mut self, input_buf: &[u8]) -> (job: DecodeJob)
        ensures
            final(self).engine() == old(self).engine(),
            job == DecodeJob::start(DecodeTarget::Jpeg, input_buf@.len() as usize),
    {
        DecodeJob {
            target: DecodeTarget::Jpeg,
            input_size: input_buf.len(),
            capacity: 0,
            filled: 0,
            step: DecodeStep::Reset,
        }
    }
}

/// Whether the buffer of a decode is in order: it is filled no further
/// than its capacity, nothing is in it before it is allocated, and the part
/// that is handed to the decoder is all of it that is not filled.
pub open spec fn buffer_in_order(job: DecodeJob) -> bool {
    &&& job.filled <= job.capacity
    &&& match job.step {
        DecodeStep::Reset | DecodeStep::SubscribeEvents { .. } | DecodeStep::SetKeepOrientation
        | DecodeStep::SetInput { .. } | DecodeStep::Allocate { .. } => job.filled == 0,
        DecodeStep::ProcessInput { first } => first ==> job.filled == 0,
        DecodeStep::Reserve { filled, .. } => filled == job.filled,
        DecodeStep::SetJpegBuffer { offset, size } => offset == job.filled && offset + size
            == job.capacity,
        DecodeStep::Done { len } => len <= job.capacity,
        _ => true,
    }
}

/// The result of a decode never lies outside the buffer: a decode begins
/// with its buffer in order, and whatever the host reports, the buffer
/// stays in order.
pub proof fn lemma_decode_stays_in_buffer(
    target: DecodeTarget,
    input_size: usize,
    job: DecodeJob,
    answer: DecoderAnswer,
)
    requires
        buffer_in_order(job),
    ensures
        buffer_in_order(DecodeJob::start(target, input_size)),
        buffer_in_order(job.next(answer)),
        job.next(answer).target == job.target,
        job.next(answer).input_size == job.input_size,
{
}

/// Whatever the host reports in the course of a decode, its result lies
/// within the buffer.
pub proof fn lemma_decode_result_is_in_buffer(
    target: DecodeTarget,
    input_size: usize,
    answers: Seq<DecoderAnswer>,
)
    ensures
        buffer_in_order(DecodeJob::start(target, input_size).run(answers)),
        DecodeJob::start(target, input_size).run(answers).step matches DecodeStep::Done { len }
            ==> len <= DecodeJob::start(target, input_size).run(answers).capacity,
    decreases answers.len(),
{
    let start = DecodeJob::start(target, input_size);
    if answers.len() > 0 {
        lemma_decode_result_is_in_buffer(target, input_size, answers.drop_last());
        lemma_decode_stays_in_buffer(
            target,
            input_size,
            start.run(answers.drop_last()),
            answers.last(),
        );
    }
}

} // verus!
