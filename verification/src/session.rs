//! A started session and its three operations: submitting compressed input,
//! retrieving decoded output, and teardown.
//!
//! Submission and retrieval are chains of stages. A stage is plain data that
//! names a platform call and its arguments; its method takes the platform's
//! answer and decides what follows.

use vstd::prelude::*;
use crate::error::{DecoderError, Warning};
use crate::identity::{
    bounded_wait, decode_identity, encode_identity, identity_of_timestamp, timestamp_of_identity,
    wait_of_timeout, TRY_AGAIN_LATER,
};
use crate::surface::{frame_copy, TextureCopy};

verus! {

/// A session whose codec is configured and started. It is made by the last
/// stage of the setup protocol and by nothing else, and its frame size never
/// changes.
pub struct VideoDecoder {
    video_size: (u32, u32),
}

/// The first stage of an input submission: the codec is asked for a free
/// input buffer, waiting no longer than `timeout_us` microseconds.
#[derive(Clone, Copy, Debug, PartialEq, Eq)]
pub struct InputRequest<'a> {
    pub frame_index: usize,
    pub data: &'a [u8],
    pub timeout_us: i64,
}

/// An input buffer to fill and queue: `data` goes to the start of buffer
/// `buffer_index`, which is then queued with the remaining fields as given.
#[derive(Clone, Copy, Debug, PartialEq, Eq)]
pub struct InputSubmission<'a> {
    pub buffer_index: usize,
    pub data: &'a [u8],
    pub offset: i64,
    pub size: usize,
    pub presentation_time_us: u64,
    pub flags: u32,
}

/// The first stage of an output retrieval: the codec is asked for a decoded
/// buffer, waiting no longer than `timeout_us` microseconds.
#[derive(Clone, Copy, Debug, PartialEq, Eq)]
pub struct OutputRequest {
    pub video_size: (u32, u32),
    pub slice_index: u32,
    pub timeout_us: i64,
}

/// The second stage of an output retrieval: buffer `buffer_index` is given
/// back to the codec, which renders it to the surface if `render` is set.
#[derive(Clone, Copy, Debug, PartialEq, Eq, Structural)]
pub struct OutputRelease {
    pub buffer_index: usize,
    pub render: bool,
    pub transfer: FrameTransfer,
}

/// The third stage of an output retrieval: the newest frame presented on the
/// surface is acquired as the source of the copy.
#[derive(Clone, Copy, Debug, PartialEq, Eq, Structural)]
pub struct FrameAcquisition {
    pub transfer: FrameTransfer,
}

/// The last stage of an output retrieval: `copy` is recorded and submitted,
/// and once the graphics queue reports it complete, the retrieval yields
/// `frame_index`.
#[derive(Clone, Copy, Debug, PartialEq, Eq, Structural)]
pub struct FrameTransfer {
    pub copy: TextureCopy,
    pub frame_index: usize,
}

/// What the codec's answer to a request for an input buffer means for a
/// frame. A buffer index accepts the frame: the buffer is to be filled with
/// the frame's bytes and queued under the frame's identity. The try-again
/// status means that no buffer was free in time: the frame is not accepted,
/// which is no error. Any other negative status is a failure.
pub open spec fn input_verdict<'a>(request: InputRequest<'a>, index_or_error: isize) -> Result<
    Option<InputSubmission<'a>>,
    DecoderError,
> {
    if index_or_error >= 0 {
        Ok(
            Some(
                InputSubmission {
                    buffer_index: index_or_error as usize,
                    data: request.data,
                    offset: 0,
                    size: request.data@.len() as usize,
                    presentation_time_us: timestamp_of_identity(request.frame_index),
                    flags: 0,
                },
            ),
        )
    } else if index_or_error == TRY_AGAIN_LATER {
        Ok(None)
    } else {
        Err(DecoderError::InputDequeueError(index_or_error))
    }
}

/// What the codec's answer to a request for a decoded buffer means. A buffer
/// index yields a frame: the buffer is to be released for rendering, and the
/// frame's identity is read from the buffer's timestamp. The try-again status
/// means that no frame was ready in time, which is no error. Any other
/// negative status is a failure.
pub open spec fn output_verdict(
    request: OutputRequest,
    index_or_error: isize,
    presentation_time_us: i64,
) -> Result<Option<OutputRelease>, DecoderError> {
    if index_or_error >= 0 {
        Ok(
            Some(
                OutputRelease {
                    buffer_index: index_or_error as usize,
                    render: true,
                    transfer: FrameTransfer {
                        copy: frame_copy(request.video_size, request.slice_index),
                        frame_index: identity_of_timestamp(presentation_time_us),
                    },
                },
            ),
        )
    } else if index_or_error == TRY_AGAIN_LATER {
        Ok(None)
    } else {
        Err(DecoderError::OutputDequeueError(index_or_error))
    }
}

impl VideoDecoder {
    /// The size of the frames this session decodes.
    pub closed spec fn spec_video_size(&self) -> (u32, u32) {
        self.video_size
    }

    /// The size of the frames this session decodes.
    #[verifier::when_used_as_spec(spec_video_size)]
    pub fn video_size(&self) -> (video_size: (u32, u32))
        ensures
            video_size == self.video_size(),
    {
        self.video_size
    }

    /// The session that a completed setup for frames of `video_size` yields.
    pub(crate) fn started(video_size: (u32, u32)) -> (session: VideoDecoder)
        ensures
            session.video_size() == video_size,
    {
        VideoDecoder { video_size }
    }

    /// Begins the submission of one compressed frame, tagged with
    /// `frame_index`. The session itself is left as it was, whatever becomes
    /// of the submission.
    pub fn push_frame_nals<'a>(
        &self,
        frame_index: usize,
        data: &'a [u8],
        timeout_micros: u128,
    ) -> (request: InputRequest<'a>)
        ensures
            request == (InputRequest {
                frame_index,
                data,
                timeout_us: wait_of_timeout(timeout_micros),
            }),
    {
        InputRequest { frame_index, data, timeout_us: bounded_wait(timeout_micros) }
    }

    /// Begins the retrieval of one decoded frame into slice `slice_index` of
    /// the caller's texture array.
    pub fn get_output_frame(&self, slice_index: u32, timeout_micros: u128) -> (request:
        OutputRequest)
        ensures
            request == (OutputRequest {
                video_size: self.video_size(),
                slice_index,
                timeout_us: wait_of_timeout(timeout_micros),
            }),
    {
        OutputRequest {
            video_size: self.video_size,
            slice_index,
            timeout_us: bounded_wait(timeout_micros),
        }
    }

    /// Ends the session, given the status with which the platform deleted
    /// the codec. Teardown cannot fail and needs nothing of the session's
    /// past: the session is gone either way, and a status other than zero is
    /// handed back to be logged.
    pub fn destroy(self, status: i32) -> (warning: Option<Warning>)
        ensures
            warning == if status == 0 {
                None
            } else {
                Some(Warning::CodecDeletionFailed(status))
            },
    {
        if status == 0 {
            None
        } else {
            Some(Warning::CodecDeletionFailed(status))
        }
    }
}

impl<'a> InputRequest<'a> {
    /// Decides what the codec's answer to the request means.
    pub fn dequeued(self, index_or_error: isize) -> (verdict: Result<
        Option<InputSubmission<'a>>,
        DecoderError,
    >)
        ensures
            verdict == input_verdict(self, index_or_error),
    {
        if index_or_error >= 0 {
            Ok(
                Some(
                    InputSubmission {
                        buffer_index: index_or_error as usize,
                        data: self.data,
                        offset: 0,
                        size: self.data.len(),
                        presentation_time_us: encode_identity(self.frame_index),
                        flags: 0,
                    },
                ),
            )
        } else if index_or_error == TRY_AGAIN_LATER {
            Ok(None)
        } else {
            Err(DecoderError::InputDequeueError(index_or_error))
        }
    }
}

impl<'a> InputSubmission<'a> {
    /// Whether the frame's bytes fit a buffer of `capacity` bytes.
    pub fn fits(&self, capacity: usize) -> (fits: bool)
        ensures
            fits == (self.data@.len() <= capacity),
    {
        self.data.len() <= capacity
    }

    /// Writes the frame's bytes to the start of the codec's buffer and leaves
    /// the rest of the buffer as it was.
    pub fn write_into(&self, buffer: &mut [u8])
        requires
            self.data@.len() <= old(buffer)@.len(),
        ensures
            final(buffer)@ == self.data@ + old(buffer)@.skip(self.data@.len() as int),
    {
        let mut written: usize = 0;
        while written < self.data.len()
            invariant
                written <= self.data@.len() <= buffer@.len(),
                buffer@.len() == old(buffer)@.len(),
                buffer@ == self.data@.take(written as int) + old(buffer)@.skip(written as int),
            decreases self.data@.len() - written,
        {
            buffer[written] = self.data[written];
            written = written + 1;
        }
    }
}

impl OutputRequest {
    /// Decides what the codec's answer to the request means. The timestamp
    /// is that of the dequeued buffer, and is not looked at unless the codec
    /// handed out a buffer.
    pub fn dequeued(self, index_or_error: isize, presentation_time_us: i64) -> (verdict: Result<
        Option<OutputRelease>,
        DecoderError,
    >)
        ensures
            verdict == output_verdict(self, index_or_error, presentation_time_us),
    {
        if index_or_error >= 0 {
            Ok(
                Some(
                    OutputRelease {
                        buffer_index: index_or_error as usize,
                        render: true,
                        transfer: FrameTransfer {
                            copy: TextureCopy::new(self.video_size, self.slice_index),
                            frame_index: decode_identity(presentation_time_us),
                        },
                    },
                ),
            )
        } else if index_or_error == TRY_AGAIN_LATER {
            Ok(None)
        } else {
            Err(DecoderError::OutputDequeueError(index_or_error))
        }
    }
}

impl OutputRelease {
    /// Decides what the status of the release means: zero lets the retrieval
    /// go on with the frame now presented on the surface, anything else ends
    /// it.
    pub fn released(self, status: i32) -> (verdict: Result<FrameAcquisition, DecoderError>)
        ensures
            verdict == if status == 0 {
                Ok(FrameAcquisition { transfer: self.transfer })
            } else {
                Err(DecoderError::OutputReleaseError(status))
            },
    {
        if status == 0 {
            Ok(FrameAcquisition { transfer: self.transfer })
        } else {
            Err(DecoderError::OutputReleaseError(status))
        }
    }
}

impl FrameAcquisition {
    /// Decides what the surface's answer means: with a presented frame the
    /// copy can be made, without one the retrieval ends.
    pub fn acquired(self, presented: bool) -> (verdict: Result<FrameTransfer, DecoderError>)
        ensures
            verdict == if presented {
                Ok(self.transfer)
            } else {
                Err(DecoderError::SurfacePresentationError)
            },
    {
        if presented {
            Ok(self.transfer)
        } else {
            Err(DecoderError::SurfacePresentationError)
        }
    }
}

} // verus!
