//! The protocol that brings a session from nothing to a started codec.
//!
//! Setup is five platform calls in a fixed order: create the surface, create
//! the codec, configure it, start it, release the configuration. Each stage
//! below stands for one outstanding call. Its method takes the platform's
//! answer and yields the next stage or the error that ends the setup. Stages
//! cannot be made out of thin air, so a session exists only after every call
//! before it has succeeded.

use vstd::prelude::*;
use crate::error::{DecoderError, Warning};
use crate::options::{
    build_format, entries_of, format_of, mime_of, options_of, CodecType, FormatEntry, KeyName,
    MediacodecDataType, OptionValue,
};
use crate::session::VideoDecoder;
use crate::surface::{bridge_of, FrameSurfaceBridge};

verus! {

/// What a setup was begun with, and the configuration made of it. It stays
/// the same from stage to stage.
pub struct SetupPlan {
    pub codec_type: CodecType,
    pub video_size: (u32, u32),
    pub format: Seq<(KeyName, OptionValue)>,
}

struct Plan {
    codec_type: CodecType,
    video_size: (u32, u32),
    format: Vec<FormatEntry>,
}

impl View for Plan {
    type V = SetupPlan;

    closed spec fn view(&self) -> SetupPlan {
        SetupPlan {
            codec_type: self.codec_type,
            video_size: self.video_size,
            format: entries_of(self.format@),
        }
    }
}

/// First stage: the surface is to be created as `bridge()` describes it, and
/// a presentable window derived from it.
pub struct AwaitingSurface {
    plan: Plan,
}

/// Second stage: a codec is to be created for `mime_type()`.
pub struct AwaitingCodec {
    plan: Plan,
}

/// Third stage: the codec is to be configured with `format()`, entry by
/// entry in order, with the surface's window as its output.
pub struct AwaitingConfiguration {
    plan: Plan,
}

/// Fourth stage: the codec is to be started.
pub struct AwaitingStart {
    plan: Plan,
}

/// Fifth stage: the configuration, which the codec has taken over, is to be
/// released.
pub struct AwaitingFormatRelease {
    plan: Plan,
}

impl View for AwaitingSurface {
    type V = SetupPlan;

    closed spec fn view(&self) -> SetupPlan {
        self.plan@
    }
}

impl View for AwaitingCodec {
    type V = SetupPlan;

    closed spec fn view(&self) -> SetupPlan {
        self.plan@
    }
}

impl View for AwaitingConfiguration {
    type V = SetupPlan;

    closed spec fn view(&self) -> SetupPlan {
        self.plan@
    }
}

impl View for AwaitingStart {
    type V = SetupPlan;

    closed spec fn view(&self) -> SetupPlan {
        self.plan@
    }
}

impl View for AwaitingFormatRelease {
    type V = SetupPlan;

    closed spec fn view(&self) -> SetupPlan {
        self.plan@
    }
}

impl VideoDecoder {
    /// Begins the setup of a session that decodes `codec_type` frames of
    /// `video_size` pixels. The codec's configuration is fixed here: media
    /// type, width and height, then `extra_options` in their order.
    pub fn new(
        codec_type: CodecType,
        video_size: (u32, u32),
        extra_options: &[(String, MediacodecDataType)],
    ) -> (stage: AwaitingSurface)
        ensures
            stage@ == (SetupPlan {
                codec_type,
                video_size,
                format: format_of(codec_type, video_size, options_of(extra_options@)),
            }),
    {
        AwaitingSurface {
            plan: Plan {
                codec_type,
                video_size,
                format: build_format(codec_type, video_size, extra_options),
            },
        }
    }
}

impl AwaitingSurface {
    /// The surface to create.
    pub fn bridge(&self) -> (bridge: FrameSurfaceBridge)
        ensures
            bridge == bridge_of(self@.video_size),
            bridge.wf(),
    {
        FrameSurfaceBridge::new(self.plan.video_size.0, self.plan.video_size.1)
    }

    /// Takes the platform's answer: whether the surface was allocated and a
    /// window derived from it.
    pub fn surface_created(self, available: bool) -> (next: Result<AwaitingCodec, DecoderError>)
        ensures
            available ==> next is Ok && next->Ok_0@ == self@,
            !available ==> next == Err::<AwaitingCodec, _>(DecoderError::SurfaceAllocationError),
    {
        if available {
            Ok(AwaitingCodec { plan: self.plan })
        } else {
            Err(DecoderError::SurfaceAllocationError)
        }
    }
}

impl AwaitingCodec {
    /// The media type to create the codec for.
    pub fn mime_type(&self) -> (mime: &'static str)
        ensures
            mime@ == mime_of(self@.codec_type),
    {
        self.plan.codec_type.mime_type()
    }

    /// Takes the platform's answer: whether it had a codec for the media
    /// type.
    pub fn codec_created(self, created: bool) -> (next: Result<
        AwaitingConfiguration,
        DecoderError,
    >)
        ensures
            created ==> next is Ok && next->Ok_0@ == self@,
            !created ==> next == Err::<AwaitingConfiguration, _>(
                DecoderError::CodecCreationError,
            ),
    {
        if created {
            Ok(AwaitingConfiguration { plan: self.plan })
        } else {
            Err(DecoderError::CodecCreationError)
        }
    }
}

impl AwaitingConfiguration {
    /// The configuration to hand to the codec.
    pub fn format(&self) -> (format: &Vec<FormatEntry>)
        ensures
            entries_of(format@) == self@.format,
            format@.len() == self@.format.len(),
    {
        &self.plan.format
    }

    /// Takes the status of the configure call: zero is success.
    pub fn configured(self, status: i32) -> (next: Result<AwaitingStart, DecoderError>)
        ensures
            status == 0 ==> next is Ok && next->Ok_0@ == self@,
            status != 0 ==> next == Err::<AwaitingStart, _>(
                DecoderError::ConfigurationError(status),
            ),
    {
        if status == 0 {
            Ok(AwaitingStart { plan: self.plan })
        } else {
            Err(DecoderError::ConfigurationError(status))
        }
    }
}

impl AwaitingStart {
    /// Takes the status of the start call: zero is success.
    pub fn started(self, status: i32) -> (next: Result<AwaitingFormatRelease, DecoderError>)
        ensures
            status == 0 ==> next is Ok && next->Ok_0@ == self@,
            status != 0 ==> next == Err::<AwaitingFormatRelease, _>(
                DecoderError::StartError(status),
            ),
    {
        if status == 0 {
            Ok(AwaitingFormatRelease { plan: self.plan })
        } else {
            Err(DecoderError::StartError(status))
        }
    }
}

impl AwaitingFormatRelease {
    /// Takes the status of the release and yields the session. The codec is
    /// running by now, so a failed release is handed back to be logged and
    /// changes nothing else.
    pub fn format_released(self, status: i32) -> (done: (VideoDecoder, Option<Warning>))
        ensures
            done.0.video_size() == self@.video_size,
            done.1 == if status == 0 {
                None
            } else {
                Some(Warning::FormatReleaseFailed(status))
            },
    {
        let warning = if status == 0 {
            None
        } else {
            Some(Warning::FormatReleaseFailed(status))
        };
        (VideoDecoder::started(self.plan.video_size), warning)
    }
}

} // verus!
