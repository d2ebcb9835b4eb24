use video_decoder::setup::AwaitingFormatRelease;
use video_decoder::surface::{FrameSurfaceBridge, SurfaceFormat, SurfaceUsage, SURFACE_IMAGE_COUNT};
use video_decoder::{
    CodecType, DecoderError, FormatEntry, FormatKey, MediacodecDataType, VideoDecoder, Warning,
};

fn until_format_release(codec_type: CodecType, video_size: (u32, u32)) -> AwaitingFormatRelease {
    VideoDecoder::new(codec_type, video_size, &[])
        .surface_created(true)
        .ok()
        .unwrap()
        .codec_created(true)
        .ok()
        .unwrap()
        .configured(0)
        .ok()
        .unwrap()
        .started(0)
        .ok()
        .unwrap()
}

#[test]
fn surface_is_double_buffered_rgbx_of_the_video_size() {
    let stage = VideoDecoder::new(CodecType::H264, (1280, 720), &[]);
    assert_eq!(
        stage.bridge(),
        FrameSurfaceBridge {
            width: 1280,
            height: 720,
            format: SurfaceFormat::Rgbx8888,
            usage: SurfaceUsage::GpuSampledImage,
            max_images: 2,
        }
    );
    assert_eq!(SURFACE_IMAGE_COUNT, 2);
    assert_eq!(FrameSurfaceBridge::new(640, 480), VideoDecoder::new(CodecType::HEVC, (640, 480), &[]).bridge());
}

#[test]
fn setup_walks_through_every_stage() {
    let options = vec![("low-latency".to_string(), MediacodecDataType::Int32(1))];
    let surface = VideoDecoder::new(CodecType::HEVC, (1920, 1080), &options);
    assert_eq!(surface.bridge().width, 1920);
    assert_eq!(surface.bridge().height, 1080);

    let codec = surface.surface_created(true).ok().unwrap();
    assert_eq!(codec.mime_type(), "video/hevc");

    let configuration = codec.codec_created(true).ok().unwrap();
    assert_eq!(
        configuration.format(),
        &vec![
            FormatEntry {
                key: FormatKey::Mime,
                value: MediacodecDataType::String("video/hevc".to_string()),
            },
            FormatEntry { key: FormatKey::Width, value: MediacodecDataType::Int32(1920) },
            FormatEntry { key: FormatKey::Height, value: MediacodecDataType::Int32(1080) },
            FormatEntry {
                key: FormatKey::Custom("low-latency".to_string()),
                value: MediacodecDataType::Int32(1),
            },
        ]
    );

    let start = configuration.configured(0).ok().unwrap();
    let release = start.started(0).ok().unwrap();
    let (session, warning) = release.format_released(0);
    assert_eq!(warning, None);
    assert_eq!(session.video_size(), (1920, 1080));
}

#[test]
fn h264_codec_is_created_for_avc() {
    let codec = VideoDecoder::new(CodecType::H264, (8, 8), &[]).surface_created(true).ok().unwrap();
    assert_eq!(codec.mime_type(), "video/avc");
}

#[test]
fn missing_surface_is_a_surface_allocation_error() {
    let next = VideoDecoder::new(CodecType::H264, (1280, 720), &[]).surface_created(false);
    assert_eq!(next.err(), Some(DecoderError::SurfaceAllocationError));
}

#[test]
fn missing_codec_is_a_codec_creation_error() {
    let next = VideoDecoder::new(CodecType::H264, (1280, 720), &[])
        .surface_created(true)
        .ok()
        .unwrap()
        .codec_created(false);
    assert_eq!(next.err(), Some(DecoderError::CodecCreationError));
}

#[test]
fn refused_configuration_carries_the_status() {
    for status in [-10000, -1, 1, 1100, i32::MIN, i32::MAX] {
        let next = VideoDecoder::new(CodecType::H264, (1280, 720), &[])
            .surface_created(true)
            .ok()
            .unwrap()
            .codec_created(true)
            .ok()
            .unwrap()
            .configured(status);
        assert_eq!(next.err(), Some(DecoderError::ConfigurationError(status)));
    }
}

#[test]
fn failed_start_carries_the_status() {
    for status in [-10000, -1, 1, 1101] {
        let next = VideoDecoder::new(CodecType::HEVC, (1280, 720), &[])
            .surface_created(true)
            .ok()
            .unwrap()
            .codec_created(true)
            .ok()
            .unwrap()
            .configured(0)
            .ok()
            .unwrap()
            .started(status);
        assert_eq!(next.err(), Some(DecoderError::StartError(status)));
    }
}

#[test]
fn failed_format_release_is_only_a_warning() {
    let (session, warning) = until_format_release(CodecType::H264, (1280, 720)).format_released(-10002);
    assert_eq!(warning, Some(Warning::FormatReleaseFailed(-10002)));
    assert_eq!(session.video_size(), (1280, 720));
}

#[test]
fn session_keeps_the_size_it_was_set_up_with() {
    for video_size in [(1u32, 1u32), (1280, 720), (3840, 2160), (0, 0), (u32::MAX, 7)] {
        let (session, _) = until_format_release(CodecType::H264, video_size).format_released(0);
        assert_eq!(session.video_size(), video_size);
        let request = session.get_output_frame(0, 0);
        assert_eq!(request.video_size, video_size);
    }
}
