use std::collections::VecDeque;
use video_decoder::surface::{Extent3d, TextureCopy};
use video_decoder::{CodecType, DecoderError, VideoDecoder};

/// A stand-in for the platform codec: a pool of input buffers, and decoded
/// frames handed out with the timestamps they were queued under.
struct Codec {
    free_inputs: Vec<usize>,
    buffers: Vec<Vec<u8>>,
    decoding: VecDeque<(usize, u64)>,
    reorder: bool,
}

impl Codec {
    fn new(input_buffers: usize, capacity: usize, reorder: bool) -> Codec {
        Codec {
            free_inputs: (0..input_buffers).rev().collect(),
            buffers: vec![vec![0; capacity]; input_buffers],
            decoding: VecDeque::new(),
            reorder,
        }
    }

    fn dequeue_input_buffer(&mut self) -> isize {
        match self.free_inputs.pop() {
            Some(index) => index as isize,
            None => -1,
        }
    }

    fn queue_input_buffer(&mut self, index: usize, time: u64) {
        self.decoding.push_back((index, time));
    }

    fn dequeue_output_buffer(&mut self) -> (isize, i64) {
        let next = if self.reorder { self.decoding.pop_back() } else { self.decoding.pop_front() };
        match next {
            Some((index, time)) => {
                self.free_inputs.push(index);
                (index as isize, i64::from_ne_bytes(time.to_ne_bytes()))
            }
            None => (-1, 0),
        }
    }
}

fn start(codec_type: CodecType, video_size: (u32, u32)) -> VideoDecoder {
    let surface = VideoDecoder::new(codec_type, video_size, &[]);
    let codec = surface.surface_created(true).ok().unwrap();
    let configuration = codec.codec_created(true).ok().unwrap();
    let start = configuration.configured(0).ok().unwrap();
    let release = start.started(0).ok().unwrap();
    release.format_released(0).0
}

fn push(
    decoder: &VideoDecoder,
    codec: &mut Codec,
    frame_index: usize,
    data: &[u8],
) -> Result<bool, DecoderError> {
    let request = decoder.push_frame_nals(frame_index, data, 0);
    match request.dequeued(codec.dequeue_input_buffer())? {
        Some(submission) => {
            let buffer = &mut codec.buffers[submission.buffer_index];
            assert!(submission.fits(buffer.len()));
            submission.write_into(buffer);
            assert_eq!(&buffer[..submission.size], data);
            codec.queue_input_buffer(submission.buffer_index, submission.presentation_time_us);
            Ok(true)
        }
        None => Ok(false),
    }
}

fn pull(
    decoder: &VideoDecoder,
    codec: &mut Codec,
    slices: &mut Vec<Option<TextureCopy>>,
    slice_index: u32,
) -> Result<Option<usize>, DecoderError> {
    let request = decoder.get_output_frame(slice_index, 0);
    let (index_or_error, presentation_time_us) = codec.dequeue_output_buffer();
    match request.dequeued(index_or_error, presentation_time_us)? {
        Some(release) => {
            assert!(release.render);
            let transfer = release.released(0)?.acquired(true)?;
            slices[transfer.copy.destination.origin.z as usize] = Some(transfer.copy);
            Ok(Some(transfer.frame_index))
        }
        None => Ok(None),
    }
}

#[test]
fn three_frames_go_in_and_come_out_once_each() {
    let decoder = start(CodecType::H264, (1280, 720));
    let mut codec = Codec::new(4, 64, false);
    let mut slices: Vec<Option<TextureCopy>> = vec![None; 3];

    for identity in 0..3usize {
        let payload = vec![identity as u8; 16 + identity];
        assert_eq!(push(&decoder, &mut codec, identity, &payload), Ok(true));
    }

    let mut pulled = Vec::new();
    let mut slice_index = 0;
    while pulled.len() < 3 {
        if let Some(identity) = pull(&decoder, &mut codec, &mut slices, slice_index).ok().unwrap() {
            pulled.push(identity);
            slice_index += 1;
        }
    }
    assert_eq!(pulled, vec![0, 1, 2]);
    assert_eq!(pull(&decoder, &mut codec, &mut slices, 0), Ok(None));

    for (index, slice) in slices.iter().enumerate() {
        let copy = slice.unwrap();
        assert_eq!(copy, TextureCopy::new((1280, 720), index as u32));
        assert_eq!(copy.extent, Extent3d { width: 1280, height: 720, depth_or_array_layers: 1 });
    }
    assert_eq!(decoder.destroy(0), None);
}

#[test]
fn reordering_codec_returns_a_rearrangement_of_the_pushed_identities() {
    let decoder = start(CodecType::HEVC, (640, 480));
    let mut codec = Codec::new(8, 8, true);
    let mut slices: Vec<Option<TextureCopy>> = vec![None; 1];
    let pushed = vec![11usize, 7, 300, 0, usize::MAX];
    for identity in &pushed {
        assert_eq!(push(&decoder, &mut codec, *identity, &[1, 2, 3]), Ok(true));
    }
    let mut pulled = Vec::new();
    while let Some(identity) = pull(&decoder, &mut codec, &mut slices, 0).ok().unwrap() {
        assert!(pushed.contains(&identity));
        pulled.push(identity);
    }
    assert_eq!(pulled, vec![usize::MAX, 0, 300, 7, 11]);
    let mut sorted_pulled = pulled.clone();
    sorted_pulled.sort();
    let mut sorted_pushed = pushed.clone();
    sorted_pushed.sort();
    assert_eq!(sorted_pulled, sorted_pushed);
}

#[test]
fn full_pool_declines_until_a_frame_is_pulled() {
    let decoder = start(CodecType::H264, (1280, 720));
    let mut codec = Codec::new(2, 32, false);
    let mut slices: Vec<Option<TextureCopy>> = vec![None; 2];
    assert_eq!(push(&decoder, &mut codec, 0, &[0; 4]), Ok(true));
    assert_eq!(push(&decoder, &mut codec, 1, &[1; 4]), Ok(true));
    for _ in 0..10 {
        assert_eq!(push(&decoder, &mut codec, 2, &[2; 4]), Ok(false));
    }
    assert_eq!(pull(&decoder, &mut codec, &mut slices, 0), Ok(Some(0)));
    assert_eq!(push(&decoder, &mut codec, 2, &[2; 4]), Ok(true));
    assert_eq!(pull(&decoder, &mut codec, &mut slices, 1), Ok(Some(1)));
    assert_eq!(pull(&decoder, &mut codec, &mut slices, 0), Ok(Some(2)));
    assert_eq!(pull(&decoder, &mut codec, &mut slices, 0), Ok(None));
}

#[test]
fn nothing_is_pulled_before_anything_is_pushed() {
    let decoder = start(CodecType::H264, (1280, 720));
    let mut codec = Codec::new(2, 32, false);
    let mut slices: Vec<Option<TextureCopy>> = vec![None; 1];
    for _ in 0..5 {
        assert_eq!(pull(&decoder, &mut codec, &mut slices, 0), Ok(None));
    }
    assert_eq!(slices, vec![None]);
}
