use rust_aec::aec::{settle_frame, FRAME_SIZE, NUM_CHANNELS, SAMPLE_RATE};
use rust_aec::engine::frames::{FrameBuffers, FrameStep};
use rust_aec::sync::{AudioConsumer, AudioProducer, AudioRingBuf};

fn ring() -> (AudioProducer, AudioConsumer) {
    AudioRingBuf::new(2000).split()
}

fn run(from: u32, len: usize) -> Vec<u32> {
    (from..from + len as u32).collect()
}

#[test]
fn a_frame_is_ten_milliseconds() {
    assert_eq!(FRAME_SIZE * 100, SAMPLE_RATE);
    assert_eq!(FRAME_SIZE, 480);
    assert_eq!(NUM_CHANNELS, 1);
}

#[test]
fn buffers_start_silent() {
    let frames = FrameBuffers::new();
    assert_eq!(frames.mic(), &vec![0; FRAME_SIZE]);
    assert_eq!(frames.reference(), &vec![0; FRAME_SIZE]);
    assert_eq!(frames.out(), &vec![0; FRAME_SIZE]);
}

#[test]
fn less_than_a_frame_is_left_where_it_is() {
    let (mut mic_in, mut mic) = ring();
    let (mut ref_in, mut reference) = ring();
    let mut frames = FrameBuffers::new();
    mic_in.push(&run(1, FRAME_SIZE - 1));
    ref_in.push(&run(1, 10));
    assert_eq!(frames.take(&mut mic, &mut reference), FrameStep::NotReady);
    assert_eq!(mic.available(), FRAME_SIZE - 1);
    assert_eq!(reference.available(), 10);
    assert_eq!(frames.mic(), &vec![0; FRAME_SIZE]);
}

#[test]
fn without_a_reference_the_microphone_passes_through() {
    let (mut mic_in, mut mic) = ring();
    let (_ref_in, mut reference) = ring();
    let mut frames = FrameBuffers::new();
    mic_in.push(&run(1, FRAME_SIZE + 5));
    assert_eq!(frames.take(&mut mic, &mut reference), FrameStep::PassThrough);
    assert_eq!(frames.mic(), &run(1, FRAME_SIZE));
    assert_eq!(frames.reference(), &vec![0; FRAME_SIZE]);
    assert_eq!(frames.out(), &run(1, FRAME_SIZE));
    assert_eq!(mic.available(), 5);
}

#[test]
fn a_short_reference_is_filled_with_silence() {
    let (mut mic_in, mut mic) = ring();
    let (mut ref_in, mut reference) = ring();
    let mut frames = FrameBuffers::new();
    mic_in.push(&run(1, FRAME_SIZE));
    ref_in.push(&run(7, 3));
    assert_eq!(frames.take(&mut mic, &mut reference), FrameStep::Cancel);
    assert_eq!(&frames.reference()[..4], &[7, 8, 9, 0]);
    assert_eq!(frames.reference().len(), FRAME_SIZE);
    assert!(frames.reference()[3..].iter().all(|s| *s == 0));
    assert_eq!(frames.out(), &vec![0; FRAME_SIZE]);
}

#[test]
fn a_long_reference_gives_one_frame() {
    let (mut mic_in, mut mic) = ring();
    let (mut ref_in, mut reference) = ring();
    let mut frames = FrameBuffers::new();
    mic_in.push(&run(1, 2 * FRAME_SIZE));
    ref_in.push(&run(5000, FRAME_SIZE + 20));
    assert_eq!(frames.take(&mut mic, &mut reference), FrameStep::Cancel);
    assert_eq!(frames.reference(), &run(5000, FRAME_SIZE));
    assert_eq!(reference.available(), 20);
    assert_eq!(frames.take(&mut mic, &mut reference), FrameStep::Cancel);
    assert_eq!(frames.mic(), &run(1 + FRAME_SIZE as u32, FRAME_SIZE));
    assert_eq!(frames.reference()[19], 5000 + FRAME_SIZE as u32 + 19);
    assert_eq!(frames.reference()[20], 0);
    assert_eq!(frames.take(&mut mic, &mut reference), FrameStep::NotReady);
}

#[test]
fn the_canceller_settles_the_output() {
    let (mut mic_in, mut mic) = ring();
    let (mut ref_in, mut reference) = ring();
    let mut frames = FrameBuffers::new();
    mic_in.push(&run(1, FRAME_SIZE));
    ref_in.push(&[1]);
    frames.take(&mut mic, &mut reference);
    frames.settle(Some(run(9000, FRAME_SIZE)));
    assert_eq!(frames.out(), &run(9000, FRAME_SIZE));
    frames.settle(None);
    assert_eq!(frames.out(), &run(1, FRAME_SIZE));
    assert_eq!(settle_frame(Some(vec![1]), &vec![2]), vec![1]);
    assert_eq!(settle_frame(None, &vec![2]), vec![2]);
}

#[test]
fn silence_drops_a_frame_of_the_reference() {
    let (mut ref_in, mut reference) = ring();
    let mut frames = FrameBuffers::new();
    frames.settle(Some(run(1, FRAME_SIZE)));
    ref_in.push(&run(1, FRAME_SIZE - 1));
    frames.hush(&mut reference);
    assert_eq!(frames.out(), &vec![0; FRAME_SIZE]);
    assert_eq!(reference.available(), FRAME_SIZE - 1);
    ref_in.push(&run(1, 3));
    frames.hush(&mut reference);
    assert_eq!(reference.available(), 2);
}

#[test]
fn the_output_is_handed_on() {
    let (mut out_in, mut out) = AudioRingBuf::new(500).split();
    let mut frames = FrameBuffers::new();
    frames.settle(Some(run(1, FRAME_SIZE)));
    assert_eq!(frames.emit(&mut out_in), FRAME_SIZE);
    assert_eq!(frames.emit(&mut out_in), 20);
    let mut dst = vec![0; 500];
    assert_eq!(out.pop(&mut dst), 500);
    assert_eq!(dst[..FRAME_SIZE], run(1, FRAME_SIZE)[..]);
    assert_eq!(dst[FRAME_SIZE..], run(1, 20)[..]);
}
