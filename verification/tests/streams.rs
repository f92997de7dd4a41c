use rust_aec::audio::capture::{capture_packet, StreamFormat};
use rust_aec::audio::loopback::loopback_packet;
use rust_aec::audio::render::{render_frames, render_step, RenderStep};
use rust_aec::sync::{AudioConsumer, AudioProducer, AudioRingBuf};

const STEREO: StreamFormat = StreamFormat { channels: 2, rate: 48_000, bits: 32 };

fn first(frame: &[u32]) -> u32 {
    frame[0]
}

fn first_int(frame: &[i16]) -> u32 {
    frame[0] as u32
}

fn words(samples: &[u32]) -> Vec<u8> {
    samples.iter().flat_map(|s| s.to_le_bytes()).collect()
}

fn ring() -> (AudioProducer, AudioConsumer) {
    AudioRingBuf::new(16).split()
}

fn read(consumer: &mut AudioConsumer) -> Vec<u32> {
    let mut dst = vec![0; 16];
    let n = consumer.pop(&mut dst);
    dst.truncate(n);
    dst
}

fn capture(flags: u32, buffer: &[u8], frames: usize, format: StreamFormat) -> Vec<u32> {
    let (mut producer, mut consumer) = ring();
    let mut mono = Vec::new();
    let mut resampled = Vec::new();
    let n = capture_packet(
        flags,
        buffer,
        frames,
        format,
        2 * frames,
        first,
        first_int,
        |i| i / 2,
        |i, a, b| if i % 2 == 0 { a } else { b },
        &mut mono,
        &mut resampled,
        &mut producer,
    );
    let got = read(&mut consumer);
    assert_eq!(n, got.len());
    got
}

#[test]
fn a_packet_is_mixed_and_pushed() {
    assert_eq!(capture(0, &words(&[1, 9, 2, 9, 3, 9]), 3, STEREO), vec![1, 2, 3]);
}

#[test]
fn a_silent_packet_is_zeros() {
    assert_eq!(capture(2, &[], 3, STEREO), vec![0, 0, 0]);
    assert_eq!(capture(3, &words(&[1, 1]), 1, STEREO), vec![0]);
}

#[test]
fn other_flags_do_not_silence_a_packet() {
    assert_eq!(capture(5, &words(&[4, 4]), 1, STEREO), vec![4]);
}

#[test]
fn another_rate_is_resampled() {
    let slow = StreamFormat { channels: 1, rate: 24_000, bits: 32 };
    assert_eq!(capture(0, &words(&[1, 2, 3]), 3, slow), vec![1, 2, 2, 3, 3, 3]);
}

#[test]
fn what_does_not_fit_is_dropped() {
    let many: Vec<u32> = (1..=20).collect();
    let mono = StreamFormat { channels: 1, rate: 48_000, bits: 32 };
    assert_eq!(capture(0, &words(&many), 20, mono), (1..=16).collect::<Vec<u32>>());
}

fn loopback(flags: u32, paused: bool) -> (Option<usize>, Vec<u32>) {
    let (mut producer, mut consumer) = ring();
    let mut mono = vec![8];
    let mut resampled = Vec::new();
    let pushed = loopback_packet(
        flags,
        paused,
        &words(&[5, 0, 6, 0]),
        2,
        STEREO,
        4,
        first,
        first_int,
        |i| i,
        |_, a, _| a,
        &mut mono,
        &mut resampled,
        &mut producer,
    );
    (pushed, read(&mut consumer))
}

#[test]
fn system_audio_is_pushed() {
    assert_eq!(loopback(0, false), (Some(2), vec![5, 6]));
}

#[test]
fn silent_system_audio_is_dropped() {
    assert_eq!(loopback(2, false), (None, vec![]));
}

#[test]
fn system_audio_is_dropped_while_paused() {
    assert_eq!(loopback(0, true), (None, vec![]));
}

#[test]
fn the_room_in_the_buffer_decides() {
    assert_eq!(render_step(480, 480, false), RenderStep::Wait);
    assert_eq!(render_step(480, 480, true), RenderStep::Wait);
    assert_eq!(render_step(480, 80, true), RenderStep::Silence(400));
    assert_eq!(render_step(480, 80, false), RenderStep::Play(400));
}

fn render(queued: &[u32], available: usize, scaled: usize, format: StreamFormat) -> (usize, Vec<u8>) {
    let (mut producer, mut consumer) = ring();
    producer.push(queued);
    let mut mono = vec![9, 9];
    let mut resampled = vec![9];
    render_frames(
        &mut consumer,
        available,
        scaled,
        format,
        scaled / 2,
        |i| 2 * i,
        |_, a, _| a,
        |s| s as i16,
        &mut mono,
        &mut resampled,
    )
}

#[test]
fn audio_is_written_and_gaps_are_silent() {
    let (frames, bytes) = render(&[1, 2], 4, 0, STEREO);
    assert_eq!(frames, 4);
    assert_eq!(bytes, words(&[1, 1, 2, 2, 0, 0, 0, 0]));
}

#[test]
fn no_more_is_written_than_there_is_room_for() {
    let (frames, bytes) = render(&[1, 2, 3], 2, 0, StreamFormat { channels: 1, ..STEREO });
    assert_eq!(frames, 2);
    assert_eq!(bytes, words(&[1, 2]));
}

#[test]
fn the_output_is_brought_to_the_rate_of_the_device() {
    let slow = StreamFormat { channels: 1, rate: 24_000, bits: 16 };
    let (frames, bytes) = render(&[1, 2, 3, 4], 2, 4, slow);
    assert_eq!(frames, 2);
    assert_eq!(bytes, vec![1, 0, 3, 0]);
}

#[test]
fn nothing_is_written_for_nothing() {
    let slow = StreamFormat { channels: 1, rate: 24_000, bits: 16 };
    assert_eq!(render(&[1], 5, 0, slow), (0, vec![]));
}
