//! What the render thread writes to the virtual cable each time it can.
use crate::aec::SAMPLE_RATE;
use crate::audio::capture::{handed_on, StreamFormat};
use crate::audio::pcm::{resample_into, resize_zeroed, silence, write_to_device_buffer};
use crate::sync::{popped, AudioConsumer, ConsumerView};
use vstd::prelude::*;
use vstd::slice::slice_subrange;

verus! {

/// What to do about the room in the device's buffer.
#[derive(Debug, Clone, Copy, PartialEq, Eq, Structural)]
pub enum RenderStep {
    /// The buffer is full: wait.
    Wait,
    /// The engine is paused: fill so many frames with silence, and leave the
    /// ring alone.
    Silence(u32),
    /// Write up to so many frames of audio.
    Play(u32),
}

/// The step for a buffer of `buffer_size` frames of which `padding` are filled.
pub open spec fn step_for(buffer_size: int, padding: int, paused: bool) -> RenderStep {
    if buffer_size == padding {
        RenderStep::Wait
    } else if paused {
        RenderStep::Silence((buffer_size - padding) as u32)
    } else {
        RenderStep::Play((buffer_size - padding) as u32)
    }
}

/// Decide what to do about the room in the device's buffer.
pub fn render_step(buffer_size: u32, padding: u32, paused: bool) -> (step: RenderStep)
    requires
        padding <= buffer_size,
    ensures
        step == step_for(buffer_size as int, padding as int, paused),
{
    let available_frames: u32 = buffer_size - padding;
    if available_frames == 0 {
        RenderStep::Wait
    } else if paused {
        RenderStep::Silence(available_frames)
    } else {
        RenderStep::Play(available_frames)
    }
}

/// How many mono frames are read from the ring for `available` frames of the
/// device: as many where the device runs at the canceller's rate, else the
/// number scaled to the rates.
pub open spec fn frames_needed(available: usize, rate: usize, scaled: usize) -> usize {
    if rate == SAMPLE_RATE {
        available
    } else {
        scaled
    }
}

/// The lesser of two numbers.
pub open spec fn lesser(a: nat, b: nat) -> nat {
    if a < b {
        a
    } else {
        b
    }
}

/// Make the bytes for up to `available` frames of the device: read mono audio
/// from the ring, with silence for what the ring does not have; bring it to
/// the device's rate; write it on every channel. `scaled` and `resampled_len`
/// count the mono and the device frames where the rates differ. Returns how
/// many frames were made, and their bytes.
pub fn render_frames<
    P: Fn(usize) -> usize,
    M: Fn(usize, u32, u32) -> u32,
    Q: Fn(u32) -> i16,
>(
    consumer: &mut AudioConsumer,
    available: usize,
    scaled: usize,
    format: StreamFormat,
    resampled_len: usize,
    position: P,
    blend: M,
    quantize: Q,
    mono: &mut Vec<u32>,
    resampled: &mut Vec<u32>,
) -> (made: (usize, Vec<u8>))
    requires
        forall|i: usize| i < resampled_len ==> #[trigger] call_requires(position, (i,)),
        forall|i: usize, a: u32, b: u32|
            i < resampled_len ==> #[trigger] call_requires(blend, (i, a, b)),
        forall|sample: u32| call_requires(quantize, (sample,)),
    ensures
        popped(
            old(consumer)@,
            silence(frames_needed(available, format.rate, scaled) as nat),
            (final(consumer)@.taken - old(consumer)@.taken) as nat,
            final(consumer)@,
            final(mono)@,
        ),
        format.rate == SAMPLE_RATE ==> final(resampled)@ == old(resampled)@,
        format.rate != SAMPLE_RATE ==> crate::audio::pcm::resampled(
            final(mono)@,
            SAMPLE_RATE,
            format.rate,
            resampled_len as nat,
            position,
            blend,
            final(resampled)@,
        ),
        made.0 == lesser(
            handed_on(format, final(mono)@, final(resampled)@).len(),
            available as nat,
        ),
        made.0 == 0 ==> made.1@.len() == 0,
        made.0 > 0 ==> crate::audio::pcm::written(
            handed_on(format, final(mono)@, final(resampled)@).take(
                made.0 as int,
            ),
            format.channels as nat,
            format.bits,
            quantize,
            made.1@,
        ),
{
    let needed: usize = if format.rate != SAMPLE_RATE {
        scaled
    } else {
        available
    };
    resize_zeroed(mono, needed);
    consumer.pop(mono.as_mut_slice());
    if format.rate != SAMPLE_RATE {
        resample_into(
            mono.as_slice(),
            SAMPLE_RATE,
            format.rate,
            resampled_len,
            position,
            blend,
            resampled,
        );
    }
    let audio: &[u32] = if format.rate != SAMPLE_RATE {
        resampled.as_slice()
    } else {
        mono.as_slice()
    };
    let frames: usize = if audio.len() < available {
        audio.len()
    } else {
        available
    };
    if frames == 0 {
        return (0, Vec::new());
    }
    let part = slice_subrange(audio, 0, frames);
    assert(part@ =~= audio@.take(frames as int));
    let bytes = write_to_device_buffer(part, format.channels, format.bits, quantize);
    (frames, bytes)
}

/// The output is free of gaps: what is written is the next samples of the ring,
/// in order, and silence for what the ring does not have.
pub proof fn gaps_are_silent(
    before: ConsumerView,
    needed: nat,
    read: nat,
    after: ConsumerView,
    mono: Seq<u32>,
)
    requires
        popped(before, silence(needed), read, after, mono),
    ensures
        mono.len() == needed,
        forall|i: int| 0 <= i < read ==> mono[i] == before.stream[before.taken + i],
        forall|i: int| read <= i < needed ==> mono[i] == 0,
{
}

/// Whenever there is room in the device's buffer, all of it is filled: with
/// silence while the engine is paused, with audio otherwise. Only a full buffer
/// is waited for.
pub proof fn all_the_room_is_filled(buffer_size: int, padding: int, paused: bool)
    requires
        0 <= padding <= buffer_size <= u32::MAX,
    ensures
        padding < buffer_size && paused ==> (step_for(buffer_size, padding, paused) matches
            RenderStep::Silence(frames) && frames == buffer_size - padding),
        padding < buffer_size && !paused ==> (step_for(buffer_size, padding, paused) matches
            RenderStep::Play(frames) && frames == buffer_size - padding),
        step_for(buffer_size, padding, paused) is Wait <==> padding == buffer_size,
{
}

/// At the canceller's rate one mono frame is read for each frame of the device,
/// at another rate as many as the rates ask for; and no more is written than
/// there is room for, nor than there is.
pub proof fn as_much_as_fits_is_written(
    available: usize,
    format: StreamFormat,
    scaled: usize,
    mono: Seq<u32>,
    resampled: Seq<u32>,
)
    ensures
        format.rate == 48_000 ==> frames_needed(available, format.rate, scaled) == available,
        format.rate != 48_000 ==> frames_needed(available, format.rate, scaled) == scaled,
        ({
            let audio = if format.rate == 48_000 {
                mono
            } else {
                resampled
            };
            let frames = lesser(handed_on(format, mono, resampled).len(), available as nat);
            &&& handed_on(format, mono, resampled) == audio
            &&& frames <= audio.len() && frames <= available
            &&& frames == audio.len() || frames == available
        }),
{
}

} // verus!
