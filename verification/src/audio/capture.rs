//! What a capture thread does with each packet that a microphone delivers.
use crate::aec::SAMPLE_RATE;
use crate::audio::pcm::{
    convert_to_f32_mono_into, frame_of, halves, mixed, resample_into, resize_zeroed, words,
};
use crate::sync::AudioProducer;
use vstd::prelude::*;

verus! {

/// The sample format of a device's stream.
#[derive(Debug, Clone, Copy)]
pub struct StreamFormat {
    pub channels: usize,
    pub rate: usize,
    pub bits: u16,
}

/// The packet is marked silent: its buffer holds nothing of meaning.
pub open spec fn marked_silent(flags: u32) -> bool {
    flags & 0x2 != 0
}

/// The mono audio of a packet that is not silent.
pub open spec fn mono_of<F: Fn(&[u32]) -> u32, G: Fn(&[i16]) -> u32>(
    buffer: Seq<u8>,
    frames: nat,
    format: StreamFormat,
    mix_float: F,
    mix_int: G,
    mono: Seq<u32>,
) -> bool {
    crate::audio::pcm::converted(
        buffer,
        frames,
        format.channels as nat,
        format.bits,
        mix_float,
        mix_int,
        mono,
    )
}

/// The audio that a packet hands on: the mono audio where the device runs at
/// the canceller's rate, else what resampling to that rate made of it.
pub open spec fn handed_on(format: StreamFormat, mono: Seq<u32>, resampled: Seq<u32>) -> Seq<u32> {
    if format.rate == SAMPLE_RATE {
        mono
    } else {
        resampled
    }
}

/// Bring mono audio to the canceller's rate and push it.
pub(crate) fn push_at_rate<P: Fn(usize) -> usize, M: Fn(usize, u32, u32) -> u32>(
    format: StreamFormat,
    resampled_len: usize,
    position: P,
    blend: M,
    mono: &Vec<u32>,
    resampled: &mut Vec<u32>,
    producer: &mut AudioProducer,
) -> (n: usize)
    requires
        forall|i: usize| i < resampled_len ==> #[trigger] call_requires(position, (i,)),
        forall|i: usize, a: u32, b: u32|
            i < resampled_len ==> #[trigger] call_requires(blend, (i, a, b)),
    ensures
        format.rate == SAMPLE_RATE ==> final(resampled)@ == old(resampled)@,
        format.rate != SAMPLE_RATE ==> crate::audio::pcm::resampled(
            mono@,
            format.rate,
            SAMPLE_RATE,
            resampled_len as nat,
            position,
            blend,
            final(resampled)@,
        ),
        crate::sync::pushed(
            old(producer)@,
            handed_on(format, mono@, final(resampled)@),
            n as nat,
            final(producer)@,
        ),
{
    if format.rate != SAMPLE_RATE {
        resample_into(
            mono.as_slice(),
            format.rate,
            SAMPLE_RATE,
            resampled_len,
            position,
            blend,
            resampled,
        );
        producer.push(resampled.as_slice())
    } else {
        producer.push(mono.as_slice())
    }
}

/// Handle one captured packet: silence where it is marked silent, else its
/// frames mixed to mono; brought to the canceller's rate; pushed into the
/// ring. Returns how many samples the ring took.
pub fn capture_packet<
    F: Fn(&[u32]) -> u32,
    G: Fn(&[i16]) -> u32,
    P: Fn(usize) -> usize,
    M: Fn(usize, u32, u32) -> u32,
>(
    flags: u32,
    buffer: &[u8],
    frames: usize,
    format: StreamFormat,
    resampled_len: usize,
    mix_float: F,
    mix_int: G,
    position: P,
    blend: M,
    mono: &mut Vec<u32>,
    resampled: &mut Vec<u32>,
    producer: &mut AudioProducer,
) -> (n: usize)
    requires
        marked_silent(flags) || crate::audio::pcm::sized(
            buffer@,
            frames as nat,
            format.channels as nat,
            format.bits,
        ),
        forall|part: &[u32]| part@.len() == format.channels ==> call_requires(mix_float, (part,)),
        forall|part: &[i16]| part@.len() == format.channels ==> call_requires(mix_int, (part,)),
        forall|i: usize| i < resampled_len ==> #[trigger] call_requires(position, (i,)),
        forall|i: usize, a: u32, b: u32|
            i < resampled_len ==> #[trigger] call_requires(blend, (i, a, b)),
    ensures
        marked_silent(flags) ==> final(mono)@ == crate::audio::pcm::silence(frames as nat),
        !marked_silent(flags) ==> mono_of(
            buffer@,
            frames as nat,
            format,
            mix_float,
            mix_int,
            final(mono)@,
        ),
        format.rate == SAMPLE_RATE ==> final(resampled)@ == old(resampled)@,
        format.rate != SAMPLE_RATE ==> crate::audio::pcm::resampled(
            final(mono)@,
            format.rate,
            SAMPLE_RATE,
            resampled_len as nat,
            position,
            blend,
            final(resampled)@,
        ),
        crate::sync::pushed(
            old(producer)@,
            handed_on(format, final(mono)@, final(resampled)@),
            n as nat,
            final(producer)@,
        ),
{
    if flags & 0x2 != 0 {
        resize_zeroed(mono, frames);
    } else {
        convert_to_f32_mono_into(
            buffer,
            frames,
            format.channels,
            format.bits,
            mix_float,
            mix_int,
            mono,
        );
    }
    push_at_rate(format, resampled_len, position, blend, mono, resampled, producer)
}

/// A packet is silent exactly where the second bit of its flags is set.
pub proof fn silence_is_the_second_bit(flags: u32)
    ensures
        marked_silent(flags) <==> flags / 2 % 2 == 1,
{
    assert((flags & 0x2 != 0) <==> flags / 2 % 2 == 1) by (bit_vector);
}

/// Audio at 48 kHz is handed on as it is, any other as it was resampled.
pub proof fn audio_at_the_rate_is_handed_on(
    format: StreamFormat,
    mono: Seq<u32>,
    resampled: Seq<u32>,
)
    ensures
        format.rate == 48_000 ==> handed_on(format, mono, resampled) == mono,
        format.rate != 48_000 ==> handed_on(format, mono, resampled) == resampled,
{
}

/// The mono audio of a packet has a sample for each frame: what is made of the
/// frame's samples, in their places, where they are 32 or 16 bits wide, and
/// silence else.
pub proof fn each_frame_is_mixed<F: Fn(&[u32]) -> u32, G: Fn(&[i16]) -> u32>(
    buffer: Seq<u8>,
    frames: nat,
    format: StreamFormat,
    mix_float: F,
    mix_int: G,
    mono: Seq<u32>,
    i: int,
)
    requires
        mono_of(buffer, frames, format, mix_float, mix_int, mono),
        0 <= i < frames,
    ensures
        mono.len() == frames,
        format.bits == 32 ==> exists|part: &[u32]|
            part@ == words(buffer).subrange(i * format.channels, (i + 1) * format.channels)
                && #[trigger] call_ensures(mix_float, (part,), mono[i]),
        format.bits == 16 ==> exists|part: &[i16]|
            part@ == halves(buffer).subrange(i * format.channels, (i + 1) * format.channels)
                && #[trigger] call_ensures(mix_int, (part,), mono[i]),
        format.bits != 32 && format.bits != 16 ==> mono[i] == 0,
{
    if format.bits == 32 {
        assert(mixed(mix_float, frame_of(words(buffer), format.channels as nat, i), mono[i]));
    } else if format.bits == 16 {
        assert(mixed(mix_int, frame_of(halves(buffer), format.channels as nat, i), mono[i]));
    }
}

} // verus!
