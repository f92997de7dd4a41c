//! What the loopback thread does with each packet of system audio.
use crate::aec::SAMPLE_RATE;
use crate::audio::capture::{push_at_rate, StreamFormat};
use crate::audio::pcm::convert_to_f32_mono_into;
use crate::sync::AudioProducer;
use vstd::prelude::*;

verus! {

/// The packet is dropped: nothing is playing, or the engine is paused.
pub open spec fn dropped(flags: u32, paused: bool) -> bool {
    crate::audio::capture::marked_silent(flags) || paused
}

/// Handle one packet of system audio. A packet that is marked silent, or that
/// comes while the engine is paused, is dropped, so that the engine sees an
/// empty reference and can leave the canceller out. Any other is mixed to
/// mono, brought to the canceller's rate and pushed into the ring. Returns how
/// many samples the ring took, or `None` for a packet that was dropped.
pub fn loopback_packet<
    F: Fn(&[u32]) -> u32,
    G: Fn(&[i16]) -> u32,
    P: Fn(usize) -> usize,
    M: Fn(usize, u32, u32) -> u32,
>(
    flags: u32,
    paused: bool,
    buffer: &[u8],
    frames: usize,
    format: StreamFormat,
    resampled_len: usize,
    mix_float: F,
    mix_int: G,
    position: P,
    blend: M,
    mono: &mut Vec<u32>,
    resampled: &mut Vec<u32>,
    producer: &mut AudioProducer,
) -> (pushed: Option<usize>)
    requires
        dropped(flags, paused) || crate::audio::pcm::sized(
            buffer@,
            frames as nat,
            format.channels as nat,
            format.bits,
        ),
        forall|part: &[u32]| part@.len() == format.channels ==> call_requires(mix_float, (part,)),
        forall|part: &[i16]| part@.len() == format.channels ==> call_requires(mix_int, (part,)),
        forall|i: usize| i < resampled_len ==> #[trigger] call_requires(position, (i,)),
        forall|i: usize, a: u32, b: u32|
            i < resampled_len ==> #[trigger] call_requires(blend, (i, a, b)),
    ensures
        pushed is None <==> dropped(flags, paused),
        pushed is None ==> final(producer)@ == old(producer)@ && final(mono)@ == old(mono)@
            && final(resampled)@ == old(resampled)@,
        pushed matches Some(n) ==> {
            &&& crate::audio::capture::mono_of(
                buffer@,
                frames as nat,
                format,
                mix_float,
                mix_int,
                final(mono)@,
            )
            &&& format.rate == SAMPLE_RATE ==> final(resampled)@ == old(resampled)@
            &&& format.rate != SAMPLE_RATE ==> crate::audio::pcm::resampled(
                final(mono)@,
                format.rate,
                SAMPLE_RATE,
                resampled_len as nat,
                position,
                blend,
                final(resampled)@,
            )
            &&& crate::sync::pushed(
                old(producer)@,
                crate::audio::capture::handed_on(format, final(mono)@, final(resampled)@),
                n as nat,
                final(producer)@,
            )
        },
{
    if flags & 0x2 != 0 || paused {
        return None;
    }
    convert_to_f32_mono_into(
        buffer,
        frames,
        format.channels,
        format.bits,
        mix_float,
        mix_int,
        mono,
    );
    let n: usize = push_at_rate(format, resampled_len, position, blend, mono, resampled, producer);
    Some(n)
}

/// A packet is dropped exactly where the second bit of its flags says that it is
/// silent, or where the engine is paused.
pub proof fn only_silent_or_paused_audio_is_dropped(flags: u32, paused: bool)
    ensures
        dropped(flags, paused) <==> paused || flags / 2 % 2 == 1,
{
    crate::audio::capture::silence_is_the_second_bit(flags);
}

} // verus!
