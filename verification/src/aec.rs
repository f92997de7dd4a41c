//! The format of the audio that the echo canceller works on.
use vstd::prelude::*;

verus! {

/// Frame size in samples at 48kHz (10ms).
pub const FRAME_SIZE: usize = 480;

/// Number of audio channels.
pub const NUM_CHANNELS: usize = 1;

/// Sample rate in Hz.
pub const SAMPLE_RATE: usize = 48_000;

/// The canceller works on a single channel at 48kHz, in frames of a hundredth of a
/// second.
pub proof fn a_frame_is_a_hundredth_of_a_second()
    ensures
        SAMPLE_RATE == 48_000,
        100 * FRAME_SIZE == SAMPLE_RATE,
        NUM_CHANNELS == 1,
{
}

/// Copy samples.
pub fn copied(samples: &Vec<u32>) -> (copy: Vec<u32>)
    ensures
        copy@ == samples@,
{
    let mut copy: Vec<u32> = Vec::new();
    for i in 0..samples.len()
        invariant
            copy@ == samples@.take(i as int),
    {
        copy.push(samples[i]);
    }
    assert(samples@.take(samples@.len() as int) =~= samples@);
    copy
}

/// The output for one frame: what the canceller made of it, or, where it failed
/// on it, the microphone's audio as it is.
pub fn settle_frame(cancelled: Option<Vec<u32>>, mic_frame: &Vec<u32>) -> (out: Vec<u32>)
    ensures
        out@ == match cancelled {
            Some(frame) => frame@,
            None => mic_frame@,
        },
{
    match cancelled {
        Some(frame) => frame,
        None => copied(mic_frame),
    }
}

} // verus!
