//! The frames of audio that pass through the engine: from the microphone and
//! the reference pipeline in, and to the output.
use crate::aec::{copied, settle_frame, FRAME_SIZE};
use crate::audio::pcm::{resize_zeroed, silence};
use crate::sync::{pushed, AudioConsumer, AudioProducer, ConsumerView};
use vstd::prelude::*;

verus! {

/// What the attempt at a frame brought.
#[derive(Debug, Clone, Copy, PartialEq, Eq, Structural)]
pub enum FrameStep {
    /// The microphone has not delivered a whole frame yet.
    NotReady,
    /// There is a frame, and nothing was played meanwhile: the output is the
    /// microphone's audio.
    PassThrough,
    /// There is a frame, and the echo is to be cancelled in it.
    Cancel,
}

/// One frame each of microphone, reference and output.
pub struct FrameBuffers {
    mic: Vec<u32>,
    reference: Vec<u32>,
    out: Vec<u32>,
}

pub struct FramesView {
    pub mic: Seq<u32>,
    pub reference: Seq<u32>,
    pub out: Seq<u32>,
}

impl View for FrameBuffers {
    type V = FramesView;

    closed spec fn view(&self) -> FramesView {
        FramesView { mic: self.mic@, reference: self.reference@, out: self.out@ }
    }
}

/// The next `n` samples that a consumer takes.
pub open spec fn next_samples(c: ConsumerView, n: nat) -> Seq<u32> {
    c.stream.subrange(c.taken as int, (c.taken + n) as int)
}

/// A consumer moved on by `n` samples: what was waiting is taken or still
/// waits.
pub open spec fn moved_on(before: ConsumerView, n: nat, after: ConsumerView) -> bool {
    &&& after.stream == before.stream
    &&& after.capacity == before.capacity
    &&& after.taken == before.taken + n
    &&& n > 0 ==> after.taken <= after.stream.len()
    &&& before.waiting <= n + after.waiting <= after.capacity
}

/// What a frame's start is made of: a whole frame of the microphone, and as much
/// of the reference as there is, up to a frame, with silence behind it; where
/// there is none of the reference, the output is the microphone's frame.
pub open spec fn framed(
    before: FramesView,
    mic: ConsumerView,
    reference: ConsumerView,
    heard: nat,
    after: FramesView,
) -> bool {
    &&& after.mic == next_samples(mic, FRAME_SIZE as nat)
    &&& after.reference == next_samples(reference, heard) + silence((FRAME_SIZE - heard) as nat)
    &&& after.out == if heard == 0 {
        after.mic
    } else {
        before.out
    }
}

impl FrameBuffers {
    /// Each buffer holds one frame.
    pub open spec fn whole(self) -> bool {
        &&& self@.mic.len() == FRAME_SIZE
        &&& self@.reference.len() == FRAME_SIZE
        &&& self@.out.len() == FRAME_SIZE
    }

    /// Frames of silence.
    pub fn new() -> (frames: Self)
        ensures
            frames.whole(),
            frames@ == (FramesView {
                mic: silence(FRAME_SIZE as nat),
                reference: silence(FRAME_SIZE as nat),
                out: silence(FRAME_SIZE as nat),
            }),
    {
        let mut mic: Vec<u32> = Vec::new();
        let mut reference: Vec<u32> = Vec::new();
        let mut out: Vec<u32> = Vec::new();
        resize_zeroed(&mut mic, FRAME_SIZE);
        resize_zeroed(&mut reference, FRAME_SIZE);
        resize_zeroed(&mut out, FRAME_SIZE);
        FrameBuffers { mic, reference, out }
    }

    /// The microphone's frame.
    pub fn mic(&self) -> (samples: &Vec<u32>)
        ensures
            samples@ == self@.mic,
    {
        &self.mic
    }

    /// The reference's frame.
    pub fn reference(&self) -> (samples: &Vec<u32>)
        ensures
            samples@ == self@.reference,
    {
        &self.reference
    }

    /// The output's frame.
    pub fn out(&self) -> (samples: &Vec<u32>)
        ensures
            samples@ == self@.out,
    {
        &self.out
    }

    /// Start a frame if the microphone has delivered one. Where it has not, only
    /// the look at it is noted.
    pub fn take(&mut self, mic: &mut AudioConsumer, reference: &mut AudioConsumer) -> (step:
        FrameStep)
        requires
            old(self).whole(),
        ensures
            final(self).whole(),
            match step {
                FrameStep::NotReady => {
                    &&& final(self)@ == old(self)@
                    &&& final(reference)@ == old(reference)@
                    &&& final(mic)@ == (ConsumerView {
                        waiting: final(mic)@.waiting,
                        ..old(mic)@
                    })
                    &&& old(mic)@.waiting <= final(mic)@.waiting < FRAME_SIZE
                },
                _ => {
                    let heard = (final(reference)@.taken - old(reference)@.taken) as nat;
                    &&& moved_on(old(mic)@, FRAME_SIZE as nat, final(mic)@)
                    &&& moved_on(old(reference)@, heard, final(reference)@)
                    &&& heard <= FRAME_SIZE
                    &&& old(reference)@.waiting <= heard || heard == FRAME_SIZE
                    &&& framed(old(self)@, old(mic)@, old(reference)@, heard, final(self)@)
                    &&& step == if heard == 0 {
                        FrameStep::PassThrough
                    } else {
                        FrameStep::Cancel
                    }
                },
            },
    {
        if mic.available() < FRAME_SIZE {
            return FrameStep::NotReady;
        }
        mic.pop(self.mic.as_mut_slice());
        let waiting: usize = reference.available();
        let heard: usize = if waiting < FRAME_SIZE {
            waiting
        } else {
            FRAME_SIZE
        };
        resize_zeroed(&mut self.reference, heard);
        reference.pop(self.reference.as_mut_slice());
        self.reference.resize(FRAME_SIZE, 0);
        assert(self.mic@ =~= next_samples(old(mic)@, FRAME_SIZE as nat));
        assert(self.reference@ =~= next_samples(old(reference)@, heard as nat) + silence(
            (FRAME_SIZE - heard) as nat,
        ));
        if heard == 0 {
            self.out = copied(&self.mic);
            FrameStep::PassThrough
        } else {
            FrameStep::Cancel
        }
    }

    /// Settle the output: what the canceller made of the frame, or the
    /// microphone's audio where it failed on it.
    pub fn settle(&mut self, cancelled: Option<Vec<u32>>)
        requires
            old(self).whole(),
            cancelled matches Some(frame) ==> frame@.len() == FRAME_SIZE,
        ensures
            final(self).whole(),
            final(self)@ == (FramesView {
                out: match cancelled {
                    Some(frame) => frame@,
                    None => old(self)@.mic,
                },
                ..old(self)@
            }),
    {
        self.out = settle_frame(cancelled, &self.mic);
    }

    /// Make the output silent, and drop a frame of the reference where one is
    /// there, so that the reference does not run ahead.
    pub fn hush(&mut self, reference: &mut AudioConsumer)
        requires
            old(self).whole(),
        ensures
            final(self).whole(),
            final(self)@.out == silence(FRAME_SIZE as nat),
            final(self)@.mic == old(self)@.mic,
            ({
                let dropped = (final(reference)@.taken - old(reference)@.taken) as nat;
                &&& moved_on(old(reference)@, dropped, final(reference)@)
                &&& dropped == 0 || dropped == FRAME_SIZE
                &&& old(reference)@.waiting >= FRAME_SIZE ==> dropped == FRAME_SIZE
                &&& dropped == 0 ==> final(reference)@.waiting < FRAME_SIZE
                &&& final(self)@.reference == if dropped == 0 {
                    old(self)@.reference
                } else {
                    next_samples(old(reference)@, FRAME_SIZE as nat)
                }
            }),
    {
        if reference.available() >= FRAME_SIZE {
            reference.pop(self.reference.as_mut_slice());
            assert(self.reference@ =~= next_samples(old(reference)@, FRAME_SIZE as nat));
        }
        resize_zeroed(&mut self.out, FRAME_SIZE);
    }

    /// Hand the output on. Returns how many samples were accepted.
    pub fn emit(&self, output: &mut AudioProducer) -> (n: usize)
        ensures
            pushed(old(output)@, self@.out, n as nat, final(output)@),
    {
        output.push(self.out.as_slice())
    }
}

/// A frame holds 480 samples of the microphone, the next ones in order. Its
/// reference is the next samples of the reference, as many as were heard, and
/// then zeros. Where none were heard the output is the microphone's frame,
/// otherwise it is left for the canceller.
pub proof fn a_frame_is_made_of_the_next_samples(
    before: FramesView,
    mic: ConsumerView,
    reference: ConsumerView,
    heard: nat,
    after: FramesView,
)
    requires
        framed(before, mic, reference, heard, after),
        heard <= 480,
        mic.taken + 480 <= mic.stream.len(),
        reference.taken + heard <= reference.stream.len(),
    ensures
        after.mic.len() == 480,
        forall|j: int| 0 <= j < 480 ==> #[trigger] after.mic[j] == mic.stream[mic.taken + j],
        after.reference.len() == 480,
        forall|j: int|
            0 <= j < heard ==> #[trigger] after.reference[j] == reference.stream[reference.taken
                + j],
        forall|j: int| heard <= j < 480 ==> #[trigger] after.reference[j] == 0,
        heard == 0 ==> after.out == after.mic,
        heard > 0 ==> after.out == before.out,
{
}

/// A consumer that moved on stands so many samples further in the same stream,
/// and forgets nothing of what was waiting.
pub proof fn moving_on_keeps_the_stream(before: ConsumerView, n: nat, after: ConsumerView)
    requires
        moved_on(before, n, after),
    ensures
        after.stream == before.stream,
        after.capacity == before.capacity,
        after.taken == before.taken + n,
        n > 0 ==> after.taken <= before.stream.len(),
        before.waiting <= n + after.waiting <= before.capacity,
{
}

} // verus!
