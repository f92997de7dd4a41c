//! Sample conversion between device buffers and mono audio.
//!
//! A mono sample is held as the bit pattern of a 32-bit float. What is done to
//! sample values (averaging, interpolation, quantisation) is handed in as a
//! function; which samples go where is decided here. Device buffers are
//! little-endian.
use vstd::prelude::*;
use vstd::slice::slice_subrange;

verus! {

/// `len` samples of silence: zero is the bit pattern of the float 0.0.
pub open spec fn silence(len: nat) -> Seq<u32> {
    Seq::new(len, |i: int| 0u32)
}

/// Make `buf` hold `len` samples of silence.
pub fn resize_zeroed(buf: &mut Vec<u32>, len: usize)
    ensures
        final(buf)@ == silence(len as nat),
{
    buf.clear();
    buf.resize(len, 0);
    assert(buf@ =~= silence(len as nat));
}

/// The 32-bit word that starts at a byte.
pub open spec fn word_at(bytes: Seq<u8>, at: int) -> u32 {
    (bytes[at] + 0x100 * bytes[at + 1] + 0x10000 * bytes[at + 2] + 0x1000000 * bytes[at
        + 3]) as u32
}

/// The words that a buffer of 32-bit samples holds.
pub open spec fn words(bytes: Seq<u8>) -> Seq<u32> {
    Seq::new(bytes.len() / 4, |k: int| word_at(bytes, 4 * k))
}

/// The number that a 16-bit two's complement pattern stands for.
pub open spec fn signed16(pattern: int) -> i16 {
    (if pattern < 0x8000 {
        pattern
    } else {
        pattern - 0x10000
    }) as i16
}

/// The 16-bit number that starts at a byte.
pub open spec fn half_at(bytes: Seq<u8>, at: int) -> i16 {
    signed16(bytes[at] + 0x100 * bytes[at + 1])
}

/// The numbers that a buffer of 16-bit samples holds.
pub open spec fn halves(bytes: Seq<u8>) -> Seq<i16> {
    Seq::new(bytes.len() / 2, |k: int| half_at(bytes, 2 * k))
}

fn read_words(bytes: &[u8]) -> (data: Vec<u32>)
    ensures
        data@ == words(bytes@),
{
    let total: usize = bytes.len();
    let count: usize = total / 4;
    let mut data: Vec<u32> = Vec::new();
    for k in 0..count
        invariant
            total == bytes@.len(),
            count == total / 4,
            data@ == words(bytes@).take(k as int),
    {
        let at: usize = 4 * k;
        data.push(
            bytes[at] as u32 + 0x100 * (bytes[at + 1] as u32) + 0x10000 * (bytes[at + 2] as u32)
                + 0x1000000 * (bytes[at + 3] as u32),
        );
        assert(data@ =~= words(bytes@).take(k + 1));
    }
    assert(words(bytes@).take(count as int) =~= words(bytes@));
    data
}

fn read_halves(bytes: &[u8]) -> (data: Vec<i16>)
    ensures
        data@ == halves(bytes@),
{
    let total: usize = bytes.len();
    let count: usize = total / 2;
    let mut data: Vec<i16> = Vec::new();
    for k in 0..count
        invariant
            total == bytes@.len(),
            count == total / 2,
            data@ == halves(bytes@).take(k as int),
    {
        let at: usize = 2 * k;
        let pattern: i32 = bytes[at] as i32 + 0x100 * (bytes[at + 1] as i32);
        if pattern < 0x8000 {
            data.push(pattern as i16);
        } else {
            data.push((pattern - 0x10000) as i16);
        }
        assert(data@ =~= halves(bytes@).take(k + 1));
    }
    assert(halves(bytes@).take(count as int) =~= halves(bytes@));
    data
}

/// The samples of one frame, one for each channel.
pub open spec fn frame_of<T>(data: Seq<T>, channels: nat, i: int) -> Seq<T> {
    data.subrange(i * channels, (i + 1) * channels)
}

/// `sample` is what `mix` makes of the samples of a frame.
pub open spec fn mixed<T, F: Fn(&[T]) -> u32>(mix: F, frame: Seq<T>, sample: u32) -> bool {
    exists|part: &[T]| part@ == frame && #[trigger] call_ensures(mix, (part,), sample)
}

/// `mono` holds, for each frame of the interleaved data, what `mix` makes of it.
pub open spec fn downmixed<T, F: Fn(&[T]) -> u32>(
    data: Seq<T>,
    frames: nat,
    channels: nat,
    mix: F,
    mono: Seq<u32>,
) -> bool {
    &&& mono.len() == frames
    &&& forall|i: int|
        0 <= i < frames ==> mixed(mix, #[trigger] frame_of(data, channels, i), mono[i])
}

/// Mix each frame of interleaved data down to one sample.
fn downmix<T, F: Fn(&[T]) -> u32>(
    data: &Vec<T>,
    frames: usize,
    channels: usize,
    mix: F,
    out: &mut Vec<u32>,
)
    requires
        data@.len() == frames * channels,
        forall|part: &[T]| part@.len() == channels ==> call_requires(mix, (part,)),
    ensures
        downmixed(data@, frames as nat, channels as nat, mix, final(out)@),
{
    out.clear();
    let total: usize = data.len();
    let mut at: usize = 0;
    assert(0 * channels == 0) by (nonlinear_arith);
    for i in 0..frames
        invariant
            total == data@.len(),
            total == frames * channels,
            at == i * channels,
            out@.len() == i,
            forall|part: &[T]| part@.len() == channels ==> call_requires(mix, (part,)),
            forall|j: int|
                0 <= j < i ==> mixed(
                    mix,
                    #[trigger] frame_of(data@, channels as nat, j),
                    out@[j],
                ),
    {
        assert((i + 1) * channels == i * channels + channels && (i + 1) * channels <= frames
            * channels) by (nonlinear_arith)
            requires
                i < frames,
        ;
        let next: usize = at + channels;
        let part = slice_subrange(data.as_slice(), at, next);
        assert(part@ =~= frame_of(data@, channels as nat, i as int));
        let sample: u32 = mix(part);
        out.push(sample);
        assert(mixed(mix, frame_of(data@, channels as nat, i as int), sample));
        at = next;
    }
}

/// How a captured buffer is turned into mono: by the number of bits of a
/// sample, the mix of each frame; silence for a size that is not known.
pub open spec fn converted<F: Fn(&[u32]) -> u32, G: Fn(&[i16]) -> u32>(
    buffer: Seq<u8>,
    frames: nat,
    channels: nat,
    bits: u16,
    mix_float: F,
    mix_int: G,
    mono: Seq<u32>,
) -> bool {
    if bits == 32 {
        downmixed(words(buffer), frames, channels, mix_float, mono)
    } else if bits == 16 {
        downmixed(halves(buffer), frames, channels, mix_int, mono)
    } else {
        mono == silence(frames)
    }
}

/// The buffer has the size that its frames take.
pub open spec fn sized(buffer: Seq<u8>, frames: nat, channels: nat, bits: u16) -> bool {
    &&& bits == 32 ==> channels > 0 && buffer.len() == 4 * (frames * channels)
    &&& bits == 16 ==> channels > 0 && buffer.len() == 2 * (frames * channels)
}

/// Convert a device buffer of interleaved samples to mono.
pub fn convert_to_f32_mono_into<F: Fn(&[u32]) -> u32, G: Fn(&[i16]) -> u32>(
    buffer: &[u8],
    frames: usize,
    channels: usize,
    bits: u16,
    mix_float: F,
    mix_int: G,
    out: &mut Vec<u32>,
)
    requires
        sized(buffer@, frames as nat, channels as nat, bits),
        forall|part: &[u32]| part@.len() == channels ==> call_requires(mix_float, (part,)),
        forall|part: &[i16]| part@.len() == channels ==> call_requires(mix_int, (part,)),
    ensures
        converted(
            buffer@,
            frames as nat,
            channels as nat,
            bits,
            mix_float,
            mix_int,
            final(out)@,
        ),
{
    if bits == 32 {
        let data = read_words(buffer);
        downmix(&data, frames, channels, mix_float, out);
    } else if bits == 16 {
        let data = read_halves(buffer);
        downmix(&data, frames, channels, mix_int, out);
    } else {
        resize_zeroed(out, frames);
    }
}

/// The sample at a position, or the last one behind the end.
pub open spec fn clamped(input: Seq<u32>, idx: int) -> u32 {
    if idx < input.len() {
        input[idx]
    } else {
        input.last()
    }
}

/// How audio is brought from one rate to another: a copy where there is nothing
/// to do, else `out_len` samples, each blended from the two input samples round
/// its position.
pub open spec fn resampled<P: Fn(usize) -> usize, M: Fn(usize, u32, u32) -> u32>(
    input: Seq<u32>,
    from_rate: usize,
    to_rate: usize,
    out_len: nat,
    position: P,
    blend: M,
    out: Seq<u32>,
) -> bool {
    if from_rate == to_rate || input.len() == 0 {
        out == input
    } else {
        &&& out.len() == out_len
        &&& forall|i: usize|
            0 <= i < out_len ==> blended(input, i, position, blend, #[trigger] out[i as int])
    }
}

/// `sample` is what `blend` makes of the two input samples round the position
/// of output sample `i`.
pub open spec fn blended<P: Fn(usize) -> usize, M: Fn(usize, u32, u32) -> u32>(
    input: Seq<u32>,
    i: usize,
    position: P,
    blend: M,
    sample: u32,
) -> bool {
    exists|idx: usize|
        #[trigger] call_ensures(position, (i,), idx) && call_ensures(
            blend,
            (i, clamped(input, idx as int), clamped(input, idx + 1)),
            sample,
        )
}

/// Bring audio from one rate to another. `out_len` is the number of samples to
/// make, `position` the input position of an output sample, and `blend` the
/// value between two neighbours.
pub fn resample_into<P: Fn(usize) -> usize, M: Fn(usize, u32, u32) -> u32>(
    input: &[u32],
    from_rate: usize,
    to_rate: usize,
    out_len: usize,
    position: P,
    blend: M,
    out: &mut Vec<u32>,
)
    requires
        forall|i: usize| i < out_len ==> #[trigger] call_requires(position, (i,)),
        forall|i: usize, a: u32, b: u32|
            i < out_len ==> #[trigger] call_requires(blend, (i, a, b)),
    ensures
        resampled(input@, from_rate, to_rate, out_len as nat, position, blend, final(out)@),
{
    out.clear();
    if from_rate == to_rate || input.len() == 0 {
        for i in 0..input.len()
            invariant
                out@ == input@.take(i as int),
        {
            out.push(input[i]);
        }
        assert(input@.take(input@.len() as int) =~= input@);
        return;
    }
    let last: usize = input.len() - 1;
    for i in 0..out_len
        invariant
            last + 1 == input@.len(),
            out@.len() == i,
            forall|i: usize| i < out_len ==> #[trigger] call_requires(position, (i,)),
            forall|i: usize, a: u32, b: u32|
                i < out_len ==> #[trigger] call_requires(blend, (i, a, b)),
            forall|j: usize|
                0 <= j < i ==> blended(input@, j, position, blend, #[trigger] out@[j as int]),
    {
        let idx: usize = position(i);
        let first: u32 = if idx < last {
            input[idx]
        } else {
            input[last]
        };
        let second: u32 = if idx < last {
            input[idx + 1]
        } else {
            input[last]
        };
        assert(first == clamped(input@, idx as int));
        assert(second == clamped(input@, idx + 1));
        let sample: u32 = blend(i, first, second);
        assert(blended(input@, i, position, blend, sample));
        let ghost before = out@;
        out.push(sample);
        assert forall|j: usize| 0 <= j < i + 1 implies blended(
            input@,
            j,
            position,
            blend,
            #[trigger] out@[j as int],
        ) by {
            if j < i {
                assert(out@[j as int] == before[j as int]);
            }
        }
    }
}

/// The bytes of a word, low byte first.
pub open spec fn word_bytes(word: u32) -> Seq<u8> {
    seq![
        (word % 0x100) as u8,
        (word / 0x100 % 0x100) as u8,
        (word / 0x10000 % 0x100) as u8,
        (word / 0x1000000) as u8,
    ]
}

/// The two's complement pattern of a 16-bit number.
pub open spec fn pattern16(value: i16) -> int {
    if value < 0 {
        value + 0x10000
    } else {
        value as int
    }
}

/// The bytes of a 16-bit number, low byte first.
pub open spec fn half_bytes(value: i16) -> Seq<u8> {
    seq![(pattern16(value) % 0x100) as u8, (pattern16(value) / 0x100) as u8]
}

/// The bytes of a sequence of words.
pub open spec fn words_bytes(data: Seq<u32>) -> Seq<u8>
    decreases data.len(),
{
    if data.len() == 0 {
        Seq::empty()
    } else {
        words_bytes(data.drop_last()) + word_bytes(data.last())
    }
}

/// The bytes of a sequence of 16-bit numbers.
pub open spec fn halves_bytes(data: Seq<i16>) -> Seq<u8>
    decreases data.len(),
{
    if data.len() == 0 {
        Seq::empty()
    } else {
        halves_bytes(data.drop_last()) + half_bytes(data.last())
    }
}

/// Each sample once for every channel.
pub open spec fn interleaved<T>(mono: Seq<T>, channels: nat) -> Seq<T>
    decreases mono.len(),
{
    if mono.len() == 0 {
        Seq::empty()
    } else {
        interleaved(mono.drop_last(), channels) + Seq::new(channels, |c: int| mono.last())
    }
}

/// `data` holds what `quantize` makes of each sample.
pub open spec fn quantized<Q: Fn(u32) -> i16>(
    quantize: Q,
    mono: Seq<u32>,
    data: Seq<i16>,
) -> bool {
    &&& data.len() == mono.len()
    &&& forall|i: int|
        0 <= i < mono.len() ==> call_ensures(quantize, (mono[i],), #[trigger] data[i])
}

/// What is written to a device buffer for mono samples: each sample on every
/// channel, as 32-bit floats or as 16-bit numbers; nothing for a sample size
/// that is not known.
pub open spec fn written<Q: Fn(u32) -> i16>(
    mono: Seq<u32>,
    channels: nat,
    bits: u16,
    quantize: Q,
    bytes: Seq<u8>,
) -> bool {
    if bits == 32 {
        bytes == words_bytes(interleaved(mono, channels))
    } else if bits == 16 {
        exists|data: Seq<i16>| #[trigger]
            quantized(quantize, mono, data) && bytes == halves_bytes(interleaved(data, channels))
    } else {
        bytes.len() == 0
    }
}

fn push_word(bytes: &mut Vec<u8>, word: u32)
    ensures
        final(bytes)@ == old(bytes)@ + word_bytes(word),
{
    bytes.push((word % 0x100) as u8);
    bytes.push((word / 0x100 % 0x100) as u8);
    bytes.push((word / 0x10000 % 0x100) as u8);
    bytes.push((word / 0x1000000) as u8);
    assert(bytes@ =~= old(bytes)@ + word_bytes(word));
}

fn push_half(bytes: &mut Vec<u8>, value: i16)
    ensures
        final(bytes)@ == old(bytes)@ + half_bytes(value),
{
    let pattern: i32 = if value < 0 {
        value as i32 + 0x10000
    } else {
        value as i32
    };
    bytes.push((pattern % 0x100) as u8);
    bytes.push((pattern / 0x100) as u8);
    assert(bytes@ =~= old(bytes)@ + half_bytes(value));
}

/// The bytes of mono samples for a device buffer (multi-channel, various bit depths).
pub fn write_to_device_buffer<Q: Fn(u32) -> i16>(
    mono: &[u32],
    channels: usize,
    bits: u16,
    quantize: Q,
) -> (bytes: Vec<u8>)
    requires
        forall|sample: u32| call_requires(quantize, (sample,)),
    ensures
        written(mono@, channels as nat, bits, quantize, bytes@),
{
    let mut bytes: Vec<u8> = Vec::new();
    if bits == 32 {
        for i in 0..mono.len()
            invariant
                bytes@ == words_bytes(interleaved(mono@.take(i as int), channels as nat)),
        {
            let sample: u32 = mono[i];
            let ghost before = interleaved(mono@.take(i as int), channels as nat);
            assert(before + Seq::new(0, |c: int| sample) =~= before);
            for ch in 0..channels
                invariant
                    bytes@ == words_bytes(before + Seq::new(ch as nat, |c: int| sample)),
            {
                push_word(&mut bytes, sample);
                proof {
                    let next = before + Seq::new((ch + 1) as nat, |c: int| sample);
                    assert(next.drop_last() =~= before + Seq::new(ch as nat, |c: int| sample));
                    assert(next.last() == sample);
                }
            }
            proof {
                let next = mono@.take(i + 1);
                assert(next.drop_last() =~= mono@.take(i as int));
                assert(next.last() == sample);
            }
        }
        assert(mono@.take(mono@.len() as int) =~= mono@);
    } else if bits == 16 {
        let ghost mut data: Seq<i16> = Seq::empty();
        for i in 0..mono.len()
            invariant
                forall|sample: u32| call_requires(quantize, (sample,)),
                quantized(quantize, mono@.take(i as int), data),
                bytes@ == halves_bytes(interleaved(data, channels as nat)),
        {
            let value: i16 = quantize(mono[i]);
            let ghost before = interleaved(data, channels as nat);
            assert(before + Seq::new(0, |c: int| value) =~= before);
            for ch in 0..channels
                invariant
                    bytes@ == halves_bytes(before + Seq::new(ch as nat, |c: int| value)),
            {
                push_half(&mut bytes, value);
                proof {
                    let next = before + Seq::new((ch + 1) as nat, |c: int| value);
                    assert(next.drop_last() =~= before + Seq::new(ch as nat, |c: int| value));
                    assert(next.last() == value);
                }
            }
            proof {
                let next = data.push(value);
                assert(next.drop_last() =~= data);
                data = next;
                assert forall|j: int| 0 <= j < i + 1 implies call_ensures(
                    quantize,
                    (mono@.take(i + 1)[j],),
                    #[trigger] data[j],
                ) by {
                    if j < i {
                        assert(mono@.take(i + 1)[j] == mono@.take(i as int)[j]);
                        assert(call_ensures(
                            quantize,
                            (mono@.take(i as int)[j],),
                            data.drop_last()[j],
                        ));
                    }
                }
            }
        }
        assert(mono@.take(mono@.len() as int) =~= mono@);
    }
    bytes
}

proof fn word_survives(word: u32)
    ensures
        word_at(word_bytes(word), 0) == word,
{
    let (a, b, c, d) = (
        word % 0x100,
        word / 0x100 % 0x100,
        word / 0x10000 % 0x100,
        word / 0x1000000,
    );
    assert(a + 0x100 * b + 0x10000 * c + 0x1000000 * d == word && a < 0x100 && b < 0x100 && c
        < 0x100 && d < 0x100);
}

/// Words written to a buffer are the words that are read from it.
pub proof fn words_survive(data: Seq<u32>)
    ensures
        words_bytes(data).len() == 4 * data.len(),
        words(words_bytes(data)) == data,
    decreases data.len(),
{
    if data.len() > 0 {
        let front = data.drop_last();
        let bytes = words_bytes(front);
        words_survive(front);
        word_survives(data.last());
        assert forall|k: int| 0 <= k < data.len() implies word_at(words_bytes(data), 4 * k)
            == data[k] by {
            if k < front.len() {
                assert(words(bytes)[k] == front[k]);
                assert(word_at(words_bytes(data), 4 * k) == word_at(bytes, 4 * k));
            } else {
                assert(word_at(words_bytes(data), 4 * k) == word_at(word_bytes(data.last()), 0));
            }
        }
    }
    assert(words(words_bytes(data)) =~= data);
}

/// 16-bit numbers written to a buffer are the numbers that are read from it.
pub proof fn halves_survive(data: Seq<i16>)
    ensures
        halves_bytes(data).len() == 2 * data.len(),
        halves(halves_bytes(data)) == data,
    decreases data.len(),
{
    if data.len() > 0 {
        let front = data.drop_last();
        let bytes = halves_bytes(front);
        halves_survive(front);
        assert forall|k: int| 0 <= k < data.len() implies half_at(halves_bytes(data), 2 * k)
            == data[k] by {
            if k < front.len() {
                assert(halves(bytes)[k] == front[k]);
                assert(half_at(halves_bytes(data), 2 * k) == half_at(bytes, 2 * k));
            } else {
                let p = pattern16(data.last());
                assert(p % 0x100 + 0x100 * (p / 0x100) == p);
                assert(half_at(halves_bytes(data), 2 * k) == half_at(half_bytes(data.last()), 0));
            }
        }
    }
    assert(halves(halves_bytes(data)) =~= data);
}

/// Every channel of a frame carries the frame's mono sample.
pub proof fn frames_repeat_the_sample<T>(mono: Seq<T>, channels: nat, i: int)
    requires
        0 <= i < mono.len(),
    ensures
        interleaved(mono, channels).len() == mono.len() * channels,
        frame_of(interleaved(mono, channels), channels, i) == Seq::new(channels, |c: int| mono[i]),
    decreases mono.len(),
{
    let front = mono.drop_last();
    let rest = interleaved(front, channels);
    let all = interleaved(mono, channels);
    assert(rest.len() == front.len() * channels) by {
        if front.len() > 0 {
            frames_repeat_the_sample(front, channels, 0);
        } else {
            assert(0 * channels == 0) by (nonlinear_arith);
        }
    }
    assert(front.len() * channels + channels == mono.len() * channels) by (nonlinear_arith)
        requires
            front.len() + 1 == mono.len(),
    ;
    assert((i + 1) * channels == i * channels + channels && 0 <= i * channels && (i + 1) * channels
        <= mono.len() * channels) by (nonlinear_arith)
        requires
            0 <= i < mono.len(),
    ;
    if i < front.len() {
        frames_repeat_the_sample(front, channels, i);
        assert((i + 1) * channels <= front.len() * channels) by (nonlinear_arith)
            requires
                0 <= i < front.len(),
        ;
        assert(frame_of(all, channels, i) =~= frame_of(rest, channels, i));
        assert(front[i] == mono[i]);
    } else {
        assert(frame_of(all, channels, i) =~= Seq::new(channels, |c: int| mono[i]));
    }
}

/// What is written to a device as floats is read back frame by frame as the
/// mono samples, each on every channel.
pub proof fn written_floats_are_read_back<Q: Fn(u32) -> i16>(
    mono: Seq<u32>,
    channels: nat,
    quantize: Q,
    bytes: Seq<u8>,
    i: int,
)
    requires
        written(mono, channels, 32, quantize, bytes),
        0 <= i < mono.len(),
    ensures
        bytes.len() == 4 * (mono.len() * channels),
        frame_of(words(bytes), channels, i) == Seq::new(channels, |c: int| mono[i]),
{
    frames_repeat_the_sample(mono, channels, i);
    words_survive(interleaved(mono, channels));
}

/// A frame that carries one value on every channel.
pub open spec fn repeated<T>(value: T, channels: nat) -> Seq<T> {
    Seq::new(channels, |c: int| value)
}

/// A float signal survives the way to a device buffer and back: the bytes that
/// are written for it have the size that their frames take, and what is read
/// from them is the signal, given that mixing a frame of one of its samples
/// yields that sample.
pub proof fn float_signal_survives<
    F: Fn(&[u32]) -> u32,
    G: Fn(&[i16]) -> u32,
    Q: Fn(u32) -> i16,
>(
    mono: Seq<u32>,
    channels: nat,
    quantize: Q,
    bytes: Seq<u8>,
    mix_float: F,
    mix_int: G,
    out: Seq<u32>,
)
    requires
        written(mono, channels, 32, quantize, bytes),
        converted(bytes, mono.len(), channels, 32, mix_float, mix_int, out),
        forall|i: int, back: u32|
            0 <= i < mono.len() && #[trigger] mixed(
                mix_float,
                repeated(mono[i], channels),
                back,
            ) ==> back == mono[i],
    ensures
        channels > 0 ==> sized(bytes, mono.len(), channels, 32),
        out == mono,
{
    words_survive(interleaved(mono, channels));
    if mono.len() > 0 {
        frames_repeat_the_sample(mono, channels, 0);
    } else {
        assert(mono.len() * channels == 0) by (nonlinear_arith)
            requires
                mono.len() == 0,
        ;
    }
    assert forall|i: int| 0 <= i < mono.len() implies out[i] == mono[i] by {
        frames_repeat_the_sample(mono, channels, i);
        assert(frame_of(words(bytes), channels, i) =~= repeated(mono[i], channels));
        assert(mixed(mix_float, frame_of(words(bytes), channels, i), out[i]));
    }
    assert(out =~= mono);
}

/// A signal survives the way to a device buffer of 16-bit numbers and back as
/// far as the arithmetic allows: each sample that is read is near the one that
/// was written, for any sense of nearness in which mixing a frame of what a
/// sample is quantized to yields a sample near it.
pub proof fn int_signal_survives<
    F: Fn(&[u32]) -> u32,
    G: Fn(&[i16]) -> u32,
    Q: Fn(u32) -> i16,
>(
    mono: Seq<u32>,
    channels: nat,
    quantize: Q,
    bytes: Seq<u8>,
    mix_float: F,
    mix_int: G,
    out: Seq<u32>,
    near: spec_fn(u32, u32) -> bool,
)
    requires
        written(mono, channels, 16, quantize, bytes),
        converted(bytes, mono.len(), channels, 16, mix_float, mix_int, out),
        forall|i: int, value: i16, back: u32|
            0 <= i < mono.len() && #[trigger] call_ensures(quantize, (mono[i],), value)
                && #[trigger] mixed(mix_int, repeated(value, channels), back) ==> near(
                mono[i],
                back,
            ),
    ensures
        channels > 0 ==> sized(bytes, mono.len(), channels, 16),
        out.len() == mono.len(),
        forall|i: int| 0 <= i < mono.len() ==> near(mono[i], #[trigger] out[i]),
{
    let data = choose|data: Seq<i16>| #[trigger]
        quantized(quantize, mono, data) && bytes == halves_bytes(interleaved(data, channels));
    halves_survive(interleaved(data, channels));
    if data.len() > 0 {
        frames_repeat_the_sample(data, channels, 0);
    } else {
        assert(mono.len() * channels == 0) by (nonlinear_arith)
            requires
                mono.len() == 0,
        ;
    }
    assert forall|i: int| 0 <= i < mono.len() implies near(mono[i], #[trigger] out[i]) by {
        frames_repeat_the_sample(data, channels, i);
        assert(frame_of(halves(bytes), channels, i) =~= repeated(data[i], channels));
        assert(mixed(mix_int, frame_of(halves(bytes), channels, i), out[i]));
        assert(call_ensures(quantize, (mono[i],), data[i]));
    }
}

/// A constant signal stays constant through resampling, given that blending its
/// sample with itself yields that sample.
pub proof fn a_constant_stays_constant<P: Fn(usize) -> usize, M: Fn(usize, u32, u32) -> u32>(
    input: Seq<u32>,
    value: u32,
    from_rate: usize,
    to_rate: usize,
    out_len: usize,
    position: P,
    blend: M,
    out: Seq<u32>,
)
    requires
        resampled(input, from_rate, to_rate, out_len as nat, position, blend, out),
        input.len() > 0,
        input == repeated(value, input.len()),
        forall|i: usize, sample: u32|
            i < out_len && #[trigger] call_ensures(blend, (i, value, value), sample) ==> sample
                == value,
    ensures
        out == repeated(
            value,
            if from_rate == to_rate {
                input.len()
            } else {
                out_len as nat
            },
        ),
{
    if from_rate != to_rate {
        assert forall|k: int| 0 <= k < out_len implies out[k] == value by {
            let i = k as usize;
            assert(blended(input, i, position, blend, out[i as int]));
            let idx = choose|idx: usize|
                #[trigger] call_ensures(position, (i,), idx) && call_ensures(
                    blend,
                    (i, clamped(input, idx as int), clamped(input, idx + 1)),
                    out[i as int],
                );
            assert(clamped(input, idx as int) == value);
            assert(clamped(input, idx + 1) == value);
        }
        assert(out =~= repeated(value, out_len as nat));
    }
}

/// A buffer's words are its bytes in fours, low byte first: each byte can be
/// found in its place in its word.
pub proof fn words_are_bytes_in_fours(bytes: Seq<u8>, k: int)
    requires
        0 <= k < bytes.len() / 4,
    ensures
        words(bytes).len() == bytes.len() / 4,
        words(bytes)[k] as int % 256 == bytes[4 * k],
        words(bytes)[k] as int / 256 % 256 == bytes[4 * k + 1],
        words(bytes)[k] as int / 65536 % 256 == bytes[4 * k + 2],
        words(bytes)[k] as int / 16777216 == bytes[4 * k + 3],
{
    let (a, b, c, d) = (
        bytes[4 * k] as int,
        bytes[4 * k + 1] as int,
        bytes[4 * k + 2] as int,
        bytes[4 * k + 3] as int,
    );
    let w = a + 0x100 * b + 0x10000 * c + 0x1000000 * d;
    assert(words(bytes)[k] as int == w);
}

/// A buffer's 16-bit numbers are its bytes in pairs, low byte first, in two's
/// complement.
pub proof fn halves_are_bytes_in_pairs(bytes: Seq<u8>, k: int)
    requires
        0 <= k < bytes.len() / 2,
    ensures
        halves(bytes).len() == bytes.len() / 2,
        bytes[2 * k + 1] < 128 ==> halves(bytes)[k] == bytes[2 * k] + 256 * bytes[2 * k + 1],
        bytes[2 * k + 1] >= 128 ==> halves(bytes)[k] == bytes[2 * k] + 256 * bytes[2 * k + 1]
            - 65536,
{
}

/// Each resampled sample is blended from the input samples at its position and
/// behind it, the last one standing for all behind the end.
pub proof fn each_sample_is_blended<P: Fn(usize) -> usize, M: Fn(usize, u32, u32) -> u32>(
    input: Seq<u32>,
    from_rate: usize,
    to_rate: usize,
    out_len: usize,
    position: P,
    blend: M,
    out: Seq<u32>,
    i: usize,
)
    requires
        resampled(input, from_rate, to_rate, out_len as nat, position, blend, out),
        from_rate != to_rate,
        input.len() > 0,
        i < out_len,
    ensures
        out.len() == out_len,
        exists|idx: usize| #[trigger]
            call_ensures(position, (i,), idx) && call_ensures(
                blend,
                (
                    i,
                    if idx + 1 < input.len() {
                        input[idx as int]
                    } else {
                        input[input.len() - 1]
                    },
                    if idx + 1 < input.len() {
                        input[idx + 1]
                    } else {
                        input[input.len() - 1]
                    },
                ),
                out[i as int],
            ),
{
    assert(blended(input, i, position, blend, out[i as int]));
    let idx = choose|idx: usize|
        #[trigger] call_ensures(position, (i,), idx) && call_ensures(
            blend,
            (i, clamped(input, idx as int), clamped(input, idx + 1)),
            out[i as int],
        );
    if idx + 1 < input.len() {
        assert(clamped(input, idx as int) == input[idx as int]);
        assert(clamped(input, idx + 1) == input[idx + 1]);
    } else {
        assert(clamped(input, idx as int) == input[input.len() - 1]);
        assert(clamped(input, idx + 1) == input[input.len() - 1]);
    }
}

/// Where the positions are the places themselves and blending keeps the sample
/// at the position, resampling keeps the signal: every sample in its place.
pub proof fn a_kept_signal_is_kept<P: Fn(usize) -> usize, M: Fn(usize, u32, u32) -> u32>(
    input: Seq<u32>,
    from_rate: usize,
    to_rate: usize,
    position: P,
    blend: M,
    out: Seq<u32>,
)
    requires
        resampled(input, from_rate, to_rate, input.len(), position, blend, out),
        input.len() <= usize::MAX,
        forall|i: usize, idx: usize| #[trigger] call_ensures(position, (i,), idx) ==> idx == i,
        forall|i: usize, a: u32, b: u32, sample: u32| #[trigger]
            call_ensures(blend, (i, a, b), sample) ==> sample == a,
    ensures
        out == input,
{
    if from_rate != to_rate && input.len() > 0 {
        assert forall|k: int| 0 <= k < input.len() implies out[k] == input[k] by {
            each_sample_is_blended(
                input,
                from_rate,
                to_rate,
                input.len() as usize,
                position,
                blend,
                out,
                k as usize,
            );
        }
        assert(out =~= input);
    }
}

/// At equal rates, or with nothing to resample, the audio is handed through.
pub proof fn equal_rates_change_nothing<P: Fn(usize) -> usize, M: Fn(usize, u32, u32) -> u32>(
    input: Seq<u32>,
    from_rate: usize,
    to_rate: usize,
    out_len: nat,
    position: P,
    blend: M,
    out: Seq<u32>,
)
    requires
        resampled(input, from_rate, to_rate, out_len, position, blend, out),
        from_rate == to_rate || input.len() == 0,
    ensures
        out == input,
{
}

/// Every channel of every frame of a 32-bit device buffer holds the frame's
/// sample, low byte first, and nothing else is written.
pub proof fn floats_stand_in_every_channel<Q: Fn(u32) -> i16>(
    mono: Seq<u32>,
    channels: nat,
    quantize: Q,
    bytes: Seq<u8>,
    i: int,
    ch: int,
)
    requires
        written(mono, channels, 32, quantize, bytes),
        0 <= i < mono.len(),
        0 <= ch < channels,
    ensures
        ({
            let at = 4 * (i * channels + ch);
            &&& bytes.len() == 4 * (mono.len() * channels)
            &&& 0 <= at && at + 4 <= bytes.len()
            &&& bytes[at] + 256 * bytes[at + 1] + 65536 * bytes[at + 2] + 16777216 * bytes[at + 3]
                == mono[i]
        }),
{
    written_floats_are_read_back(mono, channels, quantize, bytes, i);
    let slot = i * channels + ch;
    assert(0 <= slot < mono.len() * channels && (i + 1) * channels == i * channels + channels
        && (i + 1) * channels <= mono.len() * channels) by (nonlinear_arith)
        requires
            0 <= i < mono.len(),
            0 <= ch < channels,
            slot == i * channels + ch,
    ;
    assert(frame_of(words(bytes), channels, i)[ch] == mono[i]);
    assert(frame_of(words(bytes), channels, i)[ch] == words(bytes)[slot]);
    let (a, b, c, d) = (
        bytes[4 * slot] as int,
        bytes[4 * slot + 1] as int,
        bytes[4 * slot + 2] as int,
        bytes[4 * slot + 3] as int,
    );
    words_are_bytes_in_fours(bytes, slot);
    assert(words(bytes)[slot] as int == a + 0x100 * b + 0x10000 * c + 0x1000000 * d);
}

/// Every channel of every frame of a 16-bit device buffer holds what the frame's
/// sample is quantized to, in two's complement, low byte first, and nothing else
/// is written.
pub proof fn integers_stand_in_every_channel<Q: Fn(u32) -> i16>(
    mono: Seq<u32>,
    channels: nat,
    quantize: Q,
    bytes: Seq<u8>,
    i: int,
    ch: int,
)
    requires
        written(mono, channels, 16, quantize, bytes),
        0 <= i < mono.len(),
        0 <= ch < channels,
    ensures
        ({
            let at = 2 * (i * channels + ch);
            let pattern = bytes[at] + 256 * bytes[at + 1];
            &&& bytes.len() == 2 * (mono.len() * channels)
            &&& 0 <= at && at + 2 <= bytes.len()
            &&& call_ensures(
                quantize,
                (mono[i],),
                (if pattern < 32768 {
                    pattern
                } else {
                    pattern - 65536
                }) as i16,
            )
        }),
{
    let data = choose|data: Seq<i16>| #[trigger]
        quantized(quantize, mono, data) && bytes == halves_bytes(interleaved(data, channels));
    halves_survive(interleaved(data, channels));
    frames_repeat_the_sample(data, channels, i);
    let slot = i * channels + ch;
    assert(0 <= slot < mono.len() * channels && (i + 1) * channels == i * channels + channels
        && (i + 1) * channels <= mono.len() * channels) by (nonlinear_arith)
        requires
            0 <= i < mono.len(),
            0 <= ch < channels,
            slot == i * channels + ch,
    ;
    assert(frame_of(halves(bytes), channels, i)[ch] == data[i]);
    assert(frame_of(halves(bytes), channels, i)[ch] == halves(bytes)[slot]);
    halves_are_bytes_in_pairs(bytes, slot);
    assert(call_ensures(quantize, (mono[i],), data[i]));
}

/// Samples of any other size are not written at all, and silence is zeros.
pub proof fn other_sizes_are_left_out<Q: Fn(u32) -> i16>(
    mono: Seq<u32>,
    channels: nat,
    bits: u16,
    quantize: Q,
    bytes: Seq<u8>,
    len: nat,
)
    requires
        written(mono, channels, bits, quantize, bytes),
        bits != 32,
        bits != 16,
    ensures
        bytes.len() == 0,
        silence(len).len() == len,
        forall|i: int| 0 <= i < len ==> #[trigger] silence(len)[i] == 0,
{
}

} // verus!
