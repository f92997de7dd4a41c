use rust_aec::audio::pcm::{
    convert_to_f32_mono_into, resample_into, resize_zeroed, write_to_device_buffer,
};

fn mean(frame: &[u32]) -> u32 {
    let sum: f32 = frame.iter().map(|&bits| f32::from_bits(bits)).sum();
    (sum / frame.len() as f32).to_bits()
}

fn mean_int(frame: &[i16]) -> u32 {
    let sum: f32 = frame.iter().map(|&s| s as f32 / 32768.0).sum();
    (sum / frame.len() as f32).to_bits()
}

fn to_i16(bits: u32) -> i16 {
    (f32::from_bits(bits) * 32767.0).clamp(-32768.0, 32767.0) as i16
}

fn floats(samples: &[f32]) -> Vec<u8> {
    samples.iter().flat_map(|s| s.to_le_bytes()).collect()
}

fn values(bits: &[u32]) -> Vec<f32> {
    bits.iter().map(|&b| f32::from_bits(b)).collect()
}

fn bits(samples: &[f32]) -> Vec<u32> {
    samples.iter().map(|s| s.to_bits()).collect()
}

#[test]
fn float_frames_are_averaged() {
    let mut mono = vec![1, 2, 3];
    convert_to_f32_mono_into(&floats(&[0.5, 0.25, -1.0, 1.0]), 2, 2, 32, mean, mean_int, &mut mono);
    assert_eq!(values(&mono), vec![0.375, 0.0]);
}

#[test]
fn integer_frames_are_averaged() {
    let bytes: Vec<u8> =
        [16384i16, 0, -32768, -32768].iter().flat_map(|s| s.to_le_bytes()).collect();
    let mut mono = Vec::new();
    convert_to_f32_mono_into(&bytes, 2, 2, 16, mean, mean_int, &mut mono);
    assert_eq!(values(&mono), vec![0.25, -1.0]);
}

#[test]
fn mono_is_kept_as_it_is() {
    let mut mono = Vec::new();
    convert_to_f32_mono_into(&floats(&[0.1, -0.7]), 2, 1, 32, mean, mean_int, &mut mono);
    assert_eq!(values(&mono), vec![0.1, -0.7]);
}

#[test]
fn an_unknown_size_is_silence() {
    let mut mono = vec![5];
    convert_to_f32_mono_into(&[1, 2, 3], 3, 2, 24, mean, mean_int, &mut mono);
    assert_eq!(mono, vec![0, 0, 0]);
}

#[test]
fn buffers_are_zeroed() {
    let mut buf = vec![1, 2, 3];
    resize_zeroed(&mut buf, 5);
    assert_eq!(buf, vec![0; 5]);
    resize_zeroed(&mut buf, 2);
    assert_eq!(buf, vec![0; 2]);
}

fn resampled(input: &[f32], from: usize, to: usize) -> Vec<f32> {
    let ratio = from as f64 / to as f64;
    let out_len = (input.len() as f64 / ratio).ceil() as usize;
    let mut out = vec![7, 7];
    resample_into(
        &bits(input),
        from,
        to,
        out_len,
        |i| (i as f64 * ratio) as usize,
        |i, a, b| {
            let at = i as f64 * ratio;
            let frac = (at - (at as usize) as f64) as f32;
            let (a, b) = (f32::from_bits(a), f32::from_bits(b));
            (a + frac * (b - a)).to_bits()
        },
        &mut out,
    );
    values(&out)
}

#[test]
fn doubling_the_rate_puts_values_in_between() {
    assert_eq!(
        resampled(&[0.0, 1.0, 0.5], 24_000, 48_000),
        vec![0.0, 0.5, 1.0, 0.75, 0.5, 0.5]
    );
}

#[test]
fn halving_the_rate_takes_every_other_value() {
    assert_eq!(resampled(&[0.0, 1.0, 2.0, 3.0, 4.0], 96_000, 48_000), vec![0.0, 2.0, 4.0]);
}

#[test]
fn equal_rates_and_empty_input_are_copied() {
    assert_eq!(resampled(&[0.25, 0.5], 48_000, 48_000), vec![0.25, 0.5]);
    assert_eq!(resampled(&[], 44_100, 48_000), Vec::<f32>::new());
}

#[test]
fn floats_are_written_on_every_channel() {
    let bytes = write_to_device_buffer(&bits(&[0.5, -1.0]), 2, 32, to_i16);
    assert_eq!(bytes, floats(&[0.5, 0.5, -1.0, -1.0]));
}

#[test]
fn integers_are_scaled_and_clamped() {
    let bytes = write_to_device_buffer(&bits(&[1.0, -1.0, 2.0, -2.0, 0.5]), 1, 16, to_i16);
    let expected: Vec<u8> = [32767i16, -32767, 32767, -32768, 16383]
        .iter()
        .flat_map(|s| s.to_le_bytes())
        .collect();
    assert_eq!(bytes, expected);
}

#[test]
fn an_unknown_size_writes_nothing() {
    assert!(write_to_device_buffer(&bits(&[1.0]), 2, 24, to_i16).is_empty());
    assert!(write_to_device_buffer(&bits(&[1.0]), 0, 32, to_i16).is_empty());
}

#[test]
fn what_is_written_is_read_back() {
    let samples = bits(&[0.1, -0.2, 0.3, f32::MIN_POSITIVE, 1.0e30]);
    for channels in 1..4usize {
        let bytes = write_to_device_buffer(&samples, channels, 32, to_i16);
        assert_eq!(bytes.len(), 4 * channels * samples.len());
        let mut read = Vec::new();
        convert_to_f32_mono_into(
            &bytes,
            samples.len(),
            channels,
            32,
            |frame| {
                assert_eq!(frame.len(), channels);
                assert!(frame.iter().all(|s| *s == frame[0]));
                frame[0]
            },
            mean_int,
            &mut read,
        );
        assert_eq!(read, samples);
    }
}

#[test]
fn a_float_signal_survives() {
    let signal = bits(&[0.0, 0.1, -0.25, 1.0, -1.0, 1.0e-30]);
    for channels in 1..3usize {
        let bytes = write_to_device_buffer(&signal, channels, 32, to_i16);
        let mut out = vec![3];
        convert_to_f32_mono_into(
            &bytes,
            signal.len(),
            channels,
            32,
            mean,
            mean_int,
            &mut out,
        );
        assert_eq!(out, signal);
    }
}

#[test]
fn an_integer_signal_comes_back_nearly() {
    let signal: Vec<f32> = (-100..=100).map(|k| k as f32 / 100.0).collect();
    for channels in 1..3usize {
        let bytes = write_to_device_buffer(&bits(&signal), channels, 16, to_i16);
        assert_eq!(bytes.len(), 2 * channels * signal.len());
        let mut out = Vec::new();
        convert_to_f32_mono_into(
            &bytes,
            signal.len(),
            channels,
            16,
            mean,
            mean_int,
            &mut out,
        );
        assert_eq!(out.len(), signal.len());
        for (back, sample) in values(&out).iter().zip(&signal) {
            assert!((back - sample).abs() <= 1.0 / 16384.0);
        }
    }
}

#[test]
fn a_constant_stays_constant() {
    for (from, to) in [(44_100, 48_000), (48_000, 44_100), (8_000, 192_000), (48_000, 48_000)] {
        let out = resampled(&[0.3; 441], from, to);
        assert!(out.iter().all(|s| *s == 0.3));
        let exact = (441 * to + from - 1) / from;
        assert!(out.len() == exact || out.len() == exact + 1);
    }
}
