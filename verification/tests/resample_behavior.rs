use dictation_core::pipeline::process_recording;
use dictation_core::resample::downmix_to_mono;
use dictation_core::resample::resample;
use dictation_core::resample::ResampleError;
use dictation_core::sample::CaptureSampleFormat;
use dictation_core::session::CancelReason;
use dictation_core::session::CaptureSession;
use dictation_core::session::DeviceConfig;
use dictation_core::sink::CaptureBuffer;

fn sine_i16(freq_hz: f32, rate: u32, count: usize, amplitude: f32) -> Vec<i16> {
    (0..count)
        .map(|i| {
            let t = i as f32 / rate as f32;
            let v = (2.0 * std::f32::consts::PI * freq_hz * t).sin() * amplitude;
            (v * 32768.0).clamp(-32768.0, 32767.0) as i16
        })
        .collect()
}

fn to_bits(samples: &[f32]) -> Vec<u32> {
    samples.iter().map(|s| s.to_bits()).collect()
}

fn from_bits(bits: &[u32]) -> Vec<f32> {
    bits.iter().map(|b| f32::from_bits(*b)).collect()
}

#[test]
fn downmix_averages_each_frame() {
    let out = downmix_to_mono(&vec![100, 200, -100, -200], 2).unwrap();
    assert_eq!(out, vec![150, -150]);
}

#[test]
fn downmix_drops_a_trailing_partial_frame() {
    let out = downmix_to_mono(&vec![1, 3, 5], 2).unwrap();
    assert_eq!(out, vec![2]);
}

#[test]
fn downmix_of_mono_is_identity() {
    let samples = sine_i16(440.0, 48000, 480, 0.8);
    assert_eq!(downmix_to_mono(&samples, 1).unwrap(), samples);
}

#[test]
fn downmix_rejects_zero_channels() {
    assert_eq!(downmix_to_mono(&vec![1, 2], 0), Err(ResampleError));
}

#[test]
fn resample_rejects_zero_rate_and_zero_channels() {
    let bits = to_bits(&[0.0, 0.1]);
    assert!(resample(&bits, 0, 1).is_err());
    assert!(resample(&bits, 48000, 0).is_err());
}

#[test]
fn resample_at_equal_rates_is_the_identity_within_rounding() {
    // mono at the target rate already: same length, same values up to
    // the converter's rounding
    let input: Vec<f32> = (0..16000)
        .map(|i| (2.0 * std::f32::consts::PI * 440.0 * i as f32 / 16000.0).sin() * 0.5)
        .collect();
    let out = resample(&to_bits(&input), 16000, 1).unwrap();
    assert_eq!(out.len(), 16000);
    let floats = from_bits(out.bits());
    // ignore the filter's warm-up and tail; the interior must match closely
    let mut worst = 0.0f32;
    for i in 200..15800 {
        worst = worst.max((floats[i] - input[i]).abs());
    }
    assert!(worst < 0.05, "interior deviation {} too large", worst);
}

#[test]
fn capture_sine_then_resample_gives_the_expected_length() {
    // one second of a 440 Hz mono sine at 48 kHz 16-bit through the whole
    // capture path, normalized to 16 kHz mono: 48000 * (16000/48000)
    let device = DeviceConfig { channels: 1, sample_rate: 48000, format: CaptureSampleFormat::I16 };
    let mut session = CaptureSession::start(Some(device), true, true).unwrap();
    let samples = sine_i16(440.0, 48000, 48000, 0.5);
    for chunk in samples.chunks(4800) {
        session.on_buffer(&CaptureBuffer::I16(chunk.to_vec()), true);
    }
    let rec = session.stop(CancelReason::Signalled);
    assert_eq!(rec.len(), 48000);
    let norm = process_recording(&rec).unwrap();
    let len = norm.len() as i64;
    assert!((len - 16000).abs() <= 1, "normalized length {} not within one sample", len);
}

#[test]
fn amplitude_survives_conversion_and_resampling() {
    // a 16-bit sine of amplitude one half, resampled to the fixed rate and
    // read back as floats: the peak stays near one half, no unbounded drift
    let device = DeviceConfig { channels: 1, sample_rate: 48000, format: CaptureSampleFormat::I16 };
    let mut session = CaptureSession::start(Some(device), true, true).unwrap();
    session.on_buffer(&CaptureBuffer::I16(sine_i16(440.0, 48000, 48000, 0.5)), true);
    let rec = session.stop(CancelReason::Signalled);
    let norm = process_recording(&rec).unwrap();
    let floats = from_bits(norm.bits());
    let peak = floats.iter().fold(0.0f32, |m, v| m.max(v.abs()));
    assert!(peak > 0.4 && peak < 0.6, "peak {} drifted", peak);
}

#[test]
fn unsigned_capture_round_trips_amplitude() {
    // the unsigned path: bias-convert a sine into u16, capture it, and
    // compare the container against the signed source samples, one for one
    let signed = sine_i16(440.0, 48000, 4800, 0.5);
    let unsigned: Vec<u16> = signed
        .iter()
        .map(|s| dictation_core::sample::u16_from_i16(*s))
        .collect();
    let device = DeviceConfig { channels: 1, sample_rate: 48000, format: CaptureSampleFormat::U16 };
    let mut session = CaptureSession::start(Some(device), true, true).unwrap();
    session.on_buffer(&CaptureBuffer::U16(unsigned), true);
    let rec = session.stop(CancelReason::Signalled);
    match rec.samples {
        dictation_core::sink::SampleData::Int(v) => assert_eq!(v, signed),
        dictation_core::sink::SampleData::Float(_) => panic!("expected an integer container"),
    }
}

#[test]
fn stereo_float_capture_is_downmixed_and_resampled() {
    // two identical channels of a quarter-amplitude sine: the downmix is
    // the channel itself (quantized to 16 bits), and the result has the
    // normalized length
    let rate = 32000u32;
    let mono: Vec<f32> = (0..rate)
        .map(|i| (2.0 * std::f32::consts::PI * 440.0 * i as f32 / rate as f32).sin() * 0.25)
        .collect();
    let stereo: Vec<f32> = mono.iter().flat_map(|v| [*v, *v]).collect();
    let out = resample(&to_bits(&stereo), rate, 2).unwrap();
    let len = out.len() as i64;
    assert!((len - 16000).abs() <= 1, "normalized length {} not within one sample", len);
    let floats = from_bits(out.bits());
    let peak = floats.iter().fold(0.0f32, |m, v| m.max(v.abs()));
    assert!(peak > 0.2 && peak < 0.3, "peak {} drifted", peak);
}
