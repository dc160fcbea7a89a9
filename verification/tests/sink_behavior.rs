use dictation_core::sample::i16_from_u16;
use dictation_core::sample::sample_format;
use dictation_core::sample::u16_from_i16;
use dictation_core::sample::CaptureSampleFormat;
use dictation_core::sample::ContainerSampleFormat;
use dictation_core::sink::wav_spec_from_config;
use dictation_core::sink::AudioSink;
use dictation_core::sink::CaptureBuffer;
use dictation_core::sink::SampleData;

fn int_sink() -> AudioSink {
    AudioSink::new(wav_spec_from_config(1, 48000, CaptureSampleFormat::I16))
}

fn int_samples(data: SampleData) -> Vec<i16> {
    match data {
        SampleData::Int(v) => v,
        SampleData::Float(_) => panic!("expected an integer container"),
    }
}

#[test]
fn sample_format_maps_float_and_int() {
    assert_eq!(sample_format(CaptureSampleFormat::I16), ContainerSampleFormat::Int);
    assert_eq!(sample_format(CaptureSampleFormat::U16), ContainerSampleFormat::Int);
    assert_eq!(sample_format(CaptureSampleFormat::F32), ContainerSampleFormat::Float);
}

#[test]
fn wav_spec_carries_config() {
    let spec = wav_spec_from_config(2, 44100, CaptureSampleFormat::U16);
    assert_eq!(spec.channels, 2);
    assert_eq!(spec.sample_rate, 44100);
    assert_eq!(spec.bits_per_sample, 16);
    assert_eq!(spec.sample_format, ContainerSampleFormat::Int);
    let fspec = wav_spec_from_config(1, 48000, CaptureSampleFormat::F32);
    assert_eq!(fspec.bits_per_sample, 32);
    assert_eq!(fspec.sample_format, ContainerSampleFormat::Float);
}

#[test]
fn bias_conversion_exact_values() {
    assert_eq!(i16_from_u16(0), -32768);
    assert_eq!(i16_from_u16(32768), 0);
    assert_eq!(i16_from_u16(65535), 32767);
    assert_eq!(u16_from_i16(-32768), 0);
    assert_eq!(u16_from_i16(0), 32768);
    assert_eq!(u16_from_i16(32767), 65535);
}

#[test]
fn bias_conversion_round_trips() {
    for u in [0u16, 1, 12345, 32767, 32768, 32769, 65534, 65535] {
        assert_eq!(u16_from_i16(i16_from_u16(u)), u);
    }
    for s in [-32768i16, -1, 0, 1, 32767] {
        assert_eq!(i16_from_u16(u16_from_i16(s)), s);
    }
}

#[test]
fn sink_appends_in_callback_order() {
    let mut sink = int_sink();
    sink.write_input_data(&CaptureBuffer::I16(vec![1, 2]), true);
    sink.write_input_data(&CaptureBuffer::I16(vec![3]), true);
    let rec = sink.finalize().expect("first finalize yields the recording");
    assert_eq!(int_samples(rec.samples), vec![1, 2, 3]);
}

#[test]
fn sink_converts_unsigned_buffers() {
    let mut sink = int_sink();
    sink.write_input_data(&CaptureBuffer::U16(vec![0, 32768, 65535]), true);
    let rec = sink.finalize().unwrap();
    assert_eq!(int_samples(rec.samples), vec![-32768, 0, 32767]);
}

#[test]
fn contended_write_drops_buffer() {
    let mut sink = int_sink();
    sink.write_input_data(&CaptureBuffer::I16(vec![1, 2]), true);
    sink.write_input_data(&CaptureBuffer::I16(vec![9, 9]), false);
    sink.write_input_data(&CaptureBuffer::I16(vec![3]), true);
    let rec = sink.finalize().unwrap();
    assert_eq!(int_samples(rec.samples), vec![1, 2, 3]);
}

#[test]
fn finalize_freezes_the_container() {
    let mut sink = int_sink();
    sink.write_input_data(&CaptureBuffer::I16(vec![7]), true);
    let rec = sink.finalize().unwrap();
    assert_eq!(rec.len(), 1);
    // the held target is gone: writes are no-ops, a second finalize yields nothing
    sink.write_input_data(&CaptureBuffer::I16(vec![8]), true);
    assert!(sink.finalize().is_none());
}

#[test]
fn write_contention_interleavings_are_deterministic() {
    // the same accepted writes give the same container, whatever the
    // interleaving of contended writes and the finalize was
    for _ in 0..16 {
        let mut a = int_sink();
        a.write_input_data(&CaptureBuffer::I16(vec![1, 2, 3]), true);
        a.write_input_data(&CaptureBuffer::I16(vec![4]), false);
        let rec_a = a.finalize().unwrap();
        assert_eq!(rec_a.len(), 3);

        let mut b = int_sink();
        b.write_input_data(&CaptureBuffer::I16(vec![1, 2, 3]), true);
        let rec_b = b.finalize().unwrap();
        b.write_input_data(&CaptureBuffer::I16(vec![4]), true);
        assert_eq!(rec_b.len(), 3);
        assert_eq!(int_samples(rec_a.samples), int_samples(rec_b.samples));
    }
}

#[test]
fn float_container_keeps_bit_patterns() {
    let spec = wav_spec_from_config(1, 44100, CaptureSampleFormat::F32);
    let mut sink = AudioSink::new(spec);
    let bits: Vec<u32> = vec![0.5f32.to_bits(), (-0.25f32).to_bits(), 0];
    sink.write_input_data(&CaptureBuffer::F32(bits.clone()), true);
    let rec = sink.finalize().unwrap();
    match rec.samples {
        SampleData::Float(v) => assert_eq!(v, bits),
        SampleData::Int(_) => panic!("expected a float container"),
    }
}
