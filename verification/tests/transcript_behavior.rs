use dictation_core::resample::resample;
use dictation_core::transcript::validate_transcription_input;
use dictation_core::transcript::TranscribeError;
use dictation_core::transcript::TranscriptResult;
use dictation_core::transcript::TranscriptSegment;

fn seg(start: i64, end: i64, text: &str) -> TranscriptSegment {
    TranscriptSegment { start_time: start, end_time: end, text: text.to_string() }
}

#[test]
fn ordered_segments_become_a_transcript() {
    let t = TranscriptResult::build_transcript(vec![
        seg(0, 120, "push"),
        seg(120, 200, " to"),
        seg(250, 400, " talk"),
    ])
    .unwrap();
    assert_eq!(t.num_segments(), 3);
    assert_eq!(t.joined_text(), "push to talk");
}

#[test]
fn transcript_times_are_monotone() {
    let t = TranscriptResult::build_transcript(vec![
        seg(0, 50, "a"),
        seg(50, 90, "b"),
        seg(100, 100, "c"),
        seg(130, 180, "d"),
    ])
    .unwrap();
    let mut last_start = i64::MIN;
    for i in 0..t.num_segments() {
        let s = t.segment(i);
        assert!(s.end_time >= s.start_time);
        assert!(s.start_time >= last_start);
        last_start = s.start_time;
    }
}

#[test]
fn a_span_that_ends_before_it_starts_is_an_inference_fault() {
    let r = TranscriptResult::build_transcript(vec![seg(10, 5, "x")]);
    assert!(matches!(r, Err(TranscribeError::InferenceError)));
}

#[test]
fn overlapping_spans_are_an_inference_fault() {
    let r = TranscriptResult::build_transcript(vec![seg(0, 100, "x"), seg(50, 150, "y")]);
    assert!(matches!(r, Err(TranscribeError::InferenceError)));
}

#[test]
fn a_silent_utterance_is_an_empty_transcript_not_a_failure() {
    // with blank suppression, silence yields zero segments; that is a
    // well-formed transcript whose utterance is empty
    let t = TranscriptResult::build_transcript(Vec::new()).unwrap();
    assert_eq!(t.num_segments(), 0);
    assert_eq!(t.joined_text(), "");
}

#[test]
fn empty_inference_input_is_rejected() {
    let empty = resample(&Vec::new(), 48000, 1).unwrap();
    assert_eq!(empty.len(), 0);
    assert_eq!(
        validate_transcription_input(&empty),
        Err(TranscribeError::InferenceError)
    );
}

#[test]
fn nonempty_inference_input_is_accepted() {
    let bits: Vec<u32> = vec![0.1f32.to_bits(); 1600];
    let norm = resample(&bits, 16000, 1).unwrap();
    assert!(norm.len() > 0);
    assert!(validate_transcription_input(&norm).is_ok());
}
