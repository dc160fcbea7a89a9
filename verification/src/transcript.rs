//! Transcripts: time-stamped text segments as the inference engine reports
//! them, validated and assembled into the final utterance.
//!
//! A segment spans `[start_time, end_time]` in the engine's time base. A
//! transcript keeps its segments ordered by start time and non-overlapping;
//! the concatenation of the segment texts, with no separator, is the final
//! utterance.

use vstd::prelude::*;
use vstd::string::StringExecFns;

verus! {

/// Why the transcription stage failed.
#[derive(Clone, Copy, PartialEq, Eq, Structural, Debug)]
pub enum TranscribeError {
    /// The model artifact did not resolve to a loadable model.
    ModelLoadError,
    /// Inference failed, or it reported ill-formed output; an empty input
    /// is rejected with this, never answered with an empty transcript.
    InferenceError,
}

/// One timestamped span of recognized text.
pub struct TranscriptSegment {
    pub start_time: i64,
    pub end_time: i64,
    pub text: String,
}

/// A well-formed span ends no earlier than it starts.
pub open spec fn segment_wf(s: TranscriptSegment) -> bool {
    s.start_time <= s.end_time
}

/// Segments in transcript order: each well formed, and each ending before
/// the next begins, which makes start times non-decreasing.
pub open spec fn segments_ordered(s: Seq<TranscriptSegment>) -> bool {
    &&& forall|i: int| 0 <= i < s.len() ==> segment_wf(#[trigger] s[i])
    &&& forall|i: int| 0 <= i && i + 1 < s.len() ==> #[trigger] s[i].end_time <= s[i
        + 1].start_time
}

/// The final utterance: the segment texts concatenated with no separator.
pub open spec fn spec_joined(s: Seq<TranscriptSegment>) -> Seq<char>
    decreases s.len(),
{
    if s.len() == 0 {
        Seq::empty()
    } else {
        spec_joined(s.drop_last()) + s.last().text@
    }
}

/// Ordered sequence of segments; built only from segment lists the order
/// check admits.
pub struct TranscriptResult {
    segments: Vec<TranscriptSegment>,
}

impl TranscriptResult {
    pub closed spec fn view(&self) -> Seq<TranscriptSegment> {
        self.segments@
    }

    pub open spec fn wf(&self) -> bool {
        segments_ordered(self@)
    }

    /// Number of segments.
    pub fn num_segments(&self) -> (r: usize)
        ensures
            r == self@.len(),
    {
        self.segments.len()
    }

    /// The segment at `i`.
    pub fn segment(&self, i: usize) -> (r: &TranscriptSegment)
        requires
            i < self@.len(),
        ensures
            *r == self@[i as int],
    {
        &self.segments[i]
    }

    /// Validates what the engine reported: accepted exactly when the
    /// segments are in transcript order, and then kept unchanged. Anything
    /// else is an inference fault, not a transcript.
    pub fn build_transcript(segments: Vec<TranscriptSegment>) -> (r: Result<
        TranscriptResult,
        TranscribeError,
    >)
        ensures
            segments_ordered(segments@) ==> (r matches Ok(t) && t@ == segments@ && t.wf()),
            !segments_ordered(segments@) ==> r == Err::<TranscriptResult, TranscribeError>(
                TranscribeError::InferenceError,
            ),
    {
        let n = segments.len();
        let mut i: usize = 0;
        while i < n
            invariant
                n == segments@.len(),
                i <= n,
                forall|k: int| 0 <= k < i ==> segment_wf(#[trigger] segments@[k]),
                forall|k: int| 0 <= k && k < i && k + 1 < n ==> #[trigger] segments@[k].end_time
                    <= segments@[k + 1].start_time,
            decreases n - i,
        {
            let seg = &segments[i];
            if seg.start_time > seg.end_time {
                return Err(TranscribeError::InferenceError);
            }
            if i + 1 < n {
                if seg.end_time > segments[i + 1].start_time {
                    return Err(TranscribeError::InferenceError);
                }
            }
            i = i + 1;
        }
        Ok(TranscriptResult { segments })
    }

    /// The final utterance: every segment's text, in order, no separator.
    pub fn joined_text(&self) -> (r: String)
        ensures
            r@ == spec_joined(self@),
    {
        let mut out = String::new();
        let n = self.segments.len();
        let mut i: usize = 0;
        while i < n
            invariant
                n == self@.len(),
                i <= n,
                out@ == spec_joined(self@.take(i as int)),
            decreases n - i,
        {
            out.append(self.segments[i].text.as_str());
            proof {
                assert(self@.take(i as int + 1).drop_last() =~= self@.take(i as int));
                assert(self@.take(i as int + 1).last() == self@[i as int]);
            }
            i = i + 1;
        }
        proof {
            assert(self@.take(n as int) =~= self@);
        }
        out
    }
}

/// Guards the inference engine's numeric contract: input must be the mono
/// sequence at the fixed rate — which a normalized sequence is by
/// construction — and must not be empty. An empty input is rejected, not
/// answered with an empty transcript, so that "nothing recorded" stays
/// distinct from "recorded silence".
pub fn validate_transcription_input(samples: &crate::resample::NormalizedSamples) -> (r: Result<
    (),
    TranscribeError,
>)
    ensures
        samples@.len() > 0 <==> r is Ok,
        samples@.len() == 0 <==> r == Err::<(), TranscribeError>(TranscribeError::InferenceError),
{
    if samples.len() == 0 {
        Err(TranscribeError::InferenceError)
    } else {
        Ok(())
    }
}

/// Transcript order is global, not only adjacent: in an ordered segment
/// sequence every earlier segment starts no later than every later one,
/// and every segment ends no earlier than it starts.
pub proof fn lemma_transcript_globally_ordered(s: Seq<TranscriptSegment>)
    requires
        segments_ordered(s),
    ensures
        forall|i: int, j: int| 0 <= i <= j < s.len() ==> #[trigger] s[i].start_time
            <= #[trigger] s[j].start_time,
        forall|i: int| 0 <= i < s.len() ==> #[trigger] s[i].start_time <= s[i].end_time,
{
    assert forall|i: int, j: int| 0 <= i <= j < s.len() implies #[trigger] s[i].start_time
        <= #[trigger] s[j].start_time by {
        lemma_start_times_monotone(s, i, j);
    }
}

/// Start times are non-decreasing between any two positions, by induction
/// on the distance between them.
proof fn lemma_start_times_monotone(s: Seq<TranscriptSegment>, i: int, j: int)
    requires
        segments_ordered(s),
        0 <= i <= j < s.len(),
    ensures
        s[i].start_time <= s[j].start_time,
    decreases j - i,
{
    if i < j {
        lemma_start_times_monotone(s, i, j - 1);
        assert(s[j - 1].end_time <= s[j].start_time);
        assert(segment_wf(s[j - 1]));
    }
}

} // verus!
