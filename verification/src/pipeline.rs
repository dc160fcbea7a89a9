//! The recording pipeline: the orchestrating state machine `Idle ->
//! Recording -> Transcribing -> Idle`, with the cancelled sub-path
//! collapsing back to `Idle` without transcription when capture stops
//! before any samples exist.
//!
//! The pipeline owns the session state exclusively; its transitions are the
//! only externally observable lifecycle signal. The blocking capture wait,
//! the notification player, the status channel and the output dispatcher
//! run with the caller, which reports each stage's outcome back as a plain
//! value; every stage failure terminates the attempt and forces the state
//! back to `Idle`, and nothing is retried here.

use vstd::prelude::*;
use vstd::string::StringExecFns;

use crate::resample::resample_recording;
use crate::resample::spec_normalized_of;
use crate::resample::NormalizedSamples;
use crate::session::CaptureError;
use crate::sink::FinalizedRecording;
use crate::transcript::TranscribeError;

verus! {

/// Externally observable pipeline state, emitted on every transition.
/// Consumers treat repeated identical statuses as legal no-ops.
#[derive(Clone, Copy, PartialEq, Eq, Structural, Debug)]
pub enum SessionState {
    Idle,
    Recording,
    Transcribing,
}

/// Everything one recording attempt can fail with. Capture-stage errors
/// are fatal per attempt; an empty recording is recoverable; a rejected
/// concurrent `begin` is the caller's to retry, not a pipeline fault.
#[derive(Clone, Copy, PartialEq, Eq, Structural, Debug)]
pub enum PipelineError {
    SessionBusyError,
    DeviceUnavailable,
    StreamConfigError,
    ContainerCreateError,
    EmptyRecordingError,
    ResampleError,
    ModelLoadError,
    InferenceError,
}

/// The pipeline error a capture-stage failure surfaces as.
pub open spec fn spec_capture_error(e: CaptureError) -> PipelineError {
    match e {
        CaptureError::DeviceUnavailable => PipelineError::DeviceUnavailable,
        CaptureError::StreamConfigError => PipelineError::StreamConfigError,
        CaptureError::ContainerCreateError => PipelineError::ContainerCreateError,
    }
}

/// The pipeline error a transcription-stage failure surfaces as.
pub open spec fn spec_transcribe_error(e: TranscribeError) -> PipelineError {
    match e {
        TranscribeError::ModelLoadError => PipelineError::ModelLoadError,
        TranscribeError::InferenceError => PipelineError::InferenceError,
    }
}

pub fn capture_error_to_pipeline(e: CaptureError) -> (r: PipelineError)
    ensures
        r == spec_capture_error(e),
{
    match e {
        CaptureError::DeviceUnavailable => PipelineError::DeviceUnavailable,
        CaptureError::StreamConfigError => PipelineError::StreamConfigError,
        CaptureError::ContainerCreateError => PipelineError::ContainerCreateError,
    }
}

pub fn transcribe_error_to_pipeline(e: TranscribeError) -> (r: PipelineError)
    ensures
        r == spec_transcribe_error(e),
{
    match e {
        TranscribeError::ModelLoadError => PipelineError::ModelLoadError,
        TranscribeError::InferenceError => PipelineError::InferenceError,
    }
}

/// Logical cue names handed to the notification player on the `begin`,
/// capture-stop and completion transitions.
#[derive(Clone, Copy, PartialEq, Eq, Structural, Debug)]
pub enum NotificationCue {
    Start,
    Stop,
    Complete,
}

/// The settings key under which the player's sound for a cue is configured.
pub fn cue_key(c: NotificationCue) -> (r: String)
    ensures
        c is Start ==> r@ == "sound-start"@,
        c is Stop ==> r@ == "sound-stop"@,
        c is Complete ==> r@ == "sound-complete"@,
{
    match c {
        NotificationCue::Start => "sound-start".to_owned(),
        NotificationCue::Stop => "sound-stop".to_owned(),
        NotificationCue::Complete => "sound-complete".to_owned(),
    }
}

/// The label under which a state is emitted on the status channel.
pub fn status_label(s: SessionState) -> (r: String)
    ensures
        s is Idle ==> r@ == "idle"@,
        s is Recording ==> r@ == "recording"@,
        s is Transcribing ==> r@ == "transcribing"@,
{
    match s {
        SessionState::Idle => "idle".to_owned(),
        SessionState::Recording => "recording".to_owned(),
        SessionState::Transcribing => "transcribing".to_owned(),
    }
}

/// The on-disk path (relative to the resource root) of the serialized
/// model artifact for a model identifier.
pub fn resolve_model_path(model: &str) -> (r: String)
    ensures
        r@ == "resources/models/ggml-"@ + model@ + ".bin"@,
{
    let mut out: String = "resources/models/ggml-".to_owned();
    out.append(model);
    out.append(".bin");
    out
}

/// The orchestrator: holds the one session slot and the one-shot
/// cancellation flag. At most one recording is in flight per pipeline.
pub struct RecordingPipeline {
    state: SessionState,
    cancel_requested: bool,
}

impl RecordingPipeline {
    pub closed spec fn state(&self) -> SessionState {
        self.state
    }

    /// Whether the one-shot cancellation signal has been consumed for the
    /// session in flight.
    pub closed spec fn cancel_requested(&self) -> bool {
        self.cancel_requested
    }

    /// A fresh pipeline: idle, no signal pending.
    pub fn new() -> (p: RecordingPipeline)
        ensures
            p.state() is Idle,
            !p.cancel_requested(),
    {
        RecordingPipeline { state: SessionState::Idle, cancel_requested: false }
    }

    /// The current state, for the status channel.
    pub fn status(&self) -> (s: SessionState)
        ensures
            s == self.state(),
    {
        self.state
    }

    /// Claims the session slot. Rejected with `SessionBusyError` while a
    /// recording or transcription is in flight — never queued, never
    /// overwriting — and the pipeline is then left exactly as it was.
    pub fn begin(&mut self) -> (r: Result<(), PipelineError>)
        ensures
            old(self).state() is Idle ==> (r is Ok && final(self).state() is Recording
                && !final(self).cancel_requested()),
            !(old(self).state() is Idle) ==> (r == Err::<(), PipelineError>(
                PipelineError::SessionBusyError,
            ) && *final(self) == *old(self)),
    {
        match self.state {
            SessionState::Idle => {
                self.state = SessionState::Recording;
                self.cancel_requested = false;
                Ok(())
            },
            _ => Err(PipelineError::SessionBusyError),
        }
    }

    /// Requests cancellation of the capture in flight. Returns whether the
    /// one-shot signal must be sent now: exactly once per recording, on the
    /// first call while recording. Any further call, or a call with no
    /// active capture, is a no-op — idempotent by design.
    pub fn cancel(&mut self) -> (signal: bool)
        ensures
            (old(self).state() is Recording && !old(self).cancel_requested()) ==> (signal
                && final(self).state() == old(self).state() && final(self).cancel_requested()),
            !(old(self).state() is Recording && !old(self).cancel_requested()) ==> (!signal
                && *final(self) == *old(self)),
    {
        match self.state {
            SessionState::Recording => {
                if self.cancel_requested {
                    false
                } else {
                    self.cancel_requested = true;
                    true
                }
            },
            _ => false,
        }
    }

    /// Capture ended: the container is frozen and holds `captured_samples`
    /// samples. An empty recording is rejected with `EmptyRecordingError`
    /// and the pipeline returns to `Idle` with nothing transcribed;
    /// otherwise the attempt moves on to `Transcribing`.
    pub fn capture_stopped(&mut self, captured_samples: usize) -> (r: Result<(), PipelineError>)
        requires
            old(self).state() is Recording,
        ensures
            !final(self).cancel_requested(),
            captured_samples == 0 ==> (r == Err::<(), PipelineError>(
                PipelineError::EmptyRecordingError,
            ) && final(self).state() is Idle),
            captured_samples > 0 ==> (r is Ok && final(self).state() is Transcribing),
    {
        self.cancel_requested = false;
        if captured_samples == 0 {
            self.state = SessionState::Idle;
            Err(PipelineError::EmptyRecordingError)
        } else {
            self.state = SessionState::Transcribing;
            Ok(())
        }
    }

    /// Capture could not start or died fatally: back to `Idle`, surfacing
    /// the capture error as the attempt's failure. Nothing is retried.
    pub fn capture_failed(&mut self, e: CaptureError) -> (r: PipelineError)
        requires
            old(self).state() is Recording,
        ensures
            final(self).state() is Idle,
            !final(self).cancel_requested(),
            r == spec_capture_error(e),
    {
        self.state = SessionState::Idle;
        self.cancel_requested = false;
        capture_error_to_pipeline(e)
    }

    /// A transcription-stage failure (resampling, model loading or
    /// inference): back to `Idle`, the error passed through unchanged.
    pub fn transcription_failed(&mut self, e: PipelineError) -> (r: PipelineError)
        requires
            old(self).state() is Transcribing,
        ensures
            final(self).state() is Idle,
            !final(self).cancel_requested(),
            r == e,
    {
        self.state = SessionState::Idle;
        self.cancel_requested = false;
        e
    }

    /// The attempt finished and its text was dispatched: back to `Idle`.
    pub fn complete(&mut self)
        requires
            old(self).state() is Transcribing,
        ensures
            final(self).state() is Idle,
            !final(self).cancel_requested(),
    {
        self.state = SessionState::Idle;
        self.cancel_requested = false;
    }
}

/// Validates the finalized container and derives the normalized sample
/// sequence for inference: an empty recording is `EmptyRecordingError`
/// (recoverable, nothing transcribed), a declined or impossible conversion
/// is `ResampleError`; on success the result is exactly the recording's
/// normalized sequence.
pub fn process_recording(rec: &FinalizedRecording) -> (r: Result<NormalizedSamples, PipelineError>)
    ensures
        rec.spec_len() == 0 <==> r == Err::<NormalizedSamples, PipelineError>(
            PipelineError::EmptyRecordingError,
        ),
        rec.spec_len() > 0 && (rec.format.sample_rate == 0 || rec.format.channels == 0) ==> r
            == Err::<NormalizedSamples, PipelineError>(PipelineError::ResampleError),
        r matches Ok(v) ==> rec.spec_len() > 0 && v@ == spec_normalized_of(*rec),
    {
    if rec.len() == 0 {
        return Err(PipelineError::EmptyRecordingError);
    }
    match resample_recording(rec) {
        Ok(v) => Ok(v),
        Err(_) => Err(PipelineError::ResampleError),
    }
}

} // verus!
