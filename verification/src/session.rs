//! The capture session: owns the sink for one recording and walks the
//! lifecycle `NotStarted -> Streaming -> Stopped`.
//!
//! The device callback thread, the blocking wait on the cancellation
//! channel and the stream teardown run with the caller; the session takes
//! their outcomes as plain values. `start` receives whether a default input
//! device exists, whether it accepted the stream, and whether the durable
//! container could be created; `on_buffer` receives each chunk together
//! with the outcome of the non-blocking lock acquisition; `stop` receives
//! why the wait ended. Leaving `Streaming` has exactly one mechanism: the
//! cancellation signal (or its channel closing, a defined path with the
//! same effect) — no timeout, no automatic stop.

use vstd::prelude::*;

use crate::sample::CaptureSampleFormat;
use crate::sink::buffer_compatible;
use crate::sink::spec_appended;
use crate::sink::wav_spec_from_config;
use crate::sink::AudioSink;
use crate::sink::CaptureBuffer;
use crate::sink::FinalizedRecording;
use crate::sink::WavSpec;

verus! {

/// Why a capture attempt could not start.
#[derive(Clone, Copy, PartialEq, Eq, Structural, Debug)]
pub enum CaptureError {
    /// No default input device exists.
    DeviceUnavailable,
    /// The device declined the requested stream.
    StreamConfigError,
    /// The durable container could not be created.
    ContainerCreateError,
}

/// Lifecycle of one capture session; `Stopped` is terminal.
#[derive(Clone, Copy, PartialEq, Eq, Structural, Debug)]
pub enum CaptureState {
    NotStarted,
    Streaming,
    Stopped,
}

/// How the blocking wait on the cancellation channel ended. A dropped
/// channel is a defined, not exceptional, path with the same effect as an
/// explicit signal.
#[derive(Clone, Copy, PartialEq, Eq, Structural, Debug)]
pub enum CancelReason {
    /// The one-shot cancellation signal arrived.
    Signalled,
    /// The channel closed without a signal: expected cancellation.
    ChannelClosed,
}

/// The default input configuration of a capture device, as plain values.
#[derive(Clone, Copy, PartialEq, Eq, Structural, Debug)]
pub struct DeviceConfig {
    pub channels: u16,
    pub sample_rate: u32,
    pub format: CaptureSampleFormat,
}

/// One active capture: the streaming state together with the sink bound to
/// the in-progress durable container.
pub struct CaptureSession {
    state: CaptureState,
    sink: AudioSink,
}

/// What `start` guarantees of a session it returns: streaming, with an
/// empty, open container whose format is derived from the device's default
/// configuration.
pub open spec fn start_post(config: DeviceConfig, s: CaptureSession) -> bool {
    &&& s.state() is Streaming
    &&& s.wf()
    &&& !s.sink_ref().is_finalized()
    &&& s.captured().spec_len() == 0
    &&& s.fmt().channels == config.channels
    &&& s.fmt().sample_rate == config.sample_rate
    &&& s.fmt().sample_format == crate::sample::spec_sample_format(config.format)
}

/// What `stop` guarantees: the session is terminal and the recording holds
/// exactly the samples the sink had accepted, under the sink's format.
pub open spec fn stop_post(pre: CaptureSession, rec: FinalizedRecording) -> bool {
    &&& rec.format == pre.fmt()
    &&& rec.samples == pre.captured()
}

impl CaptureSession {
    pub closed spec fn state(&self) -> CaptureState {
        self.state
    }

    /// Declared format of the session's container.
    pub closed spec fn fmt(&self) -> WavSpec {
        self.sink.fmt()
    }

    /// Samples the sink has accepted so far.
    pub closed spec fn captured(&self) -> crate::sink::SampleData {
        self.sink.contents()
    }

    pub closed spec fn sink_ref(&self) -> AudioSink {
        self.sink
    }

    pub open spec fn wf(&self) -> bool {
        &&& self.sink_ref().wf()
        &&& (self.state() is Streaming ==> !self.sink_ref().is_finalized())
    }

    /// Starts one capture. `device` carries the default input device's
    /// configuration if such a device exists; `stream_accepted` whether the
    /// device took the stream; `container_created` whether the durable
    /// container could be created at the derived path. Fails in that order,
    /// exactly when one of the three is missing; otherwise the session is
    /// streaming over an empty container.
    pub fn start(device: Option<DeviceConfig>, stream_accepted: bool, container_created: bool) -> (r:
        Result<CaptureSession, CaptureError>)
        ensures
            device is None <==> r == Err::<CaptureSession, CaptureError>(
                CaptureError::DeviceUnavailable,
            ),
            device is Some && !stream_accepted <==> r == Err::<CaptureSession, CaptureError>(
                CaptureError::StreamConfigError,
            ),
            device is Some && stream_accepted && !container_created <==> r == Err::<
                CaptureSession,
                CaptureError,
            >(CaptureError::ContainerCreateError),
            device is Some && stream_accepted && container_created ==> (r matches Ok(s)
                && start_post(device->0, s)),
    {
        let config = match device {
            Some(c) => c,
            None => {
                return Err(CaptureError::DeviceUnavailable);
            },
        };
        if !stream_accepted {
            return Err(CaptureError::StreamConfigError);
        }
        if !container_created {
            return Err(CaptureError::ContainerCreateError);
        }
        let spec_of_config = wav_spec_from_config(config.channels, config.sample_rate, config.format);
        let sink = AudioSink::new(spec_of_config);
        Ok(CaptureSession { state: CaptureState::Streaming, sink })
    }

    /// One chunk from the device callback, appended in callback order
    /// through the sink's non-blocking write; `acquired` is the outcome of
    /// the lock acquisition, and a contended buffer is dropped.
    pub fn on_buffer(&mut self, input: &CaptureBuffer, acquired: bool)
        requires
            old(self).wf(),
            old(self).state() is Streaming,
            buffer_compatible(input, old(self).fmt().sample_format),
        ensures
            final(self).wf(),
            final(self).state() == old(self).state(),
            final(self).fmt() == old(self).fmt(),
            acquired ==> spec_appended(old(self).captured(), input, final(self).captured()),
            !acquired ==> final(self).captured() == old(self).captured(),
    {
        self.sink.write_input_data(input, acquired);
    }

    /// Ends the capture after the wait on the cancellation channel: the
    /// stream is torn down by the caller before this runs, the sink is
    /// finalized, the session becomes terminal. Both reasons — the one-shot
    /// signal and a closed channel — have the same effect.
    pub fn stop(&mut self, reason: CancelReason) -> (rec: FinalizedRecording)
        requires
            old(self).wf(),
            old(self).state() is Streaming,
        ensures
            final(self).wf(),
            final(self).state() is Stopped,
            stop_post(*old(self), rec),
    {
        let _ = reason;
        self.state = CaptureState::Stopped;
        let rec = self.sink.finalize();
        match rec {
            Some(r) => r,
            None => {
                // excluded: a streaming session's sink is open
                assert(false);
                FinalizedRecording {
                    format: wav_spec_from_config(0, 0, CaptureSampleFormat::I16),
                    samples: crate::sink::SampleData::Int(Vec::new()),
                }
            },
        }
    }
}

/// A capture started and cancelled before any buffer was accepted yields a
/// recording with zero samples: the immediate-cancellation path is empty,
/// never an error of the capture stage.
pub proof fn lemma_immediate_cancel_yields_empty(
    config: DeviceConfig,
    s: CaptureSession,
    rec: FinalizedRecording,
)
    requires
        start_post(config, s),
        stop_post(s, rec),
    ensures
        rec.spec_len() == 0,
{
}

} // verus!
