//! The audio sink: the shared, lock-guarded destination that serializes
//! captured sample buffers into the durable container.
//!
//! The sink is guarded by one exclusive lock. The write path acquires it
//! non-blocking: a buffer arriving while the lock is held is dropped rather
//! than stalling the device callback (deliberate backpressure; losing data
//! under contention is acceptable, stalling is not). The finalize path
//! acquires the lock blocking, freezes the container and removes the held
//! target, so later writes are no-ops. The lock itself lives with the caller
//! that runs the threads; the sink takes the outcome of the non-blocking
//! acquisition as the `acquired` argument, and its contracts pin down the
//! contents for either outcome.

use vstd::prelude::*;

use crate::sample::i16_from_u16;
use crate::sample::spec_i16_from_u16;
use crate::sample::spec_sample_format;
use crate::sample::CaptureSampleFormat;
use crate::sample::ContainerSampleFormat;

verus! {

/// Declared format of a durable container, fixed at creation.
#[derive(Clone, Copy, PartialEq, Eq, Structural, Debug)]
pub struct WavSpec {
    pub channels: u16,
    pub sample_rate: u32,
    pub bits_per_sample: u16,
    pub sample_format: ContainerSampleFormat,
}

/// Container format for a capture device's default configuration: the
/// device's channel count and rate, the capture encoding's width in bits,
/// and the container encoding that `sample_format` assigns to it.
pub fn wav_spec_from_config(channels: u16, sample_rate: u32, format: CaptureSampleFormat) -> (r:
    WavSpec)
    ensures
        r.channels == channels,
        r.sample_rate == sample_rate,
        r.bits_per_sample == 8 * format.spec_sample_size(),
        r.sample_format == spec_sample_format(format),
{
    WavSpec {
        channels,
        sample_rate,
        bits_per_sample: 8 * format.sample_size(),
        sample_format: crate::sample::sample_format(format),
    }
}

/// One chunk of samples as the device callback hands it over: an ordered
/// sequence of a fixed encoding, never resized after creation.
pub enum CaptureBuffer {
    I16(Vec<i16>),
    U16(Vec<u16>),
    F32(Vec<u32>),
}

impl CaptureBuffer {
    /// Encoding of the buffer's samples.
    pub open spec fn format(&self) -> CaptureSampleFormat {
        match self {
            CaptureBuffer::I16(_) => CaptureSampleFormat::I16,
            CaptureBuffer::U16(_) => CaptureSampleFormat::U16,
            CaptureBuffer::F32(_) => CaptureSampleFormat::F32,
        }
    }

    pub open spec fn spec_len(&self) -> int {
        match self {
            CaptureBuffer::I16(v) => v@.len() as int,
            CaptureBuffer::U16(v) => v@.len() as int,
            CaptureBuffer::F32(v) => v@.len() as int,
        }
    }
}

/// Samples accumulated in a durable container, in the container's encoding:
/// signed 16-bit integers, or 32-bit floats carried by their bit pattern.
pub enum SampleData {
    Int(Vec<i16>),
    Float(Vec<u32>),
}

impl SampleData {
    pub open spec fn fmt(&self) -> ContainerSampleFormat {
        match self {
            SampleData::Int(_) => ContainerSampleFormat::Int,
            SampleData::Float(_) => ContainerSampleFormat::Float,
        }
    }

    pub open spec fn spec_len(&self) -> int {
        match self {
            SampleData::Int(v) => v@.len() as int,
            SampleData::Float(v) => v@.len() as int,
        }
    }

    /// Number of samples held.
    pub fn len(&self) -> (r: usize)
        ensures
            r == self.spec_len(),
    {
        match self {
            SampleData::Int(v) => v.len(),
            SampleData::Float(v) => v.len(),
        }
    }

    /// An empty container of the given encoding.
    pub fn empty(fmt: ContainerSampleFormat) -> (r: SampleData)
        ensures
            r.fmt() == fmt,
            r.spec_len() == 0,
    {
        match fmt {
            ContainerSampleFormat::Int => SampleData::Int(Vec::new()),
            ContainerSampleFormat::Float => SampleData::Float(Vec::new()),
        }
    }
}

/// A whole buffer of unsigned samples in the signed container encoding.
pub open spec fn spec_convert_u16(s: Seq<u16>) -> Seq<i16> {
    s.map_values(|u: u16| spec_i16_from_u16(u))
}

/// Whether a capture buffer's encoding lands in the given container encoding.
pub open spec fn buffer_compatible(buf: &CaptureBuffer, fmt: ContainerSampleFormat) -> bool {
    spec_sample_format(buf.format()) == fmt
}

/// Contents after appending one capture buffer, converted sample by sample
/// to the container encoding.
pub open spec fn spec_appended(pre: SampleData, buf: &CaptureBuffer, post: SampleData) -> bool {
    match (pre, buf, post) {
        (SampleData::Int(v), CaptureBuffer::I16(b), SampleData::Int(w)) => w@ == v@ + b@,
        (SampleData::Int(v), CaptureBuffer::U16(b), SampleData::Int(w)) => w@ == v@
            + spec_convert_u16(b@),
        (SampleData::Float(v), CaptureBuffer::F32(b), SampleData::Float(w)) => w@ == v@ + b@,
        _ => false,
    }
}

fn append_i16(v: &mut Vec<i16>, b: &Vec<i16>)
    ensures
        final(v)@ == old(v)@ + b@,
{
    let mut i: usize = 0;
    while i < b.len()
        invariant
            i <= b@.len(),
            v@ == old(v)@ + b@.take(i as int),
        decreases b@.len() - i,
    {
        v.push(b[i]);
        proof {
            assert(b@.take(i as int + 1) =~= b@.take(i as int).push(b@[i as int]));
        }
        i = i + 1;
    }
    proof {
        assert(b@.take(b@.len() as int) =~= b@);
    }
}

fn append_u16(v: &mut Vec<i16>, b: &Vec<u16>)
    ensures
        final(v)@ == old(v)@ + spec_convert_u16(b@),
{
    let mut i: usize = 0;
    while i < b.len()
        invariant
            i <= b@.len(),
            v@ == old(v)@ + spec_convert_u16(b@.take(i as int)),
        decreases b@.len() - i,
    {
        let s = i16_from_u16(b[i]);
        v.push(s);
        proof {
            assert(spec_convert_u16(b@.take(i as int + 1)) =~= spec_convert_u16(
                b@.take(i as int),
            ).push(spec_i16_from_u16(b@[i as int])));
        }
        i = i + 1;
    }
    proof {
        assert(b@.take(b@.len() as int) =~= b@);
        assert(v@ =~= old(v)@ + spec_convert_u16(b@));
    }
}

fn append_u32(v: &mut Vec<u32>, b: &Vec<u32>)
    ensures
        final(v)@ == old(v)@ + b@,
{
    let mut i: usize = 0;
    while i < b.len()
        invariant
            i <= b@.len(),
            v@ == old(v)@ + b@.take(i as int),
        decreases b@.len() - i,
    {
        v.push(b[i]);
        proof {
            assert(b@.take(i as int + 1) =~= b@.take(i as int).push(b@[i as int]));
        }
        i = i + 1;
    }
    proof {
        assert(b@.take(b@.len() as int) =~= b@);
    }
}

/// An immutable, fully written durable container with its declared format.
/// Created when the sink freezes; read-only afterward.
pub struct FinalizedRecording {
    pub format: WavSpec,
    pub samples: SampleData,
}

impl FinalizedRecording {
    pub open spec fn spec_len(&self) -> int {
        self.samples.spec_len()
    }

    /// Number of samples the container holds.
    pub fn len(&self) -> (r: usize)
        ensures
            r == self.spec_len(),
    {
        self.samples.len()
    }
}

/// The in-progress durable container behind its lock.
pub struct AudioSink {
    format: WavSpec,
    data: SampleData,
    finalized: bool,
}

impl AudioSink {
    /// Declared format, fixed at creation.
    pub closed spec fn fmt(&self) -> WavSpec {
        self.format
    }

    /// Samples accepted so far.
    pub closed spec fn contents(&self) -> SampleData {
        self.data
    }

    /// Whether the container has been frozen.
    pub closed spec fn is_finalized(&self) -> bool {
        self.finalized
    }

    /// The container's encoding always matches its declared format.
    pub open spec fn wf(&self) -> bool {
        self.contents().fmt() == self.fmt().sample_format
    }

    /// A sink bound to a new, empty durable container.
    pub fn new(format: WavSpec) -> (s: AudioSink)
        ensures
            s.wf(),
            s.fmt() == format,
            s.contents().spec_len() == 0,
            !s.is_finalized(),
    {
        AudioSink { format, data: SampleData::empty(format.sample_format), finalized: false }
    }

    /// Accepts one buffer from the producer when the non-blocking acquisition
    /// succeeded (`acquired`) and the container is still open; otherwise the
    /// buffer is dropped and nothing changes. Appends in callback order,
    /// converting each sample to the container encoding.
    pub fn write_input_data(&mut self, input: &CaptureBuffer, acquired: bool)
        requires
            old(self).wf(),
            buffer_compatible(input, old(self).fmt().sample_format),
        ensures
            final(self).wf(),
            final(self).fmt() == old(self).fmt(),
            final(self).is_finalized() == old(self).is_finalized(),
            acquired && !old(self).is_finalized() ==> spec_appended(
                old(self).contents(),
                input,
                final(self).contents(),
            ),
            !(acquired && !old(self).is_finalized()) ==> final(self).contents() == old(
                self,
            ).contents(),
    {
        if !acquired || self.finalized {
            return ;
        }
        match (&mut self.data, input) {
            (SampleData::Int(v), CaptureBuffer::I16(b)) => append_i16(v, b),
            (SampleData::Int(v), CaptureBuffer::U16(b)) => append_u16(v, b),
            (SampleData::Float(v), CaptureBuffer::F32(b)) => append_u32(v, b),
            _ => {
                // excluded: the buffer is compatible with the container
                assert(false);
            },
        }
    }

    /// Freezes the container: the accepted samples become an immutable
    /// recording, the held target is removed, and every later write is a
    /// no-op. Freezing an already frozen sink changes nothing and yields
    /// nothing.
    pub fn finalize(&mut self) -> (r: Option<FinalizedRecording>)
        requires
            old(self).wf(),
        ensures
            final(self).wf(),
            final(self).fmt() == old(self).fmt(),
            final(self).is_finalized(),
            old(self).is_finalized() ==> r is None && final(self).contents() == old(
                self,
            ).contents(),
            !old(self).is_finalized() ==> (r matches Some(rec) && rec.format == old(self).fmt()
                && rec.samples == old(self).contents() && final(self).contents().spec_len() == 0),
    {
        if self.finalized {
            return None;
        }
        self.finalized = true;
        let mut taken = SampleData::empty(self.format.sample_format);
        core::mem::swap(&mut self.data, &mut taken);
        Some(FinalizedRecording { format: self.format, samples: taken })
    }
}

} // verus!
