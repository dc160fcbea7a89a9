//! Sample-format conversion: maps a captured audio sample to the encoding
//! the sink declares. Pure and total; no failure mode.
//!
//! Signed and unsigned 16-bit samples convert by shifting the unsigned
//! midpoint (the bias) to zero. 32-bit float samples pass through unchanged;
//! the library carries them by their bit pattern (`u32`), since their numeric
//! value is never inspected by the core logic.

use vstd::prelude::*;

verus! {

/// Sample encoding a capture device produces. The width and signedness are
/// fixed for the lifetime of the device.
#[derive(Clone, Copy, PartialEq, Eq, Structural, Debug)]
pub enum CaptureSampleFormat {
    /// Signed 16-bit integer samples.
    I16,
    /// Unsigned 16-bit integer samples, biased around the midpoint.
    U16,
    /// 32-bit float samples, carried by their bit pattern.
    F32,
}

/// Sample encoding the durable container declares.
#[derive(Clone, Copy, PartialEq, Eq, Structural, Debug)]
pub enum ContainerSampleFormat {
    Int,
    Float,
}

impl CaptureSampleFormat {
    /// Whether the encoding is a floating-point one.
    pub open spec fn spec_is_float(self) -> bool {
        self is F32
    }

    pub fn is_float(self) -> (r: bool)
        ensures
            r == self.spec_is_float(),
    {
        match self {
            CaptureSampleFormat::F32 => true,
            _ => false,
        }
    }

    /// Width of one sample in bytes.
    pub open spec fn spec_sample_size(self) -> u16 {
        match self {
            CaptureSampleFormat::I16 => 2,
            CaptureSampleFormat::U16 => 2,
            CaptureSampleFormat::F32 => 4,
        }
    }

    pub fn sample_size(self) -> (r: u16)
        ensures
            r == self.spec_sample_size(),
    {
        match self {
            CaptureSampleFormat::F32 => 4,
            _ => 2,
        }
    }
}

/// Container encoding for a given capture encoding: float samples keep a
/// float container, both integer encodings land in the signed container.
pub open spec fn spec_sample_format(format: CaptureSampleFormat) -> ContainerSampleFormat {
    if format.spec_is_float() {
        ContainerSampleFormat::Float
    } else {
        ContainerSampleFormat::Int
    }
}

pub fn sample_format(format: CaptureSampleFormat) -> (r: ContainerSampleFormat)
    ensures
        r == spec_sample_format(format),
{
    if format.is_float() {
        ContainerSampleFormat::Float
    } else {
        ContainerSampleFormat::Int
    }
}

/// The unsigned 16-bit midpoint: `u16` sample `32768` is silence, as signed
/// sample `0` is.
pub const U16_BIAS: i32 = 32768;

/// Mathematical value of converting one unsigned 16-bit sample to signed.
pub open spec fn spec_i16_from_u16(u: u16) -> i16 {
    (u as int - 32768) as i16
}

/// Mathematical value of converting one signed 16-bit sample to unsigned.
pub open spec fn spec_u16_from_i16(s: i16) -> u16 {
    (s as int + 32768) as u16
}

/// Converts an unsigned 16-bit sample to the signed encoding the sink
/// declares, correcting for the bias.
pub fn i16_from_u16(u: u16) -> (r: i16)
    ensures
        r == spec_i16_from_u16(u),
        r as int == u as int - 32768,
{
    ((u as i32) - U16_BIAS) as i16
}

/// Converts a signed 16-bit sample back to the unsigned encoding,
/// reapplying the bias.
pub fn u16_from_i16(s: i16) -> (r: u16)
    ensures
        r == spec_u16_from_i16(s),
        r as int == s as int + 32768,
{
    ((s as i32) + U16_BIAS) as u16
}

/// Bias correction loses nothing: converting a 16-bit sample to the other
/// signedness and back restores it exactly, in both directions.
pub proof fn lemma_bias_round_trip(u: u16, s: i16)
    ensures
        spec_u16_from_i16(spec_i16_from_u16(u)) == u,
        spec_i16_from_u16(spec_u16_from_i16(s)) == s,
{
}

} // verus!
