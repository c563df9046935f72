use crate::error::CaptureError;
use vstd::prelude::*;

verus! {

/// The native encodings an input device may report.
#[derive(Debug, Clone, Copy, PartialEq, Eq, Structural)]
pub enum SampleFormat {
    I8,
    I16,
    I32,
    I64,
    U8,
    U16,
    U32,
    U64,
    F32,
    F64,
    /// Any encoding not listed above.
    Other,
}

/// The encodings that can be normalized to an amplitude.
#[derive(Debug, Clone, Copy, PartialEq, Eq, Structural)]
pub enum Encoding {
    /// 32-bit float, passed through as it is.
    F32,
    /// Signed 16-bit integer, scaled by its range.
    I16,
    /// Unsigned 16-bit integer, offset to its midpoint and scaled.
    U16,
}

/// The encoding that handles `format`, if any.
pub open spec fn spec_encoding_of(format: SampleFormat) -> Option<Encoding> {
    match format {
        SampleFormat::F32 => Some(Encoding::F32),
        SampleFormat::I16 => Some(Encoding::I16),
        SampleFormat::U16 => Some(Encoding::U16),
        _ => None,
    }
}

/// Decides, once per stream, how its samples will be normalized.
pub fn encoding_of(format: SampleFormat) -> (r: Result<Encoding, CaptureError>)
    ensures
        r == match spec_encoding_of(format) {
            Some(e) => Ok(e),
            None => Err(CaptureError::UnsupportedFormat),
        },
{
    match format {
        SampleFormat::F32 => Ok(Encoding::F32),
        SampleFormat::I16 => Ok(Encoding::I16),
        SampleFormat::U16 => Ok(Encoding::U16),
        _ => Err(CaptureError::UnsupportedFormat),
    }
}

/// An integer sample as a device delivers it.
#[derive(Debug, Clone, Copy, PartialEq, Eq, Structural)]
pub enum IntSample {
    I16(i16),
    U16(u16),
}

/// The amplitude of an integer sample is its centered value divided by this.
pub const FULL_SCALE: i32 = 32768;

/// The value of an integer sample measured from the encoding's midpoint.
pub open spec fn centered(s: IntSample) -> int {
    match s {
        IntSample::I16(v) => v as int,
        IntSample::U16(v) => v as int - FULL_SCALE,
    }
}

/// The sample measured from its encoding's midpoint, as a signed 16-bit value.
pub fn center(s: IntSample) -> (r: i16)
    ensures
        r == centered(s),
{
    match s {
        IntSample::I16(v) => v,
        IntSample::U16(v) => (v as i32 - FULL_SCALE) as i16,
    }
}

/// Every centered sample lies in `[-FULL_SCALE, FULL_SCALE - 1]`, so its
/// amplitude lies in `[-1, 1)`; the lowest native value reaches the bottom
/// of that range and the highest the top.
pub proof fn lemma_centered_range(s: IntSample)
    ensures
        -FULL_SCALE <= centered(s) <= FULL_SCALE - 1,
        centered(IntSample::I16(i16::MIN)) == -FULL_SCALE,
        centered(IntSample::I16(i16::MAX)) == FULL_SCALE - 1,
        centered(IntSample::U16(u16::MIN)) == -FULL_SCALE,
        centered(IntSample::U16(u16::MAX)) == FULL_SCALE - 1,
{
}

/// The midpoint of either integer encoding is silence.
pub proof fn lemma_centered_midpoint()
    ensures
        centered(IntSample::I16(0)) == 0,
        centered(IntSample::U16(32768)) == 0,
{
}

} // verus!
