//! Sample formats and their native codes.

use libc::c_int;
use vstd::prelude::*;

verus! {

/// Native code: no format.
pub const SAMPLE_FMT_NONE: c_int = -1;
/// Native code: unsigned 8 bits, interleaved.
pub const SAMPLE_FMT_U8: c_int = 0;
/// Native code: signed 16 bits, interleaved.
pub const SAMPLE_FMT_S16: c_int = 1;
/// Native code: signed 32 bits, interleaved.
pub const SAMPLE_FMT_S32: c_int = 2;
/// Native code: 32-bit float, interleaved.
pub const SAMPLE_FMT_FLT: c_int = 3;
/// Native code: 64-bit float, interleaved.
pub const SAMPLE_FMT_DBL: c_int = 4;
/// Native code: unsigned 8 bits, one plane per channel.
pub const SAMPLE_FMT_U8P: c_int = 5;
/// Native code: signed 16 bits, one plane per channel.
pub const SAMPLE_FMT_S16P: c_int = 6;
/// Native code: signed 32 bits, one plane per channel.
pub const SAMPLE_FMT_S32P: c_int = 7;
/// Native code: 32-bit float, one plane per channel.
pub const SAMPLE_FMT_FLTP: c_int = 8;
/// Native code: 64-bit float, one plane per channel.
pub const SAMPLE_FMT_DBLP: c_int = 9;
/// Native code: signed 64 bits, interleaved.
pub const SAMPLE_FMT_S64: c_int = 10;
/// Native code: signed 64 bits, one plane per channel.
pub const SAMPLE_FMT_S64P: c_int = 11;
/// Native code: the number of formats, itself no format.
pub const SAMPLE_FMT_NB: c_int = 12;

/// How the samples of several channels are laid out in memory.
#[derive(Clone, Copy, Debug, PartialEq, Eq, Structural)]
pub enum Type {
    /// The channels are interleaved in one buffer.
    Packed,
    /// Each channel has a buffer of its own.
    Planar,
}

/// A sample format.
#[derive(Clone, Copy, Debug, PartialEq, Eq, Structural)]
pub enum Sample {
    /// No format has been chosen.
    Unset,
    U8(Type),
    I16(Type),
    I32(Type),
    I64(Type),
    F32(Type),
    F64(Type),
}

/// The native code that stands for a sample format.
pub open spec fn code_of(s: Sample) -> int {
    match s {
        Sample::Unset => -1,
        Sample::U8(Type::Packed) => 0,
        Sample::I16(Type::Packed) => 1,
        Sample::I32(Type::Packed) => 2,
        Sample::F32(Type::Packed) => 3,
        Sample::F64(Type::Packed) => 4,
        Sample::U8(Type::Planar) => 5,
        Sample::I16(Type::Planar) => 6,
        Sample::I32(Type::Planar) => 7,
        Sample::F32(Type::Planar) => 8,
        Sample::F64(Type::Planar) => 9,
        Sample::I64(Type::Packed) => 10,
        Sample::I64(Type::Planar) => 11,
    }
}

/// The sample format that a native code stands for. The counting code and
/// every code outside the enumeration read as `Sample::Unset`.
pub open spec fn sample_of(code: int) -> Sample {
    if code == 0 {
        Sample::U8(Type::Packed)
    } else if code == 1 {
        Sample::I16(Type::Packed)
    } else if code == 2 {
        Sample::I32(Type::Packed)
    } else if code == 3 {
        Sample::F32(Type::Packed)
    } else if code == 4 {
        Sample::F64(Type::Packed)
    } else if code == 5 {
        Sample::U8(Type::Planar)
    } else if code == 6 {
        Sample::I16(Type::Planar)
    } else if code == 7 {
        Sample::I32(Type::Planar)
    } else if code == 8 {
        Sample::F32(Type::Planar)
    } else if code == 9 {
        Sample::F64(Type::Planar)
    } else if code == 10 {
        Sample::I64(Type::Packed)
    } else if code == 11 {
        Sample::I64(Type::Planar)
    } else {
        Sample::Unset
    }
}

impl Sample {
    /// Translates a native code into a sample format.
    pub fn from_code(code: c_int) -> (r: Sample)
        ensures
            r == sample_of(code as int),
    {
        match code {
            0 => Sample::U8(Type::Packed),
            1 => Sample::I16(Type::Packed),
            2 => Sample::I32(Type::Packed),
            3 => Sample::F32(Type::Packed),
            4 => Sample::F64(Type::Packed),
            5 => Sample::U8(Type::Planar),
            6 => Sample::I16(Type::Planar),
            7 => Sample::I32(Type::Planar),
            8 => Sample::F32(Type::Planar),
            9 => Sample::F64(Type::Planar),
            10 => Sample::I64(Type::Packed),
            11 => Sample::I64(Type::Planar),
            _ => Sample::Unset,
        }
    }

    /// Translates a sample format into its native code.
    pub fn code(self) -> (r: c_int)
        ensures
            r as int == code_of(self),
    {
        match self {
            Sample::Unset => SAMPLE_FMT_NONE,
            Sample::U8(Type::Packed) => SAMPLE_FMT_U8,
            Sample::I16(Type::Packed) => SAMPLE_FMT_S16,
            Sample::I32(Type::Packed) => SAMPLE_FMT_S32,
            Sample::F32(Type::Packed) => SAMPLE_FMT_FLT,
            Sample::F64(Type::Packed) => SAMPLE_FMT_DBL,
            Sample::U8(Type::Planar) => SAMPLE_FMT_U8P,
            Sample::I16(Type::Planar) => SAMPLE_FMT_S16P,
            Sample::I32(Type::Planar) => SAMPLE_FMT_S32P,
            Sample::F32(Type::Planar) => SAMPLE_FMT_FLTP,
            Sample::F64(Type::Planar) => SAMPLE_FMT_DBLP,
            Sample::I64(Type::Packed) => SAMPLE_FMT_S64,
            Sample::I64(Type::Planar) => SAMPLE_FMT_S64P,
        }
    }

    /// Whether the format keeps one plane per channel.
    pub open spec fn planar(self) -> bool {
        match self {
            Sample::Unset => false,
            Sample::U8(t) | Sample::I16(t) | Sample::I32(t) | Sample::I64(t) | Sample::F32(t)
            | Sample::F64(t) => t == Type::Planar,
        }
    }

    /// Tells whether the format keeps one plane per channel.
    pub fn is_planar(self) -> (r: bool)
        ensures
            r == self.planar(),
    {
        match self {
            Sample::Unset => false,
            Sample::U8(t) | Sample::I16(t) | Sample::I32(t) | Sample::I64(t) | Sample::F32(t)
            | Sample::F64(t) => matches!(t, Type::Planar),
        }
    }
}

/// Every sample format is read back from its own code, and the code of a
/// format lies in the enumeration.
pub proof fn lemma_sample_code_round_trip(s: Sample)
    ensures
        sample_of(code_of(s)) == s,
        -1 <= code_of(s) <= 11,
{
}

/// Every code of the enumeration is the code of the format it reads as.
pub proof fn lemma_code_sample_round_trip(code: int)
    requires
        -1 <= code <= 11,
    ensures
        code_of(sample_of(code)) == code,
{
}

} // verus!
