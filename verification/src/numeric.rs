//! Conversions from the native struct's signed fields to the unsigned types
//! the facade hands out. Each keeps the low bits of the two's-complement
//! representation, so a non-negative value that fits is returned unchanged.

use libc::c_int;
use vstd::prelude::*;

verus! {

/// The representative of `x` in `0 .. 2^16`.
pub open spec fn wrap_u16(x: int) -> int {
    x % 0x1_0000
}

/// The representative of `x` in `0 .. 2^32`.
pub open spec fn wrap_u32(x: int) -> int {
    x % 0x1_0000_0000
}

/// The representative of `x` in `0 ..= usize::MAX`.
pub open spec fn wrap_usize(x: int) -> int {
    x % (usize::MAX as int + 1)
}

/// Narrows a native `int` to 16 unsigned bits.
pub fn int_to_u16(x: c_int) -> (r: u16)
    ensures
        r as int == wrap_u16(x as int),
        0 <= x <= u16::MAX ==> r as int == x as int,
{
    let shifted: i64 = x as i64 + 0x1_0000_0000i64;
    let low: i64 = shifted % 0x1_0000i64;
    low as u16
}

/// Reinterprets a native `int` as 32 unsigned bits.
pub fn int_to_u32(x: c_int) -> (r: u32)
    ensures
        r as int == wrap_u32(x as int),
        0 <= x ==> r as int == x as int,
{
    if x >= 0 {
        x as u32
    } else {
        let shifted: i64 = x as i64 + 0x1_0000_0000i64;
        shifted as u32
    }
}

/// Converts a native 64-bit signed value to `usize`, keeping the low bits
/// that fit the platform's word.
pub fn i64_to_usize(x: i64) -> (r: usize)
    ensures
        r as int == wrap_usize(x as int),
        0 <= x <= usize::MAX ==> r as int == x as int,
{
    let modulus: u128 = usize::MAX as u128 + 1;
    let lifted: u128 = if x >= 0 {
        x as u128
    } else {
        (x as i128 + 0x1_0000_0000_0000_0000i128) as u128
    };
    proof {
        let m: int = modulus as int;
        assert(m == 0x1_0000_0000 || m == 0x1_0000_0000_0000_0000);
        if x < 0 {
            if m == 0x1_0000_0000 {
                vstd::arithmetic::div_mod::lemma_mod_multiples_vanish(0x1_0000_0000, x as int, m);
            } else {
                vstd::arithmetic::div_mod::lemma_mod_multiples_vanish(1, x as int, m);
            }
        }
        if 0 <= x <= usize::MAX {
            vstd::arithmetic::div_mod::lemma_small_mod(x as nat, m as nat);
        }
    }
    let low: u128 = lifted % modulus;
    low as usize
}

/// Converts a native `int` to `usize`, sign-extending first.
pub fn int_to_usize(x: c_int) -> (r: usize)
    ensures
        r as int == wrap_usize(x as int),
        0 <= x ==> r as int == x as int,
{
    i64_to_usize(x as i64)
}

} // verus!
