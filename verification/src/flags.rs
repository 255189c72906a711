//! The processor status register P, bit by bit.
//!
//! P packs eight flags into one byte: bit 0 = C (carry), bit 1 = Z (zero),
//! bit 2 = I (interrupt disable), bit 3 = D (decimal), bit 4 = B (break),
//! bit 5 = U (unused, reads as 1), bit 6 = V (overflow), bit 7 = N (negative).
//! Everything here is stated and computed arithmetically (division and
//! remainder by powers of two), so contracts about single bits stay in plain
//! linear arithmetic.

use vstd::prelude::*;

verus! {

pub const FLAG_C: u8 = 1;
pub const FLAG_Z: u8 = 2;
pub const FLAG_I: u8 = 4;
pub const FLAG_D: u8 = 8;
pub const FLAG_B: u8 = 16;
pub const FLAG_U: u8 = 32;
pub const FLAG_O: u8 = 64;
pub const FLAG_N: u8 = 128;

pub open spec fn spec_flag_c(p: u8) -> bool {
    p % 2 == 1
}

pub open spec fn spec_flag_z(p: u8) -> bool {
    (p / 2) % 2 == 1
}

pub open spec fn spec_flag_i(p: u8) -> bool {
    (p / 4) % 2 == 1
}

pub open spec fn spec_flag_d(p: u8) -> bool {
    (p / 8) % 2 == 1
}

pub open spec fn spec_flag_b(p: u8) -> bool {
    (p / 16) % 2 == 1
}

pub open spec fn spec_flag_u(p: u8) -> bool {
    (p / 32) % 2 == 1
}

pub open spec fn spec_flag_v(p: u8) -> bool {
    (p / 64) % 2 == 1
}

pub open spec fn spec_flag_n(p: u8) -> bool {
    p / 128 == 1
}

/// The status byte with the given value of each flag.
pub open spec fn spec_flags_byte(
    c: bool,
    z: bool,
    i: bool,
    d: bool,
    b: bool,
    u: bool,
    v: bool,
    n: bool,
) -> u8 {
    ((if c {
        1int
    } else {
        0int
    }) + (if z {
        2int
    } else {
        0int
    }) + (if i {
        4int
    } else {
        0int
    }) + (if d {
        8int
    } else {
        0int
    }) + (if b {
        16int
    } else {
        0int
    }) + (if u {
        32int
    } else {
        0int
    }) + (if v {
        64int
    } else {
        0int
    }) + (if n {
        128int
    } else {
        0int
    })) as u8
}

pub fn flag_c(p: u8) -> (r: bool)
    ensures
        r == spec_flag_c(p),
{
    p % 2 == 1
}

pub fn flag_z(p: u8) -> (r: bool)
    ensures
        r == spec_flag_z(p),
{
    (p / 2) % 2 == 1
}

pub fn flag_i(p: u8) -> (r: bool)
    ensures
        r == spec_flag_i(p),
{
    (p / 4) % 2 == 1
}

pub fn flag_d(p: u8) -> (r: bool)
    ensures
        r == spec_flag_d(p),
{
    (p / 8) % 2 == 1
}

pub fn flag_b(p: u8) -> (r: bool)
    ensures
        r == spec_flag_b(p),
{
    (p / 16) % 2 == 1
}

pub fn flag_u(p: u8) -> (r: bool)
    ensures
        r == spec_flag_u(p),
{
    (p / 32) % 2 == 1
}

pub fn flag_v(p: u8) -> (r: bool)
    ensures
        r == spec_flag_v(p),
{
    (p / 64) % 2 == 1
}

pub fn flag_n(p: u8) -> (r: bool)
    ensures
        r == spec_flag_n(p),
{
    p / 128 == 1
}

/// Rebuild the status byte from its eight flags.
pub fn flags_byte(c: bool, z: bool, i: bool, d: bool, b: bool, u: bool, v: bool, n: bool) -> (r:
    u8)
    ensures
        r == spec_flags_byte(c, z, i, d, b, u, v, n),
{
    (if c {
        1u8
    } else {
        0u8
    }) + (if z {
        2u8
    } else {
        0u8
    }) + (if i {
        4u8
    } else {
        0u8
    }) + (if d {
        8u8
    } else {
        0u8
    }) + (if b {
        16u8
    } else {
        0u8
    }) + (if u {
        32u8
    } else {
        0u8
    }) + (if v {
        64u8
    } else {
        0u8
    }) + (if n {
        128u8
    } else {
        0u8
    })
}

/// A status byte is exactly the sum of its eight flags: rebuilding a byte
/// from its own bits gives the byte back.
pub proof fn lemma_flags_decompose(p: u8)
    ensures
        p == spec_flags_byte(
            spec_flag_c(p),
            spec_flag_z(p),
            spec_flag_i(p),
            spec_flag_d(p),
            spec_flag_b(p),
            spec_flag_u(p),
            spec_flag_v(p),
            spec_flag_n(p),
        ),
{
    assert(p % 2 + 2 * ((p / 2) % 2) + 4 * ((p / 4) % 2) + 8 * ((p / 8) % 2) + 16 * ((p / 16) % 2)
        + 32 * ((p / 32) % 2) + 64 * ((p / 64) % 2) + 128 * (p / 128) == p) by (bit_vector);
}

} // verus!
