//! Two's complement arithmetic on register values: wrapping, sign
//! extension and the signed reading of a value.

use vstd::prelude::*;

verus! {

/// Two to the power 64, the number of values of a register.
pub open spec fn spec_limit64() -> int {
    0x1_0000_0000_0000_0000
}

/// The register value that stands for `value`: `value` modulo 2^64.
pub open spec fn spec_wrap64(value: int) -> u64 {
    (value % spec_limit64()) as u64
}

/// The 32-bit value that stands for `value`: `value` modulo 2^32.
pub open spec fn spec_wrap32(value: int) -> u32 {
    (value % 0x1_0000_0000) as u32
}

/// The number that `value`, which is below `limit`, stands for in two's
/// complement, `limit` being two to the power of the width in bits.
pub open spec fn spec_signed(value: int, limit: int) -> int {
    if 2 * value >= limit {
        value - limit
    } else {
        value
    }
}

/// The register value that `value`, which is below `limit`, sign-extends
/// to: the number it stands for in two's complement, as a register holds
/// it.
pub open spec fn spec_sign_extend64(value: int, limit: int) -> u64 {
    spec_wrap64(spec_signed(value, limit))
}

/// The register value of a sign-extended immediate.
pub fn imm64(imm: i32) -> (value: u64)
    ensures
        value == spec_wrap64(imm as int),
{
    let value = imm as i64 as u64;
    assert(value == (if imm < 0 {
        0x1_0000_0000_0000_0000 + imm
    } else {
        imm as int
    })) by (bit_vector)
        requires
            value == imm as i64 as u64,
    ;
    value
}

/// The 32 bits that hold an immediate.
pub fn imm_bits(imm: i32) -> (bits: u32)
    ensures
        bits == spec_wrap32(imm as int),
{
    let bits = imm as u32;
    assert(bits == (if imm < 0 {
        0x1_0000_0000 + imm
    } else {
        imm as int
    })) by (bit_vector)
        requires
            bits == imm as u32,
    ;
    bits
}

/// Sign-extends a byte to a register value.
pub fn sext8(value: u8) -> (extended: u64)
    ensures
        extended == spec_sign_extend64(value as int, 0x100),
{
    let extended = value as i8 as i64 as u64;
    assert(extended == (if value >= 0x80 {
        value + 0xffff_ffff_ffff_ff00
    } else {
        value as int
    })) by (bit_vector)
        requires
            extended == value as i8 as i64 as u64,
    ;
    extended
}

/// Sign-extends a halfword to a register value.
pub fn sext16(value: u16) -> (extended: u64)
    ensures
        extended == spec_sign_extend64(value as int, 0x1_0000),
{
    let extended = value as i16 as i64 as u64;
    assert(extended == (if value >= 0x8000 {
        value + 0xffff_ffff_ffff_0000
    } else {
        value as int
    })) by (bit_vector)
        requires
            extended == value as i16 as i64 as u64,
    ;
    extended
}

/// Sign-extends a word to a register value.
pub fn sext32(value: u32) -> (extended: u64)
    ensures
        extended == spec_sign_extend64(value as int, 0x1_0000_0000),
{
    let extended = value as i32 as i64 as u64;
    assert(extended == (if value >= 0x8000_0000 {
        value + 0xffff_ffff_0000_0000
    } else {
        value as int
    })) by (bit_vector)
        requires
            extended == value as i32 as i64 as u64,
    ;
    extended
}

/// The signed number that a register value stands for.
pub fn signed64(value: u64) -> (number: i64)
    ensures
        number == spec_signed(value as int, spec_limit64()),
{
    let number = value as i64;
    assert(number == (if value >= 0x8000_0000_0000_0000 {
        value - 0x1_0000_0000_0000_0000
    } else {
        value as int
    })) by (bit_vector)
        requires
            number == value as i64,
    ;
    number
}

} // verus!
