//! The decoded instruction record and the decoder that fills it.

use crate::bitfield::{field, sign_extend, spec_field, spec_sign_extend};
use vstd::arithmetic::power2::lemma2_to64;
use vstd::prelude::*;

verus! {

/// The encoding format of an instruction, which decides the fields it has.
#[derive(Debug, PartialEq, Eq, Clone, Copy, Structural)]
pub enum InsnType {
    Invalid,
    R,
    I,
    S,
    B,
    U,
    J,
}

/// A decoded instruction.
///
/// A field that the format does not have is zero. `imm` is sign-extended to
/// 32 bits; `name` is a mnemonic for diagnostics, set when the instruction
/// is handled.
#[derive(Debug, Clone, Copy)]
pub struct Insn {
    pub name: &'static str,
    pub opcode: u32,
    pub rd: u32,
    pub rs1: u32,
    pub rs2: u32,
    pub imm: i32,
    pub func3: u32,
    pub func7: u32,
    pub insn_type: InsnType,
}

// The opcodes that have a format, by their seven bits.
pub const OPCODE_LOAD: u32 = 0b000_0011;

pub const OPCODE_MISCMEM: u32 = 0b000_1111;

pub const OPCODE_INT_REG_IMM: u32 = 0b001_0011;

pub const OPCODE_AUIPC: u32 = 0b001_0111;

pub const OPCODE_INT_REG_IMM_32: u32 = 0b001_1011;

pub const OPCODE_STORE: u32 = 0b010_0011;

pub const OPCODE_ATOMIC: u32 = 0b010_1111;

pub const OPCODE_INT_REG_REG: u32 = 0b011_0011;

pub const OPCODE_LUI: u32 = 0b011_0111;

pub const OPCODE_INT_REG_REG_32: u32 = 0b011_1011;

pub const OPCODE_BRANCH: u32 = 0b110_0011;

pub const OPCODE_JALR: u32 = 0b110_0111;

pub const OPCODE_JAL: u32 = 0b110_1111;

pub const OPCODE_SYSTEM: u32 = 0b111_0011;

/// The format that an opcode is encoded in; `func3` tells the two forms of
/// the 32-bit immediate operations apart.
pub open spec fn spec_insn_type(opcode: u32, func3: u32) -> InsnType {
    if opcode == OPCODE_LUI || opcode == OPCODE_AUIPC {
        InsnType::U
    } else if opcode == OPCODE_JAL {
        InsnType::J
    } else if opcode == OPCODE_JALR || opcode == OPCODE_INT_REG_IMM || opcode == OPCODE_LOAD
        || opcode == OPCODE_SYSTEM || opcode == OPCODE_MISCMEM {
        InsnType::I
    } else if opcode == OPCODE_INT_REG_IMM_32 {
        if func3 == 0 {
            InsnType::I
        } else {
            InsnType::R
        }
    } else if opcode == OPCODE_INT_REG_REG || opcode == OPCODE_ATOMIC || opcode
        == OPCODE_INT_REG_REG_32 {
        InsnType::R
    } else if opcode == OPCODE_STORE {
        InsnType::S
    } else if opcode == OPCODE_BRANCH {
        InsnType::B
    } else {
        InsnType::Invalid
    }
}

/// The I-type immediate: bits 31..20, sign-extended.
pub open spec fn spec_imm_i(input: u32) -> int {
    spec_sign_extend(spec_field(input, 31, 20) as u32, 11)
}

/// The S-type immediate: bits 31..25 above bits 11..7, sign-extended.
pub open spec fn spec_imm_s(input: u32) -> int {
    spec_sign_extend((spec_field(input, 31, 25) * 32 + spec_field(input, 11, 7)) as u32, 11)
}

/// The B-type immediate: bit 31, bit 7, bits 30..25, bits 11..8 and a zero,
/// from the top down, sign-extended from bit 12.
pub open spec fn spec_imm_b(input: u32) -> int {
    spec_sign_extend(
        (spec_field(input, 31, 31) * 0x1000 + spec_field(input, 7, 7) * 0x800 + spec_field(
            input,
            30,
            25,
        ) * 0x20 + spec_field(input, 11, 8) * 2) as u32,
        12,
    )
}

/// The U-type immediate: bits 31..12 in place, the low twelve bits zero.
pub open spec fn spec_imm_u(input: u32) -> int {
    spec_sign_extend((spec_field(input, 31, 12) * 0x1000) as u32, 31)
}

/// The J-type immediate: bit 31, bits 19..12, bit 20, bits 30..21 and a
/// zero, from the top down, sign-extended from bit 20.
pub open spec fn spec_imm_j(input: u32) -> int {
    spec_sign_extend(
        (spec_field(input, 31, 31) * 0x10_0000 + spec_field(input, 19, 12) * 0x1000 + spec_field(
            input,
            20,
            20,
        ) * 0x800 + spec_field(input, 30, 21) * 2) as u32,
        20,
    )
}

/// The record that the instruction word `input` decodes to.
pub open spec fn spec_decode(input: u32) -> Insn {
    let opcode = spec_field(input, 6, 0) as u32;
    let rd = spec_field(input, 11, 7) as u32;
    let func3 = spec_field(input, 14, 12) as u32;
    let rs1 = spec_field(input, 19, 15) as u32;
    let rs2 = spec_field(input, 24, 20) as u32;
    let func7 = spec_field(input, 31, 25) as u32;
    let insn_type = spec_insn_type(opcode, func3);
    let blank = Insn {
        name: "tba",
        opcode,
        rd: 0,
        rs1: 0,
        rs2: 0,
        imm: 0,
        func3: 0,
        func7: 0,
        insn_type,
    };
    match insn_type {
        InsnType::U => Insn { rd, imm: spec_imm_u(input) as i32, ..blank },
        InsnType::I => Insn { rd, rs1, func3, imm: spec_imm_i(input) as i32, ..blank },
        InsnType::R => Insn { rd, rs1, rs2, func3, func7, ..blank },
        InsnType::S => Insn { rs1, rs2, func3, imm: spec_imm_s(input) as i32, ..blank },
        InsnType::B => Insn { rs1, rs2, func3, imm: spec_imm_b(input) as i32, ..blank },
        InsnType::J => Insn { rd, imm: spec_imm_j(input) as i32, ..blank },
        InsnType::Invalid => blank,
    }
}

impl Insn {
    /// Every field is within the width that the encoding gives it.
    pub open spec fn wf(self) -> bool {
        &&& self.opcode < 128
        &&& self.rd < 32
        &&& self.rs1 < 32
        &&& self.rs2 < 32
        &&& self.func3 < 8
        &&& self.func7 < 128
    }

    /// The format of an opcode.
    pub fn type_of(opcode: u32, func3: u32) -> (t: InsnType)
        ensures
            t == spec_insn_type(opcode, func3),
    {
        match opcode {
            OPCODE_LUI | OPCODE_AUIPC => InsnType::U,
            OPCODE_JAL => InsnType::J,
            OPCODE_JALR | OPCODE_INT_REG_IMM | OPCODE_LOAD | OPCODE_SYSTEM | OPCODE_MISCMEM => {
                InsnType::I
            },
            OPCODE_INT_REG_IMM_32 => {
                if func3 == 0 {
                    InsnType::I
                } else {
                    InsnType::R
                }
            },
            OPCODE_INT_REG_REG | OPCODE_ATOMIC | OPCODE_INT_REG_REG_32 => InsnType::R,
            OPCODE_STORE => InsnType::S,
            OPCODE_BRANCH => InsnType::B,
            _ => InsnType::Invalid,
        }
    }

    /// Decodes the instruction word `input` into this record, replacing
    /// every field but the name.
    pub fn parse(&mut self, input: u32)
        ensures
            *final(self) == (Insn { name: old(self).name, ..spec_decode(input) }),
            final(self).wf(),
    {
        proof {
            lemma2_to64();
        }
        self.opcode = field(input, 6, 0);
        self.rd = 0;
        self.rs1 = 0;
        self.rs2 = 0;
        self.imm = 0;
        self.func3 = 0;
        self.func7 = 0;
        self.insn_type = Self::type_of(self.opcode, field(input, 14, 12));

        match self.insn_type {
            InsnType::U => {
                self.rd = field(input, 11, 7);
                let upper = field(input, 31, 12);
                let raw = upper << 12;
                assert(raw == upper * 0x1000) by (bit_vector)
                    requires
                        raw == upper << 12,
                        upper < 0x10_0000,
                ;
                self.imm = sign_extend(raw, 31);
            },
            InsnType::I => {
                self.imm = sign_extend(field(input, 31, 20), 11);
                self.rd = field(input, 11, 7);
                self.rs1 = field(input, 19, 15);
                self.func3 = field(input, 14, 12);
            },
            InsnType::R => {
                self.rd = field(input, 11, 7);
                self.rs1 = field(input, 19, 15);
                self.rs2 = field(input, 24, 20);
                self.func3 = field(input, 14, 12);
                self.func7 = field(input, 31, 25);
            },
            InsnType::S => {
                self.rs1 = field(input, 19, 15);
                self.rs2 = field(input, 24, 20);
                self.func3 = field(input, 14, 12);
                let imm4_0 = field(input, 11, 7);
                let imm11_5 = field(input, 31, 25);
                let raw = (imm11_5 << 5) | imm4_0;
                assert(raw == imm11_5 * 32 + imm4_0) by (bit_vector)
                    requires
                        raw == (imm11_5 << 5) | imm4_0,
                        imm11_5 < 128,
                        imm4_0 < 32,
                ;
                self.imm = sign_extend(raw, 11);
            },
            InsnType::B => {
                self.rs1 = field(input, 19, 15);
                self.rs2 = field(input, 24, 20);
                self.func3 = field(input, 14, 12);
                let imm_4_1 = field(input, 11, 8);
                let imm_10_5 = field(input, 30, 25);
                let imm_11 = field(input, 7, 7);
                let imm_12 = field(input, 31, 31);
                let raw = (imm_4_1 << 1) | (imm_10_5 << 5) | (imm_11 << 11) | (imm_12 << 12);
                assert(raw == imm_12 * 0x1000 + imm_11 * 0x800 + imm_10_5 * 0x20 + imm_4_1 * 2)
                    by (bit_vector)
                    requires
                        raw == (imm_4_1 << 1) | (imm_10_5 << 5) | (imm_11 << 11) | (imm_12 << 12),
                        imm_4_1 < 16,
                        imm_10_5 < 64,
                        imm_11 < 2,
                        imm_12 < 2,
                ;
                self.imm = sign_extend(raw, 12);
            },
            InsnType::J => {
                self.rd = field(input, 11, 7);
                let imm_10_1 = field(input, 30, 21);
                let imm_11 = field(input, 20, 20);
                let imm_19_12 = field(input, 19, 12);
                let imm_20 = field(input, 31, 31);
                let raw = (imm_10_1 << 1) | (imm_11 << 11) | (imm_19_12 << 12) | (imm_20 << 20);
                assert(raw == imm_20 * 0x10_0000 + imm_19_12 * 0x1000 + imm_11 * 0x800 + imm_10_1
                    * 2) by (bit_vector)
                    requires
                        raw == (imm_10_1 << 1) | (imm_11 << 11) | (imm_19_12 << 12) | (imm_20
                            << 20),
                        imm_10_1 < 1024,
                        imm_11 < 2,
                        imm_19_12 < 256,
                        imm_20 < 2,
                ;
                self.imm = sign_extend(raw, 20);
            },
            InsnType::Invalid => {},
        }
    }
}

impl Default for Insn {
    fn default() -> (insn: Insn)
        ensures
            insn == (Insn {
                name: "tba",
                opcode: 0,
                rd: 0,
                rs1: 0,
                rs2: 0,
                imm: 0,
                func3: 0,
                func7: 0,
                insn_type: InsnType::Invalid,
            }),
    {
        Insn {
            name: "tba",
            opcode: 0,
            rd: 0,
            rs1: 0,
            rs2: 0,
            imm: 0,
            func3: 0,
            func7: 0,
            insn_type: InsnType::Invalid,
        }
    }
}

impl From<u32> for Insn {
    /// Decodes an instruction word.
    fn from(input: u32) -> (insn: Insn)
        ensures
            insn == spec_decode(input),
            insn.wf(),
    {
        let mut insn = Insn::default();
        insn.parse(input);
        insn
    }
}

impl vstd::std_specs::convert::FromSpecImpl<u32> for Insn {
    open spec fn obeys_from_spec() -> bool {
        true
    }

    open spec fn from_spec(input: u32) -> Insn {
        spec_decode(input)
    }
}

/// Every field of a decoded instruction is within the width that the
/// encoding gives it.
pub proof fn lemma_decode_wf(input: u32)
    ensures
        spec_decode(input).wf(),
{
    lemma2_to64();
}

/// An I-type instruction whose immediate field is all ones decodes to the
/// immediate -1.
pub proof fn lemma_imm_i_all_ones(input: u32)
    requires
        spec_decode(input).insn_type == InsnType::I,
        spec_field(input, 31, 20) == 0xfff,
    ensures
        spec_decode(input).imm == -1,
{
    lemma2_to64();
}

/// A B-type instruction with only the top bit of its immediate set decodes
/// to the immediate -4096.
pub proof fn lemma_imm_b_top_bit(input: u32)
    requires
        spec_decode(input).insn_type == InsnType::B,
        spec_field(input, 31, 31) == 1,
        spec_field(input, 7, 7) == 0,
        spec_field(input, 30, 25) == 0,
        spec_field(input, 11, 8) == 0,
    ensures
        spec_decode(input).imm == -4096,
{
    lemma2_to64();
    assert(spec_sign_extend(0x1000, 12) == -4096);
}

} // verus!
