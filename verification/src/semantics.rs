//! What each instruction does to the machine, as functions from the
//! decoded instruction and the state before it to the state after it.
//!
//! An instruction either completes or traps. These functions leave the
//! program counter alone unless the instruction is a jump or a branch;
//! `spec_handle` adds the step to the next instruction.

use crate::arith::{spec_limit64, spec_sign_extend64, spec_signed, spec_wrap32, spec_wrap64};
use crate::bus::{ErrorKind, ErrorView};
use crate::hart::HartState;
use crate::insn::{
    spec_decode, Insn, OPCODE_ATOMIC, OPCODE_AUIPC, OPCODE_BRANCH, OPCODE_INT_REG_IMM,
    OPCODE_INT_REG_IMM_32, OPCODE_INT_REG_REG, OPCODE_JAL, OPCODE_JALR, OPCODE_LOAD, OPCODE_LUI,
    OPCODE_MISCMEM, OPCODE_STORE, OPCODE_SYSTEM,
};
use crate::lebytes::LeBytes;
use crate::platform::{spec_check, PlatformState};
use vstd::prelude::*;

verus! {

// The function codes under each opcode.
pub const FUNC3_ADDI: u32 = 0b000;

pub const FUNC3_SLLI: u32 = 0b001;

pub const FUNC3_SLTI: u32 = 0b010;

pub const FUNC3_SLTIU: u32 = 0b011;

pub const FUNC3_XORI: u32 = 0b100;

pub const FUNC3_SRLI: u32 = 0b101;

pub const FUNC3_ORI: u32 = 0b110;

pub const FUNC3_ANDI: u32 = 0b111;

pub const FUNC3_ADD: u32 = 0b000;

pub const FUNC3_SLL: u32 = 0b001;

pub const FUNC3_SLT: u32 = 0b010;

pub const FUNC3_SLTU: u32 = 0b011;

pub const FUNC3_XOR: u32 = 0b100;

pub const FUNC3_SRL: u32 = 0b101;

pub const FUNC3_OR: u32 = 0b110;

pub const FUNC3_AND: u32 = 0b111;

pub const FUNC3_ADDIW: u32 = 0b000;

pub const FUNC3_SLLIW: u32 = 0b001;

pub const FUNC3_SRLIW: u32 = 0b101;

pub const FUNC3_SB: u32 = 0b000;

pub const FUNC3_SH: u32 = 0b001;

pub const FUNC3_SW: u32 = 0b010;

pub const FUNC3_SD: u32 = 0b011;

pub const FUNC3_LB: u32 = 0b000;

pub const FUNC3_LH: u32 = 0b001;

pub const FUNC3_LW: u32 = 0b010;

pub const FUNC3_LD: u32 = 0b011;

pub const FUNC3_LBU: u32 = 0b100;

pub const FUNC3_LHU: u32 = 0b101;

pub const FUNC3_LWU: u32 = 0b110;

pub const FUNC3_CSRRW: u32 = 0b001;

pub const FUNC3_CSRRS: u32 = 0b010;

pub const FUNC3_CSRRC: u32 = 0b011;

pub const FUNC3_CSRRWI: u32 = 0b101;

pub const FUNC3_CSRRSI: u32 = 0b110;

pub const FUNC3_CSRRCI: u32 = 0b111;

pub const FUNC3_BEQ: u32 = 0b000;

pub const FUNC3_BNE: u32 = 0b001;

pub const FUNC3_BLT: u32 = 0b100;

pub const FUNC3_BGE: u32 = 0b101;

pub const FUNC3_BLTU: u32 = 0b110;

pub const FUNC3_BGEU: u32 = 0b111;

pub const FUNC3_RV32_ATOMIC: u32 = 0b010;

pub const FUNC3_RV64_ATOMIC: u32 = 0b011;

/// The bit of `func7` that turns an addition into a subtraction and a
/// logical right shift into an arithmetic one: bit 30 of the instruction.
pub const FUNC7_ALTERNATE: u32 = 0b010_0000;

// The operations of the atomic instructions: `func7` with its two
// ordering bits clear.
pub const FUNC7_LR: u32 = 0b000_1000;

pub const FUNC7_SC: u32 = 0b000_1100;

pub const FUNC7_AMOSWAP: u32 = 0b000_0100;

pub const FUNC7_AMOADD: u32 = 0b000_0000;

pub const FUNC7_AMOXOR: u32 = 0b001_0000;

pub const FUNC7_AMOAND: u32 = 0b011_0000;

pub const FUNC7_AMOOR: u32 = 0b010_0000;

/// Why an instruction did not complete.
#[derive(Debug, PartialEq, Eq, Clone, Copy, Structural)]
pub enum Trap {
    /// The instruction at `pc` has an opcode, or a function code under its
    /// opcode, that has no handler.
    Unimplemented { pc: u64 },
    /// The instruction at `pc` made an access at `address` that the bus
    /// refused with an error of kind `kind`.
    Bus { pc: u64, address: usize, kind: ErrorKind },
}

/// How an instruction ended, and the machine after it.
#[verifier::ext_equal]
pub struct Outcome {
    pub result: Result<(), Trap>,
    pub state: PlatformState,
}

/// The instruction completed and left `state`.
pub open spec fn spec_done(state: PlatformState) -> Outcome {
    Outcome { result: Ok(()), state }
}

/// The instruction has no handler: nothing changes.
pub open spec fn spec_unimplemented(state: PlatformState) -> Outcome {
    Outcome { result: Err(Trap::Unimplemented { pc: state.hart.pc }), state }
}

/// The machine with `value` written to register `rd`.
pub open spec fn spec_set_register(state: PlatformState, rd: u32, value: u64) -> PlatformState {
    state.with_hart(state.hart.write_register(rd as int, value))
}

/// An instruction that computes a value for its destination register:
/// with a value it completes and writes it, without one it has no handler.
pub open spec fn spec_write_result(insn: Insn, state: PlatformState, value: Option<u64>) -> Outcome {
    match value {
        Some(value) => spec_done(spec_set_register(state, insn.rd, value)),
        None => spec_unimplemented(state),
    }
}

/// The address `base + imm`, as the bus takes it.
pub open spec fn spec_address(base: u64, imm: i32) -> usize {
    spec_wrap64(base + imm) as usize
}

/// Whether bit 30 of the instruction is set in `func7`.
pub open spec fn spec_alternate(func7: u32) -> bool {
    (func7 / FUNC7_ALTERNATE) % 2 == 1
}

/// One for true, zero for false.
pub open spec fn spec_flag(condition: bool) -> u64 {
    if condition {
        1
    } else {
        0
    }
}

/// LUI and AUIPC: the value for the destination register.
pub open spec fn spec_ui_value(insn: Insn, pc: u64) -> Option<u64> {
    if insn.opcode == OPCODE_AUIPC {
        Some(spec_wrap64(pc + insn.imm))
    } else if insn.opcode == OPCODE_LUI {
        Some(spec_wrap64(insn.imm as int))
    } else {
        None
    }
}

/// LUI and AUIPC.
pub open spec fn spec_ui(insn: Insn, state: PlatformState) -> Outcome {
    spec_write_result(insn, state, spec_ui_value(insn, state.hart.pc))
}

/// The address that JAL or JALR jumps to.
pub open spec fn spec_jump_target(insn: Insn, hart: HartState) -> Option<u64> {
    if insn.opcode == OPCODE_JAL {
        Some(spec_wrap64(hart.pc + insn.imm))
    } else if insn.opcode == OPCODE_JALR {
        let sum = spec_wrap64(hart.read_register(insn.rs1 as int) + insn.imm);
        Some((sum - sum % 2) as u64)
    } else {
        None
    }
}

/// JAL and JALR: the destination register gets the address of the next
/// instruction, and the program counter the target.
pub open spec fn spec_jump(insn: Insn, state: PlatformState) -> Outcome {
    match spec_jump_target(insn, state.hart) {
        Some(target) => spec_done(
            state.with_hart(
                state.hart.write_register(insn.rd as int, spec_wrap64(state.hart.pc + 4)).with_pc(
                    target,
                ),
            ),
        ),
        None => spec_unimplemented(state),
    }
}

/// Whether a branch is taken, for each comparison that has a branch.
pub open spec fn spec_branch_taken(func3: u32, src1: u64, src2: u64) -> Option<bool> {
    if func3 == FUNC3_BEQ {
        Some(src1 == src2)
    } else if func3 == FUNC3_BNE {
        Some(src1 != src2)
    } else if func3 == FUNC3_BLT {
        Some(spec_signed(src1 as int, spec_limit64()) < spec_signed(src2 as int, spec_limit64()))
    } else if func3 == FUNC3_BGE {
        Some(spec_signed(src1 as int, spec_limit64()) >= spec_signed(src2 as int, spec_limit64()))
    } else if func3 == FUNC3_BLTU {
        Some(src1 < src2)
    } else if func3 == FUNC3_BGEU {
        Some(src1 >= src2)
    } else {
        None
    }
}

/// A branch: the program counter moves by the immediate if the branch is
/// taken, and to the next instruction if it is not.
pub open spec fn spec_branch(insn: Insn, state: PlatformState) -> Outcome {
    let src1 = state.hart.read_register(insn.rs1 as int);
    let src2 = state.hart.read_register(insn.rs2 as int);
    match spec_branch_taken(insn.func3, src1, src2) {
        Some(taken) => {
            let offset = if taken {
                insn.imm as int
            } else {
                4
            };
            spec_done(state.with_hart(state.hart.with_pc(spec_wrap64(state.hart.pc + offset))))
        },
        None => spec_unimplemented(state),
    }
}

/// The shift amount in an immediate: its low six bits.
pub open spec fn spec_shamt(imm: i32) -> u32 {
    spec_wrap32(imm as int) % 64
}

/// Whether bit 10 of an immediate, bit 30 of the instruction, is set.
pub open spec fn spec_imm_alternate(imm: i32) -> bool {
    (spec_wrap32(imm as int) / 0x400) % 2 == 1
}

/// A 64-bit operation on a register and an immediate: the value for the
/// destination register.
pub open spec fn spec_int_reg_imm_value(insn: Insn, src: u64) -> Option<u64> {
    let imm = spec_wrap64(insn.imm as int);
    let shamt = spec_shamt(insn.imm);
    if insn.func3 == FUNC3_ADDI {
        Some(spec_wrap64(src + insn.imm))
    } else if insn.func3 == FUNC3_SLTI {
        Some(spec_flag(spec_signed(src as int, spec_limit64()) < insn.imm))
    } else if insn.func3 == FUNC3_SLTIU {
        Some(spec_flag(src < imm))
    } else if insn.func3 == FUNC3_XORI {
        Some(src ^ imm)
    } else if insn.func3 == FUNC3_ORI {
        Some(src | imm)
    } else if insn.func3 == FUNC3_ANDI {
        Some(src & imm)
    } else if insn.func3 == FUNC3_SLLI {
        Some(src << shamt)
    } else if insn.func3 == FUNC3_SRLI {
        if spec_imm_alternate(insn.imm) {
            Some(((src as i64) >> shamt) as u64)
        } else {
            Some(src >> shamt)
        }
    } else {
        None
    }
}

/// A 64-bit operation on a register and an immediate.
pub open spec fn spec_int_reg_imm(insn: Insn, state: PlatformState) -> Outcome {
    spec_write_result(
        insn,
        state,
        spec_int_reg_imm_value(insn, state.hart.read_register(insn.rs1 as int)),
    )
}

/// A 32-bit operation on a register and an immediate, its result
/// sign-extended: the value for the destination register. The shifts have
/// their amount in the `rs2` field.
pub open spec fn spec_int_reg_imm32_value(insn: Insn, src: u64) -> Option<u64> {
    let word = (src % 0x1_0000_0000) as u32;
    let shamt = insn.rs2 % 32;
    if insn.func3 == FUNC3_ADDIW {
        Some(spec_sign_extend64((src + insn.imm) % 0x1_0000_0000, 0x1_0000_0000))
    } else if insn.func3 == FUNC3_SLLIW {
        Some(spec_sign_extend64((word << shamt) as int, 0x1_0000_0000))
    } else if insn.func3 == FUNC3_SRLIW {
        if spec_alternate(insn.func7) {
            Some(spec_sign_extend64((((word as i32) >> shamt) as u32) as int, 0x1_0000_0000))
        } else {
            Some(spec_sign_extend64((word >> shamt) as int, 0x1_0000_0000))
        }
    } else {
        None
    }
}

/// A 32-bit operation on a register and an immediate.
pub open spec fn spec_int_reg_imm32(insn: Insn, state: PlatformState) -> Outcome {
    spec_write_result(
        insn,
        state,
        spec_int_reg_imm32_value(insn, state.hart.read_register(insn.rs1 as int)),
    )
}

/// A 64-bit operation on two registers: the value for the destination
/// register.
pub open spec fn spec_int_reg_reg_value(insn: Insn, rs1: u64, rs2: u64) -> Option<u64> {
    let shamt = rs2 % 64;
    if insn.func3 == FUNC3_ADD {
        if spec_alternate(insn.func7) {
            Some(spec_wrap64(rs1 - rs2))
        } else {
            Some(spec_wrap64(rs1 + rs2))
        }
    } else if insn.func3 == FUNC3_SLL {
        Some(rs1 << shamt)
    } else if insn.func3 == FUNC3_SLT {
        Some(
            spec_flag(
                spec_signed(rs1 as int, spec_limit64()) < spec_signed(rs2 as int, spec_limit64()),
            ),
        )
    } else if insn.func3 == FUNC3_SLTU {
        Some(spec_flag(rs1 < rs2))
    } else if insn.func3 == FUNC3_XOR {
        Some(rs1 ^ rs2)
    } else if insn.func3 == FUNC3_SRL {
        if spec_alternate(insn.func7) {
            Some(((rs1 as i64) >> shamt) as u64)
        } else {
            Some(rs1 >> shamt)
        }
    } else if insn.func3 == FUNC3_OR {
        Some(rs1 | rs2)
    } else if insn.func3 == FUNC3_AND {
        Some(rs1 & rs2)
    } else {
        None
    }
}

/// A 64-bit operation on two registers.
pub open spec fn spec_int_reg_reg(insn: Insn, state: PlatformState) -> Outcome {
    spec_write_result(
        insn,
        state,
        spec_int_reg_reg_value(
            insn,
            state.hart.read_register(insn.rs1 as int),
            state.hart.read_register(insn.rs2 as int),
        ),
    )
}

/// The number of bytes that a store writes.
pub open spec fn spec_store_width(func3: u32) -> Option<usize> {
    if func3 == FUNC3_SB {
        Some(1usize)
    } else if func3 == FUNC3_SH {
        Some(2usize)
    } else if func3 == FUNC3_SW {
        Some(4usize)
    } else if func3 == FUNC3_SD {
        Some(8usize)
    } else {
        None
    }
}

/// The number of values that `width` bytes hold, for the widths of loads
/// and stores.
pub open spec fn spec_width_limit(width: usize) -> int {
    if width == 1 {
        0x100
    } else if width == 2 {
        0x1_0000
    } else if width == 4 {
        0x1_0000_0000
    } else {
        spec_limit64()
    }
}

/// What a failed access of the instruction at `pc` ends in: a trap that
/// names the address and the kind of the fault.
pub open spec fn spec_access_result(
    result: Result<nat, ErrorView>,
    pc: u64,
    address: usize,
) -> Result<nat, Trap> {
    match result {
        Ok(number) => Ok(number),
        Err(fault) => Err(Trap::Bus { pc, address, kind: fault.kind }),
    }
}

/// Whether what a read by the instruction at `pc` returned is what
/// `expected` says: the value that stands for the number, or the trap.
pub open spec fn spec_loaded<T: LeBytes<SIZE>, const SIZE: usize>(
    result: Result<T, Trap>,
    expected: Result<nat, Trap>,
) -> bool {
    match expected {
        Ok(number) => result matches Ok(value) && value.spec_value() == number,
        Err(trap) => result == Err::<T, Trap>(trap),
    }
}

/// A store by the hart of the number `value` in `width` bytes at
/// `address`.
pub open spec fn spec_store_at(
    state: PlatformState,
    address: usize,
    value: nat,
    width: usize,
) -> Outcome {
    let access = state.write_from_hart(state.hart.id, address, value, width);
    match spec_access_result(access.result, state.hart.pc, address) {
        Ok(_) => spec_done(access.state),
        Err(trap) => Outcome { result: Err(trap), state: access.state },
    }
}

/// A store: the low bytes of `rs2` go to the address `rs1 + imm`, as a
/// store by this hart.
pub open spec fn spec_store(insn: Insn, state: PlatformState) -> Outcome {
    match spec_store_width(insn.func3) {
        Some(width) => spec_store_at(
            state,
            spec_address(state.hart.read_register(insn.rs1 as int), insn.imm),
            (state.hart.read_register(insn.rs2 as int) as int % spec_width_limit(width)) as nat,
            width,
        ),
        None => spec_unimplemented(state),
    }
}

/// The number of bytes that a load reads.
pub open spec fn spec_load_width(func3: u32) -> Option<usize> {
    if func3 == FUNC3_LB || func3 == FUNC3_LBU {
        Some(1usize)
    } else if func3 == FUNC3_LH || func3 == FUNC3_LHU {
        Some(2usize)
    } else if func3 == FUNC3_LW || func3 == FUNC3_LWU {
        Some(4usize)
    } else if func3 == FUNC3_LD {
        Some(8usize)
    } else {
        None
    }
}

/// The register value that a loaded number becomes: LB, LH and LW
/// sign-extend it, the others do not.
pub open spec fn spec_load_value(func3: u32, number: nat) -> u64 {
    if func3 == FUNC3_LB {
        spec_sign_extend64(number as int, 0x100)
    } else if func3 == FUNC3_LH {
        spec_sign_extend64(number as int, 0x1_0000)
    } else if func3 == FUNC3_LW {
        spec_sign_extend64(number as int, 0x1_0000_0000)
    } else {
        number as u64
    }
}

/// A load: the destination register gets what is read at the address
/// `rs1 + imm`.
pub open spec fn spec_load(insn: Insn, state: PlatformState) -> Outcome {
    match spec_load_width(insn.func3) {
        Some(width) => {
            let address = spec_address(state.hart.read_register(insn.rs1 as int), insn.imm);
            let access = state.bus_read(address, width as nat);
            match spec_access_result(access.result, state.hart.pc, address) {
                Ok(number) => spec_done(
                    spec_set_register(
                        access.state,
                        insn.rd,
                        spec_load_value(insn.func3, number),
                    ),
                ),
                Err(trap) => Outcome { result: Err(trap), state: access.state },
            }
        },
        None => spec_unimplemented(state),
    }
}

/// The index of the control and status register that an instruction names:
/// the low twelve bits of its immediate.
pub open spec fn spec_csr_index(imm: i32) -> int {
    (spec_wrap32(imm as int) % 0x1000) as int
}

/// The value that a control and status register instruction writes to its
/// register, if it writes one: `source` is the value of register `rs1`.
///
/// CSRRW and CSRRWI write `rs1` or the five-bit immediate in its place.
/// CSRRS and CSRRSI set, and CSRRC and CSRRCI clear, the bits of that
/// operand in the old value; CSRRS writes only if `rs1` is not `x0`, and
/// the two immediate forms only if the immediate is not zero.
pub open spec fn spec_csr_write(insn: Insn, old: u64, source: u64) -> Option<Option<u64>> {
    let immediate = insn.rs1 as u64;
    if insn.func3 == FUNC3_CSRRW {
        Some(Some(source))
    } else if insn.func3 == FUNC3_CSRRWI {
        Some(Some(immediate))
    } else if insn.func3 == FUNC3_CSRRS {
        if insn.rs1 != 0 {
            Some(Some(old | source))
        } else {
            Some(None)
        }
    } else if insn.func3 == FUNC3_CSRRSI {
        if immediate != 0 {
            Some(Some(old | immediate))
        } else {
            Some(None)
        }
    } else if insn.func3 == FUNC3_CSRRC {
        Some(Some(old & !source))
    } else if insn.func3 == FUNC3_CSRRCI {
        if immediate != 0 {
            Some(Some(old & !immediate))
        } else {
            Some(None)
        }
    } else {
        None
    }
}

/// A control and status register instruction: the register is written as
/// `spec_csr_write` says, and the destination register gets its old
/// value.
pub open spec fn spec_csr(insn: Insn, state: PlatformState) -> Outcome {
    let index = spec_csr_index(insn.imm);
    let old = state.hart.read_csr(index);
    let source = state.hart.read_register(insn.rs1 as int);
    match spec_csr_write(insn, old, source) {
        Some(Some(value)) => spec_done(
            state.with_hart(state.hart.write_csr(index, value).write_register(insn.rd as int, old)),
        ),
        Some(None) => spec_done(spec_set_register(state, insn.rd, old)),
        None => spec_unimplemented(state),
    }
}

/// The number of bytes that an atomic instruction works on.
pub open spec fn spec_atomic_width(func3: u32) -> Option<usize> {
    if func3 == FUNC3_RV32_ATOMIC {
        Some(4usize)
    } else if func3 == FUNC3_RV64_ATOMIC {
        Some(8usize)
    } else {
        None
    }
}

/// The operation of an atomic instruction: `func7` without its two
/// ordering bits.
pub open spec fn spec_atomic_op(func7: u32) -> u32 {
    (func7 - func7 % 4) as u32
}

/// The register value of a number that an atomic instruction loaded: a
/// word is sign-extended.
pub open spec fn spec_atomic_value(width: usize, number: nat) -> u64 {
    if width == 4 {
        spec_sign_extend64(number as int, 0x1_0000_0000)
    } else {
        number as u64
    }
}

/// Load-reserved: the destination register gets what is read at the
/// address in `rs1`, and the hart reserves the bytes read.
pub open spec fn spec_lr(insn: Insn, state: PlatformState) -> Outcome {
    match spec_atomic_width(insn.func3) {
        Some(width) => {
            let address = state.hart.read_register(insn.rs1 as int) as usize;
            let access = state.bus_read(address, width as nat);
            match spec_access_result(access.result, state.hart.pc, address) {
                Ok(number) => spec_done(
                    spec_set_register(
                        access.state.claim(state.hart.id, address, width),
                        insn.rd,
                        spec_atomic_value(width, number),
                    ),
                ),
                Err(trap) => Outcome { result: Err(trap), state: access.state },
            }
        },
        None => spec_unimplemented(state),
    }
}

/// Store-conditional: if the hart holds a valid reservation that the store
/// touches, the reservation is used up, the low bytes of `rs2` are stored
/// at the address in `rs1`, and the destination register gets zero;
/// otherwise nothing is stored and the destination register gets one.
pub open spec fn spec_sc(insn: Insn, state: PlatformState) -> Outcome {
    match spec_atomic_width(insn.func3) {
        Some(width) => {
            let address = state.hart.read_register(insn.rs1 as int) as usize;
            let value = state.hart.read_register(insn.rs2 as int) as int % spec_width_limit(
                width,
            );
            if spec_check(state.reservations, state.hart.id, address, width) {
                let stored = spec_store_at(
                    state.check_invalidate(state.hart.id, address, width),
                    address,
                    value as nat,
                    width,
                );
                if stored.result is Ok {
                    spec_done(spec_set_register(stored.state, insn.rd, 0))
                } else {
                    stored
                }
            } else {
                spec_done(spec_set_register(state, insn.rd, 1))
            }
        },
        None => spec_unimplemented(state),
    }
}

/// What a 64-bit atomic memory operation stores: the loaded value combined
/// with the operand.
pub open spec fn spec_amo64(op: u32, loaded: u64, operand: u64) -> Option<u64> {
    if op == FUNC7_AMOADD {
        Some(spec_wrap64(loaded + operand))
    } else if op == FUNC7_AMOAND {
        Some(loaded & operand)
    } else if op == FUNC7_AMOOR {
        Some(loaded | operand)
    } else if op == FUNC7_AMOXOR {
        Some(loaded ^ operand)
    } else if op == FUNC7_AMOSWAP {
        Some(operand)
    } else {
        None
    }
}

/// What a 32-bit atomic memory operation stores: the loaded value combined
/// with the operand.
pub open spec fn spec_amo32(op: u32, loaded: u32, operand: u32) -> Option<u32> {
    if op == FUNC7_AMOADD {
        Some(spec_wrap32(loaded + operand))
    } else if op == FUNC7_AMOAND {
        Some(loaded & operand)
    } else if op == FUNC7_AMOOR {
        Some(loaded | operand)
    } else if op == FUNC7_AMOXOR {
        Some(loaded ^ operand)
    } else if op == FUNC7_AMOSWAP {
        Some(operand)
    } else {
        None
    }
}

/// What an atomic memory operation of `width` bytes stores.
pub open spec fn spec_amo(op: u32, width: usize, loaded: nat, operand: u64) -> Option<nat> {
    if width == 4 {
        match spec_amo32(op, loaded as u32, (operand % 0x1_0000_0000) as u32) {
            Some(value) => Some(value as nat),
            None => None,
        }
    } else {
        match spec_amo64(op, loaded as u64, operand) {
            Some(value) => Some(value as nat),
            None => None,
        }
    }
}

/// Whether an atomic memory operation has a handler.
pub open spec fn spec_amo_known(op: u32) -> bool {
    op == FUNC7_AMOADD || op == FUNC7_AMOAND || op == FUNC7_AMOOR || op == FUNC7_AMOXOR || op
        == FUNC7_AMOSWAP
}

/// An atomic memory operation on `width` bytes: the value at the address
/// in `rs1` is loaded, combined with `rs2` and stored back, and the
/// destination register gets the loaded value.
pub open spec fn spec_amo_at(insn: Insn, state: PlatformState, width: usize) -> Outcome {
    let op = spec_atomic_op(insn.func7);
    if spec_amo_known(op) {
        let address = state.hart.read_register(insn.rs1 as int) as usize;
        let operand = state.hart.read_register(insn.rs2 as int);
        let load = state.bus_read(address, width as nat);
        match spec_access_result(load.result, state.hart.pc, address) {
            Ok(number) => {
                let stored = spec_store_at(
                    load.state,
                    address,
                    spec_amo(op, width, number, operand).unwrap(),
                    width,
                );
                if stored.result is Ok {
                    spec_done(
                        spec_set_register(stored.state, insn.rd, spec_atomic_value(width, number)),
                    )
                } else {
                    stored
                }
            },
            Err(trap) => Outcome { result: Err(trap), state: load.state },
        }
    } else {
        spec_unimplemented(state)
    }
}

/// An atomic memory operation, on a word or a doubleword.
pub open spec fn spec_amo_insn(insn: Insn, state: PlatformState) -> Outcome {
    match spec_atomic_width(insn.func3) {
        Some(width) => spec_amo_at(insn, state, width),
        None => spec_unimplemented(state),
    }
}

/// An atomic instruction: load-reserved, store-conditional or an atomic
/// memory operation.
pub open spec fn spec_atomic(insn: Insn, state: PlatformState) -> Outcome {
    let op = spec_atomic_op(insn.func7);
    if op == FUNC7_LR {
        spec_lr(insn, state)
    } else if op == FUNC7_SC {
        spec_sc(insn, state)
    } else {
        spec_amo_insn(insn, state)
    }
}

/// Whether an opcode sets the program counter itself.
pub open spec fn spec_sets_pc(opcode: u32) -> bool {
    opcode == OPCODE_JAL || opcode == OPCODE_JALR || opcode == OPCODE_BRANCH
}

/// The machine with the program counter at the next instruction, unless
/// the opcode has set it.
pub open spec fn spec_increment_pc(opcode: u32, state: PlatformState) -> PlatformState {
    if spec_sets_pc(opcode) {
        state
    } else {
        state.with_hart(state.hart.with_pc(spec_wrap64(state.hart.pc + 4)))
    }
}

/// What the handler of the instruction's opcode does.
pub open spec fn spec_dispatch(insn: Insn, state: PlatformState) -> Outcome {
    if insn.opcode == OPCODE_LUI || insn.opcode == OPCODE_AUIPC {
        spec_ui(insn, state)
    } else if insn.opcode == OPCODE_INT_REG_REG {
        spec_int_reg_reg(insn, state)
    } else if insn.opcode == OPCODE_INT_REG_IMM {
        spec_int_reg_imm(insn, state)
    } else if insn.opcode == OPCODE_STORE {
        spec_store(insn, state)
    } else if insn.opcode == OPCODE_LOAD {
        spec_load(insn, state)
    } else if insn.opcode == OPCODE_SYSTEM {
        spec_csr(insn, state)
    } else if insn.opcode == OPCODE_JAL || insn.opcode == OPCODE_JALR {
        spec_jump(insn, state)
    } else if insn.opcode == OPCODE_MISCMEM {
        spec_done(state)
    } else if insn.opcode == OPCODE_BRANCH {
        spec_branch(insn, state)
    } else if insn.opcode == OPCODE_INT_REG_IMM_32 {
        spec_int_reg_imm32(insn, state)
    } else if insn.opcode == OPCODE_ATOMIC {
        spec_atomic(insn, state)
    } else {
        spec_unimplemented(state)
    }
}

/// One instruction: what its handler does, and then, if it completed, the
/// step to the next instruction.
pub open spec fn spec_handle(insn: Insn, state: PlatformState) -> Outcome {
    let outcome = spec_dispatch(insn, state);
    if outcome.result is Ok {
        spec_done(spec_increment_pc(insn.opcode, outcome.state))
    } else {
        outcome
    }
}

/// One step of the machine: the word at the program counter is fetched,
/// decoded and handled.
pub open spec fn spec_step(state: PlatformState) -> Outcome {
    let address = state.hart.pc as usize;
    let fetch = state.bus_read(address, 4);
    match spec_access_result(fetch.result, state.hart.pc, address) {
        Ok(word) => spec_handle(spec_decode(word as u32), fetch.state),
        Err(trap) => Outcome { result: Err(trap), state: fetch.state },
    }
}

/// Up to `steps` steps of the machine, ending at the first trap.
pub open spec fn spec_run(state: PlatformState, steps: nat) -> Outcome
    decreases steps,
{
    if steps == 0 {
        spec_done(state)
    } else {
        let outcome = spec_step(state);
        if outcome.result is Ok {
            spec_run(outcome.state, (steps - 1) as nat)
        } else {
            outcome
        }
    }
}

/// An instruction that completes and is no jump or branch leaves the
/// program counter four bytes further on.
pub proof fn lemma_handle_steps_pc(insn: Insn, state: PlatformState)
    requires
        !spec_sets_pc(insn.opcode),
        spec_handle(insn, state).result is Ok,
    ensures
        spec_handle(insn, state).state.hart.pc == spec_wrap64(state.hart.pc + 4),
{
}

/// An instruction that traps leaves the program counter at itself, and
/// the trap names that address.
pub proof fn lemma_trap_keeps_pc(insn: Insn, state: PlatformState)
    requires
        spec_handle(insn, state).result is Err,
    ensures
        spec_handle(insn, state).state.hart.pc == state.hart.pc,
        spec_handle(insn, state).result matches Err(Trap::Unimplemented { pc }) ==> pc
            == state.hart.pc,
        spec_handle(insn, state).result matches Err(Trap::Bus { pc, .. }) ==> pc == state.hart.pc,
{
}

/// An instruction without a handler changes nothing at all.
pub proof fn lemma_unimplemented_changes_nothing(insn: Insn, state: PlatformState)
    requires
        spec_handle(insn, state).result matches Err(Trap::Unimplemented { .. }),
    ensures
        spec_handle(insn, state).state == state,
{
}

/// Whatever an instruction does, register `x0` stays zero and the register
/// files keep their lengths.
pub proof fn lemma_handle_keeps_hart_wf(insn: Insn, state: PlatformState)
    requires
        insn.wf(),
        state.hart.wf(),
    ensures
        spec_handle(insn, state).state.hart.wf(),
{
    lemma_csr_index_in_range(insn.imm);
}

/// The index of a control and status register is below 4096.
pub proof fn lemma_csr_index_in_range(imm: i32)
    ensures
        0 <= spec_csr_index(imm) < 0x1000,
{
}

} // verus!
