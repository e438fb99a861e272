//! The mnemonics that diagnostics print for handled instructions.

use crate::insn::{
    Insn, OPCODE_ATOMIC, OPCODE_AUIPC, OPCODE_BRANCH, OPCODE_INT_REG_IMM, OPCODE_INT_REG_IMM_32,
    OPCODE_INT_REG_REG, OPCODE_JAL, OPCODE_JALR, OPCODE_LOAD, OPCODE_LUI, OPCODE_MISCMEM,
    OPCODE_STORE, OPCODE_SYSTEM,
};
use crate::platform::PlatformState;
use crate::semantics::{
    spec_alternate, spec_atomic_op, spec_atomic_width, spec_dispatch, spec_imm_alternate, Trap,
    FUNC7_ALTERNATE, FUNC7_AMOADD, FUNC7_AMOAND, FUNC7_AMOOR, FUNC7_AMOSWAP, FUNC7_AMOXOR,
    FUNC7_LR, FUNC7_SC,
};
use vstd::prelude::*;

verus! {

/// The mnemonic of an operation on a register and an immediate. An
/// addition of zero is a move, and a move from `x0` to `x0` does nothing.
pub open spec fn spec_int_reg_imm_name(insn: Insn) -> Option<&'static str> {
    if insn.func3 == 0 {
        if insn.imm == 0 && insn.rs1 == 0 && insn.rd == 0 {
            Some("nop")
        } else if insn.imm == 0 {
            Some("mv")
        } else {
            Some("addi")
        }
    } else if insn.func3 == 1 {
        Some("slli")
    } else if insn.func3 == 2 {
        Some("slti")
    } else if insn.func3 == 3 {
        Some("sltiu")
    } else if insn.func3 == 4 {
        Some("xori")
    } else if insn.func3 == 5 {
        if spec_imm_alternate(insn.imm) {
            Some("srai")
        } else {
            Some("srli")
        }
    } else if insn.func3 == 6 {
        Some("ori")
    } else if insn.func3 == 7 {
        Some("andi")
    } else {
        None
    }
}

/// The mnemonic of a 32-bit operation on a register and an immediate.
pub open spec fn spec_int_reg_imm32_name(insn: Insn) -> Option<&'static str> {
    if insn.func3 == 0 {
        if insn.imm == 0 {
            Some("sextw")
        } else {
            Some("addiw")
        }
    } else if insn.func3 == 1 {
        Some("slliw")
    } else if insn.func3 == 5 {
        if spec_alternate(insn.func7) {
            Some("sraiw")
        } else {
            Some("srliw")
        }
    } else {
        None
    }
}

/// The mnemonic of an operation on two registers.
pub open spec fn spec_int_reg_reg_name(insn: Insn) -> Option<&'static str> {
    if insn.func3 == 0 {
        if spec_alternate(insn.func7) {
            Some("sub")
        } else {
            Some("add")
        }
    } else if insn.func3 == 1 {
        Some("sll")
    } else if insn.func3 == 2 {
        Some("slt")
    } else if insn.func3 == 3 {
        Some("sltu")
    } else if insn.func3 == 4 {
        Some("xor")
    } else if insn.func3 == 5 {
        if spec_alternate(insn.func7) {
            Some("sra")
        } else {
            Some("srl")
        }
    } else if insn.func3 == 6 {
        Some("or")
    } else if insn.func3 == 7 {
        Some("and")
    } else {
        None
    }
}

/// The mnemonic of a store.
pub open spec fn spec_store_name(func3: u32) -> Option<&'static str> {
    if func3 == 0 {
        Some("sb")
    } else if func3 == 1 {
        Some("sh")
    } else if func3 == 2 {
        Some("sw")
    } else if func3 == 3 {
        Some("sd")
    } else {
        None
    }
}

/// The mnemonic of a load.
pub open spec fn spec_load_name(func3: u32) -> Option<&'static str> {
    if func3 == 0 {
        Some("lb")
    } else if func3 == 1 {
        Some("lh")
    } else if func3 == 2 {
        Some("lw")
    } else if func3 == 3 {
        Some("ld")
    } else if func3 == 4 {
        Some("lbu")
    } else if func3 == 5 {
        Some("lhu")
    } else if func3 == 6 {
        Some("lwu")
    } else {
        None
    }
}

/// The mnemonic of a control and status register instruction.
pub open spec fn spec_csr_name(func3: u32) -> Option<&'static str> {
    if func3 == 1 {
        Some("csrrw")
    } else if func3 == 2 {
        Some("csrrs")
    } else if func3 == 3 {
        Some("csrrc")
    } else if func3 == 5 {
        Some("csrrwi")
    } else if func3 == 6 {
        Some("csrrsi")
    } else if func3 == 7 {
        Some("csrrci")
    } else {
        None
    }
}

/// The mnemonic of a branch.
pub open spec fn spec_branch_name(func3: u32) -> Option<&'static str> {
    if func3 == 0 {
        Some("beq")
    } else if func3 == 1 {
        Some("bne")
    } else if func3 == 4 {
        Some("blt")
    } else if func3 == 5 {
        Some("bge")
    } else if func3 == 6 {
        Some("bltu")
    } else if func3 == 7 {
        Some("bgeu")
    } else {
        None
    }
}

/// The mnemonic of an atomic instruction.
pub open spec fn spec_atomic_name(insn: Insn) -> Option<&'static str> {
    let op = spec_atomic_op(insn.func7);
    if spec_atomic_width(insn.func3) is None {
        None
    } else if op == FUNC7_LR {
        Some("lr")
    } else if op == FUNC7_SC {
        Some("sc")
    } else if op == FUNC7_AMOADD {
        Some("amoadd")
    } else if op == FUNC7_AMOAND {
        Some("amoand")
    } else if op == FUNC7_AMOOR {
        Some("amoor")
    } else if op == FUNC7_AMOXOR {
        Some("amoxor")
    } else if op == FUNC7_AMOSWAP {
        Some("amoswap")
    } else {
        None
    }
}

/// The mnemonic of an instruction, if it has a handler.
pub open spec fn spec_mnemonic(insn: Insn) -> Option<&'static str> {
    if insn.opcode == OPCODE_LUI {
        Some("lui")
    } else if insn.opcode == OPCODE_AUIPC {
        Some("auipc")
    } else if insn.opcode == OPCODE_JAL {
        Some("jal")
    } else if insn.opcode == OPCODE_JALR {
        Some("jalr")
    } else if insn.opcode == OPCODE_MISCMEM {
        Some("fence")
    } else if insn.opcode == OPCODE_INT_REG_REG {
        spec_int_reg_reg_name(insn)
    } else if insn.opcode == OPCODE_INT_REG_IMM {
        spec_int_reg_imm_name(insn)
    } else if insn.opcode == OPCODE_INT_REG_IMM_32 {
        spec_int_reg_imm32_name(insn)
    } else if insn.opcode == OPCODE_STORE {
        spec_store_name(insn.func3)
    } else if insn.opcode == OPCODE_LOAD {
        spec_load_name(insn.func3)
    } else if insn.opcode == OPCODE_SYSTEM {
        spec_csr_name(insn.func3)
    } else if insn.opcode == OPCODE_BRANCH {
        spec_branch_name(insn.func3)
    } else if insn.opcode == OPCODE_ATOMIC {
        spec_atomic_name(insn)
    } else {
        None
    }
}

/// The name that an instruction carries once it has been handled: its
/// mnemonic, or the name it had if it has no handler.
pub open spec fn spec_name(insn: Insn) -> &'static str {
    match spec_mnemonic(insn) {
        Some(name) => name,
        None => insn.name,
    }
}

/// The instructions with a mnemonic are those with a handler: an
/// instruction has none exactly if handling it ends in the trap for
/// unimplemented instructions.
pub proof fn lemma_named_iff_handled(insn: Insn, state: PlatformState)
    requires
        insn.wf(),
    ensures
        spec_mnemonic(insn) is None <==> spec_dispatch(insn, state).result matches Err(
            Trap::Unimplemented { .. },
        ),
{
}

impl Insn {
    /// Whether bit 10 of the immediate, bit 30 of the instruction, is set.
    fn imm_alternate(&self) -> (set: bool)
        ensures
            set == spec_imm_alternate(self.imm),
    {
        (crate::arith::imm_bits(self.imm) / 0x400) % 2 == 1
    }

    /// Picks the first name, or the second where bit 30 of the instruction
    /// is set in `func7`.
    fn by_func7(&self, plain: &'static str, alternate: &'static str) -> (name: &'static str)
        ensures
            name == if spec_alternate(self.func7) {
                alternate
            } else {
                plain
            },
    {
        if (self.func7 / FUNC7_ALTERNATE) % 2 == 1 {
            alternate
        } else {
            plain
        }
    }

    /// The mnemonic of an atomic instruction.
    fn atomic_mnemonic(&self) -> (name: Option<&'static str>)
        ensures
            name == spec_atomic_name(*self),
    {
        if self.func3 != 2 && self.func3 != 3 {
            return None;
        }
        match self.func7 - self.func7 % 4 {
            FUNC7_LR => Some("lr"),
            FUNC7_SC => Some("sc"),
            FUNC7_AMOADD => Some("amoadd"),
            FUNC7_AMOAND => Some("amoand"),
            FUNC7_AMOOR => Some("amoor"),
            FUNC7_AMOXOR => Some("amoxor"),
            FUNC7_AMOSWAP => Some("amoswap"),
            _ => None,
        }
    }

    /// The mnemonic of an arithmetic or logic instruction.
    fn alu_mnemonic(&self) -> (name: Option<&'static str>)
        requires
            self.opcode == OPCODE_INT_REG_REG || self.opcode == OPCODE_INT_REG_IMM || self.opcode
                == OPCODE_INT_REG_IMM_32,
        ensures
            name == spec_mnemonic(*self),
    {
        match (self.opcode, self.func3) {
            (OPCODE_INT_REG_REG, 0) => Some(self.by_func7("add", "sub")),
            (OPCODE_INT_REG_REG, 1) => Some("sll"),
            (OPCODE_INT_REG_REG, 2) => Some("slt"),
            (OPCODE_INT_REG_REG, 3) => Some("sltu"),
            (OPCODE_INT_REG_REG, 4) => Some("xor"),
            (OPCODE_INT_REG_REG, 5) => Some(self.by_func7("srl", "sra")),
            (OPCODE_INT_REG_REG, 6) => Some("or"),
            (OPCODE_INT_REG_REG, 7) => Some("and"),
            (OPCODE_INT_REG_IMM, 0) => {
                if self.imm == 0 && self.rs1 == 0 && self.rd == 0 {
                    Some("nop")
                } else if self.imm == 0 {
                    Some("mv")
                } else {
                    Some("addi")
                }
            },
            (OPCODE_INT_REG_IMM, 1) => Some("slli"),
            (OPCODE_INT_REG_IMM, 2) => Some("slti"),
            (OPCODE_INT_REG_IMM, 3) => Some("sltiu"),
            (OPCODE_INT_REG_IMM, 4) => Some("xori"),
            (OPCODE_INT_REG_IMM, 5) => {
                if self.imm_alternate() {
                    Some("srai")
                } else {
                    Some("srli")
                }
            },
            (OPCODE_INT_REG_IMM, 6) => Some("ori"),
            (OPCODE_INT_REG_IMM, 7) => Some("andi"),
            (OPCODE_INT_REG_IMM_32, 0) => {
                if self.imm == 0 {
                    Some("sextw")
                } else {
                    Some("addiw")
                }
            },
            (OPCODE_INT_REG_IMM_32, 1) => Some("slliw"),
            (OPCODE_INT_REG_IMM_32, 5) => Some(self.by_func7("srliw", "sraiw")),
            _ => None,
        }
    }

    /// The mnemonic of this instruction, if it has a handler.
    pub fn mnemonic(&self) -> (name: Option<&'static str>)
        ensures
            name == spec_mnemonic(*self),
    {
        match (self.opcode, self.func3) {
            (OPCODE_LUI, _) => Some("lui"),
            (OPCODE_AUIPC, _) => Some("auipc"),
            (OPCODE_JAL, _) => Some("jal"),
            (OPCODE_JALR, _) => Some("jalr"),
            (OPCODE_MISCMEM, _) => Some("fence"),
            (OPCODE_INT_REG_REG, _) | (OPCODE_INT_REG_IMM, _) | (OPCODE_INT_REG_IMM_32, _) => {
                self.alu_mnemonic()
            },
            (OPCODE_STORE, 0) => Some("sb"),
            (OPCODE_STORE, 1) => Some("sh"),
            (OPCODE_STORE, 2) => Some("sw"),
            (OPCODE_STORE, 3) => Some("sd"),
            (OPCODE_LOAD, 0) => Some("lb"),
            (OPCODE_LOAD, 1) => Some("lh"),
            (OPCODE_LOAD, 2) => Some("lw"),
            (OPCODE_LOAD, 3) => Some("ld"),
            (OPCODE_LOAD, 4) => Some("lbu"),
            (OPCODE_LOAD, 5) => Some("lhu"),
            (OPCODE_LOAD, 6) => Some("lwu"),
            (OPCODE_SYSTEM, 1) => Some("csrrw"),
            (OPCODE_SYSTEM, 2) => Some("csrrs"),
            (OPCODE_SYSTEM, 3) => Some("csrrc"),
            (OPCODE_SYSTEM, 5) => Some("csrrwi"),
            (OPCODE_SYSTEM, 6) => Some("csrrsi"),
            (OPCODE_SYSTEM, 7) => Some("csrrci"),
            (OPCODE_BRANCH, 0) => Some("beq"),
            (OPCODE_BRANCH, 1) => Some("bne"),
            (OPCODE_BRANCH, 4) => Some("blt"),
            (OPCODE_BRANCH, 5) => Some("bge"),
            (OPCODE_BRANCH, 6) => Some("bltu"),
            (OPCODE_BRANCH, 7) => Some("bgeu"),
            (OPCODE_ATOMIC, _) => self.atomic_mnemonic(),
            _ => None,
        }
    }
}

} // verus!
