//! The handlers that carry out decoded instructions on the platform.

use crate::arith::{imm64, imm_bits, sext16, sext32, sext8, signed64, spec_limit64};
use crate::bus::Bus;
use crate::insn::{
    Insn, OPCODE_ATOMIC, OPCODE_AUIPC, OPCODE_BRANCH, OPCODE_INT_REG_IMM, OPCODE_INT_REG_IMM_32,
    OPCODE_INT_REG_REG, OPCODE_JAL, OPCODE_JALR, OPCODE_LOAD, OPCODE_LUI, OPCODE_MISCMEM,
    OPCODE_STORE, OPCODE_SYSTEM,
};
use crate::lebytes::LeBytes;
use crate::mnemonic::spec_name;
use crate::platform::Platform;
use crate::semantics::{
    spec_access_result, spec_amo_at, spec_amo_known, spec_atomic, spec_branch, spec_csr,
    spec_handle, spec_increment_pc, spec_int_reg_imm, spec_int_reg_imm32, spec_int_reg_imm32_value,
    spec_int_reg_imm_value, spec_int_reg_reg, spec_int_reg_reg_value, spec_jump, spec_load,
    spec_loaded, spec_lr, spec_sc, spec_store, spec_store_at, spec_ui, spec_write_result, Trap,
    FUNC3_ADD, FUNC3_ADDI, FUNC3_ADDIW, FUNC3_AND, FUNC3_ANDI, FUNC3_BEQ, FUNC3_BGE, FUNC3_BGEU,
    FUNC3_BLT, FUNC3_BLTU, FUNC3_BNE, FUNC3_CSRRC, FUNC3_CSRRCI, FUNC3_CSRRS, FUNC3_CSRRSI,
    FUNC3_CSRRW, FUNC3_CSRRWI, FUNC3_LB, FUNC3_LBU, FUNC3_LD, FUNC3_LH, FUNC3_LHU, FUNC3_LW,
    FUNC3_LWU, FUNC3_OR, FUNC3_ORI, FUNC3_RV32_ATOMIC, FUNC3_RV64_ATOMIC, FUNC3_SB, FUNC3_SD,
    FUNC3_SH, FUNC3_SLL, FUNC3_SLLI, FUNC3_SLLIW, FUNC3_SLT, FUNC3_SLTI, FUNC3_SLTIU, FUNC3_SLTU,
    FUNC3_SRL, FUNC3_SRLI, FUNC3_SRLIW, FUNC3_SW, FUNC3_XOR, FUNC3_XORI, FUNC7_ALTERNATE,
    FUNC7_AMOADD, FUNC7_AMOAND, FUNC7_AMOOR, FUNC7_AMOSWAP, FUNC7_AMOXOR, FUNC7_LR, FUNC7_SC,
};
use vstd::arithmetic::div_mod::{lemma_mod_mod, lemma_small_mod};
use vstd::prelude::*;

verus! {

impl Insn {
    /// Ends an instruction that computes a value for its destination
    /// register: writes the value, or traps where there is none.
    fn write_result(&self, platform: &mut Platform, value: Option<u64>) -> (result: Result<
        (),
        Trap,
    >)
        requires
            self.wf(),
        ensures
            result == spec_write_result(*self, old(platform)@, value).result,
            final(platform)@ == spec_write_result(*self, old(platform)@, value).state,
    {
        match value {
            Some(value) => {
                platform.hart.write_register(self.rd as usize, value);
                Ok(())
            },
            None => Err(Trap::Unimplemented { pc: platform.hart.pc }),
        }
    }

    /// Whether bit 30 of the instruction is set in `func7`.
    fn alternate(&self) -> (set: bool)
        ensures
            set == crate::semantics::spec_alternate(self.func7),
    {
        (self.func7 / FUNC7_ALTERNATE) % 2 == 1
    }

    /// The value that an operation on two registers computes.
    fn int_reg_reg_value(&self, rs1: u64, rs2: u64) -> (value: Option<u64>)
        ensures
            value == spec_int_reg_reg_value(*self, rs1, rs2),
    {
        let shamt = rs2 % 64;
        match self.func3 {
            FUNC3_ADD => {
                if self.alternate() {
                    Some(rs1.wrapping_sub(rs2))
                } else {
                    Some(rs1.wrapping_add(rs2))
                }
            },
            FUNC3_SLL => Some(rs1 << shamt),
            FUNC3_SLT => Some(
                if signed64(rs1) < signed64(rs2) {
                    1
                } else {
                    0
                },
            ),
            FUNC3_SLTU => Some(
                if rs1 < rs2 {
                    1
                } else {
                    0
                },
            ),
            FUNC3_XOR => Some(rs1 ^ rs2),
            FUNC3_SRL => {
                if self.alternate() {
                    Some(((rs1 as i64) >> shamt) as u64)
                } else {
                    Some(rs1 >> shamt)
                }
            },
            FUNC3_OR => Some(rs1 | rs2),
            FUNC3_AND => Some(rs1 & rs2),
            _ => None,
        }
    }

    /// Carries out an operation on two registers.
    pub fn handle_int_reg_reg_insn(&self, platform: &mut Platform) -> (result: Result<(), Trap>)
        requires
            self.wf(),
        ensures
            result == spec_int_reg_reg(*self, old(platform)@).result,
            final(platform)@ == spec_int_reg_reg(*self, old(platform)@).state,
    {
        let rs1 = platform.hart.read_register(self.rs1 as usize);
        let rs2 = platform.hart.read_register(self.rs2 as usize);
        let value = self.int_reg_reg_value(rs1, rs2);
        self.write_result(platform, value)
    }

    /// The value that a 64-bit operation on a register and an immediate
    /// computes.
    fn int_reg_imm_value(&self, src: u64) -> (value: Option<u64>)
        ensures
            value == spec_int_reg_imm_value(*self, src),
    {
        let imm = imm64(self.imm);
        let bits = imm_bits(self.imm);
        let shamt = bits % 64;
        match self.func3 {
            FUNC3_ADDI => Some(src.wrapping_add_signed(self.imm as i64)),
            FUNC3_ANDI => Some(src & imm),
            FUNC3_ORI => Some(src | imm),
            FUNC3_XORI => Some(src ^ imm),
            FUNC3_SLTI => Some(
                if signed64(src) < self.imm as i64 {
                    1
                } else {
                    0
                },
            ),
            FUNC3_SLTIU => Some(
                if src < imm {
                    1
                } else {
                    0
                },
            ),
            FUNC3_SLLI => Some(src << shamt),
            FUNC3_SRLI => {
                if (bits / 0x400) % 2 == 1 {
                    Some(((src as i64) >> shamt) as u64)
                } else {
                    Some(src >> shamt)
                }
            },
            _ => None,
        }
    }

    /// Carries out a 64-bit operation on a register and an immediate. A
    /// right shift is arithmetic if bit 10 of the immediate is set, and
    /// logical if it is clear.
    pub fn handle_int_reg_imm_insn(&self, platform: &mut Platform) -> (result: Result<(), Trap>)
        requires
            self.wf(),
        ensures
            result == spec_int_reg_imm(*self, old(platform)@).result,
            final(platform)@ == spec_int_reg_imm(*self, old(platform)@).state,
    {
        let src = platform.hart.read_register(self.rs1 as usize);
        let value = self.int_reg_imm_value(src);
        self.write_result(platform, value)
    }

    /// The value that a 32-bit operation on a register and an immediate
    /// computes.
    fn int_reg_imm32_value(&self, src: u64) -> (value: Option<u64>)
        ensures
            value == spec_int_reg_imm32_value(*self, src),
    {
        let word = (src % 0x1_0000_0000) as u32;
        let shamt = self.rs2 % 32;
        match self.func3 {
            FUNC3_ADDIW => {
                let sum = src.wrapping_add_signed(self.imm as i64);
                proof {
                    lemma_mod_mod(src + self.imm, 0x1_0000_0000, 0x1_0000_0000);
                }
                Some(sext32((sum % 0x1_0000_0000) as u32))
            },
            FUNC3_SLLIW => Some(sext32(word << shamt)),
            FUNC3_SRLIW => {
                if self.alternate() {
                    Some(sext32(((word as i32) >> shamt) as u32))
                } else {
                    Some(sext32(word >> shamt))
                }
            },
            _ => None,
        }
    }

    /// Carries out a 32-bit operation on a register and an immediate. The
    /// shifts come decoded in the R format: their amount is in `rs2`, and
    /// `func7` tells the arithmetic shift from the logical one.
    pub fn handle_int_reg_imm32_insn(&self, platform: &mut Platform) -> (result: Result<(), Trap>)
        requires
            self.wf(),
        ensures
            result == spec_int_reg_imm32(*self, old(platform)@).result,
            final(platform)@ == spec_int_reg_imm32(*self, old(platform)@).state,
    {
        let src = platform.hart.read_register(self.rs1 as usize);
        let value = self.int_reg_imm32_value(src);
        self.write_result(platform, value)
    }

    /// Carries out LUI or AUIPC.
    pub fn handle_ui_insn(&self, platform: &mut Platform) -> (result: Result<(), Trap>)
        requires
            self.wf(),
        ensures
            result == spec_ui(*self, old(platform)@).result,
            final(platform)@ == spec_ui(*self, old(platform)@).state,
    {
        let value = match self.opcode {
            OPCODE_AUIPC => Some(platform.hart.pc.wrapping_add_signed(self.imm as i64)),
            OPCODE_LUI => Some(imm64(self.imm)),
            _ => None,
        };
        self.write_result(platform, value)
    }

    /// Carries out JAL or JALR.
    pub fn handle_jump_insn(&self, platform: &mut Platform) -> (result: Result<(), Trap>)
        requires
            self.wf(),
        ensures
            result == spec_jump(*self, old(platform)@).result,
            final(platform)@ == spec_jump(*self, old(platform)@).state,
    {
        let pc = platform.hart.pc;
        let target = match self.opcode {
            OPCODE_JAL => pc.wrapping_add_signed(self.imm as i64),
            OPCODE_JALR => {
                let base = platform.hart.read_register(self.rs1 as usize);
                let sum = base.wrapping_add_signed(self.imm as i64);
                sum - sum % 2
            },
            _ => {
                return Err(Trap::Unimplemented { pc });
            },
        };
        platform.hart.write_register(self.rd as usize, pc.wrapping_add(4));
        platform.hart.pc = target;
        Ok(())
    }

    /// Carries out a branch.
    pub fn handle_branch_insn(&self, platform: &mut Platform) -> (result: Result<(), Trap>)
        requires
            self.wf(),
        ensures
            result == spec_branch(*self, old(platform)@).result,
            final(platform)@ == spec_branch(*self, old(platform)@).state,
    {
        let src1 = platform.hart.read_register(self.rs1 as usize);
        let src2 = platform.hart.read_register(self.rs2 as usize);
        let taken = match self.func3 {
            FUNC3_BEQ => src1 == src2,
            FUNC3_BNE => src1 != src2,
            FUNC3_BLT => signed64(src1) < signed64(src2),
            FUNC3_BLTU => src1 < src2,
            FUNC3_BGE => signed64(src1) >= signed64(src2),
            FUNC3_BGEU => src1 >= src2,
            _ => {
                return Err(Trap::Unimplemented { pc: platform.hart.pc });
            },
        };
        if taken {
            platform.hart.pc = platform.hart.pc.wrapping_add_signed(self.imm as i64);
        } else {
            platform.hart.pc = platform.hart.pc.wrapping_add(4);
        }
        Ok(())
    }

    /// Reads a value at `address` for this instruction.
    fn load_at<T, const T_SIZE: usize>(&self, platform: &mut Platform, address: usize) -> (result:
        Result<T, Trap>) where T: LeBytes<T_SIZE>
        ensures
            spec_loaded(
                result,
                spec_access_result(
                    old(platform)@.bus_read(address, T_SIZE as nat).result,
                    old(platform)@.hart.pc,
                    address,
                ),
            ),
            final(platform)@ == old(platform)@.bus_read(address, T_SIZE as nat).state,
    {
        let pc = platform.hart.pc;
        match platform.read::<T, T_SIZE>(address) {
            Ok(value) => Ok(value),
            Err(error) => Err(Trap::Bus { pc, address, kind: error.kind() }),
        }
    }

    /// Stores `value` at `address` for this instruction, as a store by the
    /// hart.
    fn store_at<T, const T_SIZE: usize>(
        &self,
        platform: &mut Platform,
        address: usize,
        value: T,
    ) -> (result: Result<(), Trap>) where T: LeBytes<T_SIZE>
        ensures
            result == spec_store_at(old(platform)@, address, value.spec_value(), T_SIZE).result,
            final(platform)@ == spec_store_at(
                old(platform)@,
                address,
                value.spec_value(),
                T_SIZE,
            ).state,
    {
        let pc = platform.hart.pc;
        let hart_id = platform.hart.id;
        match platform.write_from_hart(hart_id, address, value) {
            Ok(()) => Ok(()),
            Err(error) => Err(Trap::Bus { pc, address, kind: error.kind() }),
        }
    }

    /// Carries out a store.
    pub fn handle_store_insn(&self, platform: &mut Platform) -> (result: Result<(), Trap>)
        requires
            self.wf(),
        ensures
            result == spec_store(*self, old(platform)@).result,
            final(platform)@ == spec_store(*self, old(platform)@).state,
    {
        let base = platform.hart.read_register(self.rs1 as usize);
        let address = base.wrapping_add_signed(self.imm as i64) as usize;
        let value = platform.hart.read_register(self.rs2 as usize);
        proof {
            lemma_small_mod(value as nat, spec_limit64() as nat);
        }
        match self.func3 {
            FUNC3_SD => self.store_at(platform, address, value),
            FUNC3_SW => self.store_at(platform, address, (value % 0x1_0000_0000) as u32),
            FUNC3_SH => self.store_at(platform, address, (value % 0x1_0000) as u16),
            FUNC3_SB => self.store_at(platform, address, (value % 0x100) as u8),
            _ => Err(Trap::Unimplemented { pc: platform.hart.pc }),
        }
    }

    /// Carries out a load.
    pub fn handle_load_insn(&self, platform: &mut Platform) -> (result: Result<(), Trap>)
        requires
            self.wf(),
        ensures
            result == spec_load(*self, old(platform)@).result,
            final(platform)@ == spec_load(*self, old(platform)@).state,
    {
        let base = platform.hart.read_register(self.rs1 as usize);
        let address = base.wrapping_add_signed(self.imm as i64) as usize;
        let loaded = match self.func3 {
            FUNC3_LD => self.load_at::<u64, 8>(platform, address),
            FUNC3_LW => match self.load_at::<u32, 4>(platform, address) {
                Ok(word) => Ok(sext32(word)),
                Err(trap) => Err(trap),
            },
            FUNC3_LH => match self.load_at::<u16, 2>(platform, address) {
                Ok(half) => Ok(sext16(half)),
                Err(trap) => Err(trap),
            },
            FUNC3_LB => match self.load_at::<u8, 1>(platform, address) {
                Ok(byte) => Ok(sext8(byte)),
                Err(trap) => Err(trap),
            },
            FUNC3_LWU => match self.load_at::<u32, 4>(platform, address) {
                Ok(word) => Ok(word as u64),
                Err(trap) => Err(trap),
            },
            FUNC3_LHU => match self.load_at::<u16, 2>(platform, address) {
                Ok(half) => Ok(half as u64),
                Err(trap) => Err(trap),
            },
            FUNC3_LBU => match self.load_at::<u8, 1>(platform, address) {
                Ok(byte) => Ok(byte as u64),
                Err(trap) => Err(trap),
            },
            _ => {
                return Err(Trap::Unimplemented { pc: platform.hart.pc });
            },
        };
        match loaded {
            Ok(value) => {
                platform.hart.write_register(self.rd as usize, value);
                Ok(())
            },
            Err(trap) => Err(trap),
        }
    }

    /// Carries out a control and status register instruction.
    pub fn handle_csr_insn(&self, platform: &mut Platform) -> (result: Result<(), Trap>)
        requires
            self.wf(),
        ensures
            result == spec_csr(*self, old(platform)@).result,
            final(platform)@ == spec_csr(*self, old(platform)@).state,
    {
        let index = (imm_bits(self.imm) % 0x1000) as usize;
        let source = platform.hart.read_register(self.rs1 as usize);
        let immediate = self.rs1 as u64;
        // A write that has no destination does not read the register.
        let writes_only = (self.func3 == FUNC3_CSRRW || self.func3 == FUNC3_CSRRWI) && self.rd
            == 0;
        let old = if writes_only {
            0
        } else {
            platform.hart.read_csr(index)
        };
        let write = match self.func3 {
            FUNC3_CSRRW => Some(source),
            FUNC3_CSRRWI => Some(immediate),
            FUNC3_CSRRS => {
                if self.rs1 != 0 {
                    Some(old | source)
                } else {
                    None
                }
            },
            FUNC3_CSRRSI => {
                if immediate != 0 {
                    Some(old | immediate)
                } else {
                    None
                }
            },
            FUNC3_CSRRC => Some(old & !source),
            FUNC3_CSRRCI => {
                if immediate != 0 {
                    Some(old & !immediate)
                } else {
                    None
                }
            },
            _ => {
                return Err(Trap::Unimplemented { pc: platform.hart.pc });
            },
        };
        match write {
            Some(value) => {
                platform.hart.write_csr(index, value);
            },
            None => {},
        }
        platform.hart.write_register(self.rd as usize, old);
        Ok(())
    }

    /// Carries out an atomic instruction.
    pub fn handle_atomic_insn(&self, platform: &mut Platform) -> (result: Result<(), Trap>)
        requires
            self.wf(),
        ensures
            result == spec_atomic(*self, old(platform)@).result,
            final(platform)@ == spec_atomic(*self, old(platform)@).state,
    {
        let op = self.func7 - self.func7 % 4;
        if op == FUNC7_LR {
            self.handle_lr_insn(platform)
        } else if op == FUNC7_SC {
            self.handle_sc_insn(platform)
        } else if self.func3 == FUNC3_RV32_ATOMIC {
            self.handle_atomic_rv32_insn(platform)
        } else if self.func3 == FUNC3_RV64_ATOMIC {
            self.handle_atomic_rv64_insn(platform)
        } else {
            Err(Trap::Unimplemented { pc: platform.hart.pc })
        }
    }

    /// Carries out a store-conditional.
    pub fn handle_sc_insn(&self, platform: &mut Platform) -> (result: Result<(), Trap>)
        requires
            self.wf(),
        ensures
            result == spec_sc(*self, old(platform)@).result,
            final(platform)@ == spec_sc(*self, old(platform)@).state,
    {
        let hart_id = platform.hart.id;
        let address = platform.hart.read_register(self.rs1 as usize) as usize;
        let value = platform.hart.read_register(self.rs2 as usize);
        proof {
            lemma_small_mod(value as nat, spec_limit64() as nat);
        }
        let write_size: usize = if self.func3 == FUNC3_RV32_ATOMIC {
            4
        } else if self.func3 == FUNC3_RV64_ATOMIC {
            8
        } else {
            return Err(Trap::Unimplemented { pc: platform.hart.pc });
        };

        // Without a reservation nothing is stored, and the destination
        // register says so.
        if !platform.check_invalidate_reservation_set(hart_id, address, write_size) {
            platform.hart.write_register(self.rd as usize, 1);
            return Ok(());
        }
        let stored = if self.func3 == FUNC3_RV32_ATOMIC {
            self.store_at(platform, address, (value % 0x1_0000_0000) as u32)
        } else {
            self.store_at(platform, address, value)
        };
        match stored {
            Ok(()) => {
                platform.hart.write_register(self.rd as usize, 0);
                Ok(())
            },
            Err(trap) => Err(trap),
        }
    }

    /// Carries out a load-reserved.
    pub fn handle_lr_insn(&self, platform: &mut Platform) -> (result: Result<(), Trap>)
        requires
            self.wf(),
        ensures
            result == spec_lr(*self, old(platform)@).result,
            final(platform)@ == spec_lr(*self, old(platform)@).state,
    {
        let hart_id = platform.hart.id;
        let address = platform.hart.read_register(self.rs1 as usize) as usize;
        let (read_size, loaded): (usize, Result<u64, Trap>) = if self.func3
            == FUNC3_RV32_ATOMIC {
            match self.load_at::<u32, 4>(platform, address) {
                Ok(word) => (4, Ok(sext32(word))),
                Err(trap) => (4, Err(trap)),
            }
        } else if self.func3 == FUNC3_RV64_ATOMIC {
            (8, self.load_at::<u64, 8>(platform, address))
        } else {
            return Err(Trap::Unimplemented { pc: platform.hart.pc });
        };
        match loaded {
            Ok(value) => {
                platform.claim_reservation_set(hart_id, address, read_size);
                platform.hart.write_register(self.rd as usize, value);
                Ok(())
            },
            Err(trap) => Err(trap),
        }
    }

    /// Whether the atomic memory operation `op` has a handler.
    fn amo_known(op: u32) -> (known: bool)
        ensures
            known == spec_amo_known(op),
    {
        op == FUNC7_AMOADD || op == FUNC7_AMOAND || op == FUNC7_AMOOR || op == FUNC7_AMOXOR || op
            == FUNC7_AMOSWAP
    }

    /// Carries out an atomic memory operation on a doubleword.
    pub fn handle_atomic_rv64_insn(&self, platform: &mut Platform) -> (result: Result<(), Trap>)
        requires
            self.wf(),
        ensures
            result == spec_amo_at(*self, old(platform)@, 8).result,
            final(platform)@ == spec_amo_at(*self, old(platform)@, 8).state,
    {
        let op = self.func7 - self.func7 % 4;
        let address = platform.hart.read_register(self.rs1 as usize) as usize;
        let other_val = platform.hart.read_register(self.rs2 as usize);
        if !Self::amo_known(op) {
            return Err(Trap::Unimplemented { pc: platform.hart.pc });
        }
        let val = match self.load_at::<u64, 8>(platform, address) {
            Ok(val) => val,
            Err(trap) => {
                return Err(trap);
            },
        };
        let new = match op {
            FUNC7_AMOADD => val.wrapping_add(other_val),
            FUNC7_AMOAND => val & other_val,
            FUNC7_AMOOR => val | other_val,
            FUNC7_AMOXOR => val ^ other_val,
            _ => other_val,
        };
        match self.store_at(platform, address, new) {
            Ok(()) => {},
            Err(trap) => {
                return Err(trap);
            },
        }
        platform.hart.write_register(self.rd as usize, val);
        Ok(())
    }

    /// Carries out an atomic memory operation on a word.
    pub fn handle_atomic_rv32_insn(&self, platform: &mut Platform) -> (result: Result<(), Trap>)
        requires
            self.wf(),
        ensures
            result == spec_amo_at(*self, old(platform)@, 4).result,
            final(platform)@ == spec_amo_at(*self, old(platform)@, 4).state,
    {
        let op = self.func7 - self.func7 % 4;
        let address = platform.hart.read_register(self.rs1 as usize) as usize;
        let other_val = (platform.hart.read_register(self.rs2 as usize) % 0x1_0000_0000) as u32;
        if !Self::amo_known(op) {
            return Err(Trap::Unimplemented { pc: platform.hart.pc });
        }
        let val = match self.load_at::<u32, 4>(platform, address) {
            Ok(val) => val,
            Err(trap) => {
                return Err(trap);
            },
        };
        let new = match op {
            FUNC7_AMOADD => val.wrapping_add(other_val),
            FUNC7_AMOAND => val & other_val,
            FUNC7_AMOOR => val | other_val,
            FUNC7_AMOXOR => val ^ other_val,
            _ => other_val,
        };
        match self.store_at(platform, address, new) {
            Ok(()) => {},
            Err(trap) => {
                return Err(trap);
            },
        }
        platform.hart.write_register(self.rd as usize, sext32(val));
        Ok(())
    }

    /// Moves the program counter to the next instruction, unless the
    /// instruction has set it.
    pub fn increment_pc(&self, platform: &mut Platform)
        ensures
            final(platform)@ == spec_increment_pc(self.opcode, old(platform)@),
    {
        match self.opcode {
            OPCODE_JAL | OPCODE_JALR | OPCODE_BRANCH => (),
            _ => {
                platform.hart.pc = platform.hart.pc.wrapping_add(4);
            },
        }
    }

    /// Carries out this instruction on the platform and steps to the next
    /// one, and names the instruction by its mnemonic.
    ///
    /// An instruction that has no handler, or whose access the bus refuses,
    /// ends in a trap, and the program counter stays at it.
    pub fn handle(&mut self, platform: &mut Platform) -> (result: Result<(), Trap>)
        requires
            old(self).wf(),
        ensures
            result == spec_handle(*old(self), old(platform)@).result,
            final(platform)@ == spec_handle(*old(self), old(platform)@).state,
            *final(self) == (Insn { name: spec_name(*old(self)), ..*old(self) }),
    {
        match self.mnemonic() {
            Some(name) => {
                self.name = name;
            },
            None => {},
        }
        let handled = match self.opcode {
            OPCODE_LUI | OPCODE_AUIPC => self.handle_ui_insn(platform),
            OPCODE_INT_REG_REG => self.handle_int_reg_reg_insn(platform),
            OPCODE_INT_REG_IMM => self.handle_int_reg_imm_insn(platform),
            OPCODE_STORE => self.handle_store_insn(platform),
            OPCODE_LOAD => self.handle_load_insn(platform),
            OPCODE_SYSTEM => self.handle_csr_insn(platform),
            OPCODE_JAL | OPCODE_JALR => self.handle_jump_insn(platform),
            OPCODE_MISCMEM => Ok(()),
            OPCODE_BRANCH => self.handle_branch_insn(platform),
            OPCODE_INT_REG_IMM_32 => self.handle_int_reg_imm32_insn(platform),
            OPCODE_ATOMIC => self.handle_atomic_insn(platform),
            _ => Err(Trap::Unimplemented { pc: platform.hart.pc }),
        };
        match handled {
            Ok(()) => {
                self.increment_pc(platform);
                Ok(())
            },
            Err(trap) => Err(trap),
        }
    }
}

} // verus!
