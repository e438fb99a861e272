//! The architectural state of one hart: integer registers, control and
//! status registers and the program counter.

use vstd::prelude::*;

verus! {

/// The ABI names of the integer registers, in register order.
#[allow(non_camel_case_types)]
#[derive(Debug, PartialEq, Eq, Clone, Copy, Structural)]
pub enum RegisterNames {
    zero,
    ra,
    sp,
    gp,
    tp,
    t0,
    t1,
    t2,
    s0,
    s1,
    a0,
    a1,
    a2,
    a3,
    a4,
    a5,
    a6,
    a7,
    s2,
    s3,
    s4,
    s5,
    s6,
    s7,
    s8,
    s9,
    s10,
    s11,
    t3,
    t4,
    t5,
    t6,
}

impl RegisterNames {
    /// The index of the register with this name.
    pub open spec fn spec_number(self) -> usize {
        match self {
            RegisterNames::zero => 0,
            RegisterNames::ra => 1,
            RegisterNames::sp => 2,
            RegisterNames::gp => 3,
            RegisterNames::tp => 4,
            RegisterNames::t0 => 5,
            RegisterNames::t1 => 6,
            RegisterNames::t2 => 7,
            RegisterNames::s0 => 8,
            RegisterNames::s1 => 9,
            RegisterNames::a0 => 10,
            RegisterNames::a1 => 11,
            RegisterNames::a2 => 12,
            RegisterNames::a3 => 13,
            RegisterNames::a4 => 14,
            RegisterNames::a5 => 15,
            RegisterNames::a6 => 16,
            RegisterNames::a7 => 17,
            RegisterNames::s2 => 18,
            RegisterNames::s3 => 19,
            RegisterNames::s4 => 20,
            RegisterNames::s5 => 21,
            RegisterNames::s6 => 22,
            RegisterNames::s7 => 23,
            RegisterNames::s8 => 24,
            RegisterNames::s9 => 25,
            RegisterNames::s10 => 26,
            RegisterNames::s11 => 27,
            RegisterNames::t3 => 28,
            RegisterNames::t4 => 29,
            RegisterNames::t5 => 30,
            RegisterNames::t6 => 31,
        }
    }

    /// The index of the register with this name.
    pub fn number(self) -> (n: usize)
        ensures
            n == self.spec_number(),
            n < 32,
    {
        match self {
            RegisterNames::zero => 0,
            RegisterNames::ra => 1,
            RegisterNames::sp => 2,
            RegisterNames::gp => 3,
            RegisterNames::tp => 4,
            RegisterNames::t0 => 5,
            RegisterNames::t1 => 6,
            RegisterNames::t2 => 7,
            RegisterNames::s0 => 8,
            RegisterNames::s1 => 9,
            RegisterNames::a0 => 10,
            RegisterNames::a1 => 11,
            RegisterNames::a2 => 12,
            RegisterNames::a3 => 13,
            RegisterNames::a4 => 14,
            RegisterNames::a5 => 15,
            RegisterNames::a6 => 16,
            RegisterNames::a7 => 17,
            RegisterNames::s2 => 18,
            RegisterNames::s3 => 19,
            RegisterNames::s4 => 20,
            RegisterNames::s5 => 21,
            RegisterNames::s6 => 22,
            RegisterNames::s7 => 23,
            RegisterNames::s8 => 24,
            RegisterNames::s9 => 25,
            RegisterNames::s10 => 26,
            RegisterNames::s11 => 27,
            RegisterNames::t3 => 28,
            RegisterNames::t4 => 29,
            RegisterNames::t5 => 30,
            RegisterNames::t6 => 31,
        }
    }
}

/// The number of integer registers.
pub const REGISTER_COUNT: usize = 32;

/// The number of control and status registers.
pub const CSR_COUNT: usize = 4096;

/// One hart's registers.
///
/// Slot 0 of `registers` stands for `x0`: whatever it holds, it is read as
/// zero and never written.
#[derive(Debug)]
pub struct Hart {
    pub registers: [u64; 32],
    pub csrs: [u64; 4096],
    pub pc: u64,
    pub id: usize,
}

/// The state of a hart as instructions see it.
#[verifier::ext_equal]
pub struct HartState {
    /// The 32 integer registers; `x0` is zero.
    pub registers: Seq<u64>,
    /// The 4096 control and status registers.
    pub csrs: Seq<u64>,
    pub pc: u64,
    pub id: usize,
}

impl HartState {
    /// The value that register `offset` reads as.
    pub open spec fn read_register(self, offset: int) -> u64 {
        if offset == 0 {
            0
        } else {
            self.registers[offset]
        }
    }

    /// The state after `value` is written to register `offset`: a write to
    /// `x0` changes nothing.
    pub open spec fn write_register(self, offset: int, value: u64) -> HartState {
        if offset == 0 {
            self
        } else {
            HartState { registers: self.registers.update(offset, value), ..self }
        }
    }

    /// The value of control and status register `offset`.
    pub open spec fn read_csr(self, offset: int) -> u64 {
        self.csrs[offset]
    }

    /// The state after `value` is written to control and status register
    /// `offset`.
    pub open spec fn write_csr(self, offset: int, value: u64) -> HartState {
        HartState { csrs: self.csrs.update(offset, value), ..self }
    }

    /// The state with the program counter set to `pc`.
    pub open spec fn with_pc(self, pc: u64) -> HartState {
        HartState { pc, ..self }
    }

    /// Both register files have their full length and `x0` is zero.
    pub open spec fn wf(self) -> bool {
        &&& self.registers.len() == 32
        &&& self.csrs.len() == 4096
        &&& self.registers[0] == 0
    }
}

impl View for Hart {
    type V = HartState;

    open spec fn view(&self) -> HartState {
        HartState {
            registers: self.registers@.update(0, 0),
            csrs: self.csrs@,
            pc: self.pc,
            id: self.id,
        }
    }
}

impl Default for Hart {
    /// A hart with every register, and the program counter, zero.
    fn default() -> (hart: Hart)
        ensures
            hart@.wf(),
            forall|i: int| 0 <= i < 32 ==> hart@.registers[i] == 0,
            forall|i: int| 0 <= i < 4096 ==> hart@.csrs[i] == 0,
            hart@.pc == 0,
            hart@.id == 0,
    {
        Hart { registers: [0; 32], csrs: [0; 4096], pc: 0, id: 0 }
    }
}

impl Hart {
    /// Writes `value` to integer register `offset`; a write to `x0` is
    /// dropped.
    pub fn write_register(&mut self, offset: usize, value: u64)
        requires
            offset < 32,
        ensures
            final(self)@ == old(self)@.write_register(offset as int, value),
            final(self)@.wf(),
    {
        if offset == 0 {
            return ;
        }
        self.registers[offset] = value;
        assert(self@.registers =~= old(self)@.registers.update(offset as int, value));
    }

    /// Reads integer register `offset`; `x0` reads as zero.
    pub fn read_register(&self, offset: usize) -> (value: u64)
        requires
            offset < 32,
        ensures
            value == self@.read_register(offset as int),
    {
        if offset == 0 {
            return 0;
        }
        self.registers[offset]
    }

    /// Writes `value` to control and status register `offset`.
    pub fn write_csr(&mut self, offset: usize, value: u64)
        requires
            offset < 4096,
        ensures
            final(self)@ == old(self)@.write_csr(offset as int, value),
            final(self)@.wf(),
    {
        self.csrs[offset] = value;
    }

    /// Reads control and status register `offset`.
    pub fn read_csr(&self, offset: usize) -> (value: u64)
        requires
            offset < 4096,
        ensures
            value == self@.read_csr(offset as int),
    {
        self.csrs[offset]
    }
}

/// What a hart holds is well-formed, whatever is in its slots.
pub proof fn lemma_hart_wf(hart: Hart)
    ensures
        hart@.wf(),
{
}

/// Whatever is written to `x0`, it reads as zero afterwards.
pub proof fn lemma_x0_stays_zero(hart: HartState, value: u64)
    ensures
        hart.write_register(0, value).read_register(0) == 0,
{
}

/// A register other than `x0` reads as the value last written to it.
pub proof fn lemma_register_keeps_value(hart: HartState, offset: int, value: u64)
    requires
        hart.wf(),
        1 <= offset <= 31,
    ensures
        hart.write_register(offset, value).read_register(offset) == value,
{
}

} // verus!
