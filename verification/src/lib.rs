//! A single-hart RISC-V emulator core: instruction decoding and execution,
//! the register file, an address-routed bus with RAM and a 16550-style UART,
//! and load-reserved / store-conditional reservation tracking.

pub mod arith;
pub mod bitfield;
pub mod boot;
pub mod bus;
pub mod execute;
pub mod hart;
pub mod insn;
pub mod lebytes;
pub mod mnemonic;
pub mod platform;
pub mod semantics;
pub mod uart;
