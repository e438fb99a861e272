//! A 16550-style UART: its register file, the rules on which register may
//! be read or written, and its face on the bus.
//!
//! The bytes that the UART transmits are collected in order in a byte
//! vector, the output sink, for whoever owns the UART to drain.

use crate::bus;
use crate::bus::{spec_error, spec_refused, Bus, BusAccess, ErrorKind, ErrorView};
use crate::lebytes::{lemma_decode_le_fixed, LeBytes};
use vstd::prelude::*;
use vstd::std_specs::convert::{FromSpecImpl, TryFromSpecImpl};

verus! {

/// Line status bit 0: a received byte waits in the receiver buffer.
pub const LSR_DATA_READY: u8 = 0x01;

/// Line status bit 1: a byte arrived while another was still waiting.
pub const LSR_BUFFER_OVERRUN: u8 = 0x02;

/// Line control bit 2: more than one stop bit.
pub const LCR_STOP_BITS: u8 = 0x04;

/// The line control value after reset: eight-bit words.
pub const LCR_DEFAULT: u8 = 0b11;

/// A register that the bus may read but not write.
#[derive(Debug, PartialEq, Eq, Clone, Copy)]
pub struct ReadOnlyRegister {
    bits: u8,
}

impl View for ReadOnlyRegister {
    type V = u8;

    closed spec fn view(&self) -> u8 {
        self.bits
    }
}

impl ReadOnlyRegister {
    /// The value of the register.
    pub fn read(&self) -> (bits: u8)
        ensures
            bits == self@,
    {
        self.bits
    }
}

impl Default for ReadOnlyRegister {
    fn default() -> (register: Self)
        ensures
            register@ == 0,
    {
        Self { bits: 0 }
    }
}

/// A register that the bus may write but not read.
#[derive(Debug, PartialEq, Eq, Clone, Copy)]
pub struct WriteOnlyRegister {
    bits: u8,
}

impl View for WriteOnlyRegister {
    type V = u8;

    closed spec fn view(&self) -> u8 {
        self.bits
    }
}

impl WriteOnlyRegister {
    /// Sets the register to `v`.
    pub fn write(&mut self, v: u8)
        ensures
            final(self)@ == v,
    {
        self.bits = v;
    }
}

impl Default for WriteOnlyRegister {
    fn default() -> (register: Self)
        ensures
            register@ == 0,
    {
        Self { bits: 0 }
    }
}

/// A register that may be read and written.
#[derive(Debug, PartialEq, Eq, Clone, Copy)]
pub struct Register {
    bits: u8,
}

impl View for Register {
    type V = u8;

    closed spec fn view(&self) -> u8 {
        self.bits
    }
}

impl Register {
    /// The value of the register.
    pub fn read(&self) -> (bits: u8)
        ensures
            bits == self@,
    {
        self.bits
    }

    /// Sets the register to `v`.
    pub fn write(&mut self, v: u8)
        ensures
            final(self)@ == v,
    {
        self.bits = v;
    }
}

impl Default for Register {
    fn default() -> (register: Self)
        ensures
            register@ == 0,
    {
        Self { bits: 0 }
    }
}

/// Why the UART refused an operation.
#[derive(Debug, PartialEq, Eq, Clone, Copy, Structural)]
pub enum Error {
    /// The register is write-only.
    DisallowedRead,
    /// The register is read-only.
    DisallowedWrite,
    /// Line control's word length code is none of the four.
    InvalidCharacterLength,
    /// A stop bit mask with bits outside line control's stop bit.
    InvalidStopBitMask,
}

/// The bus-level fault that a UART error is reported as.
pub open spec fn spec_bus_error(error: Error) -> ErrorView {
    match error {
        Error::DisallowedRead => spec_error(
            ErrorKind::UnsupportedRead,
            "the register is write-only",
        ),
        Error::DisallowedWrite => spec_error(
            ErrorKind::DisallowedWrite,
            "the register is read-only",
        ),
        Error::InvalidCharacterLength => spec_error(
            ErrorKind::Unimplemented,
            "no such character length",
        ),
        Error::InvalidStopBitMask => spec_error(ErrorKind::Unimplemented, "no such stop bit mask"),
    }
}

impl Error {
    /// Reports this error as a bus error.
    pub fn bus_error(self) -> (error: bus::Error)
        ensures
            error@ == spec_bus_error(self),
    {
        match self {
            Error::DisallowedRead => bus::Error::new(
                ErrorKind::UnsupportedRead,
                "the register is write-only",
            ),
            Error::DisallowedWrite => bus::Error::new(
                ErrorKind::DisallowedWrite,
                "the register is read-only",
            ),
            Error::InvalidCharacterLength => bus::Error::new(
                ErrorKind::Unimplemented,
                "no such character length",
            ),
            Error::InvalidStopBitMask => bus::Error::new(
                ErrorKind::Unimplemented,
                "no such stop bit mask",
            ),
        }
    }
}

/// The registers of the UART, by their register address.
#[derive(Debug, PartialEq, Eq, Clone, Copy, Structural)]
pub enum RegisterAddress {
    ReceiverBuffer,
    TransmitterHolding,
    InterruptEnable,
    InterruptIdent,
    LineControl,
    ModemControl,
    LineStatus,
    ModemStatus,
    Scratch,
}

/// The register address of a register: its place in the list.
pub open spec fn spec_register_number(address: RegisterAddress) -> u8 {
    match address {
        RegisterAddress::ReceiverBuffer => 0,
        RegisterAddress::TransmitterHolding => 1,
        RegisterAddress::InterruptEnable => 2,
        RegisterAddress::InterruptIdent => 3,
        RegisterAddress::LineControl => 4,
        RegisterAddress::ModemControl => 5,
        RegisterAddress::LineStatus => 6,
        RegisterAddress::ModemStatus => 7,
        RegisterAddress::Scratch => 8,
    }
}

/// The register at a register address, if there is one.
pub open spec fn spec_register_at(value: usize) -> Option<RegisterAddress> {
    if value == 0 {
        Some(RegisterAddress::ReceiverBuffer)
    } else if value == 1 {
        Some(RegisterAddress::TransmitterHolding)
    } else if value == 2 {
        Some(RegisterAddress::InterruptEnable)
    } else if value == 3 {
        Some(RegisterAddress::InterruptIdent)
    } else if value == 4 {
        Some(RegisterAddress::LineControl)
    } else if value == 5 {
        Some(RegisterAddress::ModemControl)
    } else if value == 6 {
        Some(RegisterAddress::LineStatus)
    } else if value == 7 {
        Some(RegisterAddress::ModemStatus)
    } else if value == 8 {
        Some(RegisterAddress::Scratch)
    } else {
        None
    }
}

/// A number that is no register address.
#[derive(Debug, PartialEq, Eq, Clone, Copy, Structural)]
pub struct AddressConvertError;

impl AddressConvertError {
    /// Reports this error as a bus error.
    pub fn bus_error(self) -> (error: bus::Error)
        ensures
            error@ == spec_error(ErrorKind::OutOfBounds, "the UART has no register at this address"),
    {
        bus::Error::new(ErrorKind::OutOfBounds, "the UART has no register at this address")
    }
}

impl TryFrom<usize> for RegisterAddress {
    type Error = AddressConvertError;

    fn try_from(value: usize) -> (result: Result<Self, Self::Error>) {
        match value {
            0 => Ok(RegisterAddress::ReceiverBuffer),
            1 => Ok(RegisterAddress::TransmitterHolding),
            2 => Ok(RegisterAddress::InterruptEnable),
            3 => Ok(RegisterAddress::InterruptIdent),
            4 => Ok(RegisterAddress::LineControl),
            5 => Ok(RegisterAddress::ModemControl),
            6 => Ok(RegisterAddress::LineStatus),
            7 => Ok(RegisterAddress::ModemStatus),
            8 => Ok(RegisterAddress::Scratch),
            _ => Err(AddressConvertError),
        }
    }
}

impl TryFromSpecImpl<usize> for RegisterAddress {
    open spec fn obeys_try_from_spec() -> bool {
        true
    }

    open spec fn try_from_spec(value: usize) -> Result<Self, Self::Error> {
        match spec_register_at(value) {
            Some(address) => Ok(address),
            None => Err(AddressConvertError),
        }
    }
}

impl From<RegisterAddress> for u8 {
    fn from(val: RegisterAddress) -> (number: u8) {
        match val {
            RegisterAddress::ReceiverBuffer => 0,
            RegisterAddress::TransmitterHolding => 1,
            RegisterAddress::InterruptEnable => 2,
            RegisterAddress::InterruptIdent => 3,
            RegisterAddress::LineControl => 4,
            RegisterAddress::ModemControl => 5,
            RegisterAddress::LineStatus => 6,
            RegisterAddress::ModemStatus => 7,
            RegisterAddress::Scratch => 8,
        }
    }
}

impl FromSpecImpl<RegisterAddress> for u8 {
    open spec fn obeys_from_spec() -> bool {
        true
    }

    open spec fn from_spec(val: RegisterAddress) -> u8 {
        spec_register_number(val)
    }
}

impl From<RegisterAddress> for usize {
    fn from(value: RegisterAddress) -> (number: usize) {
        u8::from(value) as usize
    }
}

impl FromSpecImpl<RegisterAddress> for usize {
    open spec fn obeys_from_spec() -> bool {
        true
    }

    open spec fn from_spec(value: RegisterAddress) -> usize {
        spec_register_number(value) as usize
    }
}

/// The number of stop bits on the line.
#[derive(Debug, PartialEq, Eq, Clone, Copy, Structural)]
pub enum StopBits {
    One,
    OneAndHalf,
    Two,
}

/// The word length that line control's two-bit code stands for.
pub open spec fn spec_character_length(code: u8) -> Result<u8, Error> {
    if code == 0 {
        Ok(5u8)
    } else if code == 1 {
        Ok(6u8)
    } else if code == 2 {
        Ok(7u8)
    } else if code == 3 {
        Ok(8u8)
    } else {
        Err(Error::InvalidCharacterLength)
    }
}

/// The stop bits that line control's stop bit, masked out as `mask`, stands
/// for at a word length: one if it is clear; if it is set, one and a half
/// for five-bit words and two for longer ones.
pub open spec fn spec_stop_bits(mask: u8, character_length: u8) -> Result<StopBits, Error> {
    if mask == 0 {
        Ok(StopBits::One)
    } else if mask == LCR_STOP_BITS {
        if character_length == 5 {
            Ok(StopBits::OneAndHalf)
        } else {
            Ok(StopBits::Two)
        }
    } else {
        Err(Error::InvalidStopBitMask)
    }
}

/// Decodes line control's word length code.
pub fn character_length(code: u8) -> (length: Result<u8, Error>)
    ensures
        length == spec_character_length(code),
{
    match code {
        0 => Ok(5),
        1 => Ok(6),
        2 => Ok(7),
        3 => Ok(8),
        _ => Err(Error::InvalidCharacterLength),
    }
}

/// Decodes line control's stop bit, masked out as `mask`, at a word length.
pub fn stop_bits(mask: u8, character_length: u8) -> (bits: Result<StopBits, Error>)
    ensures
        bits == spec_stop_bits(mask, character_length),
{
    if mask == 0 {
        Ok(StopBits::One)
    } else if mask == LCR_STOP_BITS {
        if character_length == 5 {
            Ok(StopBits::OneAndHalf)
        } else {
            Ok(StopBits::Two)
        }
    } else {
        Err(Error::InvalidStopBitMask)
    }
}

/// The register file of the UART.
#[derive(Debug, PartialEq)]
struct UartRegisters {
    receiver_buffer: ReadOnlyRegister,
    transmitter_holding: WriteOnlyRegister,
    interrupt_enable: Register,
    interrupt_ident: ReadOnlyRegister,
    line_control: Register,
    modem_control: Register,
    line_status: Register,
    modem_status: Register,
    scratch: Register,
    divisor_latch_ls: Register,
    divisor_latch_ms: Register,
}

impl UartRegisters {
    /// The registers after reset.
    fn reset() -> (registers: Self)
        ensures
            registers.receiver_buffer@ == 0,
            registers.transmitter_holding@ == 0,
            registers.interrupt_enable@ == 0,
            registers.interrupt_ident@ == 0,
            registers.line_control@ == LCR_DEFAULT,
            registers.modem_control@ == 0,
            registers.line_status@ == 0,
            registers.modem_status@ == 0,
            registers.scratch@ == 0,
            registers.divisor_latch_ls@ == 0,
            registers.divisor_latch_ms@ == 0,
    {
        let mut line_control = Register::default();
        line_control.write(LCR_DEFAULT);
        Self {
            receiver_buffer: ReadOnlyRegister::default(),
            transmitter_holding: WriteOnlyRegister::default(),
            interrupt_enable: Register::default(),
            interrupt_ident: ReadOnlyRegister::default(),
            line_control,
            modem_control: Register::default(),
            line_status: Register::default(),
            modem_status: Register::default(),
            scratch: Register::default(),
            divisor_latch_ls: Register::default(),
            divisor_latch_ms: Register::default(),
        }
    }
}

/// A UART and the bytes it has transmitted.
#[derive(Debug, PartialEq)]
pub struct Uart {
    registers: UartRegisters,
    output: Vec<u8>,
}

/// What a UART holds: the value of each register, and the bytes sent to
/// the output sink, oldest first.
#[verifier::ext_equal]
pub struct UartState {
    pub receiver_buffer: u8,
    pub transmitter_holding: u8,
    pub interrupt_enable: u8,
    pub interrupt_ident: u8,
    pub line_control: u8,
    pub modem_control: u8,
    pub line_status: u8,
    pub modem_status: u8,
    pub scratch: u8,
    pub divisor_latch_ls: u8,
    pub divisor_latch_ms: u8,
    pub output: Seq<u8>,
}

impl UartState {
    /// A UART after reset, with `output` already in the sink.
    pub open spec fn reset(output: Seq<u8>) -> UartState {
        UartState {
            receiver_buffer: 0,
            transmitter_holding: 0,
            interrupt_enable: 0,
            interrupt_ident: 0,
            line_control: LCR_DEFAULT,
            modem_control: 0,
            line_status: 0,
            modem_status: 0,
            scratch: 0,
            divisor_latch_ls: 0,
            divisor_latch_ms: 0,
            output,
        }
    }

    /// What reading the register at `address` gives: its value, or
    /// `DisallowedRead` for the write-only transmitter holding register.
    pub open spec fn read_at(self, address: RegisterAddress) -> Result<u8, Error> {
        match address {
            RegisterAddress::ReceiverBuffer => Ok(self.receiver_buffer),
            RegisterAddress::TransmitterHolding => Err(Error::DisallowedRead),
            RegisterAddress::InterruptEnable => Ok(self.interrupt_enable),
            RegisterAddress::InterruptIdent => Ok(self.interrupt_ident),
            RegisterAddress::LineControl => Ok(self.line_control),
            RegisterAddress::ModemControl => Ok(self.modem_control),
            RegisterAddress::LineStatus => Ok(self.line_status),
            RegisterAddress::ModemStatus => Ok(self.modem_status),
            RegisterAddress::Scratch => Ok(self.scratch),
        }
    }

    /// Whether the register at `address` takes writes: all but the receiver
    /// buffer, interrupt identification and the two status registers.
    pub open spec fn writable(address: RegisterAddress) -> bool {
        match address {
            RegisterAddress::ReceiverBuffer => false,
            RegisterAddress::InterruptIdent => false,
            RegisterAddress::LineStatus => false,
            RegisterAddress::ModemStatus => false,
            _ => true,
        }
    }

    /// The UART after `value` is written to the register at `address`; a
    /// read-only register keeps its value.
    pub open spec fn write_at(self, address: RegisterAddress, value: u8) -> UartState {
        match address {
            RegisterAddress::TransmitterHolding => UartState { transmitter_holding: value, ..self },
            RegisterAddress::InterruptEnable => UartState { interrupt_enable: value, ..self },
            RegisterAddress::LineControl => UartState { line_control: value, ..self },
            RegisterAddress::ModemControl => UartState { modem_control: value, ..self },
            RegisterAddress::Scratch => UartState { scratch: value, ..self },
            _ => self,
        }
    }

    /// The UART after it has transmitted `value`: the byte is in the
    /// transmitter holding register, mirrored in the receiver buffer and
    /// appended to the output, and line status says that data is ready.
    pub open spec fn transmit(self, value: u8) -> UartState {
        UartState {
            transmitter_holding: value,
            receiver_buffer: value,
            line_status: self.line_status | LSR_DATA_READY,
            output: self.output.push(value),
            ..self
        }
    }

    /// Whether a received byte waits in the receiver buffer.
    pub open spec fn data_ready(self) -> bool {
        self.line_status & LSR_DATA_READY != 0
    }

    /// The UART after `byte` has arrived on the line: if a byte was still
    /// waiting, line status records the overrun; then data is ready.
    pub open spec fn poll(self, byte: u8) -> UartState {
        let status = if self.data_ready() {
            self.line_status | LSR_BUFFER_OVERRUN
        } else {
            self.line_status
        };
        UartState { receiver_buffer: byte, line_status: status | LSR_DATA_READY, ..self }
    }

    /// A read of `width` bytes at register address `address` over the bus.
    ///
    /// Only single bytes can be read. The transmitter holding register's
    /// address reads the receiver buffer. The receiver buffer can be read
    /// only while data is ready, and reading it clears line status.
    pub open spec fn bus_read(self, address: usize, width: nat) -> BusAccess<UartState> {
        if width != 1 {
            spec_refused(
                self,
                ErrorKind::UnsupportedRead,
                "multi-byte reads are not implemented yet",
            )
        } else {
            match spec_register_at(address) {
                None => spec_refused(
                    self,
                    ErrorKind::OutOfBounds,
                    "the UART has no register at this address",
                ),
                Some(RegisterAddress::ReceiverBuffer) | Some(
                    RegisterAddress::TransmitterHolding,
                ) => {
                    if self.data_ready() {
                        BusAccess {
                            result: Ok(self.receiver_buffer as nat),
                            state: UartState { line_status: 0, ..self },
                        }
                    } else {
                        spec_refused(self, ErrorKind::NoData, "the receiver buffer is empty")
                    }
                },
                Some(register) => BusAccess {
                    result: Ok(self.read_at(register).unwrap() as nat),
                    state: self,
                },
            }
        }
    }

    /// A write of the number `value` in `width` bytes at register address
    /// `address` over the bus.
    ///
    /// Only single bytes can be written. The receiver buffer's address
    /// writes the transmitter holding register, and a byte written there is
    /// transmitted. A read-only register refuses the write.
    pub open spec fn bus_write(self, address: usize, value: nat, width: nat) -> BusAccess<
        UartState,
    > {
        if width != 1 {
            spec_refused(
                self,
                ErrorKind::Unimplemented,
                "multi-byte writes are not implemented yet",
            )
        } else {
            match spec_register_at(address) {
                None => spec_refused(
                    self,
                    ErrorKind::OutOfBounds,
                    "the UART has no register at this address",
                ),
                Some(RegisterAddress::ReceiverBuffer) | Some(
                    RegisterAddress::TransmitterHolding,
                ) => BusAccess { result: Ok(0nat), state: self.transmit((value % 256) as u8) },
                Some(register) => {
                    if Self::writable(register) {
                        BusAccess {
                            result: Ok(0nat),
                            state: self.write_at(register, (value % 256) as u8),
                        }
                    } else {
                        BusAccess { result: Err(spec_bus_error(Error::DisallowedWrite)), state: self }
                    }
                },
            }
        }
    }
}

impl View for Uart {
    type V = UartState;

    closed spec fn view(&self) -> UartState {
        UartState {
            receiver_buffer: self.registers.receiver_buffer@,
            transmitter_holding: self.registers.transmitter_holding@,
            interrupt_enable: self.registers.interrupt_enable@,
            interrupt_ident: self.registers.interrupt_ident@,
            line_control: self.registers.line_control@,
            modem_control: self.registers.modem_control@,
            line_status: self.registers.line_status@,
            modem_status: self.registers.modem_status@,
            scratch: self.registers.scratch@,
            divisor_latch_ls: self.registers.divisor_latch_ls@,
            divisor_latch_ms: self.registers.divisor_latch_ms@,
            output: self.output@,
        }
    }
}

impl Uart {
    /// A UART after reset that appends what it transmits to `output`.
    pub fn new(output: Vec<u8>) -> (uart: Self)
        ensures
            uart@ == UartState::reset(output@),
    {
        Self { registers: UartRegisters::reset(), output }
    }

    /// Reads the register at `address`.
    pub fn read_at(&self, address: RegisterAddress) -> (result: Result<u8, Error>)
        ensures
            result == self@.read_at(address),
    {
        match address {
            RegisterAddress::ReceiverBuffer => Ok(self.registers.receiver_buffer.read()),
            RegisterAddress::TransmitterHolding => Err(Error::DisallowedRead),
            RegisterAddress::InterruptEnable => Ok(self.registers.interrupt_enable.read()),
            RegisterAddress::InterruptIdent => Ok(self.registers.interrupt_ident.read()),
            RegisterAddress::LineControl => Ok(self.registers.line_control.read()),
            RegisterAddress::ModemControl => Ok(self.registers.modem_control.read()),
            RegisterAddress::LineStatus => Ok(self.registers.line_status.read()),
            RegisterAddress::ModemStatus => Ok(self.registers.modem_status.read()),
            RegisterAddress::Scratch => Ok(self.registers.scratch.read()),
        }
    }

    /// Writes `value` to the register at `address`, unless it is
    /// read-only.
    pub fn write_at(&mut self, address: RegisterAddress, value: u8) -> (result: Result<(), Error>)
        ensures
            UartState::writable(address) ==> result == Ok::<(), Error>(()),
            !UartState::writable(address) ==> result == Err::<(), Error>(Error::DisallowedWrite),
            final(self)@ == old(self)@.write_at(address, value),
    {
        match address {
            RegisterAddress::ReceiverBuffer => Err(Error::DisallowedWrite),
            RegisterAddress::TransmitterHolding => {
                self.registers.transmitter_holding.write(value);
                Ok(())
            },
            RegisterAddress::InterruptEnable => {
                self.registers.interrupt_enable.write(value);
                Ok(())
            },
            RegisterAddress::InterruptIdent => Err(Error::DisallowedWrite),
            RegisterAddress::LineControl => {
                self.registers.line_control.write(value);
                Ok(())
            },
            RegisterAddress::ModemControl => {
                self.registers.modem_control.write(value);
                Ok(())
            },
            RegisterAddress::LineStatus => Err(Error::DisallowedWrite),
            RegisterAddress::ModemStatus => Err(Error::DisallowedWrite),
            RegisterAddress::Scratch => {
                self.registers.scratch.write(value);
                Ok(())
            },
        }
    }

    /// Takes in `byte` from the line.
    pub fn poll(&mut self, byte: u8)
        ensures
            final(self)@ == old(self)@.poll(byte),
    {
        let mut status = self.registers.line_status.read();
        if status & LSR_DATA_READY != 0 {
            status = status | LSR_BUFFER_OVERRUN;
        }
        self.registers.line_status.write(status | LSR_DATA_READY);
        self.registers.receiver_buffer.bits = byte;
    }

    /// The word length that line control sets, in bits.
    pub fn word_length(&self) -> (length: u8)
        ensures
            Ok::<u8, Error>(length) == spec_character_length(self@.line_control & 0b11),
    {
        let control = self.registers.line_control.read();
        let code = control & 0b11;
        assert(code <= 3) by (bit_vector)
            requires
                code == control & 0b11,
        ;
        match character_length(code) {
            Ok(length) => length,
            Err(_) => 8,
        }
    }

    /// The stop bits that line control sets.
    pub fn stop_bits(&self) -> (bits: StopBits)
        ensures
            spec_character_length(self@.line_control & 0b11) matches Ok(length) && Ok::<
                StopBits,
                Error,
            >(bits) == spec_stop_bits(self@.line_control & LCR_STOP_BITS, length),
    {
        let length = self.word_length();
        let control = self.registers.line_control.read();
        let mask = control & LCR_STOP_BITS;
        assert(mask == 0 || mask == 4) by (bit_vector)
            requires
                mask == control & 4,
        ;
        match stop_bits(mask, length) {
            Ok(bits) => bits,
            Err(_) => StopBits::One,
        }
    }

    /// The bytes transmitted so far.
    pub fn output(&self) -> (output: &Vec<u8>)
        ensures
            output@ == self@.output,
    {
        &self.output
    }

    /// Hands out the bytes transmitted so far and empties the sink.
    pub fn take_output(&mut self) -> (output: Vec<u8>)
        ensures
            output@ == old(self)@.output,
            final(self)@ == (UartState { output: Seq::empty(), ..old(self)@ }),
    {
        let mut output = Vec::new();
        core::mem::swap(&mut output, &mut self.output);
        output
    }
}

impl Bus for Uart {
    open spec fn spec_read(state: UartState, address: usize, width: nat) -> BusAccess<UartState> {
        state.bus_read(address, width)
    }

    open spec fn spec_write(state: UartState, address: usize, value: nat, width: nat) -> BusAccess<
        UartState,
    > {
        state.bus_write(address, value, width)
    }

    /// Reads one byte at a register address.
    fn read<T, const T_SIZE: usize>(&mut self, address: usize) -> (result: Result<
        T,
        bus::Error,
    >) where T: LeBytes<T_SIZE> {
        if T_SIZE != 1 {
            return Err(
                bus::Error::new(
                    ErrorKind::UnsupportedRead,
                    "multi-byte reads are not implemented yet",
                ),
            );
        }
        let mut address = match RegisterAddress::try_from(address) {
            Ok(address) => address,
            Err(error) => {
                return Err(error.bus_error());
            },
        };
        if address == RegisterAddress::TransmitterHolding {
            address = RegisterAddress::ReceiverBuffer;
        }
        if address == RegisterAddress::ReceiverBuffer && self.registers.line_status.read()
            & LSR_DATA_READY == 0 {
            return Err(bus::Error::new(ErrorKind::NoData, "the receiver buffer is empty"));
        }
        let byte = match self.read_at(address) {
            Ok(byte) => byte,
            Err(error) => {
                return Err(error.bus_error());
            },
        };
        if address == RegisterAddress::ReceiverBuffer {
            self.registers.line_status.write(0);
        }
        let mut return_bytes = [0u8; T_SIZE];
        return_bytes[0] = byte;
        proof {
            lemma_decode_le_fixed(return_bytes@);
        }
        Ok(T::from_le_bytes(return_bytes))
    }

    /// Writes one byte at a register address.
    fn write<T, const T_SIZE: usize>(&mut self, address: usize, value: T) -> (result: Result<
        (),
        bus::Error,
    >) where T: LeBytes<T_SIZE> {
        let bytes = value.to_le_bytes();
        if T_SIZE != 1 {
            return Err(
                bus::Error::new(
                    ErrorKind::Unimplemented,
                    "multi-byte writes are not implemented yet",
                ),
            );
        }
        let mut address = match RegisterAddress::try_from(address) {
            Ok(address) => address,
            Err(error) => {
                return Err(error.bus_error());
            },
        };
        if address == RegisterAddress::ReceiverBuffer {
            address = RegisterAddress::TransmitterHolding;
        }
        let byte = bytes[0];
        match self.write_at(address, byte) {
            Ok(()) => {},
            Err(error) => {
                return Err(error.bus_error());
            },
        }
        if address == RegisterAddress::TransmitterHolding {
            self.registers.receiver_buffer.bits = byte;
            let status = self.registers.line_status.read();
            self.registers.line_status.write(status | LSR_DATA_READY);
            self.output.push(byte);
        }
        Ok(())
    }
}

/// After reset, line control holds `0b11`, which stands for eight-bit
/// words.
pub proof fn lemma_reset_line_control(output: Seq<u8>)
    ensures
        UartState::reset(output).line_control == 0b11,
        spec_character_length(UartState::reset(output).line_control & 0b11) == Ok::<u8, Error>(8),
{
    assert(0b11u8 & 0b11u8 == 3u8) by (bit_vector);
}

/// A read of the receiver buffer while no data is ready gives `NoData`,
/// and changes nothing.
pub proof fn lemma_read_without_data(uart: UartState)
    requires
        !uart.data_ready(),
    ensures
        uart.bus_read(0, 1) == spec_refused(uart, ErrorKind::NoData, "the receiver buffer is empty"),
{
}

/// A byte written at the receiver buffer's address goes to the
/// transmitter holding register, is mirrored in the receiver buffer and
/// appended to the output, and leaves data ready.
pub proof fn lemma_write_transmits(uart: UartState, byte: u8)
    ensures
        uart.bus_write(0, byte as nat, 1).result is Ok,
        uart.bus_write(0, byte as nat, 1).state.transmitter_holding == byte,
        uart.bus_write(0, byte as nat, 1).state.receiver_buffer == byte,
        uart.bus_write(0, byte as nat, 1).state.output == uart.output.push(byte),
        uart.bus_write(0, byte as nat, 1).state.data_ready(),
{
    let status = uart.line_status;
    assert((status | 1u8) & 1u8 != 0u8) by (bit_vector);
}

/// The read that follows a write at the receiver buffer's address returns
/// the byte written and clears line status, so that a second read finds
/// no data.
pub proof fn lemma_write_then_read(uart: UartState, byte: u8)
    ensures
        uart.bus_write(0, byte as nat, 1).state.bus_read(0, 1).result == Ok::<nat, ErrorView>(
            byte as nat,
        ),
        uart.bus_write(0, byte as nat, 1).state.bus_read(0, 1).state.line_status == 0,
        uart.bus_write(0, byte as nat, 1).state.bus_read(0, 1).state.bus_read(0, 1).result is Err,
{
    lemma_write_transmits(uart, byte);
    assert(0u8 & 1u8 == 0u8) by (bit_vector);
}

/// A byte that arrives while data is ready is recorded as an overrun, and
/// data stays ready.
pub proof fn lemma_poll_overrun(uart: UartState, byte: u8)
    requires
        uart.data_ready(),
    ensures
        uart.poll(byte).line_status & LSR_BUFFER_OVERRUN != 0,
        uart.poll(byte).data_ready(),
        uart.poll(byte).receiver_buffer == byte,
{
    let status = uart.line_status;
    assert(((status | 2u8) | 1u8) & 2u8 != 0u8) by (bit_vector);
    assert(((status | 2u8) | 1u8) & 1u8 != 0u8) by (bit_vector);
}

/// An access of any width but one byte is refused, a read as
/// `UnsupportedRead` and a write as `Unimplemented`, and changes nothing.
pub proof fn lemma_wide_access(uart: UartState, address: usize, value: nat, width: nat)
    requires
        width != 1,
    ensures
        uart.bus_read(address, width) == spec_refused(
            uart,
            ErrorKind::UnsupportedRead,
            "multi-byte reads are not implemented yet",
        ),
        uart.bus_write(address, value, width) == spec_refused(
            uart,
            ErrorKind::Unimplemented,
            "multi-byte writes are not implemented yet",
        ),
{
}

} // verus!
