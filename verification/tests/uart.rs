use riscv_emu::bus::{Bus, Error, ErrorKind};
use riscv_emu::uart::{
    character_length, stop_bits, AddressConvertError, RegisterAddress, StopBits, Uart,
    LSR_BUFFER_OVERRUN, LSR_DATA_READY,
};

#[test]
fn reading_from_address_0_returns_receiver_buffer_register_value() {
    let expected = 27u8;
    let stdout: Vec<u8> = Vec::new();
    let mut uart = Uart::new(stdout);
    uart.write(RegisterAddress::ReceiverBuffer.into(), expected).unwrap();

    let actual: u8 = uart.read(0).unwrap();

    assert_eq!(expected, actual);
}

#[test]
fn writing_to_address_0_sets_transmitter_holding_register() {
    let mock_stdout: Vec<u8> = Vec::new();
    let mut uart = Uart::new(mock_stdout);
    let expected = b'f';

    uart.write(0usize, expected).unwrap();

    let actual: u8 = uart.read(RegisterAddress::TransmitterHolding.into()).unwrap();
    assert_eq!(expected, actual);
}

#[test]
fn writing_receiver_buffer_register_also_sets_transmitter_holding_register() {
    let stdout: Vec<u8> = Vec::new();
    let mut uart = Uart::new(stdout);
    let expected = b'a';

    uart.write(RegisterAddress::ReceiverBuffer.into(), expected).unwrap();
    let actual = uart.read::<u8, 1>(RegisterAddress::TransmitterHolding.into()).unwrap();

    assert_eq!(expected, actual);
}

#[test]
fn writing_multiple_bytes_causes_bus_error() {
    let stdout: Vec<u8> = Vec::new();
    let mut uart = Uart::new(stdout);
    let expected = Err(Error::new(
        ErrorKind::Unimplemented,
        "multi-byte writes are not implemented yet",
    ));

    let res = uart.write(RegisterAddress::TransmitterHolding.into(), 0b00000001_00000001u16);

    assert_eq!(res, expected);
}

#[test]
fn reading_multiple_bytes_causes_bus_error() {
    let stdout: Vec<u8> = Vec::new();
    let mut uart = Uart::new(stdout);
    let expected = Err(Error::new(
        ErrorKind::UnsupportedRead,
        "multi-byte reads are not implemented yet",
    ));

    let res = uart.read::<u16, 2>(RegisterAddress::TransmitterHolding.into());

    assert_eq!(res, expected);
}

#[test]
fn writing_bytes_forwards_them_to_the_output_in_order() {
    let mut uart = Uart::new(Vec::new());
    let bytes: Vec<u8> = "Hello, World!".bytes().collect();

    for byte in &bytes {
        uart.write(RegisterAddress::TransmitterHolding.into(), *byte).unwrap();
    }

    let expected = String::from_utf8(bytes).unwrap();
    let actual = String::from_utf8(uart.output().clone()).unwrap();
    assert_eq!(expected, actual);
}

#[test]
fn output_given_at_construction_is_kept_in_front() {
    let mut uart = Uart::new(vec![b'>']);
    uart.write(0usize, b'x').unwrap();
    assert_eq!(uart.output(), &vec![b'>', b'x']);
}

#[test]
fn take_output_drains_the_sink() {
    let mut uart = Uart::new(Vec::new());
    uart.write(0usize, b'o').unwrap();
    uart.write(0usize, b'k').unwrap();
    assert_eq!(uart.take_output(), vec![b'o', b'k']);
    assert_eq!(uart.output().len(), 0);
    uart.write(0usize, b'!').unwrap();
    assert_eq!(uart.take_output(), vec![b'!']);
}

#[test]
fn line_control_is_eight_bit_words_after_reset() {
    let uart = Uart::new(Vec::new());
    assert_eq!(uart.read_at(RegisterAddress::LineControl), Ok(0b11));
    assert_eq!(uart.word_length(), 8);
    assert_eq!(uart.stop_bits(), StopBits::One);
}

#[test]
fn reading_empty_receiver_buffer_gives_no_data() {
    let mut uart = Uart::new(Vec::new());
    let res = uart.read::<u8, 1>(0);
    assert_eq!(res, Err(Error::new(ErrorKind::NoData, "the receiver buffer is empty")));
    assert_eq!(res.unwrap_err().kind(), ErrorKind::NoData);
}

#[test]
fn write_sets_data_ready_and_read_clears_line_status() {
    let mut uart = Uart::new(Vec::new());
    assert_eq!(uart.read_at(RegisterAddress::LineStatus), Ok(0));

    uart.write(RegisterAddress::ReceiverBuffer.into(), 0x41u8).unwrap();
    assert_eq!(uart.read_at(RegisterAddress::LineStatus), Ok(LSR_DATA_READY));
    assert_eq!(uart.read_at(RegisterAddress::ReceiverBuffer), Ok(0x41));
    assert_eq!(uart.output(), &vec![0x41u8]);

    let byte: u8 = uart.read(0).unwrap();
    assert_eq!(byte, 0x41);
    assert_eq!(uart.read_at(RegisterAddress::LineStatus), Ok(0));

    let again = uart.read::<u8, 1>(0);
    assert_eq!(again.unwrap_err().kind(), ErrorKind::NoData);
}

#[test]
fn poll_with_data_ready_sets_buffer_overrun() {
    let mut uart = Uart::new(Vec::new());
    uart.poll(b'a');
    assert_eq!(uart.read_at(RegisterAddress::LineStatus), Ok(LSR_DATA_READY));
    assert_eq!(uart.read_at(RegisterAddress::ReceiverBuffer), Ok(b'a'));

    uart.poll(b'b');
    assert_eq!(
        uart.read_at(RegisterAddress::LineStatus),
        Ok(LSR_DATA_READY | LSR_BUFFER_OVERRUN)
    );
    assert_eq!(uart.read_at(RegisterAddress::ReceiverBuffer), Ok(b'b'));

    let byte: u8 = uart.read(0).unwrap();
    assert_eq!(byte, b'b');
    assert_eq!(uart.read_at(RegisterAddress::LineStatus), Ok(0));
    assert_eq!(uart.output().len(), 0);
}

#[test]
fn wide_accesses_leave_the_uart_as_it_was() {
    let mut uart = Uart::new(Vec::new());
    let before = Uart::new(Vec::new());
    assert!(uart.write(0usize, 0x0102_0304u32).is_err());
    assert!(uart.write(0usize, 0x0102_0304_0506_0708u64).is_err());
    assert!(uart.read::<u32, 4>(0).is_err());
    assert!(uart.read::<u64, 8>(0).is_err());
    assert_eq!(uart, before);
}

#[test]
fn registers_that_take_writes_read_back() {
    let mut uart = Uart::new(Vec::new());
    for (address, value) in [
        (RegisterAddress::InterruptEnable, 0x0fu8),
        (RegisterAddress::LineControl, 0x1b),
        (RegisterAddress::ModemControl, 0x03),
        (RegisterAddress::Scratch, 0xa5),
    ] {
        uart.write(address.into(), value).unwrap();
        let back: u8 = uart.read(address.into()).unwrap();
        assert_eq!(back, value);
        assert_eq!(uart.read_at(address), Ok(value));
    }
    // None of these was transmitted.
    assert_eq!(uart.output().len(), 0);
    assert_eq!(uart.read_at(RegisterAddress::LineStatus), Ok(0));
}

#[test]
fn read_only_registers_refuse_writes() {
    let mut uart = Uart::new(Vec::new());
    for address in [
        RegisterAddress::InterruptIdent,
        RegisterAddress::LineStatus,
        RegisterAddress::ModemStatus,
    ] {
        assert_eq!(uart.write_at(address, 1), Err(riscv_emu::uart::Error::DisallowedWrite));
        let res = uart.write(address.into(), 1u8);
        assert_eq!(
            res,
            Err(Error::new(ErrorKind::DisallowedWrite, "the register is read-only"))
        );
        assert_eq!(uart.read_at(address), Ok(0));
    }
    assert_eq!(
        uart.write_at(RegisterAddress::ReceiverBuffer, 1),
        Err(riscv_emu::uart::Error::DisallowedWrite)
    );
    assert_eq!(uart, Uart::new(Vec::new()));
}

#[test]
fn transmitter_holding_is_write_only() {
    let mut uart = Uart::new(Vec::new());
    assert_eq!(uart.write_at(RegisterAddress::TransmitterHolding, 9), Ok(()));
    assert_eq!(
        uart.read_at(RegisterAddress::TransmitterHolding),
        Err(riscv_emu::uart::Error::DisallowedRead)
    );
    assert_eq!(
        riscv_emu::uart::Error::DisallowedRead.bus_error(),
        Error::new(ErrorKind::UnsupportedRead, "the register is write-only")
    );
}

#[test]
fn addresses_past_scratch_are_out_of_bounds() {
    let mut uart = Uart::new(Vec::new());
    assert_eq!(uart.read::<u8, 1>(9).unwrap_err().kind(), ErrorKind::OutOfBounds);
    assert_eq!(uart.write(9usize, 0u8).unwrap_err().kind(), ErrorKind::OutOfBounds);
    assert_eq!(RegisterAddress::try_from(9usize), Err(AddressConvertError));
    assert_eq!(AddressConvertError.bus_error().kind(), ErrorKind::OutOfBounds);
}

#[test]
fn register_addresses_follow_the_order_of_the_list() {
    let all = [
        RegisterAddress::ReceiverBuffer,
        RegisterAddress::TransmitterHolding,
        RegisterAddress::InterruptEnable,
        RegisterAddress::InterruptIdent,
        RegisterAddress::LineControl,
        RegisterAddress::ModemControl,
        RegisterAddress::LineStatus,
        RegisterAddress::ModemStatus,
        RegisterAddress::Scratch,
    ];
    for (number, address) in all.iter().enumerate() {
        assert_eq!(usize::from(*address), number);
        assert_eq!(u8::from(*address) as usize, number);
        assert_eq!(RegisterAddress::try_from(number), Ok(*address));
    }
}

#[test]
fn character_length_follows_the_code() {
    assert_eq!(character_length(0), Ok(5));
    assert_eq!(character_length(1), Ok(6));
    assert_eq!(character_length(2), Ok(7));
    assert_eq!(character_length(3), Ok(8));
    assert_eq!(character_length(4), Err(riscv_emu::uart::Error::InvalidCharacterLength));
    assert_eq!(
        riscv_emu::uart::Error::InvalidCharacterLength.bus_error().kind(),
        ErrorKind::Unimplemented
    );
}

#[test]
fn stop_bits_follow_the_mask_and_the_length() {
    assert_eq!(stop_bits(0, 5), Ok(StopBits::One));
    assert_eq!(stop_bits(0, 8), Ok(StopBits::One));
    assert_eq!(stop_bits(4, 5), Ok(StopBits::OneAndHalf));
    assert_eq!(stop_bits(4, 6), Ok(StopBits::Two));
    assert_eq!(stop_bits(4, 8), Ok(StopBits::Two));
    assert_eq!(stop_bits(1, 8), Err(riscv_emu::uart::Error::InvalidStopBitMask));
    assert_eq!(
        riscv_emu::uart::Error::InvalidStopBitMask.bus_error().kind(),
        ErrorKind::Unimplemented
    );
}

#[test]
fn line_control_sets_word_length_and_stop_bits() {
    let mut uart = Uart::new(Vec::new());
    uart.write(RegisterAddress::LineControl.into(), 0b100u8).unwrap();
    assert_eq!(uart.word_length(), 5);
    assert_eq!(uart.stop_bits(), StopBits::OneAndHalf);
    uart.write(RegisterAddress::LineControl.into(), 0b110u8).unwrap();
    assert_eq!(uart.word_length(), 7);
    assert_eq!(uart.stop_bits(), StopBits::Two);
    uart.write(RegisterAddress::LineControl.into(), 0b1111_1001u8).unwrap();
    assert_eq!(uart.word_length(), 6);
    assert_eq!(uart.stop_bits(), StopBits::One);
}

#[test]
fn error_message_names_kind_and_details() {
    let error = Error::new(ErrorKind::NoData, "the receiver buffer is empty");
    assert_eq!(error.message(), "BusError NoData: the receiver buffer is empty");
    assert_eq!(error.details(), "the receiver buffer is empty");
    assert_eq!(ErrorKind::OutOfBounds.name(), "OutOfBounds");
}
