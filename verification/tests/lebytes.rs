use riscv_emu::bitfield::{field, mask, sign_extend};
use riscv_emu::lebytes::LeBytes;

#[test]
fn bytes_come_least_significant_first() {
    assert_eq!(LeBytes::to_le_bytes(0xabu8), [0xab]);
    assert_eq!(LeBytes::to_le_bytes(0x1234u16), [0x34, 0x12]);
    assert_eq!(LeBytes::to_le_bytes(0x1234_5678u32), [0x78, 0x56, 0x34, 0x12]);
    assert_eq!(
        LeBytes::to_le_bytes(0x0102_0304_0506_0708u64),
        [0x08, 0x07, 0x06, 0x05, 0x04, 0x03, 0x02, 0x01]
    );
}

#[test]
fn values_are_assembled_from_the_low_byte_up() {
    assert_eq!(<u8 as LeBytes<1>>::from_le_bytes([0xab]), 0xab);
    assert_eq!(<u16 as LeBytes<2>>::from_le_bytes([0x34, 0x12]), 0x1234);
    assert_eq!(<u32 as LeBytes<4>>::from_le_bytes([0x78, 0x56, 0x34, 0x12]), 0x1234_5678);
    assert_eq!(
        <u64 as LeBytes<8>>::from_le_bytes([0x08, 0x07, 0x06, 0x05, 0x04, 0x03, 0x02, 0x01]),
        0x0102_0304_0506_0708
    );
}

#[test]
fn encoding_agrees_with_the_standard_library() {
    for v in [0u64, 1, 0x80, 0xff, 0x100, 0xdead_beef, u64::MAX, 0x8000_0000_0000_0000] {
        assert_eq!(LeBytes::to_le_bytes(v), u64::to_le_bytes(v));
        assert_eq!(LeBytes::to_le_bytes(v as u32), u32::to_le_bytes(v as u32));
        assert_eq!(LeBytes::to_le_bytes(v as u16), u16::to_le_bytes(v as u16));
        assert_eq!(LeBytes::to_le_bytes(v as u8), u8::to_le_bytes(v as u8));
    }
}

#[test]
fn decoding_an_encoding_gives_the_value_back() {
    for v in [0u64, 1, 0x7f, 0x80, 0xff, 0x1234, 0xffff, 0x8000_0000, u64::MAX] {
        assert_eq!(<u64 as LeBytes<8>>::from_le_bytes(LeBytes::to_le_bytes(v)), v);
        let w = v as u32;
        assert_eq!(<u32 as LeBytes<4>>::from_le_bytes(LeBytes::to_le_bytes(w)), w);
        let h = v as u16;
        assert_eq!(<u16 as LeBytes<2>>::from_le_bytes(LeBytes::to_le_bytes(h)), h);
        let b = v as u8;
        assert_eq!(<u8 as LeBytes<1>>::from_le_bytes(LeBytes::to_le_bytes(b)), b);
    }
}

#[test]
fn every_byte_and_halfword_survives_the_round_trip() {
    for b in 0..=u8::MAX {
        assert_eq!(<u8 as LeBytes<1>>::from_le_bytes(LeBytes::to_le_bytes(b)), b);
    }
    for h in 0..=u16::MAX {
        assert_eq!(<u16 as LeBytes<2>>::from_le_bytes(LeBytes::to_le_bytes(h)), h);
    }
}

#[test]
fn mask_selects_the_bits_between_its_bounds() {
    assert_eq!(mask(5, 0), 0x3f);
    assert_eq!(mask(31, 0), 0xffff_ffff);
    assert_eq!(mask(10, 10), 0x400);
    assert_eq!(mask(63, 1), 0xffff_ffff_ffff_fffe);
    assert_eq!(mask(63, 0), u64::MAX);
    assert_eq!(mask(63, 63), 0x8000_0000_0000_0000);
    assert_eq!(mask(0, 0), 1);
    assert_eq!(mask(11, 7), 0xf80);
}

#[test]
fn field_extracts_bits_as_a_number() {
    assert_eq!(field(0xFE010113, 6, 0), 0x13);
    assert_eq!(field(0xFE010113, 11, 7), 2);
    assert_eq!(field(0xFE010113, 19, 15), 2);
    assert_eq!(field(0xFE010113, 31, 20), 0xfe0);
    assert_eq!(field(0xFE010113, 31, 0), 0xFE010113);
    assert_eq!(field(0x8000_0000, 31, 31), 1);
    assert_eq!(field(0x7fff_ffff, 31, 31), 0);
}

#[test]
fn sign_extend_reads_twos_complement() {
    assert_eq!(sign_extend(0xfff, 11), -1);
    assert_eq!(sign_extend(0x7ff, 11), 2047);
    assert_eq!(sign_extend(0x800, 11), -2048);
    assert_eq!(sign_extend(0x1000, 12), -4096);
    assert_eq!(sign_extend(0xffff_f800, 11), -2048);
    assert_eq!(sign_extend(0xffff_ffff, 31), -1);
    assert_eq!(sign_extend(0x8000_0000, 31), i32::MIN);
    assert_eq!(sign_extend(0x7fff_ffff, 31), i32::MAX);
    assert_eq!(sign_extend(1, 0), -1);
    assert_eq!(sign_extend(2, 0), 0);
    assert_eq!(sign_extend(0x10_0000, 20), -1048576);
}
