use riscv_emu::bus::{Bus, ErrorKind};
use riscv_emu::hart::Hart;
use riscv_emu::insn::{Insn, InsnType};
use riscv_emu::platform::{Memory, Platform, UART_BASE};
use riscv_emu::semantics::Trap;
use riscv_emu::uart::Uart;

const RAM: usize = 0x8000_0000;

fn machine() -> Platform {
    let mut platform = Platform {
        hart: Hart::default(),
        memory: Memory::new(RAM, 0x1000),
        uart: Uart::new(Vec::new()),
        uart_base: UART_BASE,
        reservation_sets: Vec::new(),
    };
    platform.hart.pc = 0x8000_0100;
    platform
}

fn run(platform: &mut Platform, word: u32) -> Insn {
    let mut insn = Insn::from(word);
    insn.handle(platform).unwrap();
    insn
}

fn registers(platform: &Platform) -> Vec<u64> {
    (0..32).map(|i| platform.hart.read_register(i)).collect()
}

#[test]
fn default_insn_is_blank() {
    let insn = Insn::default();
    assert_eq!(insn.name, "tba");
    assert_eq!(insn.insn_type, InsnType::Invalid);
    assert_eq!(
        (insn.opcode, insn.rd, insn.rs1, insn.rs2, insn.imm, insn.func3, insn.func7),
        (0, 0, 0, 0, 0, 0, 0)
    );
}

#[test]
fn decode_r_type() {
    let insn = Insn::from(0x402081b3);
    assert_eq!(insn.insn_type, InsnType::R);
    assert_eq!(insn.opcode, 0x33);
    assert_eq!((insn.rd, insn.rs1, insn.rs2), (3, 1, 2));
    assert_eq!((insn.func3, insn.func7), (0, 0x20));
    assert_eq!(insn.imm, 0);
    assert_eq!(insn.name, "tba");
}

#[test]
fn decode_i_type() {
    let insn = Insn::from(0xFE010113);
    assert_eq!(insn.insn_type, InsnType::I);
    assert_eq!(insn.opcode, 0x13);
    assert_eq!((insn.rd, insn.rs1, insn.rs2), (2, 2, 0));
    assert_eq!((insn.func3, insn.func7), (0, 0));
    assert_eq!(insn.imm, -32);
}

#[test]
fn decode_i_type_with_all_ones_immediate_is_minus_one() {
    for word in [0xfff08193u32, 0xfff0b193, 0xfffad1f3, 0xfff00003, 0xfff00067] {
        let insn = Insn::from(word);
        assert_eq!(insn.insn_type, InsnType::I);
        assert_eq!(insn.imm, -1);
    }
}

#[test]
fn decode_s_type() {
    let insn = Insn::from(0xfe209f23);
    assert_eq!(insn.insn_type, InsnType::S);
    assert_eq!(insn.opcode, 0x23);
    assert_eq!((insn.rd, insn.rs1, insn.rs2), (0, 1, 2));
    assert_eq!(insn.func3, 1);
    assert_eq!(insn.imm, -2);
    assert_eq!(Insn::from(0x0020b423).imm, 8);
}

#[test]
fn decode_b_type() {
    let insn = Insn::from(0xfe209ce3);
    assert_eq!(insn.insn_type, InsnType::B);
    assert_eq!((insn.rd, insn.rs1, insn.rs2), (0, 1, 2));
    assert_eq!(insn.func3, 1);
    assert_eq!(insn.imm, -8);
    assert_eq!(Insn::from(0x00208863).imm, 16);
    assert_eq!(Insn::from(0x0020c0e3).imm, 0x800);
    assert_eq!(Insn::from(0x7e20efe3).imm, 4094);
}

#[test]
fn decode_b_type_with_only_the_top_immediate_bit_is_minus_4096() {
    let insn = Insn::from(0x8020d063);
    assert_eq!(insn.insn_type, InsnType::B);
    assert_eq!(insn.imm, -4096);
    assert_eq!(Insn::from(0x80000063).imm, -4096);
}

#[test]
fn decode_u_type() {
    let insn = Insn::from(0x123452b7);
    assert_eq!(insn.insn_type, InsnType::U);
    assert_eq!(insn.opcode, 0x37);
    assert_eq!(insn.rd, 5);
    assert_eq!(insn.imm, 0x12345000);
    assert_eq!((insn.rs1, insn.rs2, insn.func3, insn.func7), (0, 0, 0, 0));
    assert_eq!(Insn::from(0xfffff317).imm, -4096);
    assert_eq!(Insn::from(0x800002b7u32).imm, i32::MIN);
}

#[test]
fn decode_j_type() {
    let insn = Insn::from(0x008000EF);
    assert_eq!(insn.insn_type, InsnType::J);
    assert_eq!(insn.rd, 1);
    assert_eq!(insn.imm, 8);
    assert_eq!(Insn::from(0xff1ff06f).imm, -16);
    assert_eq!(Insn::from(0xfffff0ef).imm, -2);
    assert_eq!(Insn::from(0x8000006f).imm, -1048576);
    assert_eq!(Insn::from(0x7ffff06f).imm, 1048574);
}

#[test]
fn decode_types_by_opcode() {
    assert_eq!(Insn::from(0x00000003).insn_type, InsnType::I);
    assert_eq!(Insn::from(0x0000000f).insn_type, InsnType::I);
    assert_eq!(Insn::from(0x00000073).insn_type, InsnType::I);
    assert_eq!(Insn::from(0x00000067).insn_type, InsnType::I);
    assert_eq!(Insn::from(0x0000001b).insn_type, InsnType::I);
    assert_eq!(Insn::from(0x0000101b).insn_type, InsnType::R);
    assert_eq!(Insn::from(0x0000501b).insn_type, InsnType::R);
    assert_eq!(Insn::from(0x0000002f).insn_type, InsnType::R);
    assert_eq!(Insn::from(0x0000003b).insn_type, InsnType::R);
    assert_eq!(Insn::from(0x00000017).insn_type, InsnType::U);
    assert_eq!(Insn::type_of(0x37, 0), InsnType::U);
    assert_eq!(Insn::type_of(0x1b, 0), InsnType::I);
    assert_eq!(Insn::type_of(0x1b, 5), InsnType::R);
}

#[test]
fn decode_unknown_opcode_is_invalid() {
    for word in [0u32, 0xffff_ffff, 0x0000_007f, 0x1234_5600, 0x0000_0053] {
        let insn = Insn::from(word);
        assert_eq!(insn.insn_type, InsnType::Invalid);
        assert_eq!(insn.opcode, word & 0x7f);
        assert_eq!(
            (insn.rd, insn.rs1, insn.rs2, insn.imm, insn.func3, insn.func7),
            (0, 0, 0, 0, 0, 0)
        );
    }
}

#[test]
fn parse_replaces_every_field_but_the_name() {
    let mut insn = Insn::from(0x402081b3);
    insn.name = "kept";
    insn.parse(0x008000EF);
    assert_eq!(insn.name, "kept");
    assert_eq!(insn.insn_type, InsnType::J);
    assert_eq!((insn.rd, insn.rs1, insn.rs2, insn.func3, insn.func7), (1, 0, 0, 0, 0));
    assert_eq!(insn.imm, 8);
    insn.parse(0xfe209ce3);
    assert_eq!(insn.imm, -8);
    assert_eq!(insn.rd, 0);
}

#[test]
fn nop_changes_only_the_pc() {
    let mut platform = machine();
    for i in 1..32 {
        platform.hart.write_register(i, 0x1000 + i as u64);
    }
    let before = registers(&platform);
    let insn = run(&mut platform, 0x00000013);
    assert_eq!(registers(&platform), before);
    assert_eq!(platform.hart.pc, 0x8000_0104);
    assert_eq!(insn.name, "nop");
}

#[test]
fn addi_x1_x0_1() {
    let mut platform = machine();
    let insn = run(&mut platform, 0x00100093);
    assert_eq!(platform.hart.read_register(1), 1);
    assert_eq!(platform.hart.pc, 0x8000_0104);
    assert_eq!(insn.name, "addi");
}

#[test]
fn add_x2_x1_x2() {
    let mut platform = machine();
    platform.hart.write_register(1, 5);
    platform.hart.write_register(2, 7);
    let insn = run(&mut platform, 0x00208133);
    assert_eq!(platform.hart.read_register(2), 12);
    assert_eq!(platform.hart.read_register(1), 5);
    assert_eq!(platform.hart.pc, 0x8000_0104);
    assert_eq!(insn.name, "add");
}

#[test]
fn addi_x2_x2_minus_32() {
    let mut platform = machine();
    platform.hart.write_register(2, 0x1000);
    run(&mut platform, 0xFE010113);
    assert_eq!(platform.hart.read_register(2), 0x0FE0);
    assert_eq!(platform.hart.pc, 0x8000_0104);
}

#[test]
fn auipc_x1_0() {
    let mut platform = machine();
    let insn = run(&mut platform, 0x00000097);
    assert_eq!(platform.hart.read_register(1), 0x8000_0100);
    assert_eq!(platform.hart.pc, 0x8000_0104);
    assert_eq!(insn.name, "auipc");
}

#[test]
fn jal_x1_8() {
    let mut platform = machine();
    let insn = run(&mut platform, 0x008000EF);
    assert_eq!(platform.hart.read_register(1), 0x8000_0104);
    assert_eq!(platform.hart.pc, 0x8000_0108);
    assert_eq!(insn.name, "jal");
}

#[test]
fn writes_to_x0_are_dropped() {
    let mut platform = machine();
    platform.hart.write_register(1, 5);
    run(&mut platform, 0x00108013); // addi x0, x1, 1
    assert_eq!(platform.hart.read_register(0), 0);
    run(&mut platform, 0xff1ff06f); // jal x0, -16
    assert_eq!(platform.hart.read_register(0), 0);
    assert_eq!(platform.hart.pc, 0x8000_0104 - 16);
}

#[test]
fn lui_and_auipc() {
    let mut platform = machine();
    assert_eq!(run(&mut platform, 0x123452b7).name, "lui");
    assert_eq!(platform.hart.read_register(5), 0x1234_5000);
    run(&mut platform, 0xfffff2b7);
    assert_eq!(platform.hart.read_register(5), 0xffff_ffff_ffff_f000);
    platform.hart.pc = 0x8000_0100;
    run(&mut platform, 0xfffff317);
    assert_eq!(platform.hart.read_register(6), 0x8000_0100 - 0x1000);
    assert_eq!(platform.hart.pc, 0x8000_0104);
}

#[test]
fn jalr_clears_bit_zero_and_links() {
    let mut platform = machine();
    platform.hart.write_register(2, 0x8000_0200);
    let insn = run(&mut platform, 0x005100e7); // jalr x1, 5(x2)
    assert_eq!(insn.name, "jalr");
    assert_eq!(platform.hart.pc, 0x8000_0204);
    assert_eq!(platform.hart.read_register(1), 0x8000_0104);

    // The base is read before the link is written.
    platform.hart.pc = 0x8000_0100;
    platform.hart.write_register(5, 0x8000_0300);
    run(&mut platform, 0xffc282e7); // jalr x5, -4(x5)
    assert_eq!(platform.hart.pc, 0x8000_02fc);
    assert_eq!(platform.hart.read_register(5), 0x8000_0104);
}

#[test]
fn branches_follow_their_comparison() {
    // (word, name, rs1, rs2, taken, offset)
    let minus_one = u64::MAX;
    let cases: [(u32, &str, u64, u64, bool, i64); 14] = [
        (0x00208863, "beq", 4, 4, true, 16),
        (0x00208863, "beq", 4, 5, false, 16),
        (0xfe209ce3, "bne", 4, 5, true, -8),
        (0xfe209ce3, "bne", 4, 4, false, -8),
        (0x0020c0e3, "blt", minus_one, 1, true, 0x800),
        (0x0020c0e3, "blt", 1, minus_one, false, 0x800),
        (0x0020c0e3, "blt", 1, 1, false, 0x800),
        (0x8020d063, "bge", 1, minus_one, true, -4096),
        (0x8020d063, "bge", 1, 1, true, -4096),
        (0x8020d063, "bge", minus_one, 1, false, -4096),
        (0x7e20efe3, "bltu", 1, minus_one, true, 4094),
        (0x7e20efe3, "bltu", minus_one, 1, false, 4094),
        (0x0020f663, "bgeu", minus_one, 1, true, 12),
        (0x0020f663, "bgeu", 1, minus_one, false, 12),
    ];
    for (word, name, rs1, rs2, taken, offset) in cases {
        let mut platform = machine();
        platform.hart.write_register(1, rs1);
        platform.hart.write_register(2, rs2);
        let insn = run(&mut platform, word);
        assert_eq!(insn.name, name);
        let expected = if taken { 0x8000_0100u64.wrapping_add_signed(offset) } else { 0x8000_0104 };
        assert_eq!(platform.hart.pc, expected, "{} {} {}", name, rs1, rs2);
        assert_eq!(platform.hart.read_register(1), rs1);
        assert_eq!(platform.hart.read_register(2), rs2);
    }
}

#[test]
fn taken_branch_with_zero_offset_stays() {
    let mut platform = machine();
    run(&mut platform, 0x00000063); // beq x0, x0, 0
    assert_eq!(platform.hart.pc, 0x8000_0100);
}

#[test]
fn register_immediate_operations() {
    // (word, name, rs1, expected rd)
    let cases: [(u32, &str, u64, u64); 16] = [
        (0xfff08193, "addi", 0, u64::MAX),
        (0xfff08193, "addi", 1, 0),
        (0x00008193, "mv", 0xabcd, 0xabcd),
        (0xfff0a193, "slti", 0x8000_0000_0000_0000, 1),
        (0xfff0a193, "slti", 0, 0),
        (0xfff0a193, "slti", u64::MAX, 0),
        (0xfff0b193, "sltiu", 5, 1),
        (0xfff0b193, "sltiu", u64::MAX, 0),
        (0xfff0c193, "xori", 0x0f0f, 0xffff_ffff_ffff_f0f0),
        (0x0f00e193, "ori", 0x0f0f, 0x0fff),
        (0x0ff0f193, "andi", 0x1234, 0x34),
        (0x03f09193, "slli", 3, 0x8000_0000_0000_0000),
        (0x0040d193, "srli", 0x8000_0000_0000_00f0, 0x0800_0000_0000_000f),
        (0x4040d193, "srai", 0x8000_0000_0000_00f0, 0xf800_0000_0000_000f),
        (0x4040d193, "srai", 0x70, 7),
        (0x0040d193, "srli", 0x70, 7),
    ];
    for (word, name, rs1, expected) in cases {
        let mut platform = machine();
        platform.hart.write_register(1, rs1);
        let insn = run(&mut platform, word);
        assert_eq!(insn.name, name);
        assert_eq!(platform.hart.read_register(3), expected, "{} {:x}", name, rs1);
        assert_eq!(platform.hart.read_register(1), rs1);
        assert_eq!(platform.hart.pc, 0x8000_0104);
    }
}

#[test]
fn an_instruction_may_write_the_register_it_reads() {
    let mut platform = machine();
    platform.hart.write_register(1, 1);
    run(&mut platform, 0x00108093); // addi x1, x1, 1
    assert_eq!(platform.hart.read_register(1), 2);
}

#[test]
fn word_immediate_operations_sign_extend() {
    // (word, name, rs1, expected rd)
    let cases: [(u32, &str, u64, u64); 9] = [
        (0x0010819b, "addiw", 0x7fff_ffff, 0xffff_ffff_8000_0000),
        (0x0010819b, "addiw", 0xffff_ffff, 0),
        (0x0010819b, "addiw", 0x1_0000_0005, 6),
        (0x0000819b, "sextw", 0x1234_5678_8765_4321, 0xffff_ffff_8765_4321),
        (0x0040919b, "slliw", 0xffff_ffff_0800_0001, 0xffff_ffff_8000_0010),
        (0x0040919b, "slliw", 0x0100_0001, 0x1000_0010),
        (0x0040d19b, "srliw", 0xffff_ffff_8000_0010, 0x0800_0001),
        (0x4040d19b, "sraiw", 0x8000_0010, 0xffff_ffff_f800_0001),
        (0x4040d19b, "sraiw", 0x4000_0010, 0x0400_0001),
    ];
    for (word, name, rs1, expected) in cases {
        let mut platform = machine();
        platform.hart.write_register(1, rs1);
        let insn = run(&mut platform, word);
        assert_eq!(insn.name, name);
        assert_eq!(platform.hart.read_register(3), expected, "{} {:x}", name, rs1);
        assert_eq!(platform.hart.pc, 0x8000_0104);
    }
}

#[test]
fn register_register_operations() {
    let big = 0x8000_0000_0000_0000u64;
    // (word, name, rs1, rs2, expected rd)
    let cases: [(u32, &str, u64, u64, u64); 17] = [
        (0x002081b3, "add", u64::MAX, 2, 1),
        (0x402081b3, "sub", 3, 5, u64::MAX - 1),
        (0x402081b3, "sub", 5, 3, 2),
        (0x002091b3, "sll", 1, 63, big),
        (0x002091b3, "sll", 1, 64 + 4, 16),
        (0x0020a1b3, "slt", u64::MAX, 0, 1),
        (0x0020a1b3, "slt", 0, u64::MAX, 0),
        (0x0020b1b3, "sltu", u64::MAX, 0, 0),
        (0x0020b1b3, "sltu", 0, u64::MAX, 1),
        (0x0020c1b3, "xor", 0xff00, 0x0ff0, 0xf0f0),
        (0x0020d1b3, "srl", big, 63, 1),
        (0x0020d1b3, "srl", big, 0x1_0000_003f, 1),
        (0x4020d1b3, "sra", big, 63, u64::MAX),
        (0x4020d1b3, "sra", 0x40, 4, 4),
        (0x0020e1b3, "or", 0xff00, 0x0ff0, 0xfff0),
        (0x0020f1b3, "and", 0xff00, 0x0ff0, 0x0f00),
        (0x0020f1b3, "and", u64::MAX, big, big),
    ];
    for (word, name, rs1, rs2, expected) in cases {
        let mut platform = machine();
        platform.hart.write_register(1, rs1);
        platform.hart.write_register(2, rs2);
        let insn = run(&mut platform, word);
        assert_eq!(insn.name, name);
        assert_eq!(platform.hart.read_register(3), expected, "{} {:x} {:x}", name, rs1, rs2);
        assert_eq!(platform.hart.read_register(1), rs1);
        assert_eq!(platform.hart.read_register(2), rs2);
        assert_eq!(platform.hart.pc, 0x8000_0104);
    }
}

#[test]
fn stores_write_the_low_bytes() {
    let value = 0x1122_3344_5566_7788u64;
    // (word, name, address, width)
    let cases: [(u32, &str, usize, usize); 4] = [
        (0x002080a3, "sb", RAM + 0x11, 1),
        (0xfe209f23, "sh", RAM + 0x0e, 2),
        (0x0020a223, "sw", RAM + 0x14, 4),
        (0x0020b423, "sd", RAM + 0x18, 8),
    ];
    for (word, name, address, width) in cases {
        let mut platform = machine();
        platform.hart.write_register(1, RAM as u64 + 0x10);
        platform.hart.write_register(2, value);
        let insn = run(&mut platform, word);
        assert_eq!(insn.name, name);
        for i in 0..16usize {
            let at = address - 4 + i;
            let byte: u8 = platform.read(at).unwrap();
            let expected = if at >= address && at < address + width {
                value.to_le_bytes()[at - address]
            } else {
                0
            };
            assert_eq!(byte, expected, "{} at offset {}", name, i);
        }
        assert_eq!(platform.hart.pc, 0x8000_0104);
    }
}

#[test]
fn loads_extend_what_they_read() {
    // (word, name, expected rd)
    let cases: [(u32, &str, u64); 7] = [
        (0x00008183, "lb", 0xffff_ffff_ffff_ff88),
        (0x00009183, "lh", 0xffff_ffff_ffff_9988),
        (0x0000a183, "lw", 0xffff_ffff_bbaa_9988),
        (0x0000b183, "ld", 0xffee_ddcc_bbaa_9988),
        (0x0000c183, "lbu", 0x88),
        (0x0000d183, "lhu", 0x9988),
        (0x0000e183, "lwu", 0xbbaa_9988),
    ];
    for (word, name, expected) in cases {
        let mut platform = machine();
        platform.write(RAM + 0x21, 0xffee_ddcc_bbaa_9988u64).unwrap();
        platform.hart.write_register(1, RAM as u64 + 0x21);
        let insn = run(&mut platform, word);
        assert_eq!(insn.name, name);
        assert_eq!(platform.hart.read_register(3), expected, "{}", name);
        assert_eq!(platform.hart.pc, 0x8000_0104);
    }
}

#[test]
fn loads_of_small_values_are_not_negative() {
    let mut platform = machine();
    platform.write(RAM + 0x20, 0x0000_0000_7f00_007fu64).unwrap();
    platform.hart.write_register(1, RAM as u64 + 0x20);
    run(&mut platform, 0x00008183);
    assert_eq!(platform.hart.read_register(3), 0x7f);
    run(&mut platform, 0x0000a183);
    assert_eq!(platform.hart.read_register(3), 0x7f00_007f);
    platform.hart.write_register(1, RAM as u64 + 0x28);
    run(&mut platform, 0xff80b183); // ld x3, -8(x1)
    assert_eq!(platform.hart.read_register(3), 0x7f00_007f);
}

#[test]
fn load_outside_every_device_traps() {
    let mut platform = machine();
    platform.hart.write_register(1, 0x4000);
    platform.hart.write_register(3, 99);
    let mut insn = Insn::from(0x0000b183);
    assert_eq!(
        insn.handle(&mut platform),
        Err(Trap::Bus { pc: 0x8000_0100, address: 0x4000, kind: ErrorKind::Unimplemented })
    );
    assert_eq!(insn.name, "ld");
    assert_eq!(platform.hart.read_register(3), 99);
    assert_eq!(platform.hart.pc, 0x8000_0100);
}

#[test]
fn load_across_the_end_of_memory_traps() {
    let mut platform = machine();
    platform.hart.write_register(1, RAM as u64 + 0xffc);
    let mut insn = Insn::from(0x0000b183);
    assert_eq!(
        insn.handle(&mut platform),
        Err(Trap::Bus { pc: 0x8000_0100, address: RAM + 0xffc, kind: ErrorKind::OutOfBounds })
    );
    let mut insn = Insn::from(0x0000a183);
    assert_eq!(insn.handle(&mut platform), Ok(()));
}

#[test]
fn store_outside_every_device_traps() {
    let mut platform = machine();
    platform.hart.write_register(1, 0x4000);
    let mut insn = Insn::from(0x0020b423);
    assert_eq!(
        insn.handle(&mut platform),
        Err(Trap::Bus { pc: 0x8000_0100, address: 0x4008, kind: ErrorKind::Unimplemented })
    );
    assert_eq!(platform.hart.pc, 0x8000_0100);
}

#[test]
fn store_to_the_uart_transmits() {
    let mut platform = machine();
    platform.hart.write_register(1, UART_BASE as u64 - 1);
    platform.hart.write_register(2, 0x1234_5641);
    run(&mut platform, 0x002080a3); // sb x2, 1(x1)
    assert_eq!(platform.uart.output(), &vec![0x41u8]);

    // A wider store is not taken.
    let mut insn = Insn::from(0x0020a223); // sw x2, 4(x1)
    platform.hart.write_register(1, UART_BASE as u64 - 4);
    assert_eq!(
        insn.handle(&mut platform),
        Err(Trap::Bus { pc: 0x8000_0104, address: UART_BASE, kind: ErrorKind::Unimplemented })
    );
    assert_eq!(platform.uart.output(), &vec![0x41u8]);
}

#[test]
fn load_from_the_uart_reads_the_receiver_buffer() {
    let mut platform = machine();
    platform.hart.write_register(1, UART_BASE as u64);
    let mut insn = Insn::from(0x0000c183); // lbu x3, 0(x1)
    assert_eq!(
        insn.handle(&mut platform),
        Err(Trap::Bus { pc: 0x8000_0100, address: UART_BASE, kind: ErrorKind::NoData })
    );
    platform.uart.poll(0xe9);
    run(&mut platform, 0x0000c183);
    assert_eq!(platform.hart.read_register(3), 0xe9);
    platform.uart.poll(0xe9);
    run(&mut platform, 0x00008183); // lb x3, 0(x1)
    assert_eq!(platform.hart.read_register(3), 0xffff_ffff_ffff_ffe9);
    platform.uart.poll(1);
    let mut insn = Insn::from(0x0000d183); // lhu x3, 0(x1)
    assert_eq!(
        insn.handle(&mut platform),
        Err(Trap::Bus { pc: 0x8000_0108, address: UART_BASE, kind: ErrorKind::UnsupportedRead })
    );
}

#[test]
fn csr_instructions() {
    let mut platform = machine();
    platform.hart.write_csr(0x300, 0xf0);
    platform.hart.write_register(1, 0x0f);

    assert_eq!(run(&mut platform, 0x300091f3).name, "csrrw");
    assert_eq!(platform.hart.read_register(3), 0xf0);
    assert_eq!(platform.hart.read_csr(0x300), 0x0f);

    platform.hart.write_register(1, 0x30);
    run(&mut platform, 0x30009073); // csrrw x0, 0x300, x1
    assert_eq!(platform.hart.read_csr(0x300), 0x30);
    assert_eq!(platform.hart.read_register(0), 0);

    platform.hart.write_register(1, 0x03);
    assert_eq!(run(&mut platform, 0x3000a1f3).name, "csrrs");
    assert_eq!(platform.hart.read_register(3), 0x30);
    assert_eq!(platform.hart.read_csr(0x300), 0x33);

    run(&mut platform, 0x300021f3); // csrrs x3, 0x300, x0
    assert_eq!(platform.hart.read_register(3), 0x33);
    assert_eq!(platform.hart.read_csr(0x300), 0x33);

    platform.hart.write_register(1, 0x21);
    assert_eq!(run(&mut platform, 0x3000b1f3).name, "csrrc");
    assert_eq!(platform.hart.read_register(3), 0x33);
    assert_eq!(platform.hart.read_csr(0x300), 0x12);

    assert_eq!(run(&mut platform, 0xfffad1f3).name, "csrrwi");
    assert_eq!(platform.hart.read_register(3), 0);
    assert_eq!(platform.hart.read_csr(0xfff), 21);

    assert_eq!(run(&mut platform, 0x3002e1f3).name, "csrrsi");
    assert_eq!(platform.hart.read_register(3), 0x12);
    assert_eq!(platform.hart.read_csr(0x300), 0x17);

    run(&mut platform, 0x300061f3); // csrrsi x3, 0x300, 0
    assert_eq!(platform.hart.read_register(3), 0x17);
    assert_eq!(platform.hart.read_csr(0x300), 0x17);

    assert_eq!(run(&mut platform, 0x3002f1f3).name, "csrrci");
    assert_eq!(platform.hart.read_register(3), 0x17);
    assert_eq!(platform.hart.read_csr(0x300), 0x12);
    assert_eq!(platform.hart.pc, 0x8000_0100 + 9 * 4);
}

#[test]
fn csr_swap_with_the_same_register() {
    let mut platform = machine();
    platform.hart.write_csr(0x300, 7);
    platform.hart.write_register(3, 9);
    run(&mut platform, 0x300191f3); // csrrw x3, 0x300, x3
    assert_eq!(platform.hart.read_register(3), 7);
    assert_eq!(platform.hart.read_csr(0x300), 9);
}

#[test]
fn fence_is_a_no_op() {
    let mut platform = machine();
    let before = registers(&platform);
    let insn = run(&mut platform, 0x0ff0000f);
    assert_eq!(insn.name, "fence");
    assert_eq!(registers(&platform), before);
    assert_eq!(platform.hart.pc, 0x8000_0104);
}

#[test]
fn unsupported_encodings_trap_and_change_nothing() {
    for word in [
        0x0020a663u32, // branch, func3 2
        0x0010a19b,    // 32-bit immediate, func3 2
        0x0020c423,    // store, func3 4
        0x0000f183,    // load, func3 7
        0x00000073,    // system, func3 0
        0x8020b1af,    // amomin.d
        0x002081af,    // atomic, func3 0
        0x002081bb,    // 32-bit register-register
        0x00000000,
        0xffffffff,
    ] {
        let mut platform = machine();
        platform.hart.write_register(1, RAM as u64 + 0x40);
        platform.hart.write_register(2, 3);
        let before = registers(&platform);
        let mut insn = Insn::from(word);
        assert_eq!(
            insn.handle(&mut platform),
            Err(Trap::Unimplemented { pc: 0x8000_0100 }),
            "{:08x}",
            word
        );
        assert_eq!(insn.name, "tba");
        assert_eq!(registers(&platform), before);
        assert_eq!(platform.hart.pc, 0x8000_0100);
        assert_eq!(platform.reservation_sets.len(), 0);
        let word_in_memory: u64 = platform.read(RAM + 0x40).unwrap();
        assert_eq!(word_in_memory, 0);
    }
}

#[test]
fn load_reserved_then_store_conditional() {
    let mut platform = machine();
    platform.write(RAM + 0x40, 0x8000_0001u32).unwrap();
    platform.hart.write_register(1, RAM as u64 + 0x40);
    platform.hart.write_register(2, 0x1_2222_3333);

    assert_eq!(run(&mut platform, 0x1000a1af).name, "lr");
    assert_eq!(platform.hart.read_register(3), 0xffff_ffff_8000_0001);
    assert_eq!(platform.reservation_sets.len(), 1);
    assert!(platform.reservation_sets[0].valid);
    assert_eq!(platform.reservation_sets[0].address, RAM + 0x40);
    assert_eq!(platform.reservation_sets[0].size, 4);

    assert_eq!(run(&mut platform, 0x1820a1af).name, "sc");
    assert_eq!(platform.hart.read_register(3), 0);
    let stored: u64 = platform.read(RAM + 0x40).unwrap();
    assert_eq!(stored, 0x2222_3333);
    assert!(!platform.reservation_sets[0].valid);

    // The reservation is used up: a second store-conditional fails.
    platform.hart.write_register(2, 0x4444);
    run(&mut platform, 0x1820a1af);
    assert_eq!(platform.hart.read_register(3), 1);
    let stored: u64 = platform.read(RAM + 0x40).unwrap();
    assert_eq!(stored, 0x2222_3333);
}

#[test]
fn store_conditional_without_reservation_fails() {
    let mut platform = machine();
    platform.hart.write_register(1, RAM as u64 + 0x40);
    platform.hart.write_register(2, 0x4444);
    run(&mut platform, 0x1820b1af); // sc.d
    assert_eq!(platform.hart.read_register(3), 1);
    let stored: u64 = platform.read(RAM + 0x40).unwrap();
    assert_eq!(stored, 0);
    assert_eq!(platform.hart.pc, 0x8000_0104);
}

#[test]
fn store_conditional_elsewhere_fails_and_keeps_the_reservation() {
    let mut platform = machine();
    platform.hart.write_register(1, RAM as u64 + 0x40);
    run(&mut platform, 0x1600b1af); // lr.d.aqrl x3, (x1)
    assert_eq!(platform.reservation_sets[0].size, 8);
    platform.hart.write_register(1, RAM as u64 + 0x48);
    platform.hart.write_register(2, 5);
    run(&mut platform, 0x1820b1af); // sc.d
    assert_eq!(platform.hart.read_register(3), 1);
    assert!(platform.reservation_sets[0].valid);
    platform.hart.write_register(1, RAM as u64 + 0x44);
    run(&mut platform, 0x1820a1af); // sc.w inside the reserved doubleword
    assert_eq!(platform.hart.read_register(3), 0);
    let stored: u64 = platform.read(RAM + 0x40).unwrap();
    assert_eq!(stored, 0x5_0000_0000);
}

#[test]
fn load_reserved_outside_memory_traps_without_reserving() {
    let mut platform = machine();
    platform.hart.write_register(1, 0x10);
    let mut insn = Insn::from(0x1000b1af);
    assert_eq!(
        insn.handle(&mut platform),
        Err(Trap::Bus { pc: 0x8000_0100, address: 0x10, kind: ErrorKind::Unimplemented })
    );
    assert_eq!(platform.reservation_sets.len(), 0);
}

#[test]
fn atomic_memory_operations() {
    // (word, name, in memory, rs2, expected rd, expected memory)
    let cases: [(u32, &str, u64, u64, u64, u64); 9] = [
        (0x0020b1af, "amoadd", u64::MAX, 2, u64::MAX, 1),
        (0x0020a1af, "amoadd", 0xffff_ffff, 0x7_0000_0002, u64::MAX, 1),
        (0x0820b1af, "amoswap", 5, 0x1_0000_0009, 5, 0x1_0000_0009),
        (0x0820a1af, "amoswap", 0x8000_0000, 0x1_0000_0009, 0xffff_ffff_8000_0000, 9),
        (0x2020b1af, "amoxor", 0xff00, 0x0ff0, 0xff00, 0xf0f0),
        (0x6020b1af, "amoand", 0xff00, 0x0ff0, 0xff00, 0x0f00),
        (0x4020a1af, "amoor", 0xff00, 0x0ff0, 0xff00, 0xfff0),
        (0x4020a1af, "amoor", 0x5_0000_ff00, 0xf_0000_0ff0, 0xff00, 0x5_0000_fff0),
        (0x0020b1af, "amoadd", 7, 8, 7, 15),
    ];
    for (word, name, memory, rs2, rd, after) in cases {
        let mut platform = machine();
        platform.write(RAM + 0x40, memory).unwrap();
        platform.hart.write_register(1, RAM as u64 + 0x40);
        platform.hart.write_register(2, rs2);
        let insn = run(&mut platform, word);
        assert_eq!(insn.name, name);
        assert_eq!(platform.hart.read_register(3), rd, "{} rd", name);
        let stored: u64 = platform.read(RAM + 0x40).unwrap();
        assert_eq!(stored, after, "{} memory", name);
        assert_eq!(platform.hart.pc, 0x8000_0104);
    }
}

#[test]
fn atomic_swap_reads_its_operand_before_writing_the_destination() {
    let mut platform = machine();
    platform.write(RAM + 0x40, 5u64).unwrap();
    platform.hart.write_register(1, RAM as u64 + 0x40);
    platform.hart.write_register(2, 9);
    run(&mut platform, 0x0820b12f); // amoswap.d x2, x2, (x1)
    assert_eq!(platform.hart.read_register(2), 5);
    let stored: u64 = platform.read(RAM + 0x40).unwrap();
    assert_eq!(stored, 9);
}

#[test]
fn a_store_by_the_hart_keeps_its_own_reservation() {
    let mut platform = machine();
    platform.hart.write_register(1, RAM as u64 + 0x40);
    run(&mut platform, 0x1000b1af); // lr.d
    platform.hart.write_register(2, 1);
    run(&mut platform, 0x0020b023); // sd x2, 0(x1)
    assert!(platform.reservation_sets[0].valid);
}

#[test]
fn a_store_invalidates_the_reservation_of_another_hart() {
    let mut platform = machine();
    platform.claim_reservation_set(1, RAM + 0x40, 4);
    platform.claim_reservation_set(2, RAM + 0x60, 4);
    platform.hart.write_register(1, RAM as u64 + 0x42);
    platform.hart.write_register(2, 1);
    run(&mut platform, 0x00209023); // sh x2, 0(x1)
    assert!(!platform.reservation_sets[0].valid);
    assert!(platform.reservation_sets[1].valid);
}

#[test]
fn increment_pc_skips_control_flow() {
    let mut platform = machine();
    Insn::from(0x00000013).increment_pc(&mut platform);
    assert_eq!(platform.hart.pc, 0x8000_0104);
    Insn::from(0x008000EF).increment_pc(&mut platform);
    Insn::from(0x005100e7).increment_pc(&mut platform);
    Insn::from(0x00208863).increment_pc(&mut platform);
    assert_eq!(platform.hart.pc, 0x8000_0104);
    platform.hart.pc = u64::MAX - 3;
    Insn::from(0x00000013).increment_pc(&mut platform);
    assert_eq!(platform.hart.pc, 0);
}

#[test]
fn mnemonic_is_none_without_a_handler() {
    assert_eq!(Insn::from(0x00000073).mnemonic(), None);
    assert_eq!(Insn::from(0x002081bb).mnemonic(), None);
    assert_eq!(Insn::from(0x8020b1af).mnemonic(), None);
    assert_eq!(Insn::from(0x00000013).mnemonic(), Some("nop"));
    assert_eq!(Insn::from(0x0000819b).mnemonic(), Some("sextw"));
}
