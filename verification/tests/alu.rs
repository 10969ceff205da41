use sm83_core::bus::Bus;
use sm83_core::cpu::alu::ALU;
use sm83_core::cpu::register_file::{Register, RegisterFile};

const Z: u8 = 1;
const N: u8 = 2;
const H: u8 = 4;
const C: u8 = 8;

fn setup(buffer: u8, flags: u8) -> (ALU, RegisterFile) {
    let mut alu = ALU::new();
    let mut file = RegisterFile::new();
    file.write_u8(Register::F, flags);
    file.write_u8(Register::Z, buffer);
    alu.read_data_register(&file, Register::Z);
    file.write_u8(Register::Z, 0);
    (alu, file)
}

fn buffer(alu: &ALU) -> u8 {
    let mut bus: Bus<u8> = Bus::new();
    alu.write_data_bus(&mut bus);
    bus.read().unwrap()
}

#[test]
fn bitwise_adder_agrees_with_full_precision_addition() {
    for a in 0..=255u8 {
        for b in 0..=255u8 {
            for c in [false, true] {
                let (result, carries) = ALU::add_with_bitwise_carry(a, b, c);
                let full = a as u16 + b as u16 + c as u16;
                assert_eq!(result, (full % 256) as u8);
                let half = (a & 0x0F) + (b & 0x0F) + c as u8;
                assert_eq!((carries >> 3) & 1 == 1, half > 0x0F);
                assert_eq!((carries >> 7) & 1 == 1, full > 0xFF);
                for i in 0..8u32 {
                    let span = 1u32 << (i + 1);
                    let carried = (a as u32 % span) + (b as u32 % span) + c as u32 >= span;
                    assert_eq!((carries >> i) & 1 == 1, carried);
                }
            }
        }
    }
}

#[test]
fn bitwise_subtractor_agrees_with_full_precision_subtraction() {
    for a in 0..=255u8 {
        for b in 0..=255u8 {
            for c in [false, true] {
                let (result, borrows) = ALU::sub_with_bitwise_carry(a, b, c);
                let full = a as i32 - b as i32 - c as i32;
                assert_eq!(result, full.rem_euclid(256) as u8);
                let half = (a & 0x0F) as i32 - (b & 0x0F) as i32 - c as i32;
                assert_eq!((borrows >> 3) & 1 == 1, half < 0);
                assert_eq!((borrows >> 7) & 1 == 1, full < 0);
                for i in 0..8u32 {
                    let span = 1i32 << (i + 1);
                    let borrowed = (a as i32 % span) < (b as i32 % span) + c as i32;
                    assert_eq!((borrows >> i) & 1 == 1, borrowed);
                }
            }
        }
    }
}

#[test]
fn adder_examples() {
    assert_eq!(ALU::add_with_bitwise_carry(0x0F, 0x01, false), (0x10, 0x0F));
    assert_eq!(ALU::add_with_bitwise_carry(0xFF, 0x01, false), (0x00, 0xFF));
    assert_eq!(ALU::add_with_bitwise_carry(0xCC, 0x35, false), (0x01, 0xFC));
    assert_eq!(ALU::add_with_bitwise_carry(0x00, 0x00, true), (0x01, 0x00));
    assert_eq!(ALU::sub_with_bitwise_carry(0x10, 0x01, false), (0x0F, 0x0F));
    assert_eq!(ALU::sub_with_bitwise_carry(0x00, 0x01, false), (0xFF, 0xFF));
    assert_eq!(ALU::sub_with_bitwise_carry(0x05, 0x05, false), (0x00, 0x00));
}

#[test]
fn new_alu_has_an_empty_buffer() {
    let mut alu = ALU::new();
    assert_eq!(buffer(&alu), 0);
    alu.clock_cycle();
    assert_eq!(buffer(&alu), 0);
}

#[test]
fn buffer_moves_to_and_from_registers() {
    let mut alu = ALU::new();
    let mut file = RegisterFile::new();
    file.write_u16(Register::HL, 0x1234);
    alu.read_register_pair_low(&file, Register::HL);
    assert_eq!(buffer(&alu), 0x34);
    alu.read_register_pair_high(&file, Register::HL);
    assert_eq!(buffer(&alu), 0x12);
    alu.write_data_register(&mut file, Register::A);
    assert_eq!(file.read_u8(Register::A), 0x12);
    alu.write_register_pair_low(&mut file, Register::SP);
    assert_eq!(file.read_u16(Register::SP), 0x0012);
    alu.write_register_pair_high(&mut file, Register::SP);
    assert_eq!(file.read_u16(Register::SP), 0x1212);
    alu.write_register_pair_low(&mut file, Register::DE);
    assert_eq!(file.read_u8(Register::E), 0x12);
    assert_eq!(file.read_u8(Register::D), 0x00);
}

#[test]
fn add_register_sets_all_four_flags() {
    let (mut alu, mut file) = setup(0x3A, N);
    file.write_u8(Register::B, 0xC6);
    alu.add_register(&mut file, Register::B, false);
    assert_eq!(buffer(&alu), 0x00);
    assert_eq!(file.read_u8(Register::F), Z | H | C);

    let (mut alu, mut file) = setup(0x3C, 0);
    file.write_u8(Register::B, 0x12);
    alu.add_register(&mut file, Register::B, false);
    assert_eq!(buffer(&alu), 0x4E);
    assert_eq!(file.read_u8(Register::F), 0);
}

#[test]
fn add_register_takes_the_carry_only_when_asked() {
    let (mut alu, mut file) = setup(0xE1, C);
    file.write_u8(Register::E, 0x0F);
    alu.add_register(&mut file, Register::E, true);
    assert_eq!(buffer(&alu), 0xF1);
    assert_eq!(file.read_u8(Register::F), H);

    let (mut alu, mut file) = setup(0xE1, C);
    file.write_u8(Register::E, 0x0F);
    alu.add_register(&mut file, Register::E, false);
    assert_eq!(buffer(&alu), 0xF0);
    assert_eq!(file.read_u8(Register::F), H);
}

#[test]
fn sub_register_sets_n_and_the_borrows() {
    let (mut alu, mut file) = setup(0x3E, 0);
    file.write_u8(Register::E, 0x3E);
    alu.sub_register(&mut file, Register::E, false);
    assert_eq!(buffer(&alu), 0x00);
    assert_eq!(file.read_u8(Register::F), Z | N);

    let (mut alu, mut file) = setup(0x3E, 0);
    file.write_u8(Register::E, 0x0F);
    alu.sub_register(&mut file, Register::E, false);
    assert_eq!(buffer(&alu), 0x2F);
    assert_eq!(file.read_u8(Register::F), N | H);

    let (mut alu, mut file) = setup(0x3E, 0);
    file.write_u8(Register::E, 0x40);
    alu.sub_register(&mut file, Register::E, false);
    assert_eq!(buffer(&alu), 0xFE);
    assert_eq!(file.read_u8(Register::F), N | C);

    let (mut alu, mut file) = setup(0x3B, C);
    file.write_u8(Register::H, 0x2A);
    alu.sub_register(&mut file, Register::H, true);
    assert_eq!(buffer(&alu), 0x10);
    assert_eq!(file.read_u8(Register::F), N);
}

#[test]
fn increment_and_decrement_leave_the_carry() {
    let (mut alu, mut file) = setup(0xFF, C);
    alu.increment(&mut file);
    assert_eq!(buffer(&alu), 0x00);
    assert_eq!(file.read_u8(Register::F), Z | H | C);

    let (mut alu, mut file) = setup(0x0F, N);
    alu.increment(&mut file);
    assert_eq!(buffer(&alu), 0x10);
    assert_eq!(file.read_u8(Register::F), H);

    let (mut alu, mut file) = setup(0x01, C);
    alu.decrement(&mut file);
    assert_eq!(buffer(&alu), 0x00);
    assert_eq!(file.read_u8(Register::F), Z | N | C);

    let (mut alu, mut file) = setup(0x00, 0);
    alu.decrement(&mut file);
    assert_eq!(buffer(&alu), 0xFF);
    assert_eq!(file.read_u8(Register::F), N | H);
}

#[test]
fn logic_operations() {
    let (mut alu, mut file) = setup(0x5A, N | C);
    file.write_u8(Register::L, 0x3F);
    alu.and(&mut file, Register::L);
    assert_eq!(buffer(&alu), 0x1A);
    assert_eq!(file.read_u8(Register::F), H);

    let (mut alu, mut file) = setup(0x5A, N | C);
    file.write_u8(Register::L, 0xA5);
    alu.and(&mut file, Register::L);
    assert_eq!(buffer(&alu), 0x00);
    assert_eq!(file.read_u8(Register::F), Z | H);

    let (mut alu, mut file) = setup(0x5A, N | H | C);
    file.write_u8(Register::L, 0x0F);
    alu.or(&mut file, Register::L);
    assert_eq!(buffer(&alu), 0x5F);
    assert_eq!(file.read_u8(Register::F), 0);

    let (mut alu, mut file) = setup(0xFF, N | H | C);
    file.write_u8(Register::L, 0xFF);
    alu.xor(&mut file, Register::L);
    assert_eq!(buffer(&alu), 0x00);
    assert_eq!(file.read_u8(Register::F), Z);

    let (mut alu, mut file) = setup(0xFF, 0);
    file.write_u8(Register::L, 0x0F);
    alu.xor(&mut file, Register::L);
    assert_eq!(buffer(&alu), 0xF0);
    assert_eq!(file.read_u8(Register::F), 0);
}

#[test]
fn carry_flag_operations() {
    let (alu, mut file) = setup(0x77, Z | N | H | C);
    alu.flip_carry(&mut file);
    assert_eq!(file.read_u8(Register::F), Z);
    alu.flip_carry(&mut file);
    assert_eq!(file.read_u8(Register::F), Z | C);
    assert_eq!(buffer(&alu), 0x77);

    let (alu, mut file) = setup(0x77, N | H);
    alu.set_carry(&mut file);
    assert_eq!(file.read_u8(Register::F), C);
    alu.set_carry(&mut file);
    assert_eq!(file.read_u8(Register::F), C);
}

#[test]
fn decimal_adjust_applies_the_half_carry_correction() {
    let (mut alu, mut file) = setup(0x1A, H);
    alu.decimal_adjust(&mut file);
    assert_eq!(buffer(&alu), 0x20);
    let flags = file.flags();
    assert!(!flags.get_z());
    assert!(!flags.get_n());
    assert!(!flags.get_h());
    assert!(!flags.get_c());
}

#[test]
fn decimal_adjust_after_additions() {
    // 0x45 + 0x38 = 0x7D, to be read as 83
    let (mut alu, mut file) = setup(0x7D, 0);
    alu.decimal_adjust(&mut file);
    assert_eq!(buffer(&alu), 0x83);
    assert_eq!(file.read_u8(Register::F), 0);

    // 0x99 + 0x01 = 0x9A, to be read as 00 carry 1
    let (mut alu, mut file) = setup(0x9A, 0);
    alu.decimal_adjust(&mut file);
    assert_eq!(buffer(&alu), 0x00);
    assert_eq!(file.read_u8(Register::F), Z | C);

    // 0x90 + 0x80 = 0x10 with carry, to be read as 70 carry 1
    let (mut alu, mut file) = setup(0x10, C);
    alu.decimal_adjust(&mut file);
    assert_eq!(buffer(&alu), 0x70);
    assert_eq!(file.read_u8(Register::F), C);

    let (mut alu, mut file) = setup(0x42, 0);
    alu.decimal_adjust(&mut file);
    assert_eq!(buffer(&alu), 0x42);
    assert_eq!(file.read_u8(Register::F), 0);

    let (mut alu, mut file) = setup(0xA0, 0);
    alu.decimal_adjust(&mut file);
    assert_eq!(buffer(&alu), 0x00);
    assert_eq!(file.read_u8(Register::F), Z | C);
}

#[test]
fn decimal_adjust_after_subtractions() {
    // 0x83 - 0x38 = 0x4B with half borrow, to be read as 45
    let (mut alu, mut file) = setup(0x4B, N | H);
    alu.decimal_adjust(&mut file);
    assert_eq!(buffer(&alu), 0x45);
    assert_eq!(file.read_u8(Register::F), N);

    // 0x10 - 0x20 = 0xF0 with borrow, to be read as 90 borrow 1
    let (mut alu, mut file) = setup(0xF0, N | C);
    alu.decimal_adjust(&mut file);
    assert_eq!(buffer(&alu), 0x90);
    assert_eq!(file.read_u8(Register::F), N | C);

    let (mut alu, mut file) = setup(0x66, N | H | C);
    alu.decimal_adjust(&mut file);
    assert_eq!(buffer(&alu), 0x00);
    assert_eq!(file.read_u8(Register::F), Z | N | C);

    // out-of-range digits are left alone after a subtraction
    let (mut alu, mut file) = setup(0x9A, N);
    alu.decimal_adjust(&mut file);
    assert_eq!(buffer(&alu), 0x9A);
    assert_eq!(file.read_u8(Register::F), N);
}

#[test]
fn flip_complements_the_buffer() {
    let (mut alu, mut file) = setup(0x35, Z | C);
    alu.flip(&mut file);
    assert_eq!(buffer(&alu), 0xCA);
    assert_eq!(file.read_u8(Register::F), Z | N | H | C);
}

#[test]
fn rotations() {
    let (mut alu, mut file) = setup(0x85, N | H);
    alu.rotate_left(&mut file, false);
    assert_eq!(buffer(&alu), 0x0B);
    assert_eq!(file.read_u8(Register::F), C);

    let (mut alu, mut file) = setup(0x80, 0);
    alu.rotate_left(&mut file, true);
    assert_eq!(buffer(&alu), 0x00);
    assert_eq!(file.read_u8(Register::F), Z | C);

    let (mut alu, mut file) = setup(0x11, C);
    alu.rotate_left(&mut file, true);
    assert_eq!(buffer(&alu), 0x23);
    assert_eq!(file.read_u8(Register::F), 0);

    let (mut alu, mut file) = setup(0x3B, 0);
    alu.rotate_right(&mut file, false);
    assert_eq!(buffer(&alu), 0x9D);
    assert_eq!(file.read_u8(Register::F), C);

    let (mut alu, mut file) = setup(0x01, 0);
    alu.rotate_right(&mut file, true);
    assert_eq!(buffer(&alu), 0x00);
    assert_eq!(file.read_u8(Register::F), Z | C);

    let (mut alu, mut file) = setup(0x8A, C);
    alu.rotate_right(&mut file, true);
    assert_eq!(buffer(&alu), 0xC5);
    assert_eq!(file.read_u8(Register::F), 0);
}

#[test]
fn rotations_agree_with_the_native_ones() {
    for a in 0..=255u8 {
        let (mut alu, mut file) = setup(a, 0);
        alu.rotate_left(&mut file, false);
        assert_eq!(buffer(&alu), a.rotate_left(1));
        let (mut alu, mut file) = setup(a, 0);
        alu.rotate_right(&mut file, false);
        assert_eq!(buffer(&alu), a.rotate_right(1));
        let (mut alu, mut file) = setup(a, 0);
        alu.swap(&mut file);
        assert_eq!(buffer(&alu), a.rotate_left(4));
        let (mut alu, mut file) = setup(a, 0);
        alu.shift_right(&mut file, true);
        assert_eq!(buffer(&alu), ((a as i8) >> 1) as u8);
        let (mut alu, mut file) = setup(a, 0);
        alu.shift_right(&mut file, false);
        assert_eq!(buffer(&alu), a >> 1);
        let (mut alu, mut file) = setup(a, 0);
        alu.shift_left(&mut file);
        assert_eq!(buffer(&alu), a << 1);
    }
}

#[test]
fn shifts() {
    let (mut alu, mut file) = setup(0x80, N | H);
    alu.shift_left(&mut file);
    assert_eq!(buffer(&alu), 0x00);
    assert_eq!(file.read_u8(Register::F), Z | C);

    let (mut alu, mut file) = setup(0x8A, 0);
    alu.shift_right(&mut file, true);
    assert_eq!(buffer(&alu), 0xC5);
    assert_eq!(file.read_u8(Register::F), 0);

    let (mut alu, mut file) = setup(0x01, 0);
    alu.shift_right(&mut file, false);
    assert_eq!(buffer(&alu), 0x00);
    assert_eq!(file.read_u8(Register::F), Z | C);

    let (mut alu, mut file) = setup(0xFF, 0);
    alu.shift_right(&mut file, false);
    assert_eq!(buffer(&alu), 0x7F);
    assert_eq!(file.read_u8(Register::F), C);
}

#[test]
fn swap_exchanges_nibbles() {
    let (mut alu, mut file) = setup(0xF1, N | H | C);
    alu.swap(&mut file);
    assert_eq!(buffer(&alu), 0x1F);
    assert_eq!(file.read_u8(Register::F), 0);

    let (mut alu, mut file) = setup(0x00, C);
    alu.swap(&mut file);
    assert_eq!(buffer(&alu), 0x00);
    assert_eq!(file.read_u8(Register::F), Z);
}

#[test]
fn bit_operations() {
    for bit in 0..8u8 {
        let (alu, mut file) = setup(1 << bit, N | C);
        alu.test_bit(&mut file, bit);
        assert_eq!(file.read_u8(Register::F), N | C);
        assert_eq!(buffer(&alu), 1 << bit);

        let (alu, mut file) = setup(!(1 << bit), N | C);
        alu.test_bit(&mut file, bit);
        assert_eq!(file.read_u8(Register::F), Z | N | C);

        let (mut alu, file) = setup(0x00, H);
        alu.set_bit(bit);
        assert_eq!(buffer(&alu), 1 << bit);
        assert_eq!(file.read_u8(Register::F), H);

        let (mut alu, file) = setup(0xFF, H);
        alu.reset_bit(bit);
        assert_eq!(buffer(&alu), !(1 << bit));
        assert_eq!(file.read_u8(Register::F), H);
    }
}

#[test]
fn sixteen_bit_addition_in_two_passes() {
    // HL = 0x8A23, BC = 0x0605: HL + BC = 0x9028, half carry out of bit 11
    let mut alu = ALU::new();
    let mut file = RegisterFile::new();
    file.write_u16(Register::HL, 0x8A23);
    file.write_u16(Register::BC, 0x0605);
    file.write_u8(Register::F, Z | N);
    alu.read_register_pair_low(&file, Register::HL);
    alu.add_register_16_low(&mut file, Register::BC);
    alu.write_register_pair_low(&mut file, Register::HL);
    assert_eq!(file.read_u8(Register::F), Z);
    alu.read_register_pair_high(&file, Register::HL);
    alu.add_register_16_high(&mut file, Register::BC);
    alu.write_register_pair_high(&mut file, Register::HL);
    assert_eq!(file.read_u16(Register::HL), 0x9028);
    assert_eq!(file.read_u8(Register::F), Z | H);

    // the carry of the low pass reaches the high pass
    let mut alu = ALU::new();
    let mut file = RegisterFile::new();
    file.write_u16(Register::HL, 0x00FF);
    file.write_u16(Register::DE, 0x0001);
    alu.read_register_pair_low(&file, Register::HL);
    alu.add_register_16_low(&mut file, Register::DE);
    alu.write_register_pair_low(&mut file, Register::HL);
    assert_eq!(file.read_u8(Register::F), H | C);
    alu.read_register_pair_high(&file, Register::HL);
    alu.add_register_16_high(&mut file, Register::DE);
    alu.write_register_pair_high(&mut file, Register::HL);
    assert_eq!(file.read_u16(Register::HL), 0x0100);
    assert_eq!(file.read_u8(Register::F), 0);
}

#[test]
fn signed_offset_addition_in_two_passes() {
    for (sp, offset) in [(0x0035u16, 0xCCu8), (0xFFF8, 0x08), (0x0000, 0xFF), (0x1234, 0x7F), (0x00FF, 0x01), (0x0100, 0x80)] {
        let mut alu = ALU::new();
        let mut file = RegisterFile::new();
        file.write_u16(Register::SP, sp);
        file.write_u8(Register::Z, offset);
        file.write_u8(Register::F, Z | N);
        alu.read_data_register(&file, Register::Z);
        alu.addi_register_16_low(&mut file, Register::SP);
        alu.write_register_pair_low(&mut file, Register::HL);
        let flags = file.read_u8(Register::F);
        let half = (sp & 0x0F) + (offset as u16 & 0x0F) > 0x0F;
        let carry = (sp & 0xFF) + offset as u16 > 0xFF;
        assert_eq!(flags, if half { H } else { 0 } | if carry { C } else { 0 });
        alu.read_data_register(&file, Register::Z);
        alu.addi_register_16_high(&file, Register::SP);
        alu.write_register_pair_high(&mut file, Register::HL);
        assert_eq!(file.read_u16(Register::HL), sp.wrapping_add(offset as i8 as u16));
        assert_eq!(file.read_u8(Register::F), flags);
    }
}

#[test]
fn relative_jump_adjustment() {
    for (pc, offset) in [(0x0105u16, 0x05u8), (0x01FE, 0x05), (0x0105, 0xFB), (0x0102, 0xFB), (0x0080, 0x80), (0x00FF, 0x7F)] {
        let mut alu = ALU::new();
        let mut file = RegisterFile::new();
        file.write_u16(Register::PC, pc);
        file.write_u8(Register::Z, offset);
        file.write_u8(Register::F, Z | C);
        alu.read_data_register(&file, Register::Z);
        let adjustment = alu.jump_relative_add(&file);
        let target = pc.wrapping_add(offset as i8 as u16);
        assert_eq!(buffer(&alu), target as u8);
        assert_eq!(adjustment, (target >> 8) as i32 - (pc >> 8) as i32);
        assert_eq!(file.read_u8(Register::F), Z | C);
    }
}
