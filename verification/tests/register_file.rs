use sm83_core::bus::Bus;
use sm83_core::cpu::flags::Flags;
use sm83_core::cpu::register_file::{Register, RegisterFile};

const BYTES: [Register; 12] = [
    Register::IR,
    Register::IE,
    Register::A,
    Register::F,
    Register::B,
    Register::C,
    Register::D,
    Register::E,
    Register::H,
    Register::L,
    Register::W,
    Register::Z,
];

const PAIRS: [(Register, Register, Register); 4] = [
    (Register::B, Register::C, Register::BC),
    (Register::D, Register::E, Register::DE),
    (Register::H, Register::L, Register::HL),
    (Register::W, Register::Z, Register::WZ),
];

#[test]
fn new_register_file_is_zero() {
    let file = RegisterFile::new();
    for r in BYTES {
        assert_eq!(file.read_u8(r), 0);
    }
    for r in [Register::PC, Register::SP, Register::BC, Register::DE, Register::HL, Register::WZ] {
        assert_eq!(file.read_u16(r), 0);
    }
}

#[test]
fn register_indices_follow_declaration_order() {
    assert_eq!(Register::IR.index(), 0);
    assert_eq!(Register::F.index(), 3);
    assert_eq!(Register::Z.index(), 11);
    assert_eq!(Register::PC.index(), 12);
    assert_eq!(Register::SP.index(), 13);
    assert_eq!(Register::BC.index(), 14);
    assert_eq!(Register::WZ.index(), 17);
    assert!(Register::Z.is_u8());
    assert!(!Register::PC.is_u8());
}

#[test]
fn data_register_selects_b_to_l() {
    let expected = [Register::B, Register::C, Register::D, Register::E, Register::H, Register::L];
    for (i, r) in expected.iter().enumerate() {
        assert_eq!(Register::data_register(i as u8), *r);
    }
}

#[test]
fn register_pair_selects_the_four_pairs() {
    let expected = [Register::BC, Register::DE, Register::HL, Register::WZ];
    for (i, r) in expected.iter().enumerate() {
        assert_eq!(Register::register_pair(i as u8), *r);
    }
}

#[test]
fn byte_write_is_read_back_and_leaves_the_others() {
    for (k, target) in BYTES.iter().enumerate() {
        let mut file = RegisterFile::new();
        file.write_u8(*target, 0xA0 + k as u8);
        for other in BYTES {
            let expected = if other == *target { 0xA0 + k as u8 } else { 0 };
            assert_eq!(file.read_u8(other), expected);
        }
    }
}

#[test]
fn pair_round_trip_for_every_value() {
    for (high, low, pair) in PAIRS {
        let mut file = RegisterFile::new();
        for v in 0..=0xFFFFu16 {
            file.write_u16(pair, v);
            assert_eq!(file.read_u16(pair), v);
            assert_eq!(file.read_u8(high), (v >> 8) as u8);
            assert_eq!(file.read_u8(low), v as u8);
            assert_eq!(file.read_u16_high(pair), (v >> 8) as u8);
            assert_eq!(file.read_u16_low(pair), v as u8);
        }
    }
}

#[test]
fn stored_word_round_trip_for_every_value() {
    for r in [Register::PC, Register::SP] {
        let mut file = RegisterFile::new();
        for v in 0..=0xFFFFu16 {
            file.write_u16(r, v);
            assert_eq!(file.read_u16(r), v);
            assert_eq!(file.read_u16_high(r), (v >> 8) as u8);
            assert_eq!(file.read_u16_low(r), v as u8);
        }
    }
}

#[test]
fn pair_reflects_writes_to_its_halves() {
    for (high, low, pair) in PAIRS {
        let mut file = RegisterFile::new();
        file.write_u8(high, 0x12);
        file.write_u8(low, 0x34);
        assert_eq!(file.read_u16(pair), 0x1234);
        file.write_u8(low, 0xFF);
        assert_eq!(file.read_u16(pair), 0x12FF);
    }
}

#[test]
fn pc_and_sp_do_not_overlap_anything() {
    let mut file = RegisterFile::new();
    file.write_u16(Register::PC, 0x1234);
    file.write_u16(Register::SP, 0xABCD);
    assert_eq!(file.read_u16(Register::PC), 0x1234);
    assert_eq!(file.read_u16(Register::SP), 0xABCD);
    for r in BYTES {
        assert_eq!(file.read_u8(r), 0);
    }
}

#[test]
fn half_writes_touch_one_byte() {
    let mut file = RegisterFile::new();
    file.write_u16(Register::HL, 0x1234);
    file.write_u16_low(Register::HL, 0x56);
    assert_eq!(file.read_u16(Register::HL), 0x1256);
    file.write_u16_high(Register::HL, 0x78);
    assert_eq!(file.read_u16(Register::HL), 0x7856);
    file.write_u16(Register::SP, 0x1234);
    file.write_u16_low(Register::SP, 0x56);
    assert_eq!(file.read_u16(Register::SP), 0x1256);
    file.write_u16_high(Register::SP, 0x78);
    assert_eq!(file.read_u16(Register::SP), 0x7856);
}

#[test]
fn data_bus_is_latched_and_empty_reads_as_zero() {
    let mut file = RegisterFile::new();
    let mut bus: Bus<u8> = Bus::new();
    bus.write(0x42);
    file.read_data_bus(Register::Z, &bus);
    assert_eq!(file.read_u8(Register::Z), 0x42);
    assert_eq!(bus.read(), Some(0x42));
    bus.clear();
    file.read_data_bus(Register::Z, &bus);
    assert_eq!(file.read_u8(Register::Z), 0);
}

#[test]
fn registers_go_out_on_the_buses() {
    let mut file = RegisterFile::new();
    let mut data: Bus<u8> = Bus::new();
    let mut address: Bus<u16> = Bus::new();
    file.write_u8(Register::A, 0x99);
    file.write_u16(Register::DE, 0xC0DE);
    file.write_data_bus(Register::A, &mut data);
    file.write_address_bus(Register::DE, &mut address);
    assert_eq!(data.read(), Some(0x99));
    assert_eq!(address.read(), Some(0xC0DE));
}

#[test]
fn flags_view_reads_f() {
    let mut file = RegisterFile::new();
    file.write_u8(Register::F, 0b1010);
    let flags = file.flags();
    assert_eq!(flags.to_u8(), 0b1010);
    assert!(!flags.get_z());
    assert!(flags.get_n());
    assert!(!flags.get_h());
    assert!(flags.get_c());
}

#[test]
fn flag_setters_change_one_bit() {
    for start in 0..=0xFFu8 {
        for v in [false, true] {
            let mut f = Flags::from_u8(start);
            f.set_z(v);
            assert_eq!(f.to_u8(), (start & !1) | (v as u8));
            let mut f = Flags::from_u8(start);
            f.set_n(v);
            assert_eq!(f.to_u8(), (start & !2) | ((v as u8) << 1));
            let mut f = Flags::from_u8(start);
            f.set_h(v);
            assert_eq!(f.to_u8(), (start & !4) | ((v as u8) << 2));
            let mut f = Flags::from_u8(start);
            f.set_c(v);
            assert_eq!(f.to_u8(), (start & !8) | ((v as u8) << 3));
            let mut f = Flags::from_u8(start);
            f.set(0x30, v);
            assert_eq!(f.to_u8(), if v { start | 0x30 } else { start & !0x30 });
        }
    }
}
