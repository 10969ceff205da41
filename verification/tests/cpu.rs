use sm83_core::cpu::instruction::Instruction;
use sm83_core::cpu::register_file::Register;
use sm83_core::cpu::CPU;

const Z: u8 = 1;
const N: u8 = 2;
const H: u8 = 4;
const C: u8 = 8;

/// Puts `byte` on the data bus, as memory would, and runs one cycle.
fn tick(cpu: &mut CPU, byte: u8) {
    assert!(cpu.can_step());
    cpu.data_bus_mut().write(byte);
    cpu.clock_cycle();
}

/// A core that has just latched `opcode` and has no instruction in flight.
fn primed(opcode: u8) -> CPU {
    let mut cpu = CPU::new();
    tick(&mut cpu, opcode);
    assert!(cpu.current_instruction.is_none());
    assert_eq!(cpu.register_file().read_u8(Register::IR), opcode);
    cpu
}

/// Runs the instruction in the instruction register to its end, feeding the
/// bytes of `operands` in turn and zero after them; returns the number of
/// cycles that it took.
fn run(cpu: &mut CPU, operands: &[u8]) -> usize {
    let mut cycles = 0;
    loop {
        let byte = if cycles < operands.len() { operands[cycles] } else { 0 };
        tick(cpu, byte);
        cycles += 1;
        if cpu.current_instruction.is_none() {
            return cycles;
        }
        assert!(cycles < 16);
    }
}

#[test]
fn new_cpu_is_zeroed_and_idle() {
    let cpu = CPU::new();
    assert!(cpu.current_instruction.is_none());
    assert_eq!(cpu.instruction_counter, 0);
    assert!(!cpu.skip_pc_increment);
    assert!(!cpu.control_unit.ime);
    assert_eq!(cpu.data_bus.read(), None);
    assert_eq!(cpu.address_bus.read(), None);
    assert_eq!(cpu.register_file().read_u16(Register::PC), 0);
    assert_eq!(cpu.register_file().read_u8(Register::IR), 0);
    assert!(cpu.can_step());
}

#[test]
fn first_cycle_executes_nop_and_prefetches() {
    let mut cpu = CPU::new();
    tick(&mut cpu, 0x21);
    assert!(cpu.current_instruction.is_none());
    assert_eq!(cpu.register_file().read_u8(Register::IR), 0x21);
    assert_eq!(cpu.register_file().read_u16(Register::PC), 1);
    assert_eq!(cpu.address_bus.read(), Some(0));
}

#[test]
fn load_hl_immediate_takes_three_cycles() {
    let mut cpu = primed(0x21);
    tick(&mut cpu, 0x35);
    assert_eq!(cpu.current_instruction, Some(Instruction::LD_RR(Register::HL)));
    assert_eq!(cpu.instruction_counter, 1);
    tick(&mut cpu, 0x00);
    assert_eq!(cpu.current_instruction, Some(Instruction::LD_RR(Register::HL)));
    assert_eq!(cpu.instruction_counter, 2);
    tick(&mut cpu, 0x00);
    assert!(cpu.current_instruction.is_none());
    assert_eq!(cpu.instruction_counter, 0);
    assert_eq!(cpu.register_file().read_u16(Register::HL), 0x0035);
    assert_eq!(cpu.register_file().read_u8(Register::H), 0x00);
    assert_eq!(cpu.register_file().read_u8(Register::L), 0x35);

    let mut cpu = primed(0x21);
    assert_eq!(run(&mut cpu, &[0x35, 0x00]), 3);
    assert_eq!(cpu.register_file().read_u16(Register::HL), 0x0035);
}

#[test]
fn load_sp_from_hl_takes_two_cycles() {
    let mut cpu = primed(0x21);
    assert_eq!(run(&mut cpu, &[0x35, 0x00, 0xF9]), 3);
    assert_eq!(cpu.register_file().read_u8(Register::IR), 0xF9);
    assert_eq!(run(&mut cpu, &[]), 2);
    assert_eq!(cpu.register_file().read_u16(Register::SP), 0x0035);
    assert_eq!(cpu.register_file().read_u16(Register::HL), 0x0035);
}

#[test]
fn load_hl_from_sp_plus_offset_takes_three_cycles() {
    let mut cpu = primed(0x21);
    assert_eq!(run(&mut cpu, &[0x35, 0x00, 0xF9]), 3);
    assert_eq!(run(&mut cpu, &[0x00, 0xF8]), 2);
    assert_eq!(cpu.register_file().read_u8(Register::IR), 0xF8);
    assert_eq!(run(&mut cpu, &[0xCC]), 3);
    assert_eq!(cpu.register_file().read_u16(Register::HL), 0x0001);
    assert_eq!(cpu.register_file().read_u16(Register::SP), 0x0035);
    // 0x35 + 0xCC carries out of bit 3 and out of bit 7
    assert_eq!(cpu.register_file().read_u8(Register::F), H | C);
    let flags = cpu.register_file().flags();
    assert!(!flags.get_z());
    assert!(!flags.get_n());
    assert!(flags.get_h());
    assert!(flags.get_c());
}

#[test]
fn driver_sequence_of_ten_cycles() {
    let mut cpu = CPU::new();
    for byte in [0x21u8, 0x35, 0x00, 0x00, 0xF9, 0x00, 0xF8, 0xCC, 0x00, 0x00] {
        tick(&mut cpu, byte);
    }
    assert_eq!(cpu.register_file().read_u16(Register::HL), 0x0001);
    assert_eq!(cpu.register_file().read_u16(Register::SP), 0x0035);
    assert!(cpu.current_instruction.is_none());
}

#[test]
fn relative_branch_not_taken_is_shorter_than_taken() {
    // Z is clear after reset: JR Z is not taken, JR NZ is
    let mut cpu = primed(0x28);
    assert_eq!(run(&mut cpu, &[0x05]), 2);
    let mut cpu = primed(0x20);
    assert_eq!(run(&mut cpu, &[0x05]), 3);
    // C is clear after reset: JR C is not taken, JR NC is
    let mut cpu = primed(0x38);
    assert_eq!(run(&mut cpu, &[0x05]), 2);
    let mut cpu = primed(0x30);
    assert_eq!(run(&mut cpu, &[0x05]), 3);
}

#[test]
fn absolute_branch_call_and_return_cycle_counts() {
    // JP Z / JP NZ
    let mut cpu = primed(0xCA);
    assert_eq!(run(&mut cpu, &[0x34, 0x12]), 3);
    let mut cpu = primed(0xC2);
    assert_eq!(run(&mut cpu, &[0x34, 0x12]), 4);
    // CALL Z / CALL NZ
    let mut cpu = primed(0xCC);
    assert_eq!(run(&mut cpu, &[0x34, 0x12]), 3);
    let mut cpu = primed(0xC4);
    assert_eq!(run(&mut cpu, &[0x34, 0x12]), 6);
    // RET Z / RET NZ
    let mut cpu = primed(0xC8);
    assert_eq!(run(&mut cpu, &[]), 2);
    let mut cpu = primed(0xC0);
    assert_eq!(run(&mut cpu, &[]), 5);
}

#[test]
fn branch_conditions_follow_the_flags() {
    // with Z set JR Z is taken and JR NZ is not
    let mut cpu = primed(0x28);
    cpu.register_file.write_u8(Register::F, Z);
    assert_eq!(run(&mut cpu, &[0x05]), 3);
    let mut cpu = primed(0x20);
    cpu.register_file.write_u8(Register::F, Z);
    assert_eq!(run(&mut cpu, &[0x05]), 2);
    // with C set JR C is taken and JR NC is not
    let mut cpu = primed(0x38);
    cpu.register_file.write_u8(Register::F, C);
    assert_eq!(run(&mut cpu, &[0x05]), 3);
    let mut cpu = primed(0x30);
    cpu.register_file.write_u8(Register::F, C);
    assert_eq!(run(&mut cpu, &[0x05]), 2);
}

#[test]
fn documented_cycle_counts() {
    let cases: [(u8, usize); 40] = [
        (0x00, 1), // NOP
        (0x41, 1), // LD B, C
        (0x06, 2), // LD B, n
        (0x46, 2), // LD B, (HL)
        (0x70, 2), // LD (HL), B
        (0x36, 3), // LD (HL), n
        (0x0A, 2), // LD A, (BC)
        (0x12, 2), // LD (DE), A
        (0xFA, 4), // LD A, (nn)
        (0xEA, 4), // LD (nn), A
        (0xF2, 2), // LDH A, (C)
        (0xE2, 2), // LDH (C), A
        (0xF0, 3), // LDH A, (n)
        (0xE0, 3), // LDH (n), A
        (0x3A, 2), // LD A, (HL-)
        (0x22, 2), // LD (HL+), A
        (0x01, 3), // LD BC, nn
        (0x08, 5), // LD (nn), SP
        (0xF9, 2), // LD SP, HL
        (0xC5, 4), // PUSH BC
        (0xC1, 3), // POP BC
        (0xF8, 3), // LD HL, SP+e
        (0x80, 1), // ADD B
        (0x86, 2), // ADD (HL)
        (0xC6, 2), // ADD n
        (0xBE, 2), // CP (HL)
        (0x04, 1), // INC B
        (0x34, 3), // INC (HL)
        (0x35, 3), // DEC (HL)
        (0x27, 1), // DAA
        (0x03, 2), // INC BC
        (0x09, 2), // ADD HL, BC
        (0xE8, 4), // ADD SP, e
        (0x07, 1), // RLCA
        (0xC3, 4), // JP nn
        (0xE9, 1), // JP HL
        (0x18, 3), // JR e
        (0xCD, 6), // CALL nn
        (0xC9, 4), // RET
        (0xFF, 4), // RST 0x38
    ];
    for (opcode, cycles) in cases {
        let mut cpu = primed(opcode);
        assert_eq!(run(&mut cpu, &[]), cycles, "opcode {:#04x}", opcode);
    }
}

#[test]
fn extended_instructions_take_one_cycle_for_the_prefix() {
    let cases: [(u8, usize); 8] = [
        (0x00, 2), // RLC B
        (0x06, 4), // RLC (HL)
        (0x37, 2), // SWAP A
        (0x3E, 4), // SRL (HL)
        (0x47, 2), // BIT 0, A
        (0x46, 3), // BIT 0, (HL)
        (0x86, 4), // RES 0, (HL)
        (0xFF, 2), // SET 7, A
    ];
    for (opcode, cycles) in cases {
        let mut cpu = primed(0xCB);
        assert_eq!(run(&mut cpu, &[opcode]), cycles, "opcode CB {:#04x}", opcode);
    }
}

#[test]
fn prefix_resolves_to_the_extended_instruction() {
    let mut cpu = primed(0xCB);
    tick(&mut cpu, 0x37);
    assert_eq!(cpu.current_instruction, Some(Instruction::SWAP(Register::A)));
    assert_eq!(cpu.instruction_counter, 0);
    assert_eq!(cpu.register_file().read_u8(Register::IR), 0x37);
}

#[test]
fn memory_operand_is_replaced_by_the_register_form() {
    let mut cpu = primed(0x86);
    cpu.register_file.write_u8(Register::A, 0x10);
    tick(&mut cpu, 0x22);
    assert_eq!(cpu.current_instruction, Some(Instruction::ADD(Register::Z)));
    assert_eq!(cpu.register_file().read_u8(Register::Z), 0x22);
    tick(&mut cpu, 0x00);
    assert!(cpu.current_instruction.is_none());
    assert_eq!(cpu.register_file().read_u8(Register::A), 0x32);
}

#[test]
fn register_load_copies_source_into_destination() {
    // LD B, C
    let mut cpu = primed(0x41);
    cpu.register_file.write_u8(Register::B, 0x11);
    cpu.register_file.write_u8(Register::C, 0x22);
    assert_eq!(run(&mut cpu, &[]), 1);
    assert_eq!(cpu.register_file().read_u8(Register::B), 0x22);
    assert_eq!(cpu.register_file().read_u8(Register::C), 0x22);
    // LD A, n
    let mut cpu = primed(0x3E);
    assert_eq!(run(&mut cpu, &[0x77]), 2);
    assert_eq!(cpu.register_file().read_u8(Register::A), 0x77);
}

#[test]
fn arithmetic_on_the_accumulator() {
    // ADD n
    let mut cpu = primed(0xC6);
    cpu.register_file.write_u8(Register::A, 0x3A);
    assert_eq!(run(&mut cpu, &[0xC6]), 2);
    assert_eq!(cpu.register_file().read_u8(Register::A), 0x00);
    assert_eq!(cpu.register_file().read_u8(Register::F), Z | H | C);
    // SUB B
    let mut cpu = primed(0x90);
    cpu.register_file.write_u8(Register::A, 0x3E);
    cpu.register_file.write_u8(Register::B, 0x0F);
    assert_eq!(run(&mut cpu, &[]), 1);
    assert_eq!(cpu.register_file().read_u8(Register::A), 0x2F);
    assert_eq!(cpu.register_file().read_u8(Register::F), N | H);
    // CP B keeps A and does not take the carry
    let mut cpu = primed(0xB8);
    cpu.register_file.write_u8(Register::A, 0x3C);
    cpu.register_file.write_u8(Register::B, 0x3C);
    cpu.register_file.write_u8(Register::F, C);
    assert_eq!(run(&mut cpu, &[]), 1);
    assert_eq!(cpu.register_file().read_u8(Register::A), 0x3C);
    assert_eq!(cpu.register_file().read_u8(Register::F), Z | N);
    // DAA
    let mut cpu = primed(0x27);
    cpu.register_file.write_u8(Register::A, 0x1A);
    cpu.register_file.write_u8(Register::F, H);
    assert_eq!(run(&mut cpu, &[]), 1);
    assert_eq!(cpu.register_file().read_u8(Register::A), 0x20);
    assert_eq!(cpu.register_file().read_u8(Register::F), 0);
}

#[test]
fn sixteen_bit_addition_to_hl() {
    // ADD HL, BC
    let mut cpu = primed(0x09);
    cpu.register_file.write_u16(Register::HL, 0x8A23);
    cpu.register_file.write_u16(Register::BC, 0x0605);
    assert_eq!(run(&mut cpu, &[]), 2);
    assert_eq!(cpu.register_file().read_u16(Register::HL), 0x9028);
    assert_eq!(cpu.register_file().read_u8(Register::F), H);
}

#[test]
fn signed_offset_is_added_to_the_stack_pointer() {
    for (sp, offset) in [(0x0035u16, 0xCCu8), (0xFFF8, 0x08), (0x0000, 0xFF), (0x1234, 0x7F), (0x00FF, 0x01), (0x0100, 0x80), (0x00F0, 0x90)] {
        // ADD SP, e
        let mut cpu = primed(0xE8);
        cpu.register_file.write_u16(Register::SP, sp);
        cpu.register_file.write_u8(Register::F, Z | N);
        assert_eq!(run(&mut cpu, &[offset]), 4);
        assert_eq!(cpu.register_file().read_u16(Register::SP), sp.wrapping_add(offset as i8 as u16));
        let half = (sp & 0x0F) + (offset as u16 & 0x0F) > 0x0F;
        let carry = (sp & 0xFF) + offset as u16 > 0xFF;
        let expected = if half { H } else { 0 } | if carry { C } else { 0 };
        assert_eq!(cpu.register_file().read_u8(Register::F), expected);

        // LD HL, SP+e
        let mut cpu = primed(0xF8);
        cpu.register_file.write_u16(Register::SP, sp);
        cpu.register_file.write_u8(Register::F, Z | N);
        assert_eq!(run(&mut cpu, &[offset]), 3);
        assert_eq!(cpu.register_file().read_u16(Register::HL), sp.wrapping_add(offset as i8 as u16));
        assert_eq!(cpu.register_file().read_u16(Register::SP), sp);
        assert_eq!(cpu.register_file().read_u8(Register::F), expected);
    }
}

#[test]
fn bit_operations_write_back() {
    // SET 3, B
    let mut cpu = primed(0xCB);
    assert_eq!(run(&mut cpu, &[0xD8]), 2);
    assert_eq!(cpu.register_file().read_u8(Register::B), 0x08);
    // RES 0, A
    let mut cpu = primed(0xCB);
    cpu.register_file.write_u8(Register::A, 0xFF);
    assert_eq!(run(&mut cpu, &[0x87]), 2);
    assert_eq!(cpu.register_file().read_u8(Register::A), 0xFE);
    // BIT 7, H
    let mut cpu = primed(0xCB);
    cpu.register_file.write_u8(Register::H, 0x7F);
    assert_eq!(run(&mut cpu, &[0x7C]), 2);
    assert_eq!(cpu.register_file().read_u8(Register::F), Z);
    assert_eq!(cpu.register_file().read_u8(Register::H), 0x7F);
}

#[test]
fn push_drives_high_then_low_and_moves_the_stack_pointer() {
    let mut cpu = primed(0xC5);
    cpu.register_file.write_u16(Register::SP, 0x1000);
    cpu.register_file.write_u16(Register::BC, 0xABCD);
    tick(&mut cpu, 0);
    assert_eq!(cpu.register_file().read_u16(Register::SP), 0x0FFF);
    tick(&mut cpu, 0);
    assert_eq!(cpu.address_bus.read(), Some(0x0FFF));
    assert_eq!(cpu.data_bus.read(), Some(0xAB));
    assert_eq!(cpu.register_file().read_u16(Register::SP), 0x0FFE);
    tick(&mut cpu, 0);
    assert_eq!(cpu.address_bus.read(), Some(0x0FFE));
    assert_eq!(cpu.data_bus.read(), Some(0xCD));
    assert_eq!(cpu.register_file().read_u16(Register::SP), 0x0FFE);
    tick(&mut cpu, 0);
    assert!(cpu.current_instruction.is_none());
}

#[test]
fn pop_reads_low_then_high() {
    let mut cpu = primed(0xD1);
    cpu.register_file.write_u16(Register::SP, 0x0FFE);
    assert_eq!(run(&mut cpu, &[0xCD, 0xAB]), 3);
    assert_eq!(cpu.register_file().read_u16(Register::DE), 0xABCD);
    assert_eq!(cpu.register_file().read_u16(Register::SP), 0x1000);
}

#[test]
fn store_sp_drives_low_then_high() {
    let mut cpu = primed(0x08);
    cpu.register_file.write_u16(Register::SP, 0xBEEF);
    tick(&mut cpu, 0x00);
    tick(&mut cpu, 0xC0);
    tick(&mut cpu, 0);
    assert_eq!(cpu.address_bus.read(), Some(0xC000));
    assert_eq!(cpu.data_bus.read(), Some(0xEF));
    tick(&mut cpu, 0);
    assert_eq!(cpu.address_bus.read(), Some(0xC001));
    assert_eq!(cpu.data_bus.read(), Some(0xBE));
    tick(&mut cpu, 0);
    assert!(cpu.current_instruction.is_none());
}

#[test]
fn jump_sets_the_program_counter() {
    let mut cpu = primed(0xC3);
    tick(&mut cpu, 0x34);
    tick(&mut cpu, 0x12);
    tick(&mut cpu, 0);
    assert_eq!(cpu.register_file().read_u16(Register::PC), 0x1234);
    assert_eq!(cpu.address_bus.read(), Some(0x0000));
    tick(&mut cpu, 0);
    assert!(cpu.current_instruction.is_none());
    assert_eq!(cpu.address_bus.read(), Some(0x1234));
    assert_eq!(cpu.register_file().read_u16(Register::PC), 0x1235);
}

#[test]
fn call_pushes_the_program_counter_and_jumps() {
    let mut cpu = primed(0xCD);
    cpu.register_file.write_u16(Register::SP, 0x2000);
    tick(&mut cpu, 0x34);
    tick(&mut cpu, 0x12);
    tick(&mut cpu, 0);
    assert_eq!(cpu.register_file().read_u16(Register::SP), 0x1FFF);
    let pc = cpu.register_file().read_u16(Register::PC);
    tick(&mut cpu, 0);
    assert_eq!(cpu.data_bus.read(), Some((pc >> 8) as u8));
    assert_eq!(cpu.register_file().read_u16(Register::SP), 0x1FFE);
    let pc = cpu.register_file().read_u16(Register::PC);
    tick(&mut cpu, 0);
    assert_eq!(cpu.data_bus.read(), Some(pc as u8));
    assert_eq!(cpu.address_bus.read(), Some(0x1234));
    assert_eq!(cpu.register_file().read_u16(Register::PC), 0x1235);
    assert_eq!(cpu.register_file().read_u16(Register::SP), 0x1FFE);
    tick(&mut cpu, 0);
    assert!(cpu.current_instruction.is_none());
}

#[test]
fn restart_jumps_to_its_fixed_address() {
    let mut cpu = primed(0xEF);
    cpu.register_file.write_u16(Register::SP, 0x2000);
    tick(&mut cpu, 0);
    tick(&mut cpu, 0);
    tick(&mut cpu, 0);
    assert_eq!(cpu.address_bus.read(), Some(0x0028));
    assert_eq!(cpu.register_file().read_u16(Register::PC), 0x0029);
    assert_eq!(cpu.register_file().read_u16(Register::SP), 0x1FFE);
    tick(&mut cpu, 0);
    assert!(cpu.current_instruction.is_none());
}

#[test]
fn relative_jump_lands_on_the_target() {
    for (pc, offset) in [(0x0105u16, 0x05u8), (0x01FE, 0x05), (0x0105, 0xFB), (0x0102, 0xFB)] {
        let mut cpu = primed(0x18);
        tick(&mut cpu, offset);
        cpu.register_file.write_u16(Register::PC, pc);
        tick(&mut cpu, 0);
        tick(&mut cpu, 0);
        assert!(cpu.current_instruction.is_none());
        let target = pc.wrapping_add(offset as i8 as u16);
        assert_eq!(cpu.address_bus.read(), Some(target));
        assert_eq!(cpu.register_file().read_u16(Register::PC), target.wrapping_add(1));
    }
}

#[test]
fn return_from_interrupt_enables_interrupts() {
    let mut cpu = primed(0xD9);
    assert_eq!(run(&mut cpu, &[0x34, 0x12]), 4);
    assert!(cpu.control_unit.ime);
    let mut cpu = primed(0xC9);
    assert_eq!(run(&mut cpu, &[0x34, 0x12]), 4);
    assert!(!cpu.control_unit.ime);
}

#[test]
fn interrupt_switches() {
    let mut cpu = primed(0xFB);
    assert_eq!(run(&mut cpu, &[0xF3]), 1);
    assert!(cpu.control_unit.ime);
    assert_eq!(run(&mut cpu, &[]), 1);
    assert!(!cpu.control_unit.ime);
}

#[test]
fn halt_stays_in_flight() {
    let mut cpu = primed(0x76);
    for _ in 0..5 {
        tick(&mut cpu, 0x00);
        assert_eq!(cpu.current_instruction, Some(Instruction::HALT()));
    }
    let mut cpu = primed(0x10);
    for _ in 0..5 {
        tick(&mut cpu, 0x00);
        assert_eq!(cpu.current_instruction, Some(Instruction::STOP()));
    }
}

#[test]
fn program_counter_advances_unless_the_step_holds_it() {
    let mut cpu = primed(0x00);
    assert_eq!(cpu.register_file().read_u16(Register::PC), 1);
    tick(&mut cpu, 0x46);
    assert_eq!(cpu.register_file().read_u16(Register::PC), 2);
    assert_eq!(cpu.address_bus.read(), Some(1));
    // first step of LD B, (HL) uses the buses: the program counter stays
    cpu.register_file.write_u16(Register::HL, 0x8000);
    tick(&mut cpu, 0x99);
    assert_eq!(cpu.register_file().read_u16(Register::PC), 2);
    assert_eq!(cpu.address_bus.read(), Some(0x8000));
    assert!(!cpu.skip_pc_increment);
    tick(&mut cpu, 0x00);
    assert_eq!(cpu.register_file().read_u16(Register::PC), 3);
    assert_eq!(cpu.register_file().read_u8(Register::B), 0x99);
}

#[test]
fn program_counter_wraps() {
    let mut cpu = primed(0x00);
    cpu.register_file.write_u16(Register::PC, 0xFFFF);
    tick(&mut cpu, 0x00);
    assert_eq!(cpu.address_bus.read(), Some(0xFFFF));
    assert_eq!(cpu.register_file().read_u16(Register::PC), 0x0000);
}

#[test]
fn empty_data_bus_is_fetched_as_nop() {
    let mut cpu = CPU::new();
    assert!(cpu.can_step());
    cpu.clock_cycle();
    assert_eq!(cpu.register_file().read_u8(Register::IR), 0x00);
    assert!(cpu.can_step());
    cpu.clock_cycle();
    assert!(cpu.current_instruction.is_none());
    assert_eq!(cpu.register_file().read_u16(Register::PC), 2);
}

#[test]
fn core_cannot_step_on_an_undefined_opcode() {
    for opcode in [0xD3u8, 0xDB, 0xDD, 0xE3, 0xE4, 0xEB, 0xEC, 0xED, 0xF4, 0xFC, 0xFD] {
        let mut cpu = CPU::new();
        tick(&mut cpu, opcode);
        assert!(!cpu.can_step());
    }
}

#[test]
fn core_cannot_step_from_a_counter_without_procedure() {
    let mut cpu = CPU::new();
    cpu.current_instruction = Some(Instruction::LDI(Register::B));
    cpu.instruction_counter = 1;
    assert!(cpu.can_step());
    cpu.instruction_counter = 2;
    assert!(!cpu.can_step());
    cpu.current_instruction = Some(Instruction::LDI(Register::HL));
    cpu.instruction_counter = 0;
    assert!(!cpu.can_step());
    cpu.current_instruction = None;
    cpu.instruction_counter = 3;
    assert!(!cpu.can_step());
}

#[test]
fn execute_runs_the_step_that_the_counter_selects() {
    let mut cpu = CPU::new();
    cpu.data_bus_mut().write(0x5A);
    cpu.current_instruction = Some(Instruction::LDI(Register::D));
    cpu.execute(Instruction::LDI(Register::D));
    assert_eq!(cpu.instruction_counter, 1);
    assert_eq!(cpu.register_file().read_u8(Register::Z), 0x5A);
    assert!(cpu.current_instruction.is_some());
    cpu.execute(Instruction::LDI(Register::D));
    assert_eq!(cpu.register_file().read_u8(Register::D), 0x5A);
    assert!(cpu.current_instruction.is_none());
    // execute leaves the counter to the cycle
    assert_eq!(cpu.instruction_counter, 1);
}
