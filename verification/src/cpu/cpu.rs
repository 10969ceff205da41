//! The CPU: the functional units, the two buses, and the decode/execute
//! state machine that drives them one machine cycle at a time.
use crate::bus::Bus;
use crate::cpu::alu::{
    add_outcome, decimal_outcome, decrement_outcome, flags_of, increment_outcome, logic_flags,
    offset_high_value, offset_low_outcome, pair_high_outcome, pair_low_outcome,
    relative_adjustment, rotate_left_outcome, rotate_right_outcome, shift_left_outcome,
    shift_right_outcome, sub_outcome, sum_byte, swap_outcome, Outcome, ALU,
};
use crate::cpu::control_unit::ControlUnit;
use crate::cpu::flags::Flags;
use crate::cpu::idu::{sampled_address, IDU};
use crate::cpu::instruction::{
    decoded, decoded_block_0, decoded_block_1, decoded_block_2, decoded_block_3,
    decoded_extended, is_opcode, operand_pair, operand_register, Family, Instruction,
};
use crate::cpu::timing::lemma_step_stays_defined;
use crate::cpu::register_file::{
    byte_at, sampled, store_byte, store_high, store_low, store_word, word_at, Register,
    RegisterFile,
};
use vstd::prelude::*;

verus! {

/// The whole state of the core as plain values: what the contracts of the
/// decode/execute machine speak of.
pub struct Machine {
    /// The sixteen bytes of the register file.
    pub registers: Seq<u8>,
    /// The value on the data bus.
    pub data_bus: Option<u8>,
    /// The value on the address bus.
    pub address_bus: Option<u16>,
    /// The working buffer of the ALU.
    pub buffer: u8,
    /// The interrupt master enable flag.
    pub ime: bool,
    /// The instruction in flight, if any.
    pub current: Option<Instruction>,
    /// The micro-step that the instruction in flight has reached.
    pub counter: u8,
    /// Whether the micro-step just executed asks that the program counter
    /// stay where it is at the end of this cycle.
    pub skip: bool,
}

/// Whether a branch condition holds: the carry flag (`flag`) or the zero
/// flag (`!flag`) has the state `value`.
pub open spec fn condition_met(value: bool, flag: bool, f: Flags) -> bool {
    (if flag {
        f.c()
    } else {
        f.z()
    }) == value
}

// The primitive actions of a micro-step. Each one touches one part of the
// state; a micro-step is a chain of them.
impl Machine {
    /// The condition flags.
    pub open spec fn flags(self) -> Flags {
        flags_of(self.registers)
    }

    /// An 8-bit register.
    pub open spec fn byte(self, register: Register) -> u8 {
        byte_at(self.registers, register)
    }

    /// A 16-bit register.
    pub open spec fn word(self, register: Register) -> u16 {
        word_at(self.registers, register)
    }

    /// The low byte of a 16-bit register.
    pub open spec fn low(self, register: Register) -> u8 {
        self.registers[register.low_slot()]
    }

    /// The high byte of a 16-bit register.
    pub open spec fn high(self, register: Register) -> u8 {
        self.registers[register.high_slot()]
    }

    /// The register file latches the data bus into an 8-bit register.
    pub open spec fn latch(self, register: Register) -> Machine {
        Machine {
            registers: store_byte(self.registers, register, sampled(self.data_bus)),
            ..self
        }
    }

    /// The register file drives a 16-bit register onto the address bus.
    pub open spec fn address(self, register: Register) -> Machine {
        Machine { address_bus: Some(self.word(register)), ..self }
    }

    /// A fixed value goes onto the address bus.
    pub open spec fn address_value(self, value: u16) -> Machine {
        Machine { address_bus: Some(value), ..self }
    }

    /// The register file drives an 8-bit register onto the data bus.
    pub open spec fn drive(self, register: Register) -> Machine {
        Machine { data_bus: Some(self.byte(register)), ..self }
    }

    /// A byte goes onto the data bus.
    pub open spec fn drive_value(self, value: u8) -> Machine {
        Machine { data_bus: Some(value), ..self }
    }

    /// The ALU drives its buffer onto the data bus.
    pub open spec fn drive_buffer(self) -> Machine {
        Machine { data_bus: Some(self.buffer), ..self }
    }

    /// The ALU loads its buffer from an 8-bit register.
    pub open spec fn load(self, register: Register) -> Machine {
        Machine { buffer: self.byte(register), ..self }
    }

    /// The ALU loads its buffer from the low byte of a 16-bit register.
    pub open spec fn load_low(self, register: Register) -> Machine {
        Machine { buffer: self.low(register), ..self }
    }

    /// The ALU loads its buffer from the high byte of a 16-bit register.
    pub open spec fn load_high(self, register: Register) -> Machine {
        Machine { buffer: self.high(register), ..self }
    }

    /// The ALU stores its buffer into an 8-bit register.
    pub open spec fn keep(self, register: Register) -> Machine {
        Machine { registers: store_byte(self.registers, register, self.buffer), ..self }
    }

    /// The ALU stores its buffer into the low byte of a 16-bit register.
    pub open spec fn keep_low(self, register: Register) -> Machine {
        Machine { registers: store_low(self.registers, register, self.buffer), ..self }
    }

    /// The ALU stores its buffer into the high byte of a 16-bit register.
    pub open spec fn keep_high(self, register: Register) -> Machine {
        Machine { registers: store_high(self.registers, register, self.buffer), ..self }
    }

    /// An 8-bit register takes the value of another.
    pub open spec fn copy_byte(self, to: Register, from: Register) -> Machine {
        Machine { registers: store_byte(self.registers, to, self.byte(from)), ..self }
    }

    /// A 16-bit register takes the value of another.
    pub open spec fn copy_word(self, to: Register, from: Register) -> Machine {
        Machine { registers: store_word(self.registers, to, self.word(from)), ..self }
    }

    /// A 16-bit register takes a fixed value.
    pub open spec fn put_word(self, to: Register, value: u16) -> Machine {
        Machine { registers: store_word(self.registers, to, value), ..self }
    }

    /// The IDU passes the address bus through into a 16-bit register.
    pub open spec fn pass(self, register: Register) -> Machine {
        Machine {
            registers: store_word(self.registers, register, sampled_address(self.address_bus)),
            ..self
        }
    }

    /// The IDU stores the address bus plus one into a 16-bit register.
    pub open spec fn up(self, register: Register) -> Machine {
        Machine {
            registers: store_word(
                self.registers,
                register,
                ((sampled_address(self.address_bus) + 1) % 0x10000) as u16,
            ),
            ..self
        }
    }

    /// The IDU stores the address bus minus one into a 16-bit register.
    pub open spec fn down(self, register: Register) -> Machine {
        Machine {
            registers: store_word(
                self.registers,
                register,
                ((sampled_address(self.address_bus) - 1) % 0x10000) as u16,
            ),
            ..self
        }
    }

    /// The IDU stores the low byte of the address bus, moved by
    /// `adjustment`, into an 8-bit register.
    pub open spec fn adjust(self, register: Register, adjustment: int) -> Machine {
        Machine {
            registers: store_byte(
                self.registers,
                register,
                ((sampled_address(self.address_bus) % 256 + adjustment) % 256) as u8,
            ),
            ..self
        }
    }

    /// The ALU finishes an operation: its result goes to the buffer and its
    /// flags to the F register.
    pub open spec fn settle(self, outcome: Outcome) -> Machine {
        Machine {
            buffer: outcome.value,
            registers: store_byte(self.registers, Register::F, outcome.flags.data),
            ..self
        }
    }

    /// The ALU finishes an operation that leaves the flags alone.
    pub open spec fn result(self, value: u8) -> Machine {
        Machine { buffer: value, ..self }
    }

    /// The ALU finishes an operation that leaves the buffer alone.
    pub open spec fn flag(self, flags: Flags) -> Machine {
        Machine { registers: store_byte(self.registers, Register::F, flags.data), ..self }
    }

    /// The control unit enables or disables interrupts.
    pub open spec fn interrupts(self, enabled: bool) -> Machine {
        Machine { ime: enabled, ..self }
    }

    /// The program counter is to stay where it is at the end of this cycle.
    pub open spec fn hold(self) -> Machine {
        Machine { skip: true, ..self }
    }

    /// The instruction goes on with its next micro-step.
    pub open spec fn next(self) -> Machine {
        Machine { counter: (self.counter + 1) as u8, ..self }
    }

    /// The instruction goes on with the micro-step `step`.
    pub open spec fn goto(self, step: u8) -> Machine {
        Machine { counter: step, ..self }
    }

    /// The instruction leaves flight.
    pub open spec fn finish(self) -> Machine {
        Machine { current: None, ..self }
    }

    /// Another instruction takes the place of the one in flight.
    pub open spec fn turn_into(self, instruction: Instruction) -> Machine {
        Machine { current: Some(instruction), ..self }
    }
}

// What each instruction does in each of its micro-steps.
impl Machine {
    /// Reads the byte at the address in `pointer` into the scratch register Z.
    pub open spec fn fetch_at(self, pointer: Register) -> Machine {
        self.address(pointer).latch(Register::Z).hold()
    }

    /// Writes the 8-bit register `source` to the address in `pointer`.
    pub open spec fn store_at(self, pointer: Register, source: Register) -> Machine {
        self.address(pointer).drive(source).hold()
    }

    /// Moves the scratch register Z into `target` through the ALU.
    pub open spec fn deliver(self, target: Register) -> Machine {
        self.load(Register::Z).keep(target)
    }

    /// One micro-step of an 8-bit load.
    pub open spec fn executed_load(self, instruction: Instruction) -> Machine {
        match instruction {
            Instruction::LDR(r, s) => self.load(s).keep(r).finish(),
            Instruction::LDI(r) => match self.counter {
                0 => self.latch(Register::Z).next(),
                _ => self.deliver(r).finish(),
            },
            Instruction::LD(r) => match self.counter {
                0 => self.fetch_at(Register::HL).next(),
                _ => self.deliver(r).finish(),
            },
            Instruction::LDM(r) => match self.counter {
                0 => self.store_at(Register::HL, r).next(),
                _ => self.finish(),
            },
            Instruction::LDMI() => match self.counter {
                0 => self.latch(Register::Z).next(),
                1 => self.store_at(Register::HL, Register::Z).next(),
                _ => self.finish(),
            },
            Instruction::LDA_BC() => match self.counter {
                0 => self.fetch_at(Register::BC).next(),
                _ => self.deliver(Register::A).finish(),
            },
            Instruction::LDA_DE() => match self.counter {
                0 => self.fetch_at(Register::DE).next(),
                _ => self.deliver(Register::A).finish(),
            },
            Instruction::LDAM_BC() => match self.counter {
                0 => self.store_at(Register::BC, Register::A).next(),
                _ => self.finish(),
            },
            Instruction::LDAM_DE() => match self.counter {
                0 => self.store_at(Register::DE, Register::A).next(),
                _ => self.finish(),
            },
            Instruction::LDAD() => match self.counter {
                0 => self.latch(Register::Z).next(),
                1 => self.latch(Register::W).next(),
                2 => self.fetch_at(Register::WZ).next(),
                _ => self.deliver(Register::A).finish(),
            },
            Instruction::LDAMD() => match self.counter {
                0 => self.latch(Register::Z).next(),
                1 => self.latch(Register::W).next(),
                2 => self.store_at(Register::WZ, Register::A).next(),
                _ => self.finish(),
            },
            Instruction::LDH() => match self.counter {
                0 => self.address_value((0xFF00 + self.byte(Register::C)) as u16).latch(
                    Register::Z,
                ).hold().next(),
                _ => self.deliver(Register::A).finish(),
            },
            Instruction::LDH_M() => match self.counter {
                0 => self.address_value((0xFF00 + self.byte(Register::C)) as u16).drive(
                    Register::A,
                ).hold().next(),
                _ => self.finish(),
            },
            Instruction::LDH_D() => match self.counter {
                0 => self.latch(Register::Z).next(),
                1 => self.address_value((0xFF00 + self.byte(Register::Z)) as u16).latch(
                    Register::Z,
                ).hold().next(),
                _ => self.deliver(Register::A).finish(),
            },
            Instruction::LDH_DM() => match self.counter {
                0 => self.latch(Register::Z).next(),
                1 => self.address_value((0xFF00 + self.byte(Register::Z)) as u16).drive(
                    Register::A,
                ).hold().next(),
                _ => self.finish(),
            },
            Instruction::LDH_HLM() => match self.counter {
                0 => self.address(Register::HL).latch(Register::Z).down(Register::HL).hold().next(),
                _ => self.deliver(Register::A).finish(),
            },
            Instruction::LDH_HLMM() => match self.counter {
                0 => self.address(Register::HL).drive(Register::A).down(Register::HL).hold().next(),
                _ => self.finish(),
            },
            Instruction::LDH_HLP() => match self.counter {
                0 => self.address(Register::HL).latch(Register::Z).up(Register::HL).hold().next(),
                _ => self.deliver(Register::A).finish(),
            },
            Instruction::LDH_HLPM() => match self.counter {
                0 => self.address(Register::HL).drive(Register::A).up(Register::HL).hold().next(),
                _ => self.finish(),
            },
            _ => self,
        }
    }

    /// One micro-step of a 16-bit load.
    pub open spec fn executed_load_16(self, instruction: Instruction) -> Machine {
        match instruction {
            Instruction::LD_RR(r) => match self.counter {
                0 => self.latch(Register::Z).next(),
                1 => self.latch(Register::W).next(),
                _ => self.copy_word(r, Register::WZ).finish(),
            },
            Instruction::LD_SP() => match self.counter {
                0 => self.latch(Register::Z).next(),
                1 => self.latch(Register::W).next(),
                2 => self.address(Register::WZ).drive_value(self.low(Register::SP)).up(
                    Register::WZ,
                ).hold().next(),
                3 => self.address(Register::WZ).drive_value(
                    self.high(Register::SP),
                ).hold().next(),
                _ => self.finish(),
            },
            Instruction::LD_SP_HL() => match self.counter {
                0 => self.address(Register::HL).pass(Register::SP).hold().next(),
                _ => self.finish(),
            },
            Instruction::PUSH(r) => match self.counter {
                0 => self.address(Register::SP).down(Register::SP).hold().next(),
                1 => self.address(Register::SP).drive_value(self.high(r)).down(
                    Register::SP,
                ).hold().next(),
                2 => self.address(Register::SP).drive_value(self.low(r)).pass(
                    Register::SP,
                ).hold().next(),
                _ => self.finish(),
            },
            Instruction::POP(r) => match self.counter {
                0 => self.address(Register::SP).latch(Register::Z).up(Register::SP).hold().next(),
                1 => self.address(Register::SP).latch(Register::W).up(Register::SP).hold().next(),
                _ => self.copy_word(r, Register::WZ).finish(),
            },
            Instruction::LD_SPE() => match self.counter {
                0 => self.latch(Register::Z).next(),
                1 => self.address_value(0).offset_low(Register::SP).keep_low(
                    Register::HL,
                ).hold().next(),
                _ => self.offset_high(Register::SP).keep_high(Register::HL).finish(),
            },
            _ => self,
        }
    }

    /// The low pass of adding the signed offset in Z to a 16-bit register.
    pub open spec fn offset_low(self, register: Register) -> Machine {
        self.settle(offset_low_outcome(self.byte(Register::Z), self.low(register), self.flags()))
    }

    /// The high pass of adding the signed offset in Z to a 16-bit register.
    pub open spec fn offset_high(self, register: Register) -> Machine {
        self.result(
            offset_high_value(self.byte(Register::Z), self.high(register), self.flags().c()),
        )
    }

    /// A takes the result of an ALU operation on A.
    pub open spec fn accumulate(self, outcome: Outcome) -> Machine {
        self.settle(outcome).keep(Register::A).finish()
    }

    /// One micro-step of 8-bit arithmetic or logic.
    pub open spec fn executed_arithmetic(self, instruction: Instruction) -> Machine {
        let a = self.byte(Register::A);
        let f = self.flags();
        match instruction {
            Instruction::ADD(r) => self.accumulate(add_outcome(a, self.byte(r), false, f)),
            Instruction::ADD_HL() => self.fetch_at(Register::HL).turn_into(
                Instruction::ADD(Register::Z),
            ),
            Instruction::ADDI() => self.latch(Register::Z).turn_into(Instruction::ADD(Register::Z)),
            Instruction::ADC(r) => self.accumulate(add_outcome(a, self.byte(r), f.c(), f)),
            Instruction::ADC_HL() => self.fetch_at(Register::HL).turn_into(
                Instruction::ADC(Register::Z),
            ),
            Instruction::ADCI() => self.latch(Register::Z).turn_into(Instruction::ADC(Register::Z)),
            Instruction::SUB(r) => self.accumulate(sub_outcome(a, self.byte(r), false, f)),
            Instruction::SUB_HL() => self.fetch_at(Register::HL).turn_into(
                Instruction::SUB(Register::Z),
            ),
            Instruction::SUBI() => self.latch(Register::Z).turn_into(Instruction::SUB(Register::Z)),
            Instruction::SBC(r) => self.accumulate(sub_outcome(a, self.byte(r), f.c(), f)),
            Instruction::SBC_HL() => self.fetch_at(Register::HL).turn_into(
                Instruction::SBC(Register::Z),
            ),
            Instruction::SBCI() => self.latch(Register::Z).turn_into(Instruction::SBC(Register::Z)),
            Instruction::CP(r) => self.settle(sub_outcome(a, self.byte(r), false, f)).finish(),
            Instruction::CP_HL() => self.fetch_at(Register::HL).turn_into(
                Instruction::CP(Register::Z),
            ),
            Instruction::CPI() => self.latch(Register::Z).turn_into(Instruction::CP(Register::Z)),
            Instruction::INC(r) => self.settle(increment_outcome(self.byte(r), f)).keep(
                r,
            ).finish(),
            Instruction::INC_HL() => match self.counter {
                0 => self.fetch_at(Register::HL).next(),
                1 => self.settle(
                    increment_outcome(self.byte(Register::Z), f),
                ).drive_buffer().hold().next(),
                _ => self.finish(),
            },
            Instruction::DEC(r) => self.settle(decrement_outcome(self.byte(r), f)).keep(
                r,
            ).finish(),
            Instruction::DEC_HL() => match self.counter {
                0 => self.fetch_at(Register::HL).next(),
                1 => self.settle(
                    decrement_outcome(self.byte(Register::Z), f),
                ).drive_buffer().hold().next(),
                _ => self.finish(),
            },
            Instruction::AND(r) => self.accumulate(
                Outcome { value: a & self.byte(r), flags: logic_flags(a & self.byte(r), true, f) },
            ),
            Instruction::AND_HL() => self.fetch_at(Register::HL).turn_into(
                Instruction::AND(Register::Z),
            ),
            Instruction::ANDI() => self.latch(Register::Z).hold().turn_into(
                Instruction::AND(Register::Z),
            ),
            Instruction::OR(r) => self.accumulate(
                Outcome { value: a | self.byte(r), flags: logic_flags(a | self.byte(r), false, f) },
            ),
            Instruction::OR_HL() => self.fetch_at(Register::HL).turn_into(
                Instruction::OR(Register::Z),
            ),
            Instruction::ORI() => self.latch(Register::Z).hold().turn_into(
                Instruction::OR(Register::Z),
            ),
            Instruction::XOR(r) => self.accumulate(
                Outcome { value: a ^ self.byte(r), flags: logic_flags(a ^ self.byte(r), false, f) },
            ),
            Instruction::XOR_HL() => self.fetch_at(Register::HL).turn_into(
                Instruction::XOR(Register::Z),
            ),
            Instruction::XORI() => self.latch(Register::Z).hold().turn_into(
                Instruction::XOR(Register::Z),
            ),
            Instruction::CCF() => self.flag(
                f.with_n(false).with_h(false).with_c(!f.c()),
            ).finish(),
            Instruction::SCF() => self.flag(f.with_n(false).with_h(false).with_c(true)).finish(),
            Instruction::DAA() => self.accumulate(decimal_outcome(a, f)),
            Instruction::CPL() => self.accumulate(
                Outcome { value: !a, flags: f.with_n(true).with_h(true) },
            ),
            _ => self,
        }
    }

    /// One micro-step of 16-bit arithmetic.
    pub open spec fn executed_arithmetic_16(self, instruction: Instruction) -> Machine {
        match instruction {
            Instruction::INC_16(r) => match self.counter {
                0 => self.address(r).up(r).hold().next(),
                _ => self.finish(),
            },
            Instruction::DEC_16(r) => match self.counter {
                0 => self.address(r).down(r).hold().next(),
                _ => self.finish(),
            },
            Instruction::ADD_HL_16(r) => match self.counter {
                0 => self.address_value(0).settle(
                    pair_low_outcome(self.low(Register::HL), self.low(r), self.flags()),
                ).keep_low(Register::HL).hold().next(),
                _ => self.settle(
                    pair_high_outcome(self.high(Register::HL), self.high(r), self.flags()),
                ).keep_high(Register::HL).finish(),
            },
            Instruction::ADD_SPE() => match self.counter {
                0 => self.latch(Register::Z).next(),
                1 => self.address_value(0).offset_low(Register::SP).keep(
                    Register::W,
                ).hold().next(),
                2 => self.address_value(0).offset_high(Register::SP).copy_byte(
                    Register::Z,
                    Register::W,
                ).keep(Register::W).hold().next(),
                _ => self.copy_word(Register::SP, Register::WZ).finish(),
            },
            _ => self,
        }
    }

    /// The ALU works on the 8-bit register `r` and stores the result back.
    pub open spec fn rework(self, r: Register, outcome: Outcome) -> Machine {
        self.settle(outcome).keep(r).finish()
    }

    /// The first micro-step of an operation on the byte at the address in HL:
    /// the byte is read into Z.
    pub open spec fn fetch_operand(self) -> Machine {
        self.fetch_at(Register::HL).next()
    }

    /// The second micro-step of an operation on the byte at the address in
    /// HL: the ALU result goes back out on the data bus.
    pub open spec fn return_operand(self, outcome: Outcome) -> Machine {
        self.address(Register::HL).settle(outcome).drive_buffer().hold().next()
    }

    /// One micro-step of a rotation, a shift or a bit operation.
    pub open spec fn executed_bitwise(self, instruction: Instruction) -> Machine {
        let f = self.flags();
        let z = self.byte(Register::Z);
        match instruction {
            Instruction::RLCA() => self.rework(
                Register::A,
                rotate_left_outcome(self.byte(Register::A), false, f),
            ),
            Instruction::RRCA() => self.rework(
                Register::A,
                rotate_right_outcome(self.byte(Register::A), false, f),
            ),
            Instruction::RLA() => self.rework(
                Register::A,
                rotate_left_outcome(self.byte(Register::A), true, f),
            ),
            Instruction::RRA() => self.rework(
                Register::A,
                rotate_right_outcome(self.byte(Register::A), true, f),
            ),
            Instruction::CB() => self.latch(Register::IR).turn_into(
                decoded_extended(sampled(self.data_bus)),
            ),
            Instruction::RLC(r) => self.rework(r, rotate_left_outcome(self.byte(r), false, f)),
            Instruction::RLC_HL() => match self.counter {
                0 => self.fetch_operand(),
                1 => self.return_operand(rotate_left_outcome(z, false, f)),
                _ => self.finish(),
            },
            Instruction::RRC(r) => self.rework(r, rotate_right_outcome(self.byte(r), false, f)),
            Instruction::RRC_HL() => match self.counter {
                0 => self.fetch_operand(),
                1 => self.return_operand(rotate_right_outcome(z, false, f)),
                _ => self.finish(),
            },
            Instruction::RL(r) => self.rework(r, rotate_left_outcome(self.byte(r), true, f)),
            Instruction::RL_HL() => match self.counter {
                0 => self.fetch_operand(),
                1 => self.return_operand(rotate_left_outcome(z, true, f)),
                _ => self.finish(),
            },
            Instruction::RR(r) => self.rework(r, rotate_right_outcome(self.byte(r), true, f)),
            Instruction::RR_HL() => match self.counter {
                0 => self.fetch_operand(),
                1 => self.return_operand(rotate_right_outcome(z, true, f)),
                _ => self.finish(),
            },
            Instruction::SLA(r) => self.rework(r, shift_left_outcome(self.byte(r), f)),
            Instruction::SLA_HL() => match self.counter {
                0 => self.fetch_operand(),
                1 => self.return_operand(shift_left_outcome(z, f)),
                _ => self.finish(),
            },
            Instruction::SRA(r) => self.rework(r, shift_right_outcome(self.byte(r), true, f)),
            Instruction::SRA_HL() => match self.counter {
                0 => self.fetch_operand(),
                1 => self.return_operand(shift_right_outcome(z, true, f)),
                _ => self.finish(),
            },
            Instruction::SRL(r) => self.rework(r, shift_right_outcome(self.byte(r), false, f)),
            Instruction::SRL_HL() => match self.counter {
                0 => self.fetch_operand(),
                1 => self.return_operand(shift_right_outcome(z, false, f)),
                _ => self.finish(),
            },
            Instruction::SWAP(r) => self.rework(r, swap_outcome(self.byte(r), f)),
            Instruction::SWAP_HL() => match self.counter {
                0 => self.fetch_operand(),
                1 => self.return_operand(swap_outcome(z, f)),
                _ => self.finish(),
            },
            Instruction::BIT(b, r) => self.load(r).flag(
                f.with_z(self.byte(r) & (1u8 << b) == 0),
            ).finish(),
            Instruction::BIT_HL(b) => match self.counter {
                0 => self.fetch_operand(),
                _ => self.address(Register::HL).load(Register::Z).flag(
                    f.with_z(z & (1u8 << b) == 0),
                ).finish(),
            },
            Instruction::RES(b, r) => self.result(self.byte(r) & !(1u8 << b)).keep(r).finish(),
            Instruction::RES_HL(b) => match self.counter {
                0 => self.fetch_operand(),
                1 => self.address(Register::HL).result(
                    z & !(1u8 << b),
                ).drive_buffer().hold().next(),
                _ => self.finish(),
            },
            Instruction::SET(b, r) => self.result(self.byte(r) | (1u8 << b)).keep(r).finish(),
            Instruction::SET_HL(b) => match self.counter {
                0 => self.fetch_operand(),
                1 => self.address(Register::HL).result(
                    z | (1u8 << b),
                ).drive_buffer().hold().next(),
                _ => self.finish(),
            },
            _ => self,
        }
    }

    /// The first micro-step of a relative jump that is taken: the ALU adds
    /// the offset in Z to the low byte of PC and leaves the sum in Z; the IDU
    /// moves the high byte of PC by the carry of that addition into W.
    pub open spec fn relative_target(self) -> Machine {
        let offset = self.byte(Register::Z);
        let low = self.low(Register::PC);
        self.result(sum_byte(offset, low, false)).keep(Register::Z).address_value(
            self.high(Register::PC) as u16,
        ).adjust(Register::W, relative_adjustment(offset, low)).hold().next()
    }

    /// The last micro-step of a relative jump that is taken: the target goes
    /// out on the address bus and PC is set behind it.
    pub open spec fn relative_land(self) -> Machine {
        self.address(Register::WZ).up(Register::PC).hold().finish()
    }

    /// The first of the three micro-steps that push PC: the stack pointer
    /// moves down.
    pub open spec fn call_reserve(self) -> Machine {
        self.address(Register::SP).down(Register::SP)
    }

    /// The second of the three micro-steps that push PC: its high byte goes
    /// out and the stack pointer moves down.
    pub open spec fn call_push_high(self) -> Machine {
        self.address(Register::SP).drive_value(self.high(Register::PC)).down(Register::SP)
    }

    /// The third of the three micro-steps that push PC: its low byte goes
    /// out.
    pub open spec fn call_push_low(self) -> Machine {
        self.address(Register::SP).drive_value(self.low(Register::PC)).pass(Register::SP)
    }

    /// One of the two micro-steps that pop a return address: a byte comes in
    /// and the stack pointer moves up.
    pub open spec fn return_pop(self, half: Register) -> Machine {
        self.address(Register::SP).latch(half).up(Register::SP).hold().next()
    }

    /// The micro-step that sets PC to the address in WZ.
    pub open spec fn jump_to_operand(self) -> Machine {
        self.address_value(0).copy_word(Register::PC, Register::WZ)
    }

    /// One micro-step of a jump, a call or a return.
    pub open spec fn executed_control_flow(self, instruction: Instruction) -> Machine {
        match instruction {
            Instruction::JPI() => match self.counter {
                0 => self.latch(Register::Z).next(),
                1 => self.latch(Register::W).next(),
                2 => self.jump_to_operand().hold().next(),
                _ => self.finish(),
            },
            Instruction::JP_HL() => self.address(Register::HL).up(Register::PC).hold().finish(),
            Instruction::JP_CCI(value, flag) => match self.counter {
                0 => self.latch(Register::Z).next(),
                1 => self.latch(Register::W).next(),
                2 => if condition_met(value, flag, self.flags()) {
                    self.jump_to_operand().next()
                } else {
                    self.finish()
                },
                _ => self.finish(),
            },
            Instruction::JR() => match self.counter {
                0 => self.latch(Register::Z).next(),
                1 => self.relative_target(),
                _ => self.relative_land(),
            },
            Instruction::JR_CC(value, flag) => match self.counter {
                0 => self.latch(Register::Z).goto(
                    if condition_met(value, flag, self.flags()) {
                        2
                    } else {
                        1
                    },
                ),
                1 => self.finish(),
                2 => self.relative_target(),
                _ => self.relative_land(),
            },
            Instruction::CALL() => match self.counter {
                0 => self.latch(Register::Z).next(),
                1 => self.latch(Register::W).next(),
                2 => self.call_reserve().next(),
                3 => self.call_push_high().next(),
                4 => self.call_push_low().copy_word(Register::PC, Register::WZ).next(),
                _ => self.finish(),
            },
            Instruction::CALL_CC(value, flag) => match self.counter {
                0 => self.latch(Register::Z).next(),
                1 => self.latch(Register::W).goto(
                    if condition_met(value, flag, self.flags()) {
                        3
                    } else {
                        2
                    },
                ),
                2 => self.finish(),
                3 => self.call_reserve().next(),
                4 => self.call_push_high().next(),
                5 => self.call_push_low().copy_word(Register::PC, Register::WZ).next(),
                _ => self.finish(),
            },
            Instruction::RET() => match self.counter {
                0 => self.return_pop(Register::Z),
                1 => self.return_pop(Register::W),
                2 => self.jump_to_operand().hold().next(),
                _ => self.finish(),
            },
            Instruction::RET_CC(value, flag) => match self.counter {
                0 => self.address_value(0).hold().goto(
                    if condition_met(value, flag, self.flags()) {
                        1
                    } else {
                        4
                    },
                ),
                1 => self.return_pop(Register::Z),
                2 => self.return_pop(Register::W),
                3 => self.jump_to_operand().hold().next(),
                _ => self.finish(),
            },
            Instruction::RETI() => match self.counter {
                0 => self.return_pop(Register::Z),
                1 => self.return_pop(Register::W),
                2 => self.jump_to_operand().interrupts(true).hold().next(),
                _ => self.finish(),
            },
            Instruction::RST(target) => match self.counter {
                0 => self.call_reserve().hold().next(),
                1 => self.call_push_high().hold().next(),
                2 => self.call_push_low().put_word(Register::PC, target as u16).next(),
                _ => self.finish(),
            },
            _ => self,
        }
    }

    /// The one micro-step of an instruction that touches neither memory nor
    /// the ALU.
    pub open spec fn executed_control(self, instruction: Instruction) -> Machine {
        match instruction {
            Instruction::DI() => self.interrupts(false).finish(),
            Instruction::EI() => self.interrupts(true).finish(),
            Instruction::NOP() => self.finish(),
            _ => self,
        }
    }

    /// The state after one micro-step of `instruction`, which the counter
    /// selects.
    pub open spec fn executed(self, instruction: Instruction) -> Machine
        recommends
            instruction.wf(),
            instruction.has_step(self.counter),
    {
        match instruction.family() {
            Family::Load => self.executed_load(instruction),
            Family::Load16 => self.executed_load_16(instruction),
            Family::Arithmetic => self.executed_arithmetic(instruction),
            Family::Arithmetic16 => self.executed_arithmetic_16(instruction),
            Family::Bitwise => self.executed_bitwise(instruction),
            Family::ControlFlow => self.executed_control_flow(instruction),
            Family::Control => self.executed_control(instruction),
        }
    }
}

// One machine cycle.
impl Machine {
    /// Whether the state is one that the core can be in between two cycles:
    /// an instruction in flight fits its operands and has a micro-step for
    /// the counter, and with none in flight the counter is zero.
    pub open spec fn wf(self) -> bool {
        &&& self.registers.len() == 16
        &&& match self.current {
            Some(instruction) => instruction.wf() && self.counter < instruction.step_count(),
            None => self.counter == 0,
        }
    }

    /// Whether the core can run one more cycle: the state is well formed, and
    /// where no instruction is in flight the instruction register holds a byte
    /// that names one.
    pub open spec fn can_step(self) -> bool {
        &&& self.wf()
        &&& self.current is None ==> decoded(self.byte(Register::IR)) is Some
    }

    /// The state with an instruction in flight: the one that was, or else
    /// the one that the instruction register names.
    pub open spec fn primed(self) -> Machine
        recommends
            self.can_step(),
    {
        match self.current {
            Some(_) => self,
            None => self.turn_into(decoded(self.byte(Register::IR)).unwrap()),
        }
    }

    /// The state after the end of an instruction, if it has ended: the
    /// counter is back at zero and the next opcode is latched from the data
    /// bus.
    pub open spec fn prefetched(self) -> Machine {
        if self.current is None {
            self.goto(0).latch(Register::IR)
        } else {
            self
        }
    }

    /// The state after the program counter has gone out on the address bus
    /// and moved on by one, unless the micro-step asked it to stay; the
    /// request is spent either way.
    pub open spec fn advanced(self) -> Machine {
        let moved = if self.skip {
            self
        } else {
            self.address(Register::PC).up(Register::PC)
        };
        Machine { skip: false, ..moved }
    }

    /// The state after one machine cycle.
    pub open spec fn stepped(self) -> Machine
        recommends
            self.can_step(),
    {
        self.primed().executed(self.primed().current.unwrap()).prefetched().advanced()
    }
}

/// The CPU core.
pub struct CPU {
    pub control_unit: ControlUnit,
    pub data_bus: Bus<u8>,
    pub register_file: RegisterFile,
    pub address_bus: Bus<u16>,
    pub alu: ALU,
    pub idu: IDU,
    /// The instruction in flight; `None` when the core is ready to decode.
    pub current_instruction: Option<Instruction>,
    /// The micro-step that the instruction in flight has reached.
    pub instruction_counter: u8,
    /// Set by a micro-step that used the buses itself; consumed at the end of
    /// every cycle.
    pub skip_pc_increment: bool,
}

impl View for CPU {
    type V = Machine;

    open spec fn view(&self) -> Machine {
        Machine {
            registers: self.register_file@,
            data_bus: self.data_bus@,
            address_bus: self.address_bus@,
            buffer: self.alu.buffer,
            ime: self.control_unit.ime,
            current: self.current_instruction,
            counter: self.instruction_counter,
            skip: self.skip_pc_increment,
        }
    }
}

/// The two-bit and three-bit fields of an opcode, taken with shifts and
/// masks, in numbers.
proof fn lemma_opcode_fields(opcode: u8, field: u8)
    by (bit_vector)
    requires
        field < 8,
    ensures
        opcode >> 6u8 == opcode / 64u8,
        (opcode >> 3u8) & 0x7 == (opcode / 8u8) % 8u8,
        opcode & 0x7 == opcode % 8u8,
        (opcode >> 4u8) & 0xF == opcode / 16u8,
        opcode & 0xF == opcode % 16u8,
        field & 0x1 == field % 2u8,
        field >> 1u8 == field / 2u8,
        field & 0x7 == field,
        (field >> 1u8) & 0x1 == (field / 2u8) % 2u8,
        field << 3u8 == 8 * field,
{
}

impl CPU {
    /// A core with every register zero, both buses empty, interrupts
    /// disabled and no instruction in flight.
    pub fn new() -> (cpu: CPU)
        ensures
            cpu@ == (Machine {
                registers: Seq::new(16, |i: int| 0u8),
                data_bus: None,
                address_bus: None,
                buffer: 0,
                ime: false,
                current: None,
                counter: 0,
                skip: false,
            }),
    {
        CPU {
            control_unit: ControlUnit::new(),
            data_bus: Bus::new(),
            register_file: RegisterFile::new(),
            address_bus: Bus::new(),
            alu: ALU::new(),
            idu: IDU::new(),
            current_instruction: None,
            instruction_counter: 0,
            skip_pc_increment: false,
        }
    }

    /// The data bus, for whoever stands in for memory to put a byte on it.
    pub fn data_bus_mut(&mut self) -> (bus: &mut Bus<u8>)
        ensures
            *bus == old(self).data_bus,
            *final(self) == (CPU { data_bus: *final(bus), ..*old(self) }),
    {
        &mut self.data_bus
    }

    /// The register file, to look at.
    pub fn register_file(&self) -> (file: &RegisterFile)
        ensures
            *file == self.register_file,
    {
        &self.register_file
    }

    /// The 8-bit register that a three-bit operand field selects.
    fn operand(field: u8) -> (register: Register)
        requires
            field < 8,
            field != 6,
        ensures
            register == operand_register(field),
            register.is_byte(),
    {
        if field == 7 {
            Register::A
        } else {
            Register::data_register(field)
        }
    }

    /// The register pair that a two-bit operand field selects.
    fn pair(field: u8) -> (register: Register)
        requires
            field < 4,
        ensures
            register == operand_pair(field),
            register.is_word(),
    {
        Register::register_pair(field)
    }

    /// Decodes the byte in the instruction register by the primary table.
    #[verifier::spinoff_prover]
    #[verifier::rlimit(50)]
    pub fn decode(&self) -> (instruction: Instruction)
        requires
            decoded(byte_at(self@.registers, Register::IR)) is Some,
        ensures
            Some(instruction) == decoded(byte_at(self@.registers, Register::IR)),
            instruction.wf(),
    {
        let instruction: u8 = self.register_file.read_u8(Register::IR);
        let instruction_header: u8 = instruction >> 6u8;
        let instruction_body_1: u8 = (instruction >> 3u8) & 0x7;
        let instruction_body_2: u8 = instruction & 0x7;
        proof {
            lemma_opcode_fields(instruction, 0);
        }

        if instruction_header == 0b00 {
            Self::decode_block_0(instruction_body_1, instruction_body_2)
        } else if instruction_header == 0b01 {
            Self::decode_block_1(instruction_body_1, instruction_body_2)
        } else if instruction_header == 0b10 {
            Self::decode_block_2(instruction_body_1, instruction_body_2)
        } else {
            Self::decode_block_3(instruction_body_1, instruction_body_2)
        }
    }

    /// Decodes an opcode of the form `0b00_yyy_zzz`.
    #[verifier::spinoff_prover]
    #[verifier::rlimit(50)]
    fn decode_block_0(instruction_body_1: u8, instruction_body_2: u8) -> (instruction: Instruction)
        requires
            instruction_body_1 < 8,
            instruction_body_2 < 8,
        ensures
            instruction == decoded_block_0(instruction_body_1, instruction_body_2),
            instruction.wf(),
    {
        proof {
            lemma_opcode_fields(0, instruction_body_1);
            if instruction_body_1 >= 4 {
                lemma_opcode_fields(0, (instruction_body_1 - 4) as u8);
            }
        }
        if instruction_body_1 == 0 && instruction_body_2 == 7 {
            Instruction::RLCA()
        } else if instruction_body_1 == 1 && instruction_body_2 == 7 {
            Instruction::RRCA()
        } else if instruction_body_1 == 2 && instruction_body_2 == 7 {
            Instruction::RLA()
        } else if instruction_body_1 == 3 && instruction_body_2 == 7 {
            Instruction::RRA()
        } else if (instruction_body_1 & 0x1) == 0 && instruction_body_2 == 3 {
            Instruction::INC_16(Self::pair(instruction_body_1 >> 1u8))
        } else if (instruction_body_1 & 0x1) == 1 && instruction_body_2 == 3 {
            Instruction::DEC_16(Self::pair(instruction_body_1 >> 1u8))
        } else if (instruction_body_1 & 0x1) == 1 && instruction_body_2 == 1 {
            Instruction::ADD_HL_16(Self::pair(instruction_body_1 >> 1u8))
        } else if instruction_body_1 == 4 && instruction_body_2 == 7 {
            Instruction::DAA()
        } else if instruction_body_1 == 5 && instruction_body_2 == 7 {
            Instruction::CPL()
        } else if instruction_body_1 == 7 && instruction_body_2 == 7 {
            Instruction::CCF()
        } else if instruction_body_1 == 6 && instruction_body_2 == 7 {
            Instruction::SCF()
        } else if instruction_body_1 != 6 && instruction_body_2 == 4 {
            Instruction::INC(Self::operand(instruction_body_1))
        } else if instruction_body_1 == 6 && instruction_body_2 == 4 {
            Instruction::INC_HL()
        } else if instruction_body_1 != 6 && instruction_body_2 == 5 {
            Instruction::DEC(Self::operand(instruction_body_1))
        } else if instruction_body_1 == 6 && instruction_body_2 == 5 {
            Instruction::DEC_HL()
        } else if instruction_body_1 == 1 && instruction_body_2 == 0 {
            Instruction::LD_SP()
        } else if (instruction_body_1 & 0x1) == 0 && instruction_body_2 == 1 {
            Instruction::LD_RR(Self::pair(instruction_body_1 >> 1u8))
        } else if instruction_body_1 == 0 && instruction_body_2 == 2 {
            Instruction::LDAM_BC()
        } else if instruction_body_1 == 1 && instruction_body_2 == 2 {
            Instruction::LDA_BC()
        } else if instruction_body_1 == 2 && instruction_body_2 == 2 {
            Instruction::LDAM_DE()
        } else if instruction_body_1 == 3 && instruction_body_2 == 2 {
            Instruction::LDA_DE()
        } else if instruction_body_1 == 4 && instruction_body_2 == 2 {
            Instruction::LDH_HLPM()
        } else if instruction_body_1 == 5 && instruction_body_2 == 2 {
            Instruction::LDH_HLP()
        } else if instruction_body_1 == 6 && instruction_body_2 == 2 {
            Instruction::LDH_HLMM()
        } else if instruction_body_1 == 7 && instruction_body_2 == 2 {
            Instruction::LDH_HLM()
        } else if instruction_body_1 == 6 && instruction_body_2 == 6 {
            Instruction::LDMI()
        } else if instruction_body_2 == 6 {
            Instruction::LDI(Self::operand(instruction_body_1))
        } else if instruction_body_1 == 0 && instruction_body_2 == 0 {
            Instruction::NOP()
        } else if instruction_body_1 == 3 && instruction_body_2 == 0 {
            Instruction::JR()
        } else if instruction_body_1 >= 4 && instruction_body_2 == 0 {
            Instruction::JR_CC(
                ((instruction_body_1 - 4) & 0x1) == 0x1,
                (((instruction_body_1 - 4) >> 1u8) & 0x1) == 0x1,
            )
        } else {
            Instruction::STOP()
        }
    }

    /// Decodes an opcode of the form `0b01_yyy_zzz`.
    #[verifier::spinoff_prover]
    #[verifier::rlimit(50)]
    fn decode_block_1(instruction_body_1: u8, instruction_body_2: u8) -> (instruction: Instruction)
        requires
            instruction_body_1 < 8,
            instruction_body_2 < 8,
        ensures
            instruction == decoded_block_1(instruction_body_1, instruction_body_2),
            instruction.wf(),
    {
        if instruction_body_1 != 6 && instruction_body_2 != 6 {
            Instruction::LDR(
                Self::operand(instruction_body_1),
                Self::operand(instruction_body_2),
            )
        } else if instruction_body_1 == 6 && instruction_body_2 == 6 {
            Instruction::HALT()
        } else if instruction_body_2 == 6 {
            Instruction::LD(Self::operand(instruction_body_1))
        } else {
            Instruction::LDM(Self::operand(instruction_body_2))
        }
    }

    /// Decodes an opcode of the form `0b10_yyy_zzz`.
    #[verifier::spinoff_prover]
    #[verifier::rlimit(50)]
    fn decode_block_2(instruction_body_1: u8, instruction_body_2: u8) -> (instruction: Instruction)
        requires
            instruction_body_1 < 8,
            instruction_body_2 < 8,
        ensures
            instruction == decoded_block_2(instruction_body_1, instruction_body_2),
            instruction.wf(),
    {
        if instruction_body_1 == 4 && instruction_body_2 != 6 {
            Instruction::AND(Self::operand(instruction_body_2))
        } else if instruction_body_1 == 4 && instruction_body_2 == 6 {
            Instruction::AND_HL()
        } else if instruction_body_1 == 6 && instruction_body_2 != 6 {
            Instruction::OR(Self::operand(instruction_body_2))
        } else if instruction_body_1 == 6 && instruction_body_2 == 6 {
            Instruction::OR_HL()
        } else if instruction_body_1 == 5 && instruction_body_2 != 6 {
            Instruction::XOR(Self::operand(instruction_body_2))
        } else if instruction_body_1 == 5 && instruction_body_2 == 6 {
            Instruction::XOR_HL()
        } else if instruction_body_1 == 7 && instruction_body_2 != 6 {
            Instruction::CP(Self::operand(instruction_body_2))
        } else if instruction_body_1 == 7 && instruction_body_2 == 6 {
            Instruction::CP_HL()
        } else if instruction_body_1 == 1 && instruction_body_2 == 6 {
            Instruction::ADC_HL()
        } else if instruction_body_1 == 1 && instruction_body_2 != 6 {
            Instruction::ADC(Self::operand(instruction_body_2))
        } else if instruction_body_1 == 0 && instruction_body_2 != 6 {
            Instruction::ADD(Self::operand(instruction_body_2))
        } else if instruction_body_1 == 0 && instruction_body_2 == 6 {
            Instruction::ADD_HL()
        } else if instruction_body_1 == 3 && instruction_body_2 == 6 {
            Instruction::SBC_HL()
        } else if instruction_body_1 == 3 && instruction_body_2 != 6 {
            Instruction::SBC(Self::operand(instruction_body_2))
        } else if instruction_body_1 == 2 && instruction_body_2 != 6 {
            Instruction::SUB(Self::operand(instruction_body_2))
        } else {
            Instruction::SUB_HL()
        }
    }

    /// Decodes an opcode of the form `0b11_yyy_zzz` that names an
    /// instruction.
    #[verifier::spinoff_prover]
    #[verifier::rlimit(50)]
    fn decode_block_3(instruction_body_1: u8, instruction_body_2: u8) -> (instruction: Instruction)
        requires
            instruction_body_1 < 8,
            instruction_body_2 < 8,
            decoded_block_3(instruction_body_1, instruction_body_2) is Some,
        ensures
            Some(instruction) == decoded_block_3(instruction_body_1, instruction_body_2),
            instruction.wf(),
    {
        proof {
            lemma_opcode_fields(0, instruction_body_1);
        }
        if instruction_body_1 == 1 && instruction_body_2 == 3 {
            Instruction::CB()
        } else if instruction_body_1 == 5 && instruction_body_2 == 0 {
            Instruction::ADD_SPE()
        } else if instruction_body_1 == 7 && instruction_body_2 == 6 {
            Instruction::CPI()
        } else if instruction_body_1 == 0 && instruction_body_2 == 6 {
            Instruction::ADDI()
        } else if instruction_body_1 == 2 && instruction_body_2 == 6 {
            Instruction::SUBI()
        } else if instruction_body_1 == 1 && instruction_body_2 == 6 {
            Instruction::ADCI()
        } else if instruction_body_1 == 3 && instruction_body_2 == 6 {
            Instruction::SBCI()
        } else if instruction_body_1 == 4 && instruction_body_2 == 6 {
            Instruction::ANDI()
        } else if instruction_body_1 == 6 && instruction_body_2 == 6 {
            Instruction::ORI()
        } else if instruction_body_1 == 5 && instruction_body_2 == 6 {
            Instruction::XORI()
        } else if instruction_body_1 == 7 && instruction_body_2 == 0 {
            Instruction::LD_SPE()
        } else if (instruction_body_1 & 0x1) == 0 && instruction_body_2 == 1 {
            Instruction::POP(Self::pair(instruction_body_1 >> 1u8))
        } else if (instruction_body_1 & 0x1) == 0 && instruction_body_2 == 5 {
            Instruction::PUSH(Self::pair(instruction_body_1 >> 1u8))
        } else if instruction_body_1 == 7 && instruction_body_2 == 1 {
            Instruction::LD_SP_HL()
        } else if instruction_body_1 == 7 && instruction_body_2 == 2 {
            Instruction::LDAD()
        } else if instruction_body_1 == 6 && instruction_body_2 == 2 {
            Instruction::LDH()
        } else if instruction_body_1 == 5 && instruction_body_2 == 2 {
            Instruction::LDAMD()
        } else if instruction_body_1 == 4 && instruction_body_2 == 2 {
            Instruction::LDH_M()
        } else if instruction_body_1 == 6 && instruction_body_2 == 0 {
            Instruction::LDH_D()
        } else if instruction_body_1 == 4 && instruction_body_2 == 0 {
            Instruction::LDH_DM()
        } else if instruction_body_1 == 0 && instruction_body_2 == 3 {
            Instruction::JPI()
        } else if instruction_body_1 == 5 && instruction_body_2 == 1 {
            Instruction::JP_HL()
        } else if instruction_body_1 < 4 && instruction_body_2 == 2 {
            Instruction::JP_CCI(
                (instruction_body_1 & 0x1) == 0x1,
                ((instruction_body_1 >> 1u8) & 0x1) == 0x1,
            )
        } else if instruction_body_1 == 1 && instruction_body_2 == 5 {
            Instruction::CALL()
        } else if instruction_body_1 < 4 && instruction_body_2 == 4 {
            Instruction::CALL_CC(
                (instruction_body_1 & 0x1) == 0x1,
                ((instruction_body_1 >> 1u8) & 0x1) == 0x1,
            )
        } else if instruction_body_1 == 1 && instruction_body_2 == 1 {
            Instruction::RET()
        } else if instruction_body_1 < 4 && instruction_body_2 == 0 {
            Instruction::RET_CC(
                (instruction_body_1 & 0x1) == 0x1,
                ((instruction_body_1 >> 1u8) & 0x1) == 0x1,
            )
        } else if instruction_body_1 == 3 && instruction_body_2 == 1 {
            Instruction::RETI()
        } else if instruction_body_2 == 7 {
            Instruction::RST(instruction_body_1 << 3u8)
        } else if instruction_body_1 == 6 && instruction_body_2 == 3 {
            Instruction::DI()
        } else {
            Instruction::EI()
        }
    }

    /// Decodes the byte in the instruction register by the extended table.
    #[verifier::spinoff_prover]
    #[verifier::rlimit(50)]
    pub fn decode_cb(&self) -> (instruction: Instruction)
        ensures
            instruction == decoded_extended(byte_at(self@.registers, Register::IR)),
            instruction.wf(),
    {
        let instruction: u8 = self.register_file.read_u8(Register::IR);
        let instruction_body_1: u8 = (instruction >> 4u8) & 0xF;
        let instruction_body_2: u8 = instruction & 0xF;
        proof {
            lemma_opcode_fields(instruction, 0);
            lemma_opcode_fields(instruction_body_2, 0);
        }
        let operand: u8 = instruction_body_2 & 0x7;
        let upper: bool = instruction_body_2 >= 0x8;

        if instruction_body_1 < 0x4 {
            if operand == 0x6 {
                if instruction_body_1 == 0x0 && !upper {
                    Instruction::RLC_HL()
                } else if instruction_body_1 == 0x0 {
                    Instruction::RRC_HL()
                } else if instruction_body_1 == 0x1 && !upper {
                    Instruction::RL_HL()
                } else if instruction_body_1 == 0x1 {
                    Instruction::RR_HL()
                } else if instruction_body_1 == 0x2 && !upper {
                    Instruction::SLA_HL()
                } else if instruction_body_1 == 0x2 {
                    Instruction::SRA_HL()
                } else if !upper {
                    Instruction::SWAP_HL()
                } else {
                    Instruction::SRL_HL()
                }
            } else {
                let register = Self::operand(operand);
                if instruction_body_1 == 0x0 && !upper {
                    Instruction::RLC(register)
                } else if instruction_body_1 == 0x0 {
                    Instruction::RRC(register)
                } else if instruction_body_1 == 0x1 && !upper {
                    Instruction::RL(register)
                } else if instruction_body_1 == 0x1 {
                    Instruction::RR(register)
                } else if instruction_body_1 == 0x2 && !upper {
                    Instruction::SLA(register)
                } else if instruction_body_1 == 0x2 {
                    Instruction::SRA(register)
                } else if !upper {
                    Instruction::SWAP(register)
                } else {
                    Instruction::SRL(register)
                }
            }
        } else {
            let half: u8 = if upper {
                1
            } else {
                0
            };
            if instruction_body_1 < 0x8 {
                let bit_idx: u8 = 2 * (instruction_body_1 - 0x4) + half;
                if operand == 0x6 {
                    Instruction::BIT_HL(bit_idx)
                } else {
                    Instruction::BIT(bit_idx, Self::operand(operand))
                }
            } else if instruction_body_1 < 0xC {
                let bit_idx: u8 = 2 * (instruction_body_1 - 0x8) + half;
                if operand == 0x6 {
                    Instruction::RES_HL(bit_idx)
                } else {
                    Instruction::RES(bit_idx, Self::operand(operand))
                }
            } else {
                let bit_idx: u8 = 2 * (instruction_body_1 - 0xC) + half;
                if operand == 0x6 {
                    Instruction::SET_HL(bit_idx)
                } else {
                    Instruction::SET(bit_idx, Self::operand(operand))
                }
            }
        }
    }
}

/// Joining 0xFF00 and a byte with an or adds them.
proof fn lemma_high_page(low: u8)
    by (bit_vector)
    ensures
        0xFF00u16 | (low as u16) == 0xFF00u16 + (low as u16),
{
}

impl CPU {
    /// Reads the byte at the address in `pointer` into the scratch register Z.
    fn fetch_at(&mut self, pointer: Register)
        requires
            pointer.is_word(),
        ensures
            final(self)@ == old(self)@.fetch_at(pointer),
    {
        self.register_file.write_address_bus(pointer, &mut self.address_bus);
        self.register_file.read_data_bus(Register::Z, &self.data_bus);
        self.skip_pc_increment = true;
    }

    /// Writes the 8-bit register `source` to the address in `pointer`.
    fn store_at(&mut self, pointer: Register, source: Register)
        requires
            pointer.is_word(),
            source.is_byte(),
        ensures
            final(self)@ == old(self)@.store_at(pointer, source),
    {
        self.register_file.write_address_bus(pointer, &mut self.address_bus);
        self.register_file.write_data_bus(source, &mut self.data_bus);
        self.skip_pc_increment = true;
    }

    /// Moves the scratch register Z into `target` through the ALU.
    fn deliver(&mut self, target: Register)
        requires
            target.is_byte(),
        ensures
            final(self)@ == old(self)@.deliver(target),
    {
        self.alu.read_data_register(&self.register_file, Register::Z);
        self.alu.write_data_register(&mut self.register_file, target);
    }

    /// Latches the data bus into an 8-bit register.
    fn latch(&mut self, register: Register)
        requires
            register.is_byte(),
        ensures
            final(self)@ == old(self)@.latch(register),
    {
        self.register_file.read_data_bus(register, &self.data_bus);
    }

    /// Goes on with the next micro-step.
    fn next(&mut self)
        requires
            old(self).instruction_counter < 255,
        ensures
            final(self)@ == old(self)@.next(),
    {
        self.instruction_counter += 1;
    }

    /// Takes the instruction out of flight.
    fn finish(&mut self)
        ensures
            final(self)@ == old(self)@.finish(),
    {
        self.current_instruction = None;
    }

    /// Puts the offset 0xFF00 + `low` on the address bus.
    fn address_high_page(&mut self, low: u8)
        ensures
            final(self)@ == old(self)@.address_value((0xFF00 + low) as u16),
    {
        proof {
            lemma_high_page(low);
        }
        let address: u16 = 0xFF00 | (low as u16);
        self.address_bus.write(address);
    }

    /// One micro-step of an 8-bit load.
    #[verifier::spinoff_prover]
    #[verifier::rlimit(50)]
    fn execute_load(&mut self, instruction: Instruction)
        requires
            instruction.family() == Family::Load,
            instruction.wf(),
            instruction.has_step(old(self).instruction_counter),
        ensures
            final(self)@ == old(self)@.executed_load(instruction),
    {
        match instruction {
            Instruction::LDR(r, r_) => {
                self.alu.read_data_register(&self.register_file, r_);
                self.alu.write_data_register(&mut self.register_file, r);
                self.finish();
            },
            Instruction::LDI(r) => match self.instruction_counter {
                0 => {
                    self.latch(Register::Z);
                    self.next();
                },
                _ => {
                    self.deliver(r);
                    self.finish();
                },
            },
            Instruction::LD(r) => match self.instruction_counter {
                0 => {
                    self.fetch_at(Register::HL);
                    self.next();
                },
                _ => {
                    self.deliver(r);
                    self.finish();
                },
            },
            Instruction::LDM(r) => match self.instruction_counter {
                0 => {
                    self.store_at(Register::HL, r);
                    self.next();
                },
                _ => {
                    // The buses were busy in the cycle before; this one ends the instruction.
                    self.finish();
                },
            },
            Instruction::LDMI() => match self.instruction_counter {
                0 => {
                    self.latch(Register::Z);
                    self.next();
                },
                1 => {
                    self.store_at(Register::HL, Register::Z);
                    self.next();
                },
                _ => {
                    self.finish();
                },
            },
            Instruction::LDA_BC() => match self.instruction_counter {
                0 => {
                    self.fetch_at(Register::BC);
                    self.next();
                },
                _ => {
                    self.deliver(Register::A);
                    self.finish();
                },
            },
            Instruction::LDA_DE() => match self.instruction_counter {
                0 => {
                    self.fetch_at(Register::DE);
                    self.next();
                },
                _ => {
                    self.deliver(Register::A);
                    self.finish();
                },
            },
            Instruction::LDAM_BC() => match self.instruction_counter {
                0 => {
                    self.store_at(Register::BC, Register::A);
                    self.next();
                },
                _ => {
                    self.finish();
                },
            },
            Instruction::LDAM_DE() => match self.instruction_counter {
                0 => {
                    self.store_at(Register::DE, Register::A);
                    self.next();
                },
                _ => {
                    self.finish();
                },
            },
            Instruction::LDAD() => match self.instruction_counter {
                0 => {
                    self.latch(Register::Z);
                    self.next();
                },
                1 => {
                    self.latch(Register::W);
                    self.next();
                },
                2 => {
                    self.fetch_at(Register::WZ);
                    self.next();
                },
                _ => {
                    self.deliver(Register::A);
                    self.finish();
                },
            },
            Instruction::LDAMD() => match self.instruction_counter {
                0 => {
                    self.latch(Register::Z);
                    self.next();
                },
                1 => {
                    self.latch(Register::W);
                    self.next();
                },
                2 => {
                    self.store_at(Register::WZ, Register::A);
                    self.next();
                },
                _ => {
                    self.finish();
                },
            },
            Instruction::LDH() => match self.instruction_counter {
                0 => {
                    let c: u8 = self.register_file.read_u8(Register::C);
                    self.address_high_page(c);
                    self.latch(Register::Z);
                    self.skip_pc_increment = true;
                    self.next();
                },
                _ => {
                    self.deliver(Register::A);
                    self.finish();
                },
            },
            Instruction::LDH_M() => match self.instruction_counter {
                0 => {
                    let c: u8 = self.register_file.read_u8(Register::C);
                    self.address_high_page(c);
                    self.register_file.write_data_bus(Register::A, &mut self.data_bus);
                    self.skip_pc_increment = true;
                    self.next();
                },
                _ => {
                    self.finish();
                },
            },
            Instruction::LDH_D() => match self.instruction_counter {
                0 => {
                    self.latch(Register::Z);
                    self.next();
                },
                1 => {
                    let c: u8 = self.register_file.read_u8(Register::Z);
                    self.address_high_page(c);
                    self.latch(Register::Z);
                    self.skip_pc_increment = true;
                    self.next();
                },
                _ => {
                    self.deliver(Register::A);
                    self.finish();
                },
            },
            Instruction::LDH_DM() => match self.instruction_counter {
                0 => {
                    self.latch(Register::Z);
                    self.next();
                },
                1 => {
                    let c: u8 = self.register_file.read_u8(Register::Z);
                    self.address_high_page(c);
                    self.register_file.write_data_bus(Register::A, &mut self.data_bus);
                    self.skip_pc_increment = true;
                    self.next();
                },
                _ => {
                    self.finish();
                },
            },
            Instruction::LDH_HLM() => match self.instruction_counter {
                0 => {
                    self.register_file.write_address_bus(Register::HL, &mut self.address_bus);
                    self.latch(Register::Z);
                    self.idu.decrement_into(
                        &self.address_bus,
                        &mut self.register_file,
                        Register::HL,
                    );
                    self.skip_pc_increment = true;
                    self.next();
                },
                _ => {
                    self.deliver(Register::A);
                    self.finish();
                },
            },
            Instruction::LDH_HLMM() => match self.instruction_counter {
                0 => {
                    self.register_file.write_address_bus(Register::HL, &mut self.address_bus);
                    self.register_file.write_data_bus(Register::A, &mut self.data_bus);
                    self.idu.decrement_into(
                        &self.address_bus,
                        &mut self.register_file,
                        Register::HL,
                    );
                    self.skip_pc_increment = true;
                    self.next();
                },
                _ => {
                    self.finish();
                },
            },
            Instruction::LDH_HLP() => match self.instruction_counter {
                0 => {
                    self.register_file.write_address_bus(Register::HL, &mut self.address_bus);
                    self.latch(Register::Z);
                    self.idu.increment_into(
                        &self.address_bus,
                        &mut self.register_file,
                        Register::HL,
                    );
                    self.skip_pc_increment = true;
                    self.next();
                },
                _ => {
                    self.deliver(Register::A);
                    self.finish();
                },
            },
            Instruction::LDH_HLPM() => match self.instruction_counter {
                0 => {
                    self.register_file.write_address_bus(Register::HL, &mut self.address_bus);
                    self.register_file.write_data_bus(Register::A, &mut self.data_bus);
                    self.idu.increment_into(
                        &self.address_bus,
                        &mut self.register_file,
                        Register::HL,
                    );
                    self.skip_pc_increment = true;
                    self.next();
                },
                _ => {
                    self.finish();
                },
            },
            _ => {},
        }
    }
}

impl CPU {
    /// Puts a byte on the data bus.
    fn drive_value(&mut self, value: u8)
        ensures
            final(self)@ == old(self)@.drive_value(value),
    {
        self.data_bus.write(value);
    }

    /// Puts a 16-bit register on the address bus.
    fn address(&mut self, register: Register)
        requires
            register.is_word(),
        ensures
            final(self)@ == old(self)@.address(register),
    {
        self.register_file.write_address_bus(register, &mut self.address_bus);
    }

    /// Copies one 16-bit register into another.
    fn copy_word(&mut self, to: Register, from: Register)
        requires
            to.is_word(),
            from.is_word(),
        ensures
            final(self)@ == old(self)@.copy_word(to, from),
    {
        let value: u16 = self.register_file.read_u16(from);
        self.register_file.write_u16(to, value);
    }

    /// The low pass of adding the signed offset in Z to a 16-bit register.
    fn offset_low(&mut self, register: Register)
        requires
            register.is_word(),
        ensures
            final(self)@ == old(self)@.offset_low(register),
    {
        self.alu.read_data_register(&self.register_file, Register::Z);
        self.alu.addi_register_16_low(&mut self.register_file, register);
    }

    /// The high pass of adding the signed offset in Z to a 16-bit register.
    fn offset_high(&mut self, register: Register)
        requires
            register.is_word(),
        ensures
            final(self)@ == old(self)@.offset_high(register),
    {
        self.alu.read_data_register(&self.register_file, Register::Z);
        self.alu.addi_register_16_high(&self.register_file, register);
    }

    /// One micro-step of a 16-bit load.
    #[verifier::spinoff_prover]
    #[verifier::rlimit(50)]
    fn execute_load_16(&mut self, instruction: Instruction)
        requires
            instruction.family() == Family::Load16,
            instruction.wf(),
            instruction.has_step(old(self).instruction_counter),
        ensures
            final(self)@ == old(self)@.executed_load_16(instruction),
    {
        match instruction {
            Instruction::LD_RR(r) => match self.instruction_counter {
                0 => {
                    self.latch(Register::Z);
                    self.next();
                },
                1 => {
                    self.latch(Register::W);
                    self.next();
                },
                _ => {
                    self.copy_word(r, Register::WZ);
                    self.finish();
                },
            },
            Instruction::LD_SP() => match self.instruction_counter {
                0 => {
                    self.latch(Register::Z);
                    self.next();
                },
                1 => {
                    self.latch(Register::W);
                    self.next();
                },
                2 => {
                    self.address(Register::WZ);
                    let low: u8 = self.register_file.read_u16_low(Register::SP);
                    self.drive_value(low);
                    self.idu.increment_into(
                        &self.address_bus,
                        &mut self.register_file,
                        Register::WZ,
                    );
                    self.skip_pc_increment = true;
                    self.next();
                },
                3 => {
                    self.address(Register::WZ);
                    let high: u8 = self.register_file.read_u16_high(Register::SP);
                    self.drive_value(high);
                    self.skip_pc_increment = true;
                    self.next();
                },
                _ => {
                    self.finish();
                },
            },
            Instruction::LD_SP_HL() => match self.instruction_counter {
                0 => {
                    self.address(Register::HL);
                    self.idu.write_into(&self.address_bus, &mut self.register_file, Register::SP);
                    self.skip_pc_increment = true;
                    self.next();
                },
                _ => {
                    self.finish();
                },
            },
            Instruction::PUSH(r) => match self.instruction_counter {
                0 => {
                    self.address(Register::SP);
                    self.idu.decrement_into(
                        &self.address_bus,
                        &mut self.register_file,
                        Register::SP,
                    );
                    self.skip_pc_increment = true;
                    self.next();
                },
                1 => {
                    self.address(Register::SP);
                    let high: u8 = self.register_file.read_u16_high(r);
                    self.drive_value(high);
                    self.idu.decrement_into(
                        &self.address_bus,
                        &mut self.register_file,
                        Register::SP,
                    );
                    self.skip_pc_increment = true;
                    self.next();
                },
                2 => {
                    self.address(Register::SP);
                    let low: u8 = self.register_file.read_u16_low(r);
                    self.drive_value(low);
                    // The stack pointer stays; the pass through the IDU keeps the timing.
                    self.idu.write_into(&self.address_bus, &mut self.register_file, Register::SP);
                    self.skip_pc_increment = true;
                    self.next();
                },
                _ => {
                    self.finish();
                },
            },
            Instruction::POP(r) => match self.instruction_counter {
                0 => {
                    self.address(Register::SP);
                    self.latch(Register::Z);
                    self.idu.increment_into(
                        &self.address_bus,
                        &mut self.register_file,
                        Register::SP,
                    );
                    self.skip_pc_increment = true;
                    self.next();
                },
                1 => {
                    self.address(Register::SP);
                    self.latch(Register::W);
                    self.idu.increment_into(
                        &self.address_bus,
                        &mut self.register_file,
                        Register::SP,
                    );
                    self.skip_pc_increment = true;
                    self.next();
                },
                _ => {
                    self.copy_word(r, Register::WZ);
                    self.finish();
                },
            },
            Instruction::LD_SPE() => match self.instruction_counter {
                0 => {
                    self.latch(Register::Z);
                    self.next();
                },
                1 => {
                    self.address_bus.write(0x0000);
                    self.offset_low(Register::SP);
                    self.alu.write_register_pair_low(&mut self.register_file, Register::HL);
                    self.skip_pc_increment = true;
                    self.next();
                },
                _ => {
                    self.offset_high(Register::SP);
                    self.alu.write_register_pair_high(&mut self.register_file, Register::HL);
                    self.finish();
                },
            },
            _ => {},
        }
    }

    /// Replaces the instruction in flight.
    fn turn_into(&mut self, instruction: Instruction)
        ensures
            final(self)@ == old(self)@.turn_into(instruction),
    {
        self.current_instruction = Some(instruction);
    }

    /// One micro-step of 8-bit arithmetic or logic.
    #[verifier::spinoff_prover]
    #[verifier::rlimit(50)]
    fn execute_arithmetic(&mut self, instruction: Instruction)
        requires
            instruction.family() == Family::Arithmetic,
            instruction.wf(),
            instruction.has_step(old(self).instruction_counter),
        ensures
            final(self)@ == old(self)@.executed_arithmetic(instruction),
    {
        match instruction {
            Instruction::ADD(r) => {
                self.alu.read_data_register(&self.register_file, Register::A);
                self.alu.add_register(&mut self.register_file, r, false);
                self.alu.write_data_register(&mut self.register_file, Register::A);
                self.finish();
            },
            Instruction::ADD_HL() => {
                self.fetch_at(Register::HL);
                self.turn_into(Instruction::ADD(Register::Z));
            },
            Instruction::ADDI() => {
                self.latch(Register::Z);
                self.turn_into(Instruction::ADD(Register::Z));
            },
            Instruction::ADC(r) => {
                self.alu.read_data_register(&self.register_file, Register::A);
                self.alu.add_register(&mut self.register_file, r, true);
                self.alu.write_data_register(&mut self.register_file, Register::A);
                self.finish();
            },
            Instruction::ADC_HL() => {
                self.fetch_at(Register::HL);
                self.turn_into(Instruction::ADC(Register::Z));
            },
            Instruction::ADCI() => {
                self.latch(Register::Z);
                self.turn_into(Instruction::ADC(Register::Z));
            },
            Instruction::SUB(r) => {
                self.alu.read_data_register(&self.register_file, Register::A);
                self.alu.sub_register(&mut self.register_file, r, false);
                self.alu.write_data_register(&mut self.register_file, Register::A);
                self.finish();
            },
            Instruction::SUB_HL() => {
                self.fetch_at(Register::HL);
                self.turn_into(Instruction::SUB(Register::Z));
            },
            Instruction::SUBI() => {
                self.latch(Register::Z);
                self.turn_into(Instruction::SUB(Register::Z));
            },
            Instruction::SBC(r) => {
                self.alu.read_data_register(&self.register_file, Register::A);
                self.alu.sub_register(&mut self.register_file, r, true);
                self.alu.write_data_register(&mut self.register_file, Register::A);
                self.finish();
            },
            Instruction::SBC_HL() => {
                self.fetch_at(Register::HL);
                self.turn_into(Instruction::SBC(Register::Z));
            },
            Instruction::SBCI() => {
                self.latch(Register::Z);
                self.turn_into(Instruction::SBC(Register::Z));
            },
            Instruction::CP(r) => {
                self.alu.read_data_register(&self.register_file, Register::A);
                self.alu.sub_register(&mut self.register_file, r, false);
                self.finish();
            },
            Instruction::CP_HL() => {
                self.fetch_at(Register::HL);
                self.turn_into(Instruction::CP(Register::Z));
            },
            Instruction::CPI() => {
                self.latch(Register::Z);
                self.turn_into(Instruction::CP(Register::Z));
            },
            Instruction::INC(r) => {
                self.alu.read_data_register(&self.register_file, r);
                self.alu.increment(&mut self.register_file);
                self.alu.write_data_register(&mut self.register_file, r);
                self.finish();
            },
            Instruction::INC_HL() => match self.instruction_counter {
                0 => {
                    self.fetch_at(Register::HL);
                    self.next();
                },
                1 => {
                    self.alu.read_data_register(&self.register_file, Register::Z);
                    self.alu.increment(&mut self.register_file);
                    self.alu.write_data_bus(&mut self.data_bus);
                    self.skip_pc_increment = true;
                    self.next();
                },
                _ => {
                    self.finish();
                },
            },
            Instruction::DEC(r) => {
                self.alu.read_data_register(&self.register_file, r);
                self.alu.decrement(&mut self.register_file);
                self.alu.write_data_register(&mut self.register_file, r);
                self.finish();
            },
            Instruction::DEC_HL() => match self.instruction_counter {
                0 => {
                    self.fetch_at(Register::HL);
                    self.next();
                },
                1 => {
                    self.alu.read_data_register(&self.register_file, Register::Z);
                    self.alu.decrement(&mut self.register_file);
                    self.alu.write_data_bus(&mut self.data_bus);
                    self.skip_pc_increment = true;
                    self.next();
                },
                _ => {
                    self.finish();
                },
            },
            Instruction::AND(r) => {
                self.alu.read_data_register(&self.register_file, Register::A);
                self.alu.and(&mut self.register_file, r);
                self.alu.write_data_register(&mut self.register_file, Register::A);
                self.finish();
            },
            Instruction::AND_HL() => {
                self.fetch_at(Register::HL);
                self.turn_into(Instruction::AND(Register::Z));
            },
            Instruction::ANDI() => {
                self.latch(Register::Z);
                self.skip_pc_increment = true;
                self.turn_into(Instruction::AND(Register::Z));
            },
            Instruction::OR(r) => {
                self.alu.read_data_register(&self.register_file, Register::A);
                self.alu.or(&mut self.register_file, r);
                self.alu.write_data_register(&mut self.register_file, Register::A);
                self.finish();
            },
            Instruction::OR_HL() => {
                self.fetch_at(Register::HL);
                self.turn_into(Instruction::OR(Register::Z));
            },
            Instruction::ORI() => {
                self.latch(Register::Z);
                self.skip_pc_increment = true;
                self.turn_into(Instruction::OR(Register::Z));
            },
            Instruction::XOR(r) => {
                self.alu.read_data_register(&self.register_file, Register::A);
                self.alu.xor(&mut self.register_file, r);
                self.alu.write_data_register(&mut self.register_file, Register::A);
                self.finish();
            },
            Instruction::XOR_HL() => {
                self.fetch_at(Register::HL);
                self.turn_into(Instruction::XOR(Register::Z));
            },
            Instruction::XORI() => {
                self.latch(Register::Z);
                self.skip_pc_increment = true;
                self.turn_into(Instruction::XOR(Register::Z));
            },
            Instruction::CCF() => {
                self.alu.flip_carry(&mut self.register_file);
                self.finish();
            },
            Instruction::SCF() => {
                self.alu.set_carry(&mut self.register_file);
                self.finish();
            },
            Instruction::DAA() => {
                self.alu.read_data_register(&self.register_file, Register::A);
                self.alu.decimal_adjust(&mut self.register_file);
                self.alu.write_data_register(&mut self.register_file, Register::A);
                self.finish();
            },
            Instruction::CPL() => {
                self.alu.read_data_register(&self.register_file, Register::A);
                self.alu.flip(&mut self.register_file);
                self.alu.write_data_register(&mut self.register_file, Register::A);
                self.finish();
            },
            _ => {},
        }
    }

    /// One micro-step of 16-bit arithmetic.
    #[verifier::spinoff_prover]
    #[verifier::rlimit(50)]
    fn execute_arithmetic_16(&mut self, instruction: Instruction)
        requires
            instruction.family() == Family::Arithmetic16,
            instruction.wf(),
            instruction.has_step(old(self).instruction_counter),
        ensures
            final(self)@ == old(self)@.executed_arithmetic_16(instruction),
    {
        match instruction {
            Instruction::INC_16(r) => match self.instruction_counter {
                0 => {
                    self.address(r);
                    self.idu.increment_into(&self.address_bus, &mut self.register_file, r);
                    self.skip_pc_increment = true;
                    self.next();
                },
                _ => {
                    self.finish();
                },
            },
            Instruction::DEC_16(r) => match self.instruction_counter {
                0 => {
                    self.address(r);
                    self.idu.decrement_into(&self.address_bus, &mut self.register_file, r);
                    self.skip_pc_increment = true;
                    self.next();
                },
                _ => {
                    self.finish();
                },
            },
            Instruction::ADD_HL_16(r) => match self.instruction_counter {
                0 => {
                    self.address_bus.write(0x0000);
                    self.alu.read_register_pair_low(&self.register_file, Register::HL);
                    self.alu.add_register_16_low(&mut self.register_file, r);
                    self.alu.write_register_pair_low(&mut self.register_file, Register::HL);
                    self.skip_pc_increment = true;
                    self.next();
                },
                _ => {
                    self.alu.read_register_pair_high(&self.register_file, Register::HL);
                    self.alu.add_register_16_high(&mut self.register_file, r);
                    self.alu.write_register_pair_high(&mut self.register_file, Register::HL);
                    self.finish();
                },
            },
            Instruction::ADD_SPE() => match self.instruction_counter {
                0 => {
                    self.latch(Register::Z);
                    self.next();
                },
                1 => {
                    self.address_bus.write(0x0000);
                    self.offset_low(Register::SP);
                    // The low byte of the sum waits in W: the high pass still needs the
                    // sign of the offset in Z.
                    self.alu.write_data_register(&mut self.register_file, Register::W);
                    self.skip_pc_increment = true;
                    self.next();
                },
                2 => {
                    self.address_bus.write(0x0000);
                    self.offset_high(Register::SP);
                    let low: u8 = self.register_file.read_u8(Register::W);
                    self.register_file.write_u8(Register::Z, low);
                    self.alu.write_data_register(&mut self.register_file, Register::W);
                    self.skip_pc_increment = true;
                    self.next();
                },
                _ => {
                    self.copy_word(Register::SP, Register::WZ);
                    self.finish();
                },
            },
            _ => {},
        }
    }
}

/// The ways in which the ALU can rework one byte.
#[derive(Clone, Copy, Debug, PartialEq, Eq, Structural)]
pub enum Rework {
    /// A rotation to the left; through the carry flag if the field is set.
    RotateLeft(bool),
    /// A rotation to the right; through the carry flag if the field is set.
    RotateRight(bool),
    /// A shift to the left.
    ShiftLeft,
    /// A shift to the right; the sign bit stays if the field is set.
    ShiftRight(bool),
    /// An exchange of the two nibbles.
    Swap,
}

impl Rework {
    /// What the operation makes of the byte `value` under the flags `f`.
    pub open spec fn outcome(self, value: u8, f: Flags) -> Outcome {
        match self {
            Rework::RotateLeft(through_carry) => rotate_left_outcome(value, through_carry, f),
            Rework::RotateRight(through_carry) => rotate_right_outcome(value, through_carry, f),
            Rework::ShiftLeft => shift_left_outcome(value, f),
            Rework::ShiftRight(arithmetic) => shift_right_outcome(value, arithmetic, f),
            Rework::Swap => swap_outcome(value, f),
        }
    }
}

impl CPU {
    /// The ALU reworks its buffer.
    fn rework_buffer(&mut self, operation: Rework)
        ensures
            final(self)@ == old(self)@.settle(
                operation.outcome(old(self)@.buffer, old(self)@.flags()),
            ),
    {
        match operation {
            Rework::RotateLeft(through_carry) => self.alu.rotate_left(
                &mut self.register_file,
                through_carry,
            ),
            Rework::RotateRight(through_carry) => self.alu.rotate_right(
                &mut self.register_file,
                through_carry,
            ),
            Rework::ShiftLeft => self.alu.shift_left(&mut self.register_file),
            Rework::ShiftRight(arithmetic) => self.alu.shift_right(
                &mut self.register_file,
                arithmetic,
            ),
            Rework::Swap => self.alu.swap(&mut self.register_file),
        }
    }

    /// The ALU reworks an 8-bit register in one micro-step.
    fn rework_register(&mut self, register: Register, operation: Rework)
        requires
            register.is_byte(),
        ensures
            final(self)@ == old(self)@.rework(
                register,
                operation.outcome(old(self)@.byte(register), old(self)@.flags()),
            ),
    {
        self.alu.read_data_register(&self.register_file, register);
        self.rework_buffer(operation);
        self.alu.write_data_register(&mut self.register_file, register);
        self.finish();
    }

    /// The ALU reworks the byte at the address in HL in three micro-steps.
    fn rework_memory(&mut self, operation: Rework)
        requires
            old(self).instruction_counter < 3,
        ensures
            final(self)@ == (match old(self)@.counter {
                0 => old(self)@.fetch_operand(),
                1 => old(self)@.return_operand(
                    operation.outcome(old(self)@.byte(Register::Z), old(self)@.flags()),
                ),
                _ => old(self)@.finish(),
            }),
    {
        match self.instruction_counter {
            0 => {
                self.fetch_at(Register::HL);
                self.next();
            },
            1 => {
                self.address(Register::HL);
                self.alu.read_data_register(&self.register_file, Register::Z);
                self.rework_buffer(operation);
                self.alu.write_data_bus(&mut self.data_bus);
                self.skip_pc_increment = true;
                self.next();
            },
            _ => {
                self.finish();
            },
        }
    }

    /// One micro-step of a rotation, a shift or a bit operation.
    #[verifier::spinoff_prover]
    #[verifier::rlimit(50)]
    fn execute_bitwise(&mut self, instruction: Instruction)
        requires
            instruction.family() == Family::Bitwise,
            instruction.wf(),
            instruction.has_step(old(self).instruction_counter),
        ensures
            final(self)@ == old(self)@.executed_bitwise(instruction),
    {
        match instruction {
            Instruction::RLCA() => self.rework_register(Register::A, Rework::RotateLeft(false)),
            Instruction::RRCA() => self.rework_register(Register::A, Rework::RotateRight(false)),
            Instruction::RLA() => self.rework_register(Register::A, Rework::RotateLeft(true)),
            Instruction::RRA() => self.rework_register(Register::A, Rework::RotateRight(true)),
            Instruction::CB() => {
                self.latch(Register::IR);
                let extended = self.decode_cb();
                self.turn_into(extended);
            },
            Instruction::RLC(r) => self.rework_register(r, Rework::RotateLeft(false)),
            Instruction::RLC_HL() => self.rework_memory(Rework::RotateLeft(false)),
            Instruction::RRC(r) => self.rework_register(r, Rework::RotateRight(false)),
            Instruction::RRC_HL() => self.rework_memory(Rework::RotateRight(false)),
            Instruction::RL(r) => self.rework_register(r, Rework::RotateLeft(true)),
            Instruction::RL_HL() => self.rework_memory(Rework::RotateLeft(true)),
            Instruction::RR(r) => self.rework_register(r, Rework::RotateRight(true)),
            Instruction::RR_HL() => self.rework_memory(Rework::RotateRight(true)),
            Instruction::SLA(r) => self.rework_register(r, Rework::ShiftLeft),
            Instruction::SLA_HL() => self.rework_memory(Rework::ShiftLeft),
            Instruction::SRA(r) => self.rework_register(r, Rework::ShiftRight(true)),
            Instruction::SRA_HL() => self.rework_memory(Rework::ShiftRight(true)),
            Instruction::SRL(r) => self.rework_register(r, Rework::ShiftRight(false)),
            Instruction::SRL_HL() => self.rework_memory(Rework::ShiftRight(false)),
            Instruction::SWAP(r) => self.rework_register(r, Rework::Swap),
            Instruction::SWAP_HL() => self.rework_memory(Rework::Swap),
            Instruction::BIT(bit_idx, r) => {
                self.alu.read_data_register(&self.register_file, r);
                self.alu.test_bit(&mut self.register_file, bit_idx);
                self.finish();
            },
            Instruction::BIT_HL(bit_idx) => match self.instruction_counter {
                0 => {
                    self.fetch_at(Register::HL);
                    self.next();
                },
                _ => {
                    self.address(Register::HL);
                    self.alu.read_data_register(&self.register_file, Register::Z);
                    self.alu.test_bit(&mut self.register_file, bit_idx);
                    self.finish();
                },
            },
            Instruction::RES(bit_idx, r) => {
                self.alu.read_data_register(&self.register_file, r);
                self.alu.reset_bit(bit_idx);
                self.alu.write_data_register(&mut self.register_file, r);
                self.finish();
            },
            Instruction::RES_HL(bit_idx) => match self.instruction_counter {
                0 => {
                    self.fetch_at(Register::HL);
                    self.next();
                },
                1 => {
                    self.address(Register::HL);
                    self.alu.read_data_register(&self.register_file, Register::Z);
                    self.alu.reset_bit(bit_idx);
                    self.alu.write_data_bus(&mut self.data_bus);
                    self.skip_pc_increment = true;
                    self.next();
                },
                _ => {
                    self.finish();
                },
            },
            Instruction::SET(bit_idx, r) => {
                self.alu.read_data_register(&self.register_file, r);
                self.alu.set_bit(bit_idx);
                self.alu.write_data_register(&mut self.register_file, r);
                self.finish();
            },
            Instruction::SET_HL(bit_idx) => match self.instruction_counter {
                0 => {
                    self.fetch_at(Register::HL);
                    self.next();
                },
                1 => {
                    self.address(Register::HL);
                    self.alu.read_data_register(&self.register_file, Register::Z);
                    self.alu.set_bit(bit_idx);
                    self.alu.write_data_bus(&mut self.data_bus);
                    self.skip_pc_increment = true;
                    self.next();
                },
                _ => {
                    self.finish();
                },
            },
            _ => {},
        }
    }

    /// Whether the branch condition that `value` and `flag` encode holds now.
    fn condition_met(&self, value: bool, flag: bool) -> (met: bool)
        ensures
            met == condition_met(value, flag, self@.flags()),
    {
        let flags = self.register_file.flags();
        let flag_value = if flag {
            flags.get_c()
        } else {
            flags.get_z()
        };
        flag_value == value
    }

    /// The first micro-step of a relative jump that is taken.
    fn relative_target(&mut self)
        requires
            old(self).instruction_counter < 255,
        ensures
            final(self)@ == old(self)@.relative_target(),
    {
        self.alu.read_data_register(&self.register_file, Register::Z);
        let adjustment: i32 = self.alu.jump_relative_add(&self.register_file);
        self.alu.write_data_register(&mut self.register_file, Register::Z);

        let high: u8 = self.register_file.read_u16_high(Register::PC);
        self.address_bus.write(high as u16);
        self.idu.adjust_u8_into(
            &self.address_bus,
            &mut self.register_file,
            Register::W,
            adjustment,
        );

        self.skip_pc_increment = true;
        self.next();
    }

    /// The last micro-step of a relative jump that is taken.
    fn relative_land(&mut self)
        ensures
            final(self)@ == old(self)@.relative_land(),
    {
        self.address(Register::WZ);
        self.idu.increment_into(&self.address_bus, &mut self.register_file, Register::PC);
        self.skip_pc_increment = true;
        self.finish();
    }

    /// The first of the three micro-steps that push PC.
    fn call_reserve(&mut self)
        ensures
            final(self)@ == old(self)@.call_reserve(),
    {
        self.address(Register::SP);
        self.idu.decrement_into(&self.address_bus, &mut self.register_file, Register::SP);
    }

    /// The second of the three micro-steps that push PC.
    fn call_push_high(&mut self)
        ensures
            final(self)@ == old(self)@.call_push_high(),
    {
        self.address(Register::SP);
        let high: u8 = self.register_file.read_u16_high(Register::PC);
        self.drive_value(high);
        self.idu.decrement_into(&self.address_bus, &mut self.register_file, Register::SP);
    }

    /// The third of the three micro-steps that push PC.
    fn call_push_low(&mut self)
        ensures
            final(self)@ == old(self)@.call_push_low(),
    {
        self.address(Register::SP);
        let low: u8 = self.register_file.read_u16_low(Register::PC);
        self.drive_value(low);
        self.idu.write_into(&self.address_bus, &mut self.register_file, Register::SP);
    }

    /// One of the two micro-steps that pop a return address.
    fn return_pop(&mut self, half: Register)
        requires
            half.is_byte(),
            old(self).instruction_counter < 255,
        ensures
            final(self)@ == old(self)@.return_pop(half),
    {
        self.address(Register::SP);
        self.latch(half);
        self.idu.increment_into(&self.address_bus, &mut self.register_file, Register::SP);
        self.skip_pc_increment = true;
        self.next();
    }

    /// The micro-step that sets PC to the address in WZ.
    fn jump_to_operand(&mut self)
        ensures
            final(self)@ == old(self)@.jump_to_operand(),
    {
        self.address_bus.write(0x0000);
        self.copy_word(Register::PC, Register::WZ);
    }

    /// Goes on with the micro-step `step`.
    fn goto(&mut self, step: u8)
        ensures
            final(self)@ == old(self)@.goto(step),
    {
        self.instruction_counter = step;
    }

    /// One micro-step of a jump, a call or a return.
    #[verifier::spinoff_prover]
    #[verifier::rlimit(50)]
    fn execute_control_flow(&mut self, instruction: Instruction)
        requires
            instruction.family() == Family::ControlFlow,
            instruction.wf(),
            instruction.has_step(old(self).instruction_counter),
        ensures
            final(self)@ == old(self)@.executed_control_flow(instruction),
    {
        match instruction {
            Instruction::JPI() => match self.instruction_counter {
                0 => {
                    self.latch(Register::Z);
                    self.next();
                },
                1 => {
                    self.latch(Register::W);
                    self.next();
                },
                2 => {
                    self.jump_to_operand();
                    self.skip_pc_increment = true;
                    self.next();
                },
                _ => {
                    self.finish();
                },
            },
            Instruction::JP_HL() => {
                self.address(Register::HL);
                self.idu.increment_into(&self.address_bus, &mut self.register_file, Register::PC);
                self.skip_pc_increment = true;
                self.finish();
            },
            Instruction::JP_CCI(value, flag) => match self.instruction_counter {
                0 => {
                    self.latch(Register::Z);
                    self.next();
                },
                1 => {
                    self.latch(Register::W);
                    self.next();
                },
                2 => {
                    if self.condition_met(value, flag) {
                        self.jump_to_operand();
                        self.next();
                    } else {
                        self.finish();
                    }
                },
                _ => {
                    self.finish();
                },
            },
            Instruction::JR() => match self.instruction_counter {
                0 => {
                    self.latch(Register::Z);
                    self.next();
                },
                1 => {
                    self.relative_target();
                },
                _ => {
                    self.relative_land();
                },
            },
            Instruction::JR_CC(value, flag) => match self.instruction_counter {
                0 => {
                    let met: bool = self.condition_met(value, flag);
                    self.latch(Register::Z);
                    if met {
                        self.goto(2);
                    } else {
                        self.goto(1);
                    }
                },
                1 => {
                    self.finish();
                },
                2 => {
                    self.relative_target();
                },
                _ => {
                    self.relative_land();
                },
            },
            Instruction::CALL() => match self.instruction_counter {
                0 => {
                    self.latch(Register::Z);
                    self.next();
                },
                1 => {
                    self.latch(Register::W);
                    self.next();
                },
                2 => {
                    self.call_reserve();
                    self.next();
                },
                3 => {
                    self.call_push_high();
                    self.next();
                },
                4 => {
                    self.call_push_low();
                    self.copy_word(Register::PC, Register::WZ);
                    self.next();
                },
                _ => {
                    self.finish();
                },
            },
            Instruction::CALL_CC(value, flag) => match self.instruction_counter {
                0 => {
                    self.latch(Register::Z);
                    self.next();
                },
                1 => {
                    let met: bool = self.condition_met(value, flag);
                    self.latch(Register::W);
                    if met {
                        self.goto(3);
                    } else {
                        self.goto(2);
                    }
                },
                2 => {
                    self.finish();
                },
                3 => {
                    self.call_reserve();
                    self.next();
                },
                4 => {
                    self.call_push_high();
                    self.next();
                },
                5 => {
                    self.call_push_low();
                    self.copy_word(Register::PC, Register::WZ);
                    self.next();
                },
                _ => {
                    self.finish();
                },
            },
            Instruction::RET() => match self.instruction_counter {
                0 => {
                    self.return_pop(Register::Z);
                },
                1 => {
                    self.return_pop(Register::W);
                },
                2 => {
                    self.jump_to_operand();
                    self.skip_pc_increment = true;
                    self.next();
                },
                _ => {
                    self.finish();
                },
            },
            Instruction::RET_CC(value, flag) => match self.instruction_counter {
                0 => {
                    self.address_bus.write(0x0000);
                    self.skip_pc_increment = true;
                    if self.condition_met(value, flag) {
                        self.goto(1);
                    } else {
                        self.goto(4);
                    }
                },
                1 => {
                    self.return_pop(Register::Z);
                },
                2 => {
                    self.return_pop(Register::W);
                },
                3 => {
                    self.jump_to_operand();
                    self.skip_pc_increment = true;
                    self.next();
                },
                _ => {
                    self.finish();
                },
            },
            Instruction::RETI() => match self.instruction_counter {
                0 => {
                    self.return_pop(Register::Z);
                },
                1 => {
                    self.return_pop(Register::W);
                },
                2 => {
                    self.jump_to_operand();
                    self.control_unit.enable_interrupts();
                    self.skip_pc_increment = true;
                    self.next();
                },
                _ => {
                    self.finish();
                },
            },
            Instruction::RST(address) => match self.instruction_counter {
                0 => {
                    self.call_reserve();
                    self.skip_pc_increment = true;
                    self.next();
                },
                1 => {
                    self.call_push_high();
                    self.skip_pc_increment = true;
                    self.next();
                },
                2 => {
                    self.call_push_low();
                    self.register_file.write_u16(Register::PC, address as u16);
                    self.next();
                },
                _ => {
                    self.finish();
                },
            },
            _ => {},
        }
    }

    /// The one micro-step of an instruction that touches neither memory nor
    /// the ALU.
    fn execute_control(&mut self, instruction: Instruction)
        requires
            instruction.family() == Family::Control,
        ensures
            final(self)@ == old(self)@.executed_control(instruction),
    {
        match instruction {
            Instruction::HALT() | Instruction::STOP() => {},
            Instruction::DI() => {
                self.control_unit.disable_interrupts();
                self.finish();
            },
            Instruction::EI() => {
                self.control_unit.enable_interrupts();
                self.finish();
            },
            Instruction::NOP() => {
                self.finish();
            },
            _ => {},
        }
    }

    /// Executes one micro-step of `current_instruction`: the one that the
    /// micro-step counter selects.
    #[verifier::spinoff_prover]
    #[verifier::rlimit(50)]
    pub fn execute(&mut self, current_instruction: Instruction)
        requires
            current_instruction.wf(),
            current_instruction.has_step(old(self).instruction_counter),
        ensures
            final(self)@ == old(self)@.executed(current_instruction),
    {
        match current_instruction {
            Instruction::LDR(_, _)
            | Instruction::LDI(_)
            | Instruction::LD(_)
            | Instruction::LDM(_)
            | Instruction::LDMI()
            | Instruction::LDA_BC()
            | Instruction::LDA_DE()
            | Instruction::LDAM_BC()
            | Instruction::LDAM_DE()
            | Instruction::LDAD()
            | Instruction::LDAMD()
            | Instruction::LDH()
            | Instruction::LDH_M()
            | Instruction::LDH_D()
            | Instruction::LDH_DM()
            | Instruction::LDH_HLM()
            | Instruction::LDH_HLMM()
            | Instruction::LDH_HLP()
            | Instruction::LDH_HLPM() => self.execute_load(current_instruction),
            Instruction::LD_RR(_)
            | Instruction::LD_SP()
            | Instruction::LD_SP_HL()
            | Instruction::PUSH(_)
            | Instruction::POP(_)
            | Instruction::LD_SPE() => self.execute_load_16(current_instruction),
            Instruction::ADD(_)
            | Instruction::ADD_HL()
            | Instruction::ADDI()
            | Instruction::ADC(_)
            | Instruction::ADC_HL()
            | Instruction::ADCI()
            | Instruction::SUB(_)
            | Instruction::SUB_HL()
            | Instruction::SUBI()
            | Instruction::SBC(_)
            | Instruction::SBC_HL()
            | Instruction::SBCI()
            | Instruction::CP(_)
            | Instruction::CP_HL()
            | Instruction::CPI()
            | Instruction::INC(_)
            | Instruction::INC_HL()
            | Instruction::DEC(_)
            | Instruction::DEC_HL()
            | Instruction::AND(_)
            | Instruction::AND_HL()
            | Instruction::ANDI()
            | Instruction::OR(_)
            | Instruction::OR_HL()
            | Instruction::ORI()
            | Instruction::XOR(_)
            | Instruction::XOR_HL()
            | Instruction::XORI()
            | Instruction::CCF()
            | Instruction::SCF()
            | Instruction::DAA()
            | Instruction::CPL() => self.execute_arithmetic(current_instruction),
            Instruction::INC_16(_)
            | Instruction::DEC_16(_)
            | Instruction::ADD_HL_16(_)
            | Instruction::ADD_SPE() => self.execute_arithmetic_16(current_instruction),
            Instruction::RLCA()
            | Instruction::RRCA()
            | Instruction::RLA()
            | Instruction::RRA()
            | Instruction::CB()
            | Instruction::RLC(_)
            | Instruction::RLC_HL()
            | Instruction::RRC(_)
            | Instruction::RRC_HL()
            | Instruction::RL(_)
            | Instruction::RL_HL()
            | Instruction::RR(_)
            | Instruction::RR_HL()
            | Instruction::SLA(_)
            | Instruction::SLA_HL()
            | Instruction::SRA(_)
            | Instruction::SRA_HL()
            | Instruction::SRL(_)
            | Instruction::SRL_HL()
            | Instruction::SWAP(_)
            | Instruction::SWAP_HL()
            | Instruction::BIT(_, _)
            | Instruction::BIT_HL(_)
            | Instruction::RES(_, _)
            | Instruction::RES_HL(_)
            | Instruction::SET(_, _)
            | Instruction::SET_HL(_) => self.execute_bitwise(current_instruction),
            Instruction::JPI()
            | Instruction::JP_HL()
            | Instruction::JP_CCI(_, _)
            | Instruction::JR()
            | Instruction::JR_CC(_, _)
            | Instruction::CALL()
            | Instruction::CALL_CC(_, _)
            | Instruction::RET()
            | Instruction::RET_CC(_, _)
            | Instruction::RETI()
            | Instruction::RST(_) => self.execute_control_flow(current_instruction),
            Instruction::HALT()
            | Instruction::STOP()
            | Instruction::DI()
            | Instruction::EI()
            | Instruction::NOP() => self.execute_control(current_instruction),
        }
    }
}

impl CPU {
    /// Whether the core can run one more cycle.
    #[verifier::spinoff_prover]
    #[verifier::rlimit(50)]
    pub fn can_step(&self) -> (b: bool)
        ensures
            b == self@.can_step(),
    {
        match self.current_instruction {
            Some(instruction) => instruction.well_formed() && self.instruction_counter
                < instruction.micro_steps(),
            None => self.instruction_counter == 0 && is_opcode(
                self.register_file.read_u8(Register::IR),
            ),
        }
    }

    /// Runs one machine cycle.
    ///
    /// With no instruction in flight the byte in the instruction register is
    /// decoded first; decoding takes no cycle of its own. Then one micro-step
    /// of the instruction is executed. If that ended the instruction, the
    /// next opcode is latched from the data bus. At last the program counter
    /// goes out on the address bus and moves on, unless the micro-step used
    /// the buses itself.
    #[verifier::spinoff_prover]
    #[verifier::rlimit(50)]
    pub fn clock_cycle(&mut self)
        requires
            old(self)@.can_step(),
        ensures
            final(self)@ == old(self)@.stepped(),
            final(self)@.wf(),
    {
        // Decode the next instruction if none is in flight
        if self.current_instruction.is_none() {
            let decoded = self.decode();
            self.current_instruction = Some(decoded);
        }
        proof {
            lemma_step_stays_defined(self@);
        }

        // Execute the current instruction
        if let Some(current_instruction) = self.current_instruction {
            self.execute(current_instruction);
        }

        // If the instruction is fully executed, prepare the next one
        if self.current_instruction.is_none() {
            self.instruction_counter = 0;

            // Read the next instruction from the data bus
            self.register_file.read_data_bus(Register::IR, &self.data_bus);
        }

        // Increment the PC via the IDU
        if !self.skip_pc_increment {
            self.register_file.write_address_bus(Register::PC, &mut self.address_bus);
            self.idu.increment_into(&self.address_bus, &mut self.register_file, Register::PC);
        }
        self.skip_pc_increment = false;
    }
}

} // verus!
