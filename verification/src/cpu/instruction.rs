//! The instruction set and its two opcode tables.
use crate::cpu::register_file::Register;
use vstd::prelude::*;

verus! {

/// One decoded instruction with the operands it needs to execute.
///
/// The cycle counts are machine cycles from the first micro-step of the
/// instruction to the one that takes it out of flight.
#[allow(non_camel_case_types)]
#[derive(Clone, Copy, Debug, PartialEq, Eq, Structural)]
pub enum Instruction {
    /// `LD r, r'`: loads the first register from the second. One cycle.
    LDR(Register, Register),
    /// `LD r, n`: loads the register from the byte that follows the opcode. Two cycles.
    LDI(Register),
    /// `LD r, (HL)`: loads the register from the address in HL. Two cycles.
    LD(Register),
    /// `LD (HL), r`: stores the register at the address in HL. Two cycles.
    LDM(Register),
    /// `LD (HL), n`: stores the byte that follows the opcode at the address in HL. Three
    /// cycles.
    LDMI(),
    /// `LD A, (BC)`: loads A from the address in BC. Two cycles.
    LDA_BC(),
    /// `LD A, (DE)`: loads A from the address in DE. Two cycles.
    LDA_DE(),
    /// `LD (BC), A`: stores A at the address in BC. Two cycles.
    LDAM_BC(),
    /// `LD (DE), A`: stores A at the address in DE. Two cycles.
    LDAM_DE(),
    /// `LD A, (nn)`: loads A from the address that follows the opcode. Four cycles.
    LDAD(),
    /// `LD (nn), A`: stores A at the address that follows the opcode. Four cycles.
    LDAMD(),
    /// `LDH A, (C)`: loads A from address 0xFF00 + C. Two cycles.
    LDH(),
    /// `LDH (C), A`: stores A at address 0xFF00 + C. Two cycles.
    LDH_M(),
    /// `LDH A, (n)`: loads A from address 0xFF00 + n. Three cycles.
    LDH_D(),
    /// `LDH (n), A`: stores A at address 0xFF00 + n. Three cycles.
    LDH_DM(),
    /// `LD A, (HL-)`: loads A from the address in HL, then decrements HL. Two cycles.
    LDH_HLM(),
    /// `LD (HL-), A`: stores A at the address in HL, then decrements HL. Two cycles.
    LDH_HLMM(),
    /// `LD A, (HL+)`: loads A from the address in HL, then increments HL. Two cycles.
    LDH_HLP(),
    /// `LD (HL+), A`: stores A at the address in HL, then increments HL. Two cycles.
    LDH_HLPM(),
    /// `LD rr, nn`: loads the 16-bit register from the two bytes that follow the opcode. Three
    /// cycles.
    LD_RR(Register),
    /// `LD (nn), SP`: stores SP at the address that follows the opcode. Five cycles.
    LD_SP(),
    /// `LD SP, HL`: loads SP from HL. Two cycles.
    LD_SP_HL(),
    /// `PUSH rr`: pushes the 16-bit register onto the stack. Four cycles.
    PUSH(Register),
    /// `POP rr`: pops the 16-bit register off the stack. Three cycles.
    POP(Register),
    /// `LD HL, SP+e`: loads HL with SP plus the signed byte that follows the opcode. Three
    /// cycles.
    LD_SPE(),
    /// `ADD r`: adds the register to A. One cycle.
    ADD(Register),
    /// `ADD (HL)`: adds the byte at the address in HL to A. Two cycles.
    ADD_HL(),
    /// `ADD n`: adds the byte that follows the opcode to A. Two cycles.
    ADDI(),
    /// `ADC r`: adds the register and the carry flag to A. One cycle.
    ADC(Register),
    /// `ADC (HL)`: adds the byte at the address in HL and the carry flag to A. Two cycles.
    ADC_HL(),
    /// `ADC n`: adds the byte that follows the opcode and the carry flag to A. Two cycles.
    ADCI(),
    /// `SUB r`: subtracts the register from A. One cycle.
    SUB(Register),
    /// `SUB (HL)`: subtracts the byte at the address in HL from A. Two cycles.
    SUB_HL(),
    /// `SUB n`: subtracts the byte that follows the opcode from A. Two cycles.
    SUBI(),
    /// `SBC r`: subtracts the register and the carry flag from A. One cycle.
    SBC(Register),
    /// `SBC (HL)`: subtracts the byte at the address in HL and the carry flag from A. Two
    /// cycles.
    SBC_HL(),
    /// `SBC n`: subtracts the byte that follows the opcode and the carry flag from A. Two
    /// cycles.
    SBCI(),
    /// `CP r`: compares A with the register: a subtraction that keeps only the flags. One
    /// cycle.
    CP(Register),
    /// `CP (HL)`: compares A with the byte at the address in HL. Two cycles.
    CP_HL(),
    /// `CP n`: compares A with the byte that follows the opcode. Two cycles.
    CPI(),
    /// `INC r`: increments the register. One cycle.
    INC(Register),
    /// `INC (HL)`: increments the byte at the address in HL. Three cycles.
    INC_HL(),
    /// `DEC r`: decrements the register. One cycle.
    DEC(Register),
    /// `DEC (HL)`: decrements the byte at the address in HL. Three cycles.
    DEC_HL(),
    /// `AND r`: bitwise and of A with the register. One cycle.
    AND(Register),
    /// `AND (HL)`: bitwise and of A with the byte at the address in HL. Two cycles.
    AND_HL(),
    /// `AND n`: bitwise and of A with the byte that follows the opcode. Two cycles.
    ANDI(),
    /// `OR r`: bitwise or of A with the register. One cycle.
    OR(Register),
    /// `OR (HL)`: bitwise or of A with the byte at the address in HL. Two cycles.
    OR_HL(),
    /// `OR n`: bitwise or of A with the byte that follows the opcode. Two cycles.
    ORI(),
    /// `XOR r`: bitwise exclusive or of A with the register. One cycle.
    XOR(Register),
    /// `XOR (HL)`: bitwise exclusive or of A with the byte at the address in HL. Two cycles.
    XOR_HL(),
    /// `XOR n`: bitwise exclusive or of A with the byte that follows the opcode. Two cycles.
    XORI(),
    /// `CCF`: inverts the carry flag. One cycle.
    CCF(),
    /// `SCF`: sets the carry flag. One cycle.
    SCF(),
    /// `DAA`: adjusts A to packed decimal. One cycle.
    DAA(),
    /// `CPL`: inverts every bit of A. One cycle.
    CPL(),
    /// `INC rr`: increments the 16-bit register. Two cycles.
    INC_16(Register),
    /// `DEC rr`: decrements the 16-bit register. Two cycles.
    DEC_16(Register),
    /// `ADD HL, rr`: adds the 16-bit register to HL. Two cycles.
    ADD_HL_16(Register),
    /// `ADD SP, e`: adds the signed byte that follows the opcode to SP. Four cycles.
    ADD_SPE(),
    /// `RLCA`: rotates A left. One cycle.
    RLCA(),
    /// `RRCA`: rotates A right. One cycle.
    RRCA(),
    /// `RLA`: rotates A left through the carry flag. One cycle.
    RLA(),
    /// `RRA`: rotates A right through the carry flag. One cycle.
    RRA(),
    /// The prefix 0xCB: the byte that follows selects an instruction of the extended table. One
    /// cycle on top of that instruction's own.
    CB(),
    /// `RLC r`: rotates the register left. One cycle after the prefix.
    RLC(Register),
    /// `RLC (HL)`: rotates the byte at the address in HL left. Three cycles after the prefix.
    RLC_HL(),
    /// `RRC r`: rotates the register right. One cycle after the prefix.
    RRC(Register),
    /// `RRC (HL)`: rotates the byte at the address in HL right. Three cycles after the prefix.
    RRC_HL(),
    /// `RL r`: rotates the register left through the carry flag. One cycle after the prefix.
    RL(Register),
    /// `RL (HL)`: rotates the byte at the address in HL left through the carry flag. Three
    /// cycles after the prefix.
    RL_HL(),
    /// `RR r`: rotates the register right through the carry flag. One cycle after the prefix.
    RR(Register),
    /// `RR (HL)`: rotates the byte at the address in HL right through the carry flag. Three
    /// cycles after the prefix.
    RR_HL(),
    /// `SLA r`: shifts the register left. One cycle after the prefix.
    SLA(Register),
    /// `SLA (HL)`: shifts the byte at the address in HL left. Three cycles after the prefix.
    SLA_HL(),
    /// `SRA r`: shifts the register right and keeps its sign bit. One cycle after the prefix.
    SRA(Register),
    /// `SRA (HL)`: shifts the byte at the address in HL right and keeps its sign bit. Three
    /// cycles after the prefix.
    SRA_HL(),
    /// `SRL r`: shifts the register right and clears its top bit. One cycle after the prefix.
    SRL(Register),
    /// `SRL (HL)`: shifts the byte at the address in HL right and clears its top bit. Three
    /// cycles after the prefix.
    SRL_HL(),
    /// `SWAP r`: exchanges the nibbles of the register. One cycle after the prefix.
    SWAP(Register),
    /// `SWAP (HL)`: exchanges the nibbles of the byte at the address in HL. Three cycles after
    /// the prefix.
    SWAP_HL(),
    /// `BIT b, r`: sets Z to the complement of bit `b` of the register. One cycle after the
    /// prefix.
    BIT(u8, Register),
    /// `BIT b, (HL)`: sets Z to the complement of bit `b` of the byte at the address in HL. Two
    /// cycles after the prefix.
    BIT_HL(u8),
    /// `RES b, r`: clears bit `b` of the register. One cycle after the prefix.
    RES(u8, Register),
    /// `RES b, (HL)`: clears bit `b` of the byte at the address in HL. Three cycles after the
    /// prefix.
    RES_HL(u8),
    /// `SET b, r`: sets bit `b` of the register. One cycle after the prefix.
    SET(u8, Register),
    /// `SET b, (HL)`: sets bit `b` of the byte at the address in HL. Three cycles after the
    /// prefix.
    SET_HL(u8),
    /// `JP nn`: jumps to the address that follows the opcode. Four cycles.
    JPI(),
    /// `JP HL`: jumps to the address in HL. One cycle.
    JP_HL(),
    /// `JP cc, nn`: jumps to the address that follows the opcode when the condition holds. Four
    /// cycles when it jumps, else three. The first field is the state the tested flag must
    /// have, the second selects the flag: C when set, else Z.
    JP_CCI(bool, bool),
    /// `JR e`: jumps by the signed byte that follows the opcode. Three cycles.
    JR(),
    /// `JR cc, e`: jumps by the signed byte that follows the opcode when the condition holds.
    /// Three cycles when it jumps, else two. The fields are those of `JP_CCI`.
    JR_CC(bool, bool),
    /// `CALL nn`: calls the address that follows the opcode. Six cycles.
    CALL(),
    /// `CALL cc, nn`: calls the address that follows the opcode when the condition holds. Six
    /// cycles when it calls, else three. The fields are those of `JP_CCI`.
    CALL_CC(bool, bool),
    /// `RET`: returns from a call. Four cycles.
    RET(),
    /// `RET cc`: returns from a call when the condition holds. Five cycles when it returns,
    /// else two. The fields are those of `JP_CCI`.
    RET_CC(bool, bool),
    /// `RETI`: returns from a call and enables interrupts. Four cycles.
    RETI(),
    /// `RST n`: calls the fixed address given. Four cycles.
    RST(u8),
    /// `HALT`: stays in flight and does nothing.
    HALT(),
    /// `STOP`: stays in flight and does nothing.
    STOP(),
    /// `DI`: disables interrupts. One cycle.
    DI(),
    /// `EI`: enables interrupts. One cycle.
    EI(),
    /// `NOP`: does nothing. One cycle.
    NOP(),
}

/// The families of instructions. The instructions of one family are executed
/// by the same part of the core.
#[derive(Clone, Copy, Debug, PartialEq, Eq, Structural)]
pub enum Family {
    /// Loads of a byte.
    Load,
    /// Loads of a 16-bit value, and the stack.
    Load16,
    /// Arithmetic and logic on a byte.
    Arithmetic,
    /// Arithmetic on a 16-bit value.
    Arithmetic16,
    /// Rotations, shifts and operations on single bits, and the prefix that
    /// leads to most of them.
    Bitwise,
    /// Jumps, calls and returns.
    ControlFlow,
    /// What touches neither memory nor the ALU.
    Control,
}

/// The 8-bit register that a three-bit operand field selects: B, C, D, E, H
/// and L for 0 to 5, and A for 7. Field value 6 selects no register: it
/// stands for the byte at the address in HL.
pub open spec fn operand_register(field: u8) -> Register
    recommends
        field < 8,
        field != 6,
{
    match field {
        0 => Register::B,
        1 => Register::C,
        2 => Register::D,
        3 => Register::E,
        4 => Register::H,
        5 => Register::L,
        _ => Register::A,
    }
}

/// The register pair that a two-bit operand field selects: BC, DE, HL, WZ.
pub open spec fn operand_pair(field: u8) -> Register
    recommends
        field < 4,
{
    match field {
        0 => Register::BC,
        1 => Register::DE,
        2 => Register::HL,
        _ => Register::WZ,
    }
}

/// The column of the primary table for the opcodes `0b00_yyy_zzz`.
pub open spec fn decoded_block_0(y: u8, z: u8) -> Instruction {
    match z {
        0 => match y {
            0 => Instruction::NOP(),
            1 => Instruction::LD_SP(),
            2 => Instruction::STOP(),
            3 => Instruction::JR(),
            _ => Instruction::JR_CC(y % 2 == 1, y >= 6),
        },
        1 => if y % 2 == 0 {
            Instruction::LD_RR(operand_pair(y / 2))
        } else {
            Instruction::ADD_HL_16(operand_pair(y / 2))
        },
        2 => match y {
            0 => Instruction::LDAM_BC(),
            1 => Instruction::LDA_BC(),
            2 => Instruction::LDAM_DE(),
            3 => Instruction::LDA_DE(),
            4 => Instruction::LDH_HLPM(),
            5 => Instruction::LDH_HLP(),
            6 => Instruction::LDH_HLMM(),
            _ => Instruction::LDH_HLM(),
        },
        3 => if y % 2 == 0 {
            Instruction::INC_16(operand_pair(y / 2))
        } else {
            Instruction::DEC_16(operand_pair(y / 2))
        },
        4 => if y == 6 {
            Instruction::INC_HL()
        } else {
            Instruction::INC(operand_register(y))
        },
        5 => if y == 6 {
            Instruction::DEC_HL()
        } else {
            Instruction::DEC(operand_register(y))
        },
        6 => if y == 6 {
            Instruction::LDMI()
        } else {
            Instruction::LDI(operand_register(y))
        },
        _ => match y {
            0 => Instruction::RLCA(),
            1 => Instruction::RRCA(),
            2 => Instruction::RLA(),
            3 => Instruction::RRA(),
            4 => Instruction::DAA(),
            5 => Instruction::CPL(),
            6 => Instruction::SCF(),
            _ => Instruction::CCF(),
        },
    }
}

/// The column of the primary table for the opcodes `0b01_yyy_zzz`: the loads
/// between registers and the byte at the address in HL.
pub open spec fn decoded_block_1(y: u8, z: u8) -> Instruction {
    if y == 6 && z == 6 {
        Instruction::HALT()
    } else if z == 6 {
        Instruction::LD(operand_register(y))
    } else if y == 6 {
        Instruction::LDM(operand_register(z))
    } else {
        Instruction::LDR(operand_register(y), operand_register(z))
    }
}

/// The column of the primary table for the opcodes `0b10_yyy_zzz`: arithmetic
/// and logic between A and a register or the byte at the address in HL.
pub open spec fn decoded_block_2(y: u8, z: u8) -> Instruction {
    if z == 6 {
        match y {
            0 => Instruction::ADD_HL(),
            1 => Instruction::ADC_HL(),
            2 => Instruction::SUB_HL(),
            3 => Instruction::SBC_HL(),
            4 => Instruction::AND_HL(),
            5 => Instruction::XOR_HL(),
            6 => Instruction::OR_HL(),
            _ => Instruction::CP_HL(),
        }
    } else {
        match y {
            0 => Instruction::ADD(operand_register(z)),
            1 => Instruction::ADC(operand_register(z)),
            2 => Instruction::SUB(operand_register(z)),
            3 => Instruction::SBC(operand_register(z)),
            4 => Instruction::AND(operand_register(z)),
            5 => Instruction::XOR(operand_register(z)),
            6 => Instruction::OR(operand_register(z)),
            _ => Instruction::CP(operand_register(z)),
        }
    }
}

/// The column of the primary table for the opcodes `0b11_yyy_zzz`. Eleven of
/// them name no instruction.
pub open spec fn decoded_block_3(y: u8, z: u8) -> Option<Instruction> {
    match z {
        0 => Some(
            match y {
                4 => Instruction::LDH_DM(),
                5 => Instruction::ADD_SPE(),
                6 => Instruction::LDH_D(),
                7 => Instruction::LD_SPE(),
                _ => Instruction::RET_CC(y % 2 == 1, y >= 2),
            },
        ),
        1 => Some(
            match y {
                1 => Instruction::RET(),
                3 => Instruction::RETI(),
                5 => Instruction::JP_HL(),
                7 => Instruction::LD_SP_HL(),
                _ => Instruction::POP(operand_pair(y / 2)),
            },
        ),
        2 => Some(
            match y {
                4 => Instruction::LDH_M(),
                5 => Instruction::LDAMD(),
                6 => Instruction::LDH(),
                7 => Instruction::LDAD(),
                _ => Instruction::JP_CCI(y % 2 == 1, y >= 2),
            },
        ),
        3 => match y {
            0 => Some(Instruction::JPI()),
            1 => Some(Instruction::CB()),
            6 => Some(Instruction::DI()),
            7 => Some(Instruction::EI()),
            _ => None,
        },
        4 => if y < 4 {
            Some(Instruction::CALL_CC(y % 2 == 1, y >= 2))
        } else {
            None
        },
        5 => if y % 2 == 0 {
            Some(Instruction::PUSH(operand_pair(y / 2)))
        } else if y == 1 {
            Some(Instruction::CALL())
        } else {
            None
        },
        6 => Some(
            match y {
                0 => Instruction::ADDI(),
                1 => Instruction::ADCI(),
                2 => Instruction::SUBI(),
                3 => Instruction::SBCI(),
                4 => Instruction::ANDI(),
                5 => Instruction::XORI(),
                6 => Instruction::ORI(),
                _ => Instruction::CPI(),
            },
        ),
        _ => Some(Instruction::RST((8 * y) as u8)),
    }
}

/// The primary opcode table: the instruction that `opcode` names, if any.
///
/// An opcode reads as `0bxx_yyy_zzz`; `x` selects the block, and within it
/// `y` and `z` select the instruction and its operands.
pub open spec fn decoded(opcode: u8) -> Option<Instruction> {
    let y = (opcode / 8) % 8;
    let z = opcode % 8;
    match opcode / 64 {
        0 => Some(decoded_block_0(y, z)),
        1 => Some(decoded_block_1(y, z)),
        2 => Some(decoded_block_2(y, z)),
        _ => decoded_block_3(y, z),
    }
}

/// The extended opcode table, for the byte that follows the prefix 0xCB.
/// Every byte names an instruction.
///
/// An opcode reads as `0bxx_yyy_zzz`; `z` selects the operand, `x` the group
/// (rotations and shifts, bit test, bit reset, bit set), and `y` the
/// operation within the first group and the bit within the others.
pub open spec fn decoded_extended(opcode: u8) -> Instruction {
    let y = (opcode / 8) % 8;
    let z = opcode % 8;
    let bit = y;
    match opcode / 64 {
        0 => if z == 6 {
            match y {
                0 => Instruction::RLC_HL(),
                1 => Instruction::RRC_HL(),
                2 => Instruction::RL_HL(),
                3 => Instruction::RR_HL(),
                4 => Instruction::SLA_HL(),
                5 => Instruction::SRA_HL(),
                6 => Instruction::SWAP_HL(),
                _ => Instruction::SRL_HL(),
            }
        } else {
            match y {
                0 => Instruction::RLC(operand_register(z)),
                1 => Instruction::RRC(operand_register(z)),
                2 => Instruction::RL(operand_register(z)),
                3 => Instruction::RR(operand_register(z)),
                4 => Instruction::SLA(operand_register(z)),
                5 => Instruction::SRA(operand_register(z)),
                6 => Instruction::SWAP(operand_register(z)),
                _ => Instruction::SRL(operand_register(z)),
            }
        },
        1 => if z == 6 {
            Instruction::BIT_HL(bit)
        } else {
            Instruction::BIT(bit, operand_register(z))
        },
        2 => if z == 6 {
            Instruction::RES_HL(bit)
        } else {
            Instruction::RES(bit, operand_register(z))
        },
        _ => if z == 6 {
            Instruction::SET_HL(bit)
        } else {
            Instruction::SET(bit, operand_register(z))
        },
    }
}

/// Whether `opcode` names an instruction of the primary table. The eleven
/// bytes that name none are listed here.
#[verifier::spinoff_prover]
#[verifier::rlimit(50)]
pub fn is_opcode(opcode: u8) -> (b: bool)
    ensures
        b == decoded(opcode).is_some(),
{
    match opcode {
        0xD3 | 0xDB | 0xDD | 0xE3 | 0xE4 | 0xEB | 0xEC | 0xED | 0xF4 | 0xFC | 0xFD => false,
        _ => true,
    }
}

impl Instruction {
    /// The family that the instruction belongs to.
    pub open spec fn family(self) -> Family {
        match self {
            Instruction::LDR(_, _)
            | Instruction::LDI(_)
            | Instruction::LD(_)
            | Instruction::LDM(_)
            | Instruction::LDMI()
            | Instruction::LDA_BC()
            | Instruction::LDA_DE()
            | Instruction::LDAM_BC()
            | Instruction::LDAM_DE()
            | Instruction::LDAD()
            | Instruction::LDAMD()
            | Instruction::LDH()
            | Instruction::LDH_M()
            | Instruction::LDH_D()
            | Instruction::LDH_DM()
            | Instruction::LDH_HLM()
            | Instruction::LDH_HLMM()
            | Instruction::LDH_HLP()
            | Instruction::LDH_HLPM() => Family::Load,
            Instruction::LD_RR(_)
            | Instruction::LD_SP()
            | Instruction::LD_SP_HL()
            | Instruction::PUSH(_)
            | Instruction::POP(_)
            | Instruction::LD_SPE() => Family::Load16,
            Instruction::ADD(_)
            | Instruction::ADD_HL()
            | Instruction::ADDI()
            | Instruction::ADC(_)
            | Instruction::ADC_HL()
            | Instruction::ADCI()
            | Instruction::SUB(_)
            | Instruction::SUB_HL()
            | Instruction::SUBI()
            | Instruction::SBC(_)
            | Instruction::SBC_HL()
            | Instruction::SBCI()
            | Instruction::CP(_)
            | Instruction::CP_HL()
            | Instruction::CPI()
            | Instruction::INC(_)
            | Instruction::INC_HL()
            | Instruction::DEC(_)
            | Instruction::DEC_HL()
            | Instruction::AND(_)
            | Instruction::AND_HL()
            | Instruction::ANDI()
            | Instruction::OR(_)
            | Instruction::OR_HL()
            | Instruction::ORI()
            | Instruction::XOR(_)
            | Instruction::XOR_HL()
            | Instruction::XORI()
            | Instruction::CCF()
            | Instruction::SCF()
            | Instruction::DAA()
            | Instruction::CPL() => Family::Arithmetic,
            Instruction::INC_16(_)
            | Instruction::DEC_16(_)
            | Instruction::ADD_HL_16(_)
            | Instruction::ADD_SPE() => Family::Arithmetic16,
            Instruction::RLCA()
            | Instruction::RRCA()
            | Instruction::RLA()
            | Instruction::RRA()
            | Instruction::CB()
            | Instruction::RLC(_)
            | Instruction::RLC_HL()
            | Instruction::RRC(_)
            | Instruction::RRC_HL()
            | Instruction::RL(_)
            | Instruction::RL_HL()
            | Instruction::RR(_)
            | Instruction::RR_HL()
            | Instruction::SLA(_)
            | Instruction::SLA_HL()
            | Instruction::SRA(_)
            | Instruction::SRA_HL()
            | Instruction::SRL(_)
            | Instruction::SRL_HL()
            | Instruction::SWAP(_)
            | Instruction::SWAP_HL()
            | Instruction::BIT(_, _)
            | Instruction::BIT_HL(_)
            | Instruction::RES(_, _)
            | Instruction::RES_HL(_)
            | Instruction::SET(_, _)
            | Instruction::SET_HL(_) => Family::Bitwise,
            Instruction::JPI()
            | Instruction::JP_HL()
            | Instruction::JP_CCI(_, _)
            | Instruction::JR()
            | Instruction::JR_CC(_, _)
            | Instruction::CALL()
            | Instruction::CALL_CC(_, _)
            | Instruction::RET()
            | Instruction::RET_CC(_, _)
            | Instruction::RETI()
            | Instruction::RST(_) => Family::ControlFlow,
            Instruction::HALT()
            | Instruction::STOP()
            | Instruction::DI()
            | Instruction::EI()
            | Instruction::NOP() => Family::Control,
        }
    }

    /// Whether the operands fit the instruction: a bit index is below 8, a
    /// byte operand names an 8-bit register and a word operand a 16-bit one.
    pub open spec fn wf(self) -> bool {
        match self {
            Instruction::LDR(r, s) => r.is_byte() && s.is_byte(),
            Instruction::LDI(r)
            | Instruction::LD(r)
            | Instruction::LDM(r)
            | Instruction::ADD(r)
            | Instruction::ADC(r)
            | Instruction::SUB(r)
            | Instruction::SBC(r)
            | Instruction::CP(r)
            | Instruction::INC(r)
            | Instruction::DEC(r)
            | Instruction::AND(r)
            | Instruction::OR(r)
            | Instruction::XOR(r)
            | Instruction::RLC(r)
            | Instruction::RRC(r)
            | Instruction::RL(r)
            | Instruction::RR(r)
            | Instruction::SLA(r)
            | Instruction::SRA(r)
            | Instruction::SRL(r)
            | Instruction::SWAP(r) => r.is_byte(),
            Instruction::LD_RR(r)
            | Instruction::PUSH(r)
            | Instruction::POP(r)
            | Instruction::INC_16(r)
            | Instruction::DEC_16(r)
            | Instruction::ADD_HL_16(r) => r.is_word(),
            Instruction::BIT(b, r) | Instruction::RES(b, r) | Instruction::SET(b, r) => b < 8
                && r.is_byte(),
            Instruction::BIT_HL(b) | Instruction::RES_HL(b) | Instruction::SET_HL(b) => b < 8,
            _ => true,
        }
    }

    /// The number of micro-steps that the instruction defines. An
    /// instruction with more than one reads the micro-step counter to select
    /// among them; one that does all its work in a single micro-step does not
    /// read the counter.
    pub open spec fn step_count(self) -> int {
        match self {
            Instruction::LDI(_)
            | Instruction::LD(_)
            | Instruction::LDM(_)
            | Instruction::LDA_BC()
            | Instruction::LDA_DE()
            | Instruction::LDAM_BC()
            | Instruction::LDAM_DE()
            | Instruction::LDH()
            | Instruction::LDH_M()
            | Instruction::LDH_HLM()
            | Instruction::LDH_HLMM()
            | Instruction::LDH_HLP()
            | Instruction::LDH_HLPM()
            | Instruction::LD_SP_HL()
            | Instruction::INC_16(_)
            | Instruction::DEC_16(_)
            | Instruction::ADD_HL_16(_)
            | Instruction::BIT_HL(_) => 2,
            Instruction::LDMI()
            | Instruction::LDH_D()
            | Instruction::LDH_DM()
            | Instruction::LD_RR(_)
            | Instruction::POP(_)
            | Instruction::LD_SPE()
            | Instruction::INC_HL()
            | Instruction::DEC_HL()
            | Instruction::RLC_HL()
            | Instruction::RRC_HL()
            | Instruction::RL_HL()
            | Instruction::RR_HL()
            | Instruction::SLA_HL()
            | Instruction::SRA_HL()
            | Instruction::SRL_HL()
            | Instruction::SWAP_HL()
            | Instruction::RES_HL(_)
            | Instruction::SET_HL(_)
            | Instruction::JR() => 3,
            Instruction::LDAD()
            | Instruction::LDAMD()
            | Instruction::PUSH(_)
            | Instruction::ADD_SPE()
            | Instruction::JPI()
            | Instruction::JP_CCI(_, _)
            | Instruction::JR_CC(_, _)
            | Instruction::RET()
            | Instruction::RETI()
            | Instruction::RST(_) => 4,
            Instruction::LD_SP() | Instruction::RET_CC(_, _) => 5,
            Instruction::CALL() => 6,
            Instruction::CALL_CC(_, _) => 7,
            _ => 1,
        }
    }

    /// Whether the instruction defines a micro-step for the counter value
    /// `counter`: the counter is below the number of its micro-steps, or the
    /// instruction has a single micro-step and does not read the counter.
    pub open spec fn has_step(self, counter: u8) -> bool {
        self.step_count() == 1 || counter < self.step_count()
    }

    /// Whether the operands fit the instruction.
    #[verifier::spinoff_prover]
    #[verifier::rlimit(50)]
    pub fn well_formed(&self) -> (b: bool)
        ensures
            b == self.wf(),
    {
        match self {
            Instruction::LDR(r, s) => r.is_u8() && s.is_u8(),
            Instruction::LDI(r)
            | Instruction::LD(r)
            | Instruction::LDM(r)
            | Instruction::ADD(r)
            | Instruction::ADC(r)
            | Instruction::SUB(r)
            | Instruction::SBC(r)
            | Instruction::CP(r)
            | Instruction::INC(r)
            | Instruction::DEC(r)
            | Instruction::AND(r)
            | Instruction::OR(r)
            | Instruction::XOR(r)
            | Instruction::RLC(r)
            | Instruction::RRC(r)
            | Instruction::RL(r)
            | Instruction::RR(r)
            | Instruction::SLA(r)
            | Instruction::SRA(r)
            | Instruction::SRL(r)
            | Instruction::SWAP(r) => r.is_u8(),
            Instruction::LD_RR(r)
            | Instruction::PUSH(r)
            | Instruction::POP(r)
            | Instruction::INC_16(r)
            | Instruction::DEC_16(r)
            | Instruction::ADD_HL_16(r) => !r.is_u8(),
            Instruction::BIT(b, r) | Instruction::RES(b, r) | Instruction::SET(b, r) => *b < 8
                && r.is_u8(),
            Instruction::BIT_HL(b) | Instruction::RES_HL(b) | Instruction::SET_HL(b) => *b < 8,
            _ => true,
        }
    }

    /// The number of micro-steps that the instruction defines.
    #[verifier::spinoff_prover]
    #[verifier::rlimit(50)]
    pub fn micro_steps(&self) -> (n: u8)
        ensures
            n == self.step_count(),
    {
        match self {
            Instruction::LDI(_)
            | Instruction::LD(_)
            | Instruction::LDM(_)
            | Instruction::LDA_BC()
            | Instruction::LDA_DE()
            | Instruction::LDAM_BC()
            | Instruction::LDAM_DE()
            | Instruction::LDH()
            | Instruction::LDH_M()
            | Instruction::LDH_HLM()
            | Instruction::LDH_HLMM()
            | Instruction::LDH_HLP()
            | Instruction::LDH_HLPM()
            | Instruction::LD_SP_HL()
            | Instruction::INC_16(_)
            | Instruction::DEC_16(_)
            | Instruction::ADD_HL_16(_)
            | Instruction::BIT_HL(_) => 2,
            Instruction::LDMI()
            | Instruction::LDH_D()
            | Instruction::LDH_DM()
            | Instruction::LD_RR(_)
            | Instruction::POP(_)
            | Instruction::LD_SPE()
            | Instruction::INC_HL()
            | Instruction::DEC_HL()
            | Instruction::RLC_HL()
            | Instruction::RRC_HL()
            | Instruction::RL_HL()
            | Instruction::RR_HL()
            | Instruction::SLA_HL()
            | Instruction::SRA_HL()
            | Instruction::SRL_HL()
            | Instruction::SWAP_HL()
            | Instruction::RES_HL(_)
            | Instruction::SET_HL(_)
            | Instruction::JR() => 3,
            Instruction::LDAD()
            | Instruction::LDAMD()
            | Instruction::PUSH(_)
            | Instruction::ADD_SPE()
            | Instruction::JPI()
            | Instruction::JP_CCI(_, _)
            | Instruction::JR_CC(_, _)
            | Instruction::RET()
            | Instruction::RETI()
            | Instruction::RST(_) => 4,
            Instruction::LD_SP() | Instruction::RET_CC(_, _) => 5,
            Instruction::CALL() => 6,
            Instruction::CALL_CC(_, _) => 7,
            _ => 1,
        }
    }
}

} // verus!
