//! How many machine cycles an instruction takes.
//!
//! The number of micro-steps that an instruction still has before it is
//! written down here as a function of the instruction, of the micro-step
//! counter and of the branch condition; the lemmas show that the
//! decode/execute machine counts down by it, one per cycle, whatever bytes
//! memory supplies.
use crate::cpu::cpu::{condition_met, Machine};
use crate::cpu::alu::flags_of;
use crate::cpu::instruction::{
    decoded, decoded_block_0, decoded_block_1, decoded_block_2, decoded_block_3,
    decoded_extended, Family, Instruction,
};
use crate::cpu::register_file::{sampled, Register};
use vstd::prelude::*;

verus! {

impl Instruction {
    /// Whether the instruction stays in flight for good once it is there.
    pub open spec fn idles(self) -> bool {
        self is HALT || self is STOP
    }

    /// Whether the instruction reads an operand in its one micro-step and then
    /// hands over to its register form, which works on the scratch register.
    pub open spec fn hands_over(self) -> bool {
        match self {
            Instruction::ADD_HL()
            | Instruction::ADDI()
            | Instruction::ADC_HL()
            | Instruction::ADCI()
            | Instruction::SUB_HL()
            | Instruction::SUBI()
            | Instruction::SBC_HL()
            | Instruction::SBCI()
            | Instruction::CP_HL()
            | Instruction::CPI()
            | Instruction::AND_HL()
            | Instruction::ANDI()
            | Instruction::OR_HL()
            | Instruction::ORI()
            | Instruction::XOR_HL()
            | Instruction::XORI() => true,
            _ => false,
        }
    }

    /// The number of micro-steps, the one that `counter` selects included,
    /// that the instruction runs until it leaves flight. `met` says whether
    /// its branch condition holds, if it has one.
    ///
    /// Not for the prefix 0xCB, whose count depends on the byte that follows
    /// it, nor for an instruction that idles.
    pub open spec fn steps_left(self, counter: u8, met: bool) -> int
        recommends
            counter < self.step_count(),
            !self.idles(),
            !(self is CB),
    {
        match self {
            Instruction::JP_CCI(_, _) => if counter > 2 {
                1
            } else if met {
                4 - counter
            } else {
                3 - counter
            },
            Instruction::JR_CC(_, _) => if counter == 0 && met {
                3
            } else if counter == 0 || counter == 2 {
                2
            } else {
                1
            },
            Instruction::CALL_CC(_, _) => if counter > 2 {
                7 - counter
            } else if counter == 2 {
                1
            } else if met {
                6 - counter
            } else {
                3 - counter
            },
            Instruction::RET_CC(_, _) => if counter == 0 && !met {
                2
            } else {
                5 - counter
            },
            _ => if self.hands_over() {
                2
            } else {
                self.step_count() - counter
            },
        }
    }

    /// The number of machine cycles that the instruction takes from its
    /// first micro-step to the one that takes it out of flight.
    pub open spec fn cycles(self, met: bool) -> int
        recommends
            !self.idles(),
            !(self is CB),
    {
        self.steps_left(0, met)
    }

    /// Whether the instruction branches on a condition.
    pub open spec fn conditional(self) -> bool {
        self is JP_CCI || self is JR_CC || self is CALL_CC || self is RET_CC
    }

    /// Whether two instructions are conditional branches of one kind: both
    /// absolute jumps, both relative jumps, both calls or both returns.
    pub open spec fn same_kind(self, other: Instruction) -> bool {
        ||| self is JP_CCI && other is JP_CCI
        ||| self is JR_CC && other is JR_CC
        ||| self is CALL_CC && other is CALL_CC
        ||| self is RET_CC && other is RET_CC
    }
}

impl Machine {
    /// Whether the branch condition of the instruction in flight holds; false
    /// where it has none.
    pub open spec fn condition(self) -> bool {
        match self.current {
            Some(Instruction::JP_CCI(value, flag))
            | Some(Instruction::JR_CC(value, flag))
            | Some(Instruction::CALL_CC(value, flag))
            | Some(Instruction::RET_CC(value, flag)) => condition_met(value, flag, self.flags()),
            _ => false,
        }
    }

    /// The number of machine cycles, the coming one included, after which
    /// the instruction in flight has left. For the prefix 0xCB this is one
    /// more than what the instruction takes that the byte on the data bus
    /// names in the extended table.
    pub open spec fn remaining(self) -> int
        recommends
            self.current is Some,
            !self.current.unwrap().idles(),
    {
        match self.current {
            Some(Instruction::CB()) => 1 + decoded_extended(sampled(self.data_bus)).step_count(),
            Some(instruction) => instruction.steps_left(self.counter, self.condition()),
            None => 0,
        }
    }

    /// The state after memory has put `byte` on the data bus.
    pub open spec fn supplied(self, byte: u8) -> Machine {
        Machine { data_bus: Some(byte), ..self }
    }

    /// The state after as many machine cycles as `inputs` has bytes, memory
    /// putting the next byte on the data bus before each cycle.
    pub open spec fn run(self, inputs: Seq<u8>) -> Machine
        decreases inputs.len(),
    {
        if inputs.len() == 0 {
            self
        } else {
            self.run(inputs.drop_last()).supplied(inputs.last()).stepped()
        }
    }

    /// Whether the core, fed with `inputs`, is busy through every cycle but
    /// the last and ready to decode after the last.
    pub open spec fn completes_with(self, inputs: Seq<u8>) -> bool {
        &&& inputs.len() > 0
        &&& self.run(inputs).current is None
        &&& forall|k: int| 0 < k < inputs.len() ==> (#[trigger] self.run(inputs.take(k))).current is Some
    }
}

/// Whether `after` is what a micro-step may leave of `before`: nothing in
/// flight, if the instruction had one micro-step to go, or else an
/// instruction with one less to go than there were.
pub open spec fn counts_down(before: Machine, after: Machine) -> bool {
    &&& before.remaining() >= 1
    &&& after.registers.len() == 16
    &&& before.remaining() == 1 ==> after.current is None
    &&& before.remaining() > 1 ==> {
        &&& after.current matches Some(instruction)
        &&& instruction.wf()
        &&& after.counter < instruction.step_count()
        &&& !instruction.idles()
        &&& !(instruction is CB)
        &&& after.remaining() == before.remaining() - 1
    }
}

#[verifier::spinoff_prover]
#[verifier::rlimit(50)]
proof fn lemma_load_counts_down(s: Machine, i: Instruction)
    requires
        s.wf(),
        s.current == Some(i),
        i.family() == Family::Load,
    ensures
        counts_down(s, s.executed_load(i)),
{
}

#[verifier::spinoff_prover]
#[verifier::rlimit(50)]
proof fn lemma_load_16_counts_down(s: Machine, i: Instruction)
    requires
        s.wf(),
        s.current == Some(i),
        i.family() == Family::Load16,
    ensures
        counts_down(s, s.executed_load_16(i)),
{
}

#[verifier::spinoff_prover]
#[verifier::rlimit(50)]
proof fn lemma_arithmetic_counts_down(s: Machine, i: Instruction)
    requires
        s.wf(),
        s.current == Some(i),
        i.family() == Family::Arithmetic,
    ensures
        counts_down(s, s.executed_arithmetic(i)),
{
}

#[verifier::spinoff_prover]
#[verifier::rlimit(50)]
proof fn lemma_arithmetic_16_counts_down(s: Machine, i: Instruction)
    requires
        s.wf(),
        s.current == Some(i),
        i.family() == Family::Arithmetic16,
    ensures
        counts_down(s, s.executed_arithmetic_16(i)),
{
}

/// Every instruction of the extended table fits its operands, runs straight
/// through its micro-steps and takes as many cycles as it has of them.
#[verifier::spinoff_prover]
#[verifier::rlimit(50)]
pub proof fn lemma_extended_runs_straight(opcode: u8)
    ensures
        ({
            let instruction = decoded_extended(opcode);
            &&& instruction.wf()
            &&& instruction.family() == Family::Bitwise
            &&& !(instruction is CB)
            &&& 1 <= instruction.step_count() <= 3
            &&& forall|met: bool| #[trigger] instruction.cycles(met) == instruction.step_count()
        }),
{
}

#[verifier::spinoff_prover]
#[verifier::rlimit(50)]
proof fn lemma_prefix_counts_down(s: Machine)
    requires
        s.wf(),
        s.current == Some(Instruction::CB()),
    ensures
        counts_down(s, s.executed_bitwise(Instruction::CB())),
{
    lemma_extended_runs_straight(sampled(s.data_bus));
    let extended = decoded_extended(sampled(s.data_bus));
    let after = s.executed_bitwise(Instruction::CB());
    assert(after.current == Some(extended));
    assert(after.counter == 0);
    assert(extended.cycles(after.condition()) == extended.step_count());
}

#[verifier::spinoff_prover]
#[verifier::rlimit(50)]
proof fn lemma_bitwise_counts_down(s: Machine, i: Instruction)
    requires
        s.wf(),
        s.current == Some(i),
        i.family() == Family::Bitwise,
    ensures
        counts_down(s, s.executed_bitwise(i)),
{
    if i is CB {
        lemma_prefix_counts_down(s);
    }
}

#[verifier::spinoff_prover]
#[verifier::rlimit(50)]
proof fn lemma_control_flow_counts_down(s: Machine, i: Instruction)
    requires
        s.wf(),
        s.current == Some(i),
        i.family() == Family::ControlFlow,
    ensures
        counts_down(s, s.executed_control_flow(i)),
{
}

#[verifier::spinoff_prover]
#[verifier::rlimit(50)]
proof fn lemma_control_counts_down(s: Machine, i: Instruction)
    requires
        s.wf(),
        s.current == Some(i),
        i.family() == Family::Control,
        !i.idles(),
    ensures
        counts_down(s, s.executed_control(i)),
{
}

/// A micro-step either ends the instruction in flight, if it was its last, or
/// leaves one in flight that has one micro-step less to go.
#[verifier::spinoff_prover]
#[verifier::rlimit(50)]
pub proof fn lemma_micro_step_counts_down(s: Machine)
    requires
        s.wf(),
        s.current is Some,
        !s.current.unwrap().idles(),
    ensures
        counts_down(s, s.executed(s.current.unwrap())),
{
    let i = s.current.unwrap();
    match i.family() {
        Family::Load => lemma_load_counts_down(s, i),
        Family::Load16 => lemma_load_16_counts_down(s, i),
        Family::Arithmetic => lemma_arithmetic_counts_down(s, i),
        Family::Arithmetic16 => lemma_arithmetic_16_counts_down(s, i),
        Family::Bitwise => lemma_bitwise_counts_down(s, i),
        Family::ControlFlow => lemma_control_flow_counts_down(s, i),
        Family::Control => lemma_control_counts_down(s, i),
    }
}

/// Every instruction has at least one micro-step.
pub proof fn lemma_step_count_is_positive(instruction: Instruction)
    ensures
        1 <= instruction.step_count() <= 7,
{
}

#[verifier::spinoff_prover]
#[verifier::rlimit(50)]
proof fn lemma_block_0_is_well_formed(y: u8, z: u8)
    requires
        y < 8,
        z < 8,
    ensures
        decoded_block_0(y, z).wf(),
{
}

#[verifier::spinoff_prover]
#[verifier::rlimit(50)]
proof fn lemma_block_1_is_well_formed(y: u8, z: u8)
    requires
        y < 8,
        z < 8,
    ensures
        decoded_block_1(y, z).wf(),
{
}

#[verifier::spinoff_prover]
#[verifier::rlimit(50)]
proof fn lemma_block_2_is_well_formed(y: u8, z: u8)
    requires
        y < 8,
        z < 8,
    ensures
        decoded_block_2(y, z).wf(),
{
}

#[verifier::spinoff_prover]
#[verifier::rlimit(50)]
proof fn lemma_block_3_is_well_formed(y: u8, z: u8)
    requires
        y < 8,
        z < 8,
        decoded_block_3(y, z) is Some,
    ensures
        decoded_block_3(y, z).unwrap().wf(),
{
}

/// A micro-step of an instruction in flight leaves a state in which the
/// instruction then in flight, if any, has a micro-step for the counter.
pub proof fn lemma_step_stays_defined(s: Machine)
    requires
        s.wf(),
        s.current is Some,
    ensures
        ({
            let after = s.executed(s.current.unwrap());
            after.current matches Some(instruction) ==> instruction.wf() && after.counter
                < instruction.step_count()
        }),
{
    let instruction = s.current.unwrap();
    if instruction.idles() {
        assert(instruction.family() == Family::Control);
        assert(s.executed(instruction) == s);
    } else {
        lemma_micro_step_counts_down(s);
        lemma_step_count_is_positive(instruction);
    }
}

/// Every instruction of the primary table fits its operands.
pub proof fn lemma_decoded_is_well_formed(opcode: u8)
    requires
        decoded(opcode) is Some,
    ensures
        decoded(opcode).unwrap().wf(),
        decoded(opcode).unwrap().step_count() >= 1,
{
    let y = (opcode / 8) % 8;
    let z = opcode % 8;
    lemma_step_count_is_positive(decoded(opcode).unwrap());
    if opcode / 64 == 0 {
        lemma_block_0_is_well_formed(y, z);
    } else if opcode / 64 == 1 {
        lemma_block_1_is_well_formed(y, z);
    } else if opcode / 64 == 2 {
        lemma_block_2_is_well_formed(y, z);
    } else {
        lemma_block_3_is_well_formed(y, z);
    }
}

/// One machine cycle either ends the instruction in flight, if it had one
/// cycle to go, or leaves one in flight that has one cycle less to go,
/// whatever memory supplies next.
#[verifier::spinoff_prover]
#[verifier::rlimit(50)]
pub proof fn lemma_cycle_counts_down(s: Machine)
    requires
        s.can_step(),
        !s.primed().current.unwrap().idles(),
    ensures
        s.stepped().wf(),
        s.primed().remaining() >= 1,
        s.primed().remaining() == 1 ==> s.stepped().current is None,
        s.primed().remaining() > 1 ==> {
            &&& s.stepped().current matches Some(instruction)
            &&& !instruction.idles()
            &&& !(instruction is CB)
            &&& forall|byte: u8| #[trigger]
                s.stepped().supplied(byte).remaining() == s.primed().remaining() - 1
        },
{
    if s.current is None {
        lemma_decoded_is_well_formed(s.byte(Register::IR));
    }
    let p = s.primed();
    lemma_micro_step_counts_down(p);
    let e = p.executed(p.current.unwrap());
    assert(counts_down(p, e));
    let t = s.stepped();
    assert(t == e.prefetched().advanced());
    assert(t.current == e.current);
    assert(flags_of(t.registers) == flags_of(e.registers));
    if p.remaining() > 1 {
        assert(t.counter == e.counter);
        assert forall|byte: u8| #[trigger] t.supplied(byte).remaining() == p.remaining() - 1 by {
            assert(t.supplied(byte).condition() == e.condition());
        }
    }
}

impl Machine {
    /// The number of machine cycles that the coming instruction takes, `first`
    /// being the byte that memory supplies before the first of them: what
    /// remains of the instruction in flight or, with none in flight, of the
    /// one that the instruction register names.
    pub open spec fn cycles_ahead(self, first: u8) -> int
        recommends
            self.can_step(),
    {
        self.supplied(first).primed().remaining()
    }
}

/// Through the cycles of one instruction the core counts down: fed with no
/// more bytes than the instruction has cycles to go, it ends with nothing in
/// flight if they were as many, and else with as many cycles to go as bytes
/// were missing.
#[verifier::spinoff_prover]
#[verifier::rlimit(50)]
pub proof fn lemma_run_counts_down(s: Machine, inputs: Seq<u8>)
    requires
        s.can_step(),
        inputs.len() >= 1,
        !s.primed().current.unwrap().idles(),
        inputs.len() <= s.cycles_ahead(inputs[0]),
    ensures
        s.run(inputs).wf(),
        inputs.len() == s.cycles_ahead(inputs[0]) ==> s.run(inputs).current is None,
        inputs.len() < s.cycles_ahead(inputs[0]) ==> {
            &&& s.run(inputs).current matches Some(instruction)
            &&& !instruction.idles()
            &&& !(instruction is CB)
            &&& forall|byte: u8| #[trigger]
                s.run(inputs).supplied(byte).remaining() == s.cycles_ahead(inputs[0])
                    - inputs.len()
        },
    decreases inputs.len(),
{
    let total = s.cycles_ahead(inputs[0]);
    if inputs.len() == 1 {
        assert(inputs.drop_last().len() == 0);
        assert(s.run(inputs.drop_last()) == s);
        assert(s.run(inputs) == s.supplied(inputs[0]).stepped());
        lemma_cycle_counts_down(s.supplied(inputs[0]));
    } else {
        let shorter = inputs.drop_last();
        assert(shorter[0] == inputs[0]);
        lemma_run_counts_down(s, shorter);
        let middle = s.run(shorter);
        let fed = middle.supplied(inputs.last());
        assert(fed.remaining() == total - shorter.len());
        assert(fed.primed() == fed);
        lemma_cycle_counts_down(fed);
        assert(s.run(inputs) == fed.stepped());
    }
}

/// An instruction takes exactly its cycles: the core, ready to decode an
/// instruction that does not idle, is busy through every cycle but the last
/// and ready again after the last precisely when it is run for as many cycles
/// as that instruction takes.
#[verifier::spinoff_prover]
#[verifier::rlimit(50)]
pub proof fn lemma_instruction_takes_its_cycles(s: Machine, inputs: Seq<u8>)
    requires
        s.can_step(),
        inputs.len() >= 1,
        !s.primed().current.unwrap().idles(),
    ensures
        s.completes_with(inputs) <==> inputs.len() == s.cycles_ahead(inputs[0]),
{
    let total = s.cycles_ahead(inputs[0]);
    lemma_cycle_counts_down(s.supplied(inputs[0]));
    assert(total >= 1);
    if inputs.len() == total {
        lemma_run_counts_down(s, inputs);
        assert forall|k: int| 0 < k < inputs.len() implies (#[trigger] s.run(
            inputs.take(k),
        )).current is Some by {
            assert(inputs.take(k)[0] == inputs[0]);
            lemma_run_counts_down(s, inputs.take(k));
        }
    } else if inputs.len() < total {
        lemma_run_counts_down(s, inputs);
    } else {
        let k = total;
        assert(inputs.take(k)[0] == inputs[0]);
        lemma_run_counts_down(s, inputs.take(k));
        assert(s.run(inputs.take(k)).current is None);
    }
}

/// A conditional branch that is not taken is over sooner than one that is:
/// of two cores that are ready to decode a branch of the same kind, the one
/// whose condition fails completes in fewer cycles than the one whose
/// condition holds.
#[verifier::spinoff_prover]
#[verifier::rlimit(50)]
pub proof fn lemma_untaken_branch_is_shorter(
    taken: Machine,
    untaken: Machine,
    long: Seq<u8>,
    short: Seq<u8>,
)
    requires
        taken.can_step(),
        untaken.can_step(),
        taken.current is None,
        untaken.current is None,
        taken.primed().current.unwrap().conditional(),
        taken.primed().current.unwrap().same_kind(untaken.primed().current.unwrap()),
        taken.primed().condition(),
        !untaken.primed().condition(),
        taken.completes_with(long),
        untaken.completes_with(short),
    ensures
        short.len() < long.len(),
        short.len() == untaken.primed().current.unwrap().cycles(false),
        long.len() == taken.primed().current.unwrap().cycles(true),
{
    lemma_instruction_takes_its_cycles(taken, long);
    lemma_instruction_takes_its_cycles(untaken, short);
    assert(taken.supplied(long[0]).primed().condition() == taken.primed().condition());
    assert(untaken.supplied(short[0]).primed().condition() == untaken.primed().condition());
}

} // verus!
