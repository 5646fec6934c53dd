//! What holds of the register pass: that it is a fixed point of itself, what
//! it folds and forgets, and that the rewritten function runs as the one it
//! was given.

use vstd::prelude::*;

use crate::ir::{Immediate, Instruction, Label, MathOperation, Operand, Register};
use crate::optimization::register::{
    advanced, inlined, known_before, optimized, resolved, rewritten,
};
use crate::semantics::{
    label_position, run, started, step, value_of, wrapped, Machine, Progress, World,
};

verus! {

/// Whether everything that `known` says of a register is true of `registers`.
pub open spec fn agrees(known: Map<Register, Immediate>, registers: spec_fn(Register) -> i64)
    -> bool {
    forall|register: Register| #[trigger]
        known.contains_key(register) ==> registers(register) == known[register].value()
}

/// Whether `instruction` is a jump to `label`.
pub open spec fn jumps_to(instruction: Instruction, label: Label) -> bool {
    match instruction {
        Instruction::Jump { location } => location == label,
        Instruction::JumpConditional { location, .. } => location == label,
        _ => false,
    }
}

/// Whether some jump among `instructions` names `label`.
pub open spec fn targeted(instructions: Seq<Instruction>, label: Label) -> bool {
    exists|position: int|
        0 <= position < instructions.len() && #[trigger] jumps_to(instructions[position], label)
}

/// Whether what the pass knows when it reaches `instructions[position]` can
/// be relied on there. The pass reads the instructions in program order and
/// a label leaves what it knows as it is, so at a label that a jump names it
/// knows what holds on the way from above, not on the way of the jump: such
/// a label must be reached knowing nothing.
pub open spec fn reliable_at(instructions: Seq<Instruction>, position: int) -> bool {
    let known = known_before(instructions, position);
    match instructions[position] {
        Instruction::Label(label) => targeted(instructions, label) ==> forall|register: Register|
            !known.contains_key(register),
        _ => true,
    }
}

/// Whether the pass's knowledge can be relied on at every instruction.
pub open spec fn reliable(instructions: Seq<Instruction>) -> bool {
    forall|position: int|
        0 <= position < instructions.len() ==> #[trigger] reliable_at(instructions, position)
}

/// Inlining twice is inlining once.
proof fn lemma_inlined_twice(known: Map<Register, Immediate>, operand: Operand)
    ensures
        inlined(known, inlined(known, operand)) == inlined(known, operand),
        resolved(known, inlined(known, operand)) == resolved(known, operand),
{
}

/// The pass knows after the rewritten instruction what it knows after the
/// one that it rewrote, and leaves the rewritten instruction as it is.
proof fn lemma_rewritten_twice(known: Map<Register, Immediate>, instruction: Instruction)
    ensures
        advanced(known, rewritten(known, instruction)) == advanced(known, instruction),
        rewritten(known, rewritten(known, instruction)) == rewritten(known, instruction),
{
    match instruction {
        Instruction::Compare { lhs, rhs } => {
            lemma_inlined_twice(known, rhs);
        },
        Instruction::MathOperation { lhs, rhs, .. } => {
            lemma_inlined_twice(known, lhs);
            lemma_inlined_twice(known, rhs);
        },
        Instruction::StorePtr { base_ptr, offset, .. } => {
            lemma_inlined_twice(known.remove(base_ptr), offset);
        },
        _ => {},
    }
}

/// On its own output the pass knows at every instruction what it knew there
/// on its input.
proof fn lemma_known_before_optimized(instructions: Seq<Instruction>, position: int)
    requires
        0 <= position <= instructions.len(),
    ensures
        known_before(optimized(instructions), position) == known_before(instructions, position),
    decreases position,
{
    if position > 0 {
        lemma_known_before_optimized(instructions, position - 1);
        lemma_rewritten_twice(
            known_before(instructions, position - 1),
            instructions[position - 1],
        );
    }
}

/// The pass reaches its fixed point at once: run on its own output, it
/// rewrites nothing.
pub proof fn theorem_optimized_is_fixed_point(instructions: Seq<Instruction>)
    ensures
        optimized(optimized(instructions)) == optimized(instructions),
{
    assert forall|position: int| 0 <= position < instructions.len() implies optimized(
        optimized(instructions),
    )[position] == optimized(instructions)[position] by {
        lemma_known_before_optimized(instructions, position);
        lemma_rewritten_twice(known_before(instructions, position), instructions[position]);
    }
    assert(optimized(optimized(instructions)) =~= optimized(instructions));
}

/// Arithmetic on two immediates is folded, whatever is known: an addition to
/// the sum and a subtraction to the difference, both wrapping at 64 bits, and
/// the destination is then known to hold that value.
pub proof fn theorem_immediates_are_folded(
    known: Map<Register, Immediate>,
    operation: MathOperation,
    destination: Register,
    lhs: i64,
    rhs: i64,
)
    ensures
        ({
            let instruction = Instruction::MathOperation {
                operation,
                destination,
                lhs: Operand::Immediate(Immediate::Integer64(lhs)),
                rhs: Operand::Immediate(Immediate::Integer64(rhs)),
            };
            let value = match operation {
                MathOperation::Add => wrapped(lhs + rhs),
                MathOperation::Subtract => wrapped(lhs - rhs),
            };
            &&& rewritten(known, instruction) == Instruction::LoadImmediate {
                immediate: Immediate::Integer64(value),
                destination_reg: destination,
            }
            &&& advanced(known, instruction).contains_key(destination)
            &&& advanced(known, instruction)[destination] == Immediate::Integer64(value)
        }),
{
}

/// A `Move` from a register of known value becomes a `LoadImmediate` of that
/// value, and a comparison against the destination that follows has its
/// right-hand side replaced by the value.
pub proof fn theorem_copies_are_propagated(
    known: Map<Register, Immediate>,
    source: Register,
    destination: Register,
    lhs: Operand,
)
    requires
        known.contains_key(source),
    ensures
        ({
            let copy = Instruction::Move { source, destination };
            let comparison = Instruction::Compare { lhs, rhs: Operand::Register(destination) };
            &&& rewritten(known, copy) == Instruction::LoadImmediate {
                immediate: known[source],
                destination_reg: destination,
            }
            &&& rewritten(advanced(known, copy), comparison) == Instruction::Compare {
                lhs,
                rhs: Operand::Immediate(known[source]),
            }
        }),
{
}

/// Behind a jump, conditional or not, the pass knows nothing: no register
/// stands for a constant there, whatever was known before the jump.
pub proof fn theorem_nothing_known_behind_jump(
    instructions: Seq<Instruction>,
    position: int,
    operand: Operand,
)
    requires
        0 <= position < instructions.len(),
        instructions[position] is Jump || instructions[position] is JumpConditional,
    ensures
        known_before(instructions, position + 1) == Map::<Register, Immediate>::empty(),
        operand is Register ==> inlined(known_before(instructions, position + 1), operand)
            == operand,
{
}

/// A resolved operand has the resolved value wherever the knowledge is true.
proof fn lemma_resolved_value(
    known: Map<Register, Immediate>,
    registers: spec_fn(Register) -> i64,
    operand: Operand,
)
    requires
        agrees(known, registers),
    ensures
        resolved(known, operand) matches Some(immediate) ==> value_of(registers, operand)
            == immediate.value(),
        value_of(registers, inlined(known, operand)) == value_of(registers, operand),
{
    match operand {
        Operand::Register(register) => {
            if known.contains_key(register) {
                assert(registers(register) == known[register].value());
            }
        },
        Operand::Immediate(_) => {},
    }
}

/// The pass neither makes nor removes a label.
proof fn lemma_labels_stay(instructions: Seq<Instruction>, label: Label, from: int)
    ensures
        label_position(optimized(instructions), label, from) == label_position(
            instructions,
            label,
            from,
        ),
    decreases instructions.len() - from,
{
    if 0 <= from < instructions.len() {
        lemma_labels_stay(instructions, label, from + 1);
    }
}

/// A label is found where it stands.
proof fn lemma_label_found(instructions: Seq<Instruction>, label: Label, from: int)
    ensures
        label_position(instructions, label, from) matches Some(position) ==> from <= position
            < instructions.len() && instructions[position] == Instruction::Label(label),
    decreases instructions.len() - from,
{
    if 0 <= from < instructions.len() {
        lemma_label_found(instructions, label, from + 1);
    }
}

/// Where the knowledge is true, the rewritten instruction does what the
/// one in its place did, and the knowledge is true again afterwards.
proof fn lemma_step_alike(world: World, instructions: Seq<Instruction>, machine: Machine)
    requires
        reliable(instructions),
        agrees(known_before(instructions, machine.position), machine.registers),
    ensures
        step(world, optimized(instructions), machine) == step(world, instructions, machine),
        step(world, instructions, machine) matches Progress::Running(next) ==> agrees(
            known_before(instructions, next.position),
            next.registers,
        ),
{
    let position = machine.position;
    if 0 <= position < instructions.len() {
        let known = known_before(instructions, position);
        let registers = machine.registers;
        let instruction = instructions[position];
        assert(optimized(instructions)[position] == rewritten(known, instruction));
        assert(known_before(instructions, position + 1) == advanced(known, instruction));
        assert(reliable_at(instructions, position));
        match instruction {
            Instruction::Compare { lhs, rhs } => {
                lemma_resolved_value(known, registers, rhs);
            },
            Instruction::Jump { location } => {
                lemma_jump_alike(instructions, machine, location);
            },
            Instruction::JumpConditional { location, .. } => {
                lemma_jump_alike(instructions, machine, location);
            },
            Instruction::MathOperation { lhs, rhs, .. } => {
                lemma_resolved_value(known, registers, lhs);
                lemma_resolved_value(known, registers, rhs);
            },
            Instruction::StorePtr { base_ptr, offset, .. } => {
                lemma_resolved_value(known.remove(base_ptr), registers, offset);
            },
            _ => {},
        }
    }
}

/// A jump arrives at the same place in both, knowing nothing.
proof fn lemma_jump_alike(instructions: Seq<Instruction>, machine: Machine, label: Label)
    requires
        reliable(instructions),
        0 <= machine.position < instructions.len(),
        jumps_to(instructions[machine.position], label),
    ensures
        label_position(optimized(instructions), label, 0) == label_position(instructions, label, 0),
        label_position(instructions, label, 0) matches Some(position) ==> agrees(
            known_before(instructions, position),
            machine.registers,
        ),
{
    lemma_labels_stay(instructions, label, 0);
    lemma_label_found(instructions, label, 0);
    if let Some(position) = label_position(instructions, label, 0) {
        assert(targeted(instructions, label));
        assert(reliable_at(instructions, position));
    }
}

/// Where the knowledge is true, the rewritten instructions run as those
/// that the pass was given.
proof fn lemma_run_alike(world: World, instructions: Seq<Instruction>, machine: Machine, steps: nat)
    requires
        reliable(instructions),
        agrees(known_before(instructions, machine.position), machine.registers),
    ensures
        run(world, optimized(instructions), machine, steps) == run(
            world,
            instructions,
            machine,
            steps,
        ),
    decreases steps,
{
    if steps > 0 {
        lemma_step_alike(world, instructions, machine);
        if let Progress::Running(next) = step(world, instructions, machine) {
            lemma_run_alike(world, instructions, next, (steps - 1) as nat);
        }
    }
}

/// The rewritten function runs as the one that the pass was given: from the
/// same registers and memory, in every world and after any number of steps,
/// both have returned the same value, or both have halted, or both stand
/// before the same instruction with the same registers and memory. This
/// holds of the instructions on which the pass's knowledge is reliable.
pub proof fn theorem_optimized_runs_alike(
    world: World,
    instructions: Seq<Instruction>,
    registers: spec_fn(Register) -> i64,
    compared: (i64, i64),
    memory: Map<int, u8>,
    steps: nat,
)
    requires
        reliable(instructions),
    ensures
        run(world, optimized(instructions), started(registers, compared, memory), steps) == run(
            world,
            instructions,
            started(registers, compared, memory),
            steps,
        ),
{
    lemma_run_alike(world, instructions, started(registers, compared, memory), steps);
}

} // verus!
