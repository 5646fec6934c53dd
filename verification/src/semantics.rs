//! What running a function of the intermediate representation means: a small
//! machine that executes one instruction at a time. It exists in proofs only;
//! the optimizer is held against it.

use vstd::prelude::*;

use crate::ir::{
    Immediate, Instruction, JumpCondition, Label, MathOperation, Operand, PrimitiveType, Register,
};

verus! {

/// The 64-bit two's complement value of `value`, for a `value` that is the sum
/// or the difference of two 64-bit signed integers.
pub open spec fn wrapped(value: int) -> i64 {
    if value > i64::MAX {
        (value - 0x1_0000_0000_0000_0000) as i64
    } else if value < i64::MIN {
        (value + 0x1_0000_0000_0000_0000) as i64
    } else {
        value as i64
    }
}

/// `lhs operation rhs` in wrapping 64-bit arithmetic.
pub open spec fn applied(operation: MathOperation, lhs: i64, rhs: i64) -> i64 {
    match operation {
        MathOperation::Add => wrapped(lhs + rhs),
        MathOperation::Subtract => wrapped(lhs - rhs),
    }
}

/// Whether `condition` holds of the two sides of a comparison.
pub open spec fn holds(condition: JumpCondition, lhs: i64, rhs: i64) -> bool {
    match condition {
        JumpCondition::Equal => lhs == rhs,
        JumpCondition::NotEqual => lhs != rhs,
        JumpCondition::Less => lhs < rhs,
        JumpCondition::LessOrEqual => lhs <= rhs,
        JumpCondition::Greater => lhs > rhs,
        JumpCondition::GreaterOrEqual => lhs >= rhs,
    }
}

/// What the intermediate representation leaves open: what a called function
/// returns and does to memory, where the stack frame lies, and how typed
/// values are laid out in memory. Whatever is proved of a run is proved for
/// every such world.
pub struct World {
    pub call: spec_fn(Seq<char>, Seq<i64>, Map<int, u8>) -> (i64, Map<int, u8>),
    pub allocate: spec_fn(Map<int, u8>, usize) -> (i64, Map<int, u8>),
    pub load: spec_fn(Map<int, u8>, i64, i64, PrimitiveType) -> i64,
    pub store: spec_fn(Map<int, u8>, i64, i64, i64, PrimitiveType) -> Map<int, u8>,
}

/// A running function between two instructions.
pub struct Machine {
    /// The index of the instruction that is executed next.
    pub position: int,
    /// The value of every register.
    pub registers: spec_fn(Register) -> i64,
    /// The two sides of the last comparison.
    pub compared: (i64, i64),
    pub memory: Map<int, u8>,
}

/// Where a run stands.
pub enum Progress {
    /// More instructions follow.
    Running(Machine),
    /// A `Return` was executed, with this value.
    Returned(Option<i64>),
    /// The run left the instructions: it passed the last one, or jumped to a
    /// label that does not occur.
    Halted,
}

/// `registers` with `value` in `register`.
pub open spec fn assigned(registers: spec_fn(Register) -> i64, register: Register, value: i64)
    -> spec_fn(Register) -> i64 {
    |other: Register| if other == register { value } else { registers(other) }
}

/// The value that `operand` has when the registers hold `registers`.
pub open spec fn value_of(registers: spec_fn(Register) -> i64, operand: Operand) -> i64 {
    match operand {
        Operand::Register(register) => registers(register),
        Operand::Immediate(immediate) => immediate.value(),
    }
}

/// The index of the first `Label(label)` at or after `from`, if there is one.
pub open spec fn label_position(instructions: Seq<Instruction>, label: Label, from: int) -> Option<int>
    decreases instructions.len() - from,
{
    if from < 0 || from >= instructions.len() {
        None
    } else if instructions[from] == Instruction::Label(label) {
        Some(from)
    } else {
        label_position(instructions, label, from + 1)
    }
}

/// `machine` continuing at `label`.
pub open spec fn jumped(instructions: Seq<Instruction>, machine: Machine, label: Label) -> Progress {
    match label_position(instructions, label, 0) {
        Some(position) => Progress::Running(Machine { position, ..machine }),
        None => Progress::Halted,
    }
}

/// `machine` continuing at the next instruction with `value` in `register`.
pub open spec fn continued(machine: Machine, register: Register, value: i64) -> Progress {
    Progress::Running(
        Machine {
            position: machine.position + 1,
            registers: assigned(machine.registers, register, value),
            ..machine
        },
    )
}

/// Executes the instruction at `machine.position`.
pub open spec fn step(world: World, instructions: Seq<Instruction>, machine: Machine) -> Progress {
    if machine.position < 0 || machine.position >= instructions.len() {
        Progress::Halted
    } else {
        let registers = machine.registers;
        let next = Machine { position: machine.position + 1, ..machine };
        match instructions[machine.position] {
            Instruction::Call { target, ret_val_reg, args } => {
                let values = args@.map_values(|register: Register| registers(register));
                let (result, memory) = (world.call)(target@, values, machine.memory);
                continued(Machine { memory, ..machine }, ret_val_reg, result)
            },
            Instruction::Compare { lhs, rhs } => Progress::Running(
                Machine { compared: (value_of(registers, lhs), value_of(registers, rhs)), ..next },
            ),
            Instruction::Increment { register } => continued(
                machine,
                register,
                wrapped(registers(register) + 1),
            ),
            Instruction::Jump { location } => jumped(instructions, machine, location),
            Instruction::JumpConditional { condition, location } => if holds(
                condition,
                machine.compared.0,
                machine.compared.1,
            ) {
                jumped(instructions, machine, location)
            } else {
                Progress::Running(next)
            },
            Instruction::LoadImmediate { immediate, destination_reg } => continued(
                machine,
                destination_reg,
                immediate.value(),
            ),
            Instruction::Label(_) => Progress::Running(next),
            Instruction::Move { source, destination } => continued(
                machine,
                destination,
                registers(source),
            ),
            Instruction::MathOperation { operation, destination, lhs, rhs } => continued(
                machine,
                destination,
                applied(operation, value_of(registers, lhs), value_of(registers, rhs)),
            ),
            Instruction::Return { value } => Progress::Returned(
                match value {
                    Some(operand) => Some(value_of(registers, operand)),
                    None => None,
                },
            ),
            Instruction::StackAlloc { dst, size } => {
                let (address, memory) = (world.allocate)(machine.memory, size);
                continued(Machine { memory, ..machine }, dst, address)
            },
            Instruction::LoadPtr { destination, base_ptr, offset, typ } => continued(
                machine,
                destination,
                (world.load)(machine.memory, registers(base_ptr), value_of(registers, offset), typ),
            ),
            Instruction::StorePtr { base_ptr, offset, value, typ } => Progress::Running(
                Machine {
                    memory: (world.store)(
                        machine.memory,
                        registers(base_ptr),
                        value_of(registers, offset),
                        registers(value),
                        typ,
                    ),
                    ..next
                },
            ),
        }
    }
}

/// Where the run that starts in `machine` stands after at most `steps`
/// instructions.
pub open spec fn run(world: World, instructions: Seq<Instruction>, machine: Machine, steps: nat)
    -> Progress
    decreases steps,
{
    if steps == 0 {
        Progress::Running(machine)
    } else {
        match step(world, instructions, machine) {
            Progress::Running(next) => run(world, instructions, next, (steps - 1) as nat),
            finished => finished,
        }
    }
}

/// A machine about to execute the first instruction.
pub open spec fn started(
    registers: spec_fn(Register) -> i64,
    compared: (i64, i64),
    memory: Map<int, u8>,
) -> Machine {
    Machine { position: 0, registers, compared, memory }
}

} // verus!
