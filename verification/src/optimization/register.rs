//! Constant and copy propagation over registers: one forward pass that tracks
//! which registers hold a known constant and rewrites instructions to use it.

use std::collections::HashMap;

use vstd::prelude::*;

use crate::ir::{Function, Immediate, Instruction, MathOperation, Operand, Register};
use crate::optimization::FunctionOptimizer;
use crate::semantics::{applied, wrapped};

verus! {

/// The constant that `operation` yields on two constants.
pub open spec fn folded(operation: MathOperation, lhs: Immediate, rhs: Immediate) -> Immediate {
    Immediate::Integer64(applied(operation, lhs.value(), rhs.value()))
}

/// The constant that `operand` stands for where `known` holds, if it stands
/// for one: an immediate is its own value, a register has the value that
/// `known` gives it.
pub open spec fn resolved(known: Map<Register, Immediate>, operand: Operand) -> Option<Immediate> {
    match operand {
        Operand::Immediate(immediate) => Some(immediate),
        Operand::Register(register) => if known.contains_key(register) {
            Some(known[register])
        } else {
            None
        },
    }
}

/// `operand` with a register of known value replaced by that value.
pub open spec fn inlined(known: Map<Register, Immediate>, operand: Operand) -> Operand {
    match resolved(known, operand) {
        Some(immediate) => Operand::Immediate(immediate),
        None => operand,
    }
}

/// The instruction that the pass leaves in the place of `instruction` when it
/// reaches it knowing `known`.
pub open spec fn rewritten(known: Map<Register, Immediate>, instruction: Instruction) -> Instruction {
    match instruction {
        Instruction::Compare { lhs, rhs } => Instruction::Compare { lhs, rhs: inlined(known, rhs) },
        Instruction::Move { source, destination } => if known.contains_key(source) {
            Instruction::LoadImmediate { immediate: known[source], destination_reg: destination }
        } else {
            instruction
        },
        Instruction::MathOperation { operation, destination, lhs, rhs } => match (
            resolved(known, lhs),
            resolved(known, rhs),
        ) {
            (Some(left), Some(right)) => Instruction::LoadImmediate {
                immediate: folded(operation, left, right),
                destination_reg: destination,
            },
            _ => Instruction::MathOperation {
                operation,
                destination,
                lhs: inlined(known, lhs),
                rhs: inlined(known, rhs),
            },
        },
        Instruction::StorePtr { base_ptr, offset, value, typ } => Instruction::StorePtr {
            base_ptr,
            offset: inlined(known.remove(base_ptr), offset),
            value,
            typ,
        },
        _ => instruction,
    }
}

/// What the pass knows after `instruction` when it reached it knowing `known`.
pub open spec fn advanced(known: Map<Register, Immediate>, instruction: Instruction) -> Map<
    Register,
    Immediate,
> {
    match instruction {
        Instruction::Call { ret_val_reg, .. } => known.remove(ret_val_reg),
        Instruction::Compare { .. } => known,
        Instruction::Increment { register } => if known.contains_key(register) {
            known.insert(register, Immediate::Integer64(wrapped(known[register].value() + 1)))
        } else {
            known
        },
        Instruction::Jump { .. } => Map::empty(),
        Instruction::JumpConditional { .. } => Map::empty(),
        Instruction::LoadImmediate { immediate, destination_reg } => known.insert(
            destination_reg,
            immediate,
        ),
        Instruction::Label(_) => known,
        Instruction::Move { source, destination } => if known.contains_key(source) {
            known.insert(destination, known[source])
        } else {
            known.remove(destination)
        },
        Instruction::MathOperation { operation, destination, lhs, rhs } => match (
            resolved(known, lhs),
            resolved(known, rhs),
        ) {
            (Some(left), Some(right)) => known.insert(destination, folded(operation, left, right)),
            _ => known.remove(destination),
        },
        Instruction::Return { .. } => known,
        Instruction::StackAlloc { dst, .. } => known.remove(dst),
        Instruction::LoadPtr { destination, .. } => known.remove(destination),
        Instruction::StorePtr { base_ptr, .. } => known.remove(base_ptr),
    }
}

/// What the pass knows when it reaches `instructions[position]`, having
/// started at the first instruction knowing nothing.
pub open spec fn known_before(instructions: Seq<Instruction>, position: int) -> Map<
    Register,
    Immediate,
>
    decreases position,
{
    if position <= 0 {
        Map::empty()
    } else {
        advanced(known_before(instructions, position - 1), instructions[position - 1])
    }
}

/// The instructions that the pass leaves in the place of `instructions`.
pub open spec fn optimized(instructions: Seq<Instruction>) -> Seq<Instruction> {
    Seq::new(
        instructions.len(),
        |position: int| rewritten(known_before(instructions, position), instructions[position]),
    )
}

/// The pass. Between two instructions it holds what is known at that point.
#[derive(Debug)]
pub struct RegisterInliner {
    values: HashMap<usize, Immediate>,
}

impl View for RegisterInliner {
    type V = Map<Register, Immediate>;

    /// The registers whose value the pass knows, each with that value.
    closed spec fn view(&self) -> Map<Register, Immediate> {
        Map::new(
            |register: Register| self.values@.contains_key(register.number),
            |register: Register| self.values@[register.number],
        )
    }
}

impl Default for RegisterInliner {
    fn default() -> (inliner: RegisterInliner)
        ensures
            inliner@ == Map::<Register, Immediate>::empty(),
    {
        RegisterInliner::new()
    }
}

impl FunctionOptimizer for RegisterInliner {
    /// Runs the pass over `function` from its first instruction to its last,
    /// starting with nothing known, and keeps nothing of it afterwards.
    fn optimize(&mut self, function: &mut Function)
        ensures
            final(function).instructions@ == optimized(old(function).instructions@),
            final(function).name == old(function).name,
            final(function).frame_size == old(function).frame_size,
            final(self)@ == Map::<Register, Immediate>::empty(),
    {
        self.forget_all();
        let count: usize = function.instructions.len();
        let mut position: usize = 0;
        while position < count
            invariant
                position <= count,
                function.instructions@.len() == count,
                old(function).instructions@.len() == count,
                function.name == old(function).name,
                function.frame_size == old(function).frame_size,
                self@ == known_before(old(function).instructions@, position as int),
                forall|i: int|
                    0 <= i < position ==> function.instructions@[i] == optimized(
                        old(function).instructions@,
                    )[i],
                forall|i: int|
                    position <= i < count ==> function.instructions@[i] == old(
                        function,
                    ).instructions@[i],
            decreases count - position,
        {
            self.optimize_instruction(&mut function.instructions[position]);
            position += 1;
        }
        self.forget_all();
    }
}

impl RegisterInliner {
    /// A pass that knows nothing yet.
    pub fn new() -> (inliner: RegisterInliner)
        ensures
            inliner@ == Map::<Register, Immediate>::empty(),
    {
        let inliner = RegisterInliner { values: HashMap::new() };
        assert(inliner@ =~= Map::<Register, Immediate>::empty());
        inliner
    }

    /// Forgets everything.
    fn forget_all(&mut self)
        ensures
            final(self)@ == Map::<Register, Immediate>::empty(),
    {
        self.values.clear();
        assert(self@ =~= Map::<Register, Immediate>::empty());
    }

    /// Forgets what is known of `register`.
    fn forget(&mut self, register: Register)
        ensures
            final(self)@ == old(self)@.remove(register),
    {
        self.values.remove(&register.number);
        assert(self@ =~= old(self)@.remove(register));
    }

    /// Records that `register` holds `immediate`.
    fn record(&mut self, register: Register, immediate: Immediate)
        ensures
            final(self)@ == old(self)@.insert(register, immediate),
    {
        self.values.insert(register.number, immediate);
        assert(self@ =~= old(self)@.insert(register, immediate));
    }

    /// The known value of `register`, if it has one.
    fn lookup(&self, register: Register) -> (immediate: Option<Immediate>)
        ensures
            immediate == resolved(self@, Operand::Register(register)),
    {
        match self.values.get(&register.number) {
            Some(immediate) => Some(*immediate),
            None => None,
        }
    }

    /// The constant that `operation` yields on two constants.
    fn fold(operation: MathOperation, lhs: Immediate, rhs: Immediate) -> (immediate: Immediate)
        ensures
            immediate == folded(operation, lhs, rhs),
    {
        match operation {
            MathOperation::Add => Immediate::Integer64(lhs.as_i64().wrapping_add(rhs.as_i64())),
            MathOperation::Subtract => Immediate::Integer64(
                lhs.as_i64().wrapping_sub(rhs.as_i64()),
            ),
        }
    }

    /// Updates what is known across `instruction`, and gives the instruction
    /// that takes its place, if another one does.
    fn step(&mut self, instruction: &Instruction) -> (replacement: Option<Instruction>)
        ensures
            final(self)@ == advanced(old(self)@, *instruction),
            match replacement {
                Some(other) => other == rewritten(old(self)@, *instruction),
                None => *instruction == rewritten(old(self)@, *instruction),
            },
    {
        match instruction {
            Instruction::Call { ret_val_reg, .. } => {
                self.forget(*ret_val_reg);
                None
            },
            Instruction::Compare { lhs, rhs } => {
                let rhs = self.try_inline_operand(rhs);
                Some(Instruction::Compare { lhs: *lhs, rhs })
            },
            Instruction::Increment { register } => {
                if let Some(value) = self.lookup(*register) {
                    self.record(*register, Immediate::Integer64(value.as_i64().wrapping_add(1)));
                }
                None
            },
            Instruction::Jump { .. } => {
                self.forget_all();
                None
            },
            Instruction::JumpConditional { .. } => {
                self.forget_all();
                None
            },
            Instruction::LoadImmediate { immediate, destination_reg } => {
                self.record(*destination_reg, *immediate);
                None
            },
            Instruction::Label(_) => None,
            Instruction::Move { source, destination } => {
                if let Some(known_value) = self.lookup(*source) {
                    self.record(*destination, known_value);
                    Some(
                        Instruction::LoadImmediate {
                            immediate: known_value,
                            destination_reg: *destination,
                        },
                    )
                } else {
                    self.forget(*destination);
                    None
                }
            },
            Instruction::MathOperation { operation, destination, lhs, rhs } => {
                let left = self.resolve_operand_to_immediate(lhs);
                let right = self.resolve_operand_to_immediate(rhs);
                match (left, right) {
                    (Some(left), Some(right)) => {
                        let value = Self::fold(*operation, left, right);
                        self.record(*destination, value);
                        Some(
                            Instruction::LoadImmediate {
                                immediate: value,
                                destination_reg: *destination,
                            },
                        )
                    },
                    (_, _) => {
                        let lhs = self.try_inline_operand(lhs);
                        let rhs = self.try_inline_operand(rhs);
                        self.forget(*destination);
                        Some(
                            Instruction::MathOperation {
                                operation: *operation,
                                destination: *destination,
                                lhs,
                                rhs,
                            },
                        )
                    },
                }
            },
            Instruction::Return { .. } => None,
            Instruction::StackAlloc { dst, .. } => {
                self.forget(*dst);
                None
            },
            Instruction::LoadPtr { destination, .. } => {
                self.forget(*destination);
                None
            },
            Instruction::StorePtr { base_ptr, offset, value, typ } => {
                self.forget(*base_ptr);
                let offset = self.try_inline_operand(offset);
                Some(
                    Instruction::StorePtr {
                        base_ptr: *base_ptr,
                        offset,
                        value: *value,
                        typ: *typ,
                    },
                )
            },
        }
    }

    /// Takes the pass over one instruction: rewrites it in place and updates
    /// what is known.
    pub fn optimize_instruction(&mut self, instruction: &mut Instruction)
        ensures
            *final(instruction) == rewritten(old(self)@, *old(instruction)),
            final(self)@ == advanced(old(self)@, *old(instruction)),
    {
        if let Some(replacement) = self.step(instruction) {
            *instruction = replacement;
        }
    }

    #[must_use]
    pub fn resolve_operand_to_immediate(&self, operand: &Operand) -> (immediate: Option<Immediate>)
        ensures
            immediate == resolved(self@, *operand),
    {
        match operand {
            Operand::Immediate(immediate) => Some(*immediate),
            Operand::Register(register) => self.lookup(*register),
        }
    }

    #[must_use]
    pub fn try_inline_operand(&self, operand: &Operand) -> (result: Operand)
        ensures
            result == inlined(self@, *operand),
    {
        if let Some(immediate) = self.resolve_operand_to_immediate(operand) {
            Operand::Immediate(immediate)
        } else {
            *operand
        }
    }
}

} // verus!
