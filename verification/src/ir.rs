//! The instruction and operand vocabulary shared by every stage of the backend.

use vstd::prelude::*;

verus! {

/// A virtual register, unique within a function. Two registers are the same
/// register exactly when their numbers are equal.
#[derive(Clone, Copy, Debug, PartialEq, Eq, Hash, Structural)]
pub struct Register {
    pub number: usize,
}

impl Register {
    pub fn new(number: usize) -> (register: Register)
        ensures
            register.number == number,
    {
        Register { number }
    }

    pub fn number(&self) -> (number: usize)
        ensures
            number == self.number,
    {
        self.number
    }
}

/// A scalar value that is known at compile time.
#[derive(Clone, Copy, Debug, PartialEq, Eq, Hash, Structural)]
pub enum Immediate {
    Integer64(i64),
}

impl Immediate {
    /// The value as a mathematical 64-bit signed integer.
    pub open spec fn value(&self) -> i64 {
        match *self {
            Immediate::Integer64(value) => value,
        }
    }

    #[verifier::when_used_as_spec(value)]
    pub fn as_i64(&self) -> (value: i64)
        ensures
            value == self.value(),
    {
        match self {
            Immediate::Integer64(value) => *value,
        }
    }
}

/// Either a register or an immediate: every instruction field that holds a
/// value which may become a constant has this type.
#[derive(Clone, Copy, Debug, PartialEq, Eq, Hash, Structural)]
pub enum Operand {
    Register(Register),
    Immediate(Immediate),
}

/// The binary arithmetic the IR knows.
#[derive(Clone, Copy, Debug, PartialEq, Eq, Hash, Structural)]
pub enum MathOperation {
    Add,
    Subtract,
}

/// The name of a jump target.
#[derive(Clone, Copy, Debug, PartialEq, Eq, Hash, Structural)]
pub struct Label {
    pub id: usize,
}

impl Label {
    pub fn new(id: usize) -> (label: Label)
        ensures
            label.id == id,
    {
        Label { id }
    }

    pub fn id(&self) -> (id: usize)
        ensures
            id == self.id,
    {
        self.id
    }
}

/// The relation between the two sides of the last `Compare` under which a
/// conditional jump is taken.
#[derive(Clone, Copy, Debug, PartialEq, Eq, Hash, Structural)]
pub enum JumpCondition {
    Equal,
    NotEqual,
    Less,
    LessOrEqual,
    Greater,
    GreaterOrEqual,
}

/// The width and signedness of a value in memory.
#[derive(Clone, Copy, Debug, PartialEq, Eq, Hash, Structural)]
pub enum PrimitiveType {
    Signed8,
    Signed16,
    Signed32,
    Signed64,
    Unsigned8,
    Unsigned16,
    Unsigned32,
    Unsigned64,
}

/// One operation of the intermediate representation.
#[derive(Clone, Debug, PartialEq, Eq)]
#[allow(inconsistent_fields)]
pub enum Instruction {
    /// Calls `target` with `args`; the result arrives in `ret_val_reg`.
    Call { target: String, ret_val_reg: Register, args: Vec<Register> },
    /// Records how `lhs` relates to `rhs` for a following conditional jump.
    Compare { lhs: Operand, rhs: Operand },
    /// `register += 1`, wrapping at 64 bits.
    Increment { register: Register },
    /// Continues at `location`.
    Jump { location: Label },
    /// Continues at `location` if the last comparison satisfies `condition`.
    JumpConditional { condition: JumpCondition, location: Label },
    /// `destination_reg = immediate`.
    LoadImmediate { immediate: Immediate, destination_reg: Register },
    /// Marks a jump target; does nothing when executed.
    Label(Label),
    /// `destination = source`.
    Move { source: Register, destination: Register },
    /// `destination = lhs operation rhs`, wrapping at 64 bits.
    MathOperation { operation: MathOperation, destination: Register, lhs: Operand, rhs: Operand },
    /// Leaves the function, with `value` as its result if there is one.
    Return { value: Option<Operand> },
    /// Reserves `size` bytes of the stack frame and puts their address in `dst`.
    StackAlloc { dst: Register, size: usize },
    /// `destination = *(base_ptr + offset)`, read as a `typ`.
    LoadPtr { destination: Register, base_ptr: Register, offset: Operand, typ: PrimitiveType },
    /// `*(base_ptr + offset) = value`, written as a `typ`.
    StorePtr { base_ptr: Register, offset: Operand, value: Register, typ: PrimitiveType },
}

/// A function of the program: its instructions in program order, and what the
/// later stages need to know about it.
#[derive(Clone, Debug, PartialEq, Eq)]
pub struct Function {
    pub name: String,
    pub frame_size: usize,
    pub instructions: Vec<Instruction>,
}

impl Function {
    pub fn new(name: String, frame_size: usize, instructions: Vec<Instruction>) -> (function: Function)
        ensures
            function.name == name,
            function.frame_size == frame_size,
            function.instructions == instructions,
    {
        Function { name, frame_size, instructions }
    }

    pub fn name(&self) -> (name: &String)
        ensures
            *name == self.name,
    {
        &self.name
    }

    pub fn frame_size(&self) -> (frame_size: usize)
        ensures
            frame_size == self.frame_size,
    {
        self.frame_size
    }

    pub fn instructions(&self) -> (instructions: &Vec<Instruction>)
        ensures
            *instructions == self.instructions,
    {
        &self.instructions
    }
}

} // verus!
