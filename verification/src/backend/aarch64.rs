//! The part of the A64 instruction set that call sites need.

use vstd::prelude::*;

verus! {

/// An A64 instruction.
#[derive(Debug, Clone, Copy, PartialEq, Eq, Structural)]
pub enum ArmInstruction {
    /// Branch with link to the instruction `offset` words after this one.
    Bl { offset: i32 },
}

impl ArmInstruction {
    /// The instruction word: for `Bl`, the opcode `100101` in the upper six
    /// bits and the offset, as a 26-bit two's complement number, below it.
    pub open spec fn word(self) -> u32 {
        match self {
            ArmInstruction::Bl { offset } => (0x9400_0000 + offset as int % 0x400_0000) as u32,
        }
    }

    #[must_use]
    pub fn encode(&self) -> (word: u32)
        ensures
            word == self.word(),
    {
        match self {
            ArmInstruction::Bl { offset } => {
                let offset: i32 = *offset;
                let field: u32 = (offset as u32) & 0x03ff_ffff;
                assert(field == offset as int % 0x400_0000) by (bit_vector)
                    requires
                        field == (offset as u32) & 0x03ff_ffff,
                ;
                assert(0x9400_0000u32 | field == 0x9400_0000 + field) by (bit_vector)
                    requires
                        field < 0x400_0000,
                ;
                0x9400_0000u32 | field
            },
        }
    }
}

} // verus!
