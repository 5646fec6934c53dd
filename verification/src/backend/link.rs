//! Call sites and their relocations.

use object::{RelocationEncoding, RelocationFlags, RelocationKind};
use vstd::prelude::*;

use crate::backend::aarch64::ArmInstruction;

verus! {

/// `object::RelocationKind`: the enum as the crate declares it, variant by
/// variant. Nothing is claimed of it beyond its declaration.
#[verifier::external_type_specification]
pub struct ExRelocationKind(RelocationKind);

/// `object::RelocationEncoding`: the enum as the crate declares it.
#[verifier::external_type_specification]
pub struct ExRelocationEncoding(RelocationEncoding);

/// `object::RelocationFlags`: the enum as the crate declares it, with the
/// fields of each variant.
#[verifier::external_type_specification]
pub struct ExRelocationFlags(RelocationFlags);

/// The four bytes of `word`, least significant first.
pub open spec fn little_endian(word: u32) -> Seq<u8> {
    seq![
        (word % 0x100) as u8,
        (word / 0x100 % 0x100) as u8,
        (word / 0x1_0000 % 0x100) as u8,
        (word / 0x100_0000 % 0x100) as u8,
    ]
}

/// `code` with the bytes from `at` on replaced by `bytes`.
pub open spec fn overwritten(code: Seq<u8>, at: int, bytes: Seq<u8>) -> Seq<u8> {
    code.subrange(0, at) + bytes + code.subrange(at + bytes.len(), code.len() as int)
}

/// `dividend / divisor` rounded towards zero.
pub open spec fn quotient_towards_zero(dividend: int, divisor: int) -> int {
    if dividend >= 0 {
        dividend / divisor
    } else {
        -((-dividend) / divisor)
    }
}

/// `value` as a 32-bit two's complement number.
pub open spec fn as_signed_32(value: int) -> i32 {
    if value % 0x1_0000_0000 >= 0x8000_0000 {
        (value % 0x1_0000_0000 - 0x1_0000_0000) as i32
    } else {
        (value % 0x1_0000_0000) as i32
    }
}

/// The branch-link instruction for a target `offset` bytes away: its
/// displacement is `offset / 4 - 1` instruction words.
pub open spec fn branch_link(offset: int) -> ArmInstruction {
    ArmInstruction::Bl { offset: as_signed_32(quotient_towards_zero(offset, 4) - 1) }
}

/// The displacement field of the near call at `site` for the target that
/// `offset` names: `offset - site - 5`, as 32 bits.
pub open spec fn near_call_displacement(offset: int, site: int) -> u32 {
    ((offset - site - 5) % 0x1_0000_0000) as u32
}

/// Computing the displacement of a near call in 32-bit wrapping arithmetic
/// gives `near_call_displacement`.
proof fn lemma_near_call_displacement(offset: i64, site: u64)
    ensures
        vstd::wrapping::u32_specs::wrapping_sub(
            vstd::wrapping::u32_specs::wrapping_sub(offset as u32, site as u32),
            5,
        ) == near_call_displacement(offset as int, site as int),
{
    let target: u32 = offset as u32;
    let origin: u32 = site as u32;
    let low: int = offset as int % 0x1_0000_0000;
    let high: int = site as int % 0x1_0000_0000;
    assert(target == offset as int % 0x1_0000_0000) by (bit_vector)
        requires
            target == offset as u32,
    ;
    assert(origin == site as int % 0x1_0000_0000) by (bit_vector)
        requires
            origin == site as u32,
    ;
    let first: u32 = vstd::wrapping::u32_specs::wrapping_sub(target, origin);
    let second: u32 = vstd::wrapping::u32_specs::wrapping_sub(first, 5);
    assert(second as int == (offset as int - site as int - 5) % 0x1_0000_0000) by {
        vstd::arithmetic::div_mod::lemma_fundamental_div_mod(offset as int, 0x1_0000_0000);
        vstd::arithmetic::div_mod::lemma_fundamental_div_mod(site as int, 0x1_0000_0000);
        let quotient: int = offset as int / 0x1_0000_0000 - site as int / 0x1_0000_0000;
        let wraps: int = (second as int - (low - high - 5)) / 0x1_0000_0000;
        assert(second as int == low - high - 5 + 0x1_0000_0000 * wraps);
        assert(offset as int - site as int - 5 == 0x1_0000_0000 * (quotient - wraps) + second as int);
        vstd::arithmetic::div_mod::lemma_fundamental_div_mod_converse(
            offset as int - site as int - 5,
            0x1_0000_0000,
            quotient - wraps,
            second as int,
        );
    }
}

/// Writes `word` into `code` from `at` on, least significant byte first.
fn write_little_endian(code: &mut [u8], at: usize, word: u32)
    requires
        at + 4 <= old(code)@.len(),
    ensures
        final(code)@ == overwritten(old(code)@, at as int, little_endian(word)),
{
    let first: u8 = (word & 0xff) as u8;
    let second: u8 = ((word >> 8) & 0xff) as u8;
    let third: u8 = ((word >> 16) & 0xff) as u8;
    let fourth: u8 = ((word >> 24) & 0xff) as u8;
    assert(first == (word % 0x100) as u8 && second == (word / 0x100 % 0x100) as u8 && third == (word
        / 0x1_0000 % 0x100) as u8 && fourth == (word / 0x100_0000 % 0x100) as u8) by (bit_vector)
        requires
            first == (word & 0xff) as u8,
            second == ((word >> 8) & 0xff) as u8,
            third == ((word >> 16) & 0xff) as u8,
            fourth == ((word >> 24) & 0xff) as u8,
    ;
    code[at] = first;
    code[at + 1] = second;
    code[at + 2] = third;
    code[at + 3] = fourth;
    assert(code@ =~= overwritten(old(code)@, at as int, little_endian(word)));
}

/// How a call instruction refers to its target.
#[derive(Debug, Clone, Copy, PartialEq, Eq, Structural)]
pub enum FunctionLinkMethod {
    AArch64BranchLink,
    Amd64CallNearRelative,
}

impl FunctionLinkMethod {
    /// How the relocated value is encoded in the instruction.
    #[must_use]
    pub fn encoding(&self) -> (encoding: RelocationEncoding)
        ensures
            encoding == match *self {
                FunctionLinkMethod::AArch64BranchLink => RelocationEncoding::AArch64Call,
                FunctionLinkMethod::Amd64CallNearRelative => RelocationEncoding::X86RipRelative,
            },
    {
        match self {
            Self::AArch64BranchLink => RelocationEncoding::AArch64Call,
            Self::Amd64CallNearRelative => RelocationEncoding::X86RipRelative,
        }
    }

    /// The size in bits of the place that is relocated.
    #[must_use]
    pub fn size(&self) -> (size: u8)
        ensures
            size == match *self {
                FunctionLinkMethod::AArch64BranchLink => 32u8,
                FunctionLinkMethod::Amd64CallNearRelative => 40u8,
            },
    {
        match self {
            Self::AArch64BranchLink => 32,
            Self::Amd64CallNearRelative => 40,
        }
    }

    /// What is added to the symbol's address.
    #[must_use]
    pub fn addend(&self) -> (addend: i64)
        ensures
            addend == 0,
    {
        match self {
            Self::AArch64BranchLink => 0,
            Self::Amd64CallNearRelative => 0,
        }
    }

    /// The number of bytes of the call instruction.
    pub open spec fn instruction_length(self) -> int {
        match self {
            FunctionLinkMethod::AArch64BranchLink => 4,
            FunctionLinkMethod::Amd64CallNearRelative => 5,
        }
    }
}

/// One call site: the function that is called, where in the caller's code the
/// call instruction begins, and how that instruction refers to its target.
#[derive(Debug, Clone, PartialEq, Eq)]
pub struct FunctionLink {
    pub name: String,
    pub offset: usize,
    pub method: FunctionLinkMethod,
}

impl FunctionLink {
    pub fn new(name: String, offset: usize, method: FunctionLinkMethod) -> (link: FunctionLink)
        ensures
            link.name == name,
            link.offset == offset,
            link.method == method,
    {
        FunctionLink { name, offset, method }
    }

    #[must_use]
    pub fn name(&self) -> (name: &String)
        ensures
            *name == self.name,
    {
        &self.name
    }

    #[must_use]
    pub fn offset(&self) -> (offset: usize)
        ensures
            offset == self.offset,
    {
        self.offset
    }

    /// The relocation that resolves this call where the target is placed
    /// only when the object is linked.
    #[must_use]
    pub fn flags(&self) -> (flags: RelocationFlags)
        ensures
            flags == (RelocationFlags::Generic {
                kind: RelocationKind::PltRelative,
                encoding: match self.method {
                    FunctionLinkMethod::AArch64BranchLink => RelocationEncoding::AArch64Call,
                    FunctionLinkMethod::Amd64CallNearRelative => RelocationEncoding::X86RipRelative,
                },
                size: match self.method {
                    FunctionLinkMethod::AArch64BranchLink => 32u8,
                    FunctionLinkMethod::Amd64CallNearRelative => 40u8,
                },
            }),
    {
        RelocationFlags::Generic {
            kind: RelocationKind::PltRelative,
            encoding: self.method.encoding(),
            size: self.method.size(),
        }
    }

    pub fn addend(&self) -> (addend: i64)
        ensures
            addend == 0,
    {
        self.method.addend()
    }

    /// Patches the call instruction in `code`, the caller's machine code, for
    /// the target that `offset` names.
    pub fn write(&self, code: &mut [u8], offset: isize)
        requires
            self.offset + self.method.instruction_length() <= old(code)@.len(),
        ensures
            final(code)@ == self.patched(old(code)@, offset as int),
    {
        match self.method {
            FunctionLinkMethod::AArch64BranchLink => {
                let displacement: i64 = (offset as i64 / 4) - 1;
                let words: i32 = #[verifier::truncate]
                (displacement as i32);
                assert(words == as_signed_32(displacement as int)) by (bit_vector)
                    requires
                        words == displacement as i32,
                ;
                let instruction = ArmInstruction::Bl { offset: words };
                write_little_endian(code, self.offset, instruction.encode());
            },
            FunctionLinkMethod::Amd64CallNearRelative => {
                let target: u32 = #[verifier::truncate]
                (offset as i64 as u32);
                let site: u32 = #[verifier::truncate]
                (self.offset as u64 as u32);
                let displacement: u32 = target.wrapping_sub(site).wrapping_sub(5);
                proof {
                    lemma_near_call_displacement(offset as i64, self.offset as u64);
                }
                let length: usize = code.len();
                assert(self.offset + 5 <= length);
                write_little_endian(code, self.offset + 1, displacement);
            },
        }
    }

    /// `code` after this call site has been patched for `offset`.
    pub open spec fn patched(&self, code: Seq<u8>, offset: int) -> Seq<u8> {
        match self.method {
            FunctionLinkMethod::AArch64BranchLink => overwritten(
                code,
                self.offset as int,
                little_endian(branch_link(offset).word()),
            ),
            FunctionLinkMethod::Amd64CallNearRelative => overwritten(
                code,
                self.offset + 1,
                little_endian(near_call_displacement(offset, self.offset as int)),
            ),
        }
    }
}

} // verus!
