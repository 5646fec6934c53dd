//! Emitting a call whose target is not placed yet.

use vstd::prelude::*;

use crate::backend::aarch64::ArmInstruction;
use crate::backend::link::{
    branch_link, little_endian, near_call_displacement, FunctionLink, FunctionLinkMethod,
};

verus! {

/// The first byte of a near call with a 32-bit displacement.
pub const CALL_NEAR_RELATIVE: u8 = 0xe8;

/// An instruction set that code is generated for.
#[derive(Debug, Clone, Copy, PartialEq, Eq, Structural)]
pub enum Architecture {
    AArch64,
    Amd64,
}

impl Architecture {
    /// How a call of this architecture refers to its target.
    pub open spec fn method(self) -> FunctionLinkMethod {
        match self {
            Architecture::AArch64 => FunctionLinkMethod::AArch64BranchLink,
            Architecture::Amd64 => FunctionLinkMethod::Amd64CallNearRelative,
        }
    }

    /// The call instruction as it is emitted: with a displacement of zero,
    /// to be patched or relocated later.
    pub open spec fn call_placeholder(self) -> Seq<u8> {
        match self {
            Architecture::AArch64 => little_endian((ArmInstruction::Bl { offset: 0 }).word()),
            Architecture::Amd64 => seq![CALL_NEAR_RELATIVE, 0u8, 0u8, 0u8, 0u8],
        }
    }

    pub fn link_method(&self) -> (method: FunctionLinkMethod)
        ensures
            method == self.method(),
    {
        match self {
            Architecture::AArch64 => FunctionLinkMethod::AArch64BranchLink,
            Architecture::Amd64 => FunctionLinkMethod::Amd64CallNearRelative,
        }
    }
}

/// Appends a call of `target` to `code`, the machine code of the calling
/// function so far, and records the call site in `links`: the call begins
/// where `code` ended.
pub fn emit_call(
    architecture: Architecture,
    target: &str,
    code: &mut Vec<u8>,
    links: &mut Vec<FunctionLink>,
)
    ensures
        final(code)@ == old(code)@ + architecture.call_placeholder(),
        final(links)@.len() == old(links)@.len() + 1,
        final(links)@.drop_last() == old(links)@,
        final(links)@.last().name@ == target@,
        final(links)@.last().offset == old(code)@.len(),
        final(links)@.last().method == architecture.method(),
{
    let offset: usize = code.len();
    match architecture {
        Architecture::AArch64 => {
            let word: u32 = (ArmInstruction::Bl { offset: 0 }).encode();
            assert(word == 0x9400_0000);
            assert(little_endian(0x9400_0000) =~= seq![0u8, 0u8, 0u8, 0x94u8]);
            code.push(0);
            code.push(0);
            code.push(0);
            code.push(0x94);
        },
        Architecture::Amd64 => {
            code.push(CALL_NEAR_RELATIVE);
            code.push(0);
            code.push(0);
            code.push(0);
            code.push(0);
        },
    }
    assert(code@ =~= old(code)@ + architecture.call_placeholder());
    links.push(FunctionLink::new(String::from_str(target), offset, architecture.link_method()));
    assert(links@.drop_last() =~= old(links)@);
}

/// The call instruction of `architecture` at `site` for the target that
/// `offset` names, as `FunctionLink::write` leaves it.
pub open spec fn call_instruction(architecture: Architecture, site: int, offset: int) -> Seq<u8> {
    match architecture {
        Architecture::AArch64 => little_endian(branch_link(offset).word()),
        Architecture::Amd64 => seq![CALL_NEAR_RELATIVE] + little_endian(
            near_call_displacement(offset, site),
        ),
    }
}

/// An emitted call that is patched is the call instruction for its target,
/// and the code before it is as it was: the call site that `emit_call`
/// records is the one that `FunctionLink::write` patches.
pub proof fn theorem_patched_call(
    architecture: Architecture,
    code: Seq<u8>,
    link: FunctionLink,
    offset: int,
)
    requires
        link.offset == code.len(),
        link.method == architecture.method(),
    ensures
        link.patched(code + architecture.call_placeholder(), offset) == code + call_instruction(
            architecture,
            code.len() as int,
            offset,
        ),
{
    assert(little_endian(0x9400_0000) =~= seq![0u8, 0u8, 0u8, 0x94u8]);
    assert(link.patched(code + architecture.call_placeholder(), offset) =~= code + call_instruction(
        architecture,
        code.len() as int,
        offset,
    ));
}

} // verus!
