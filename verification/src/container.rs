//! The tagged-container format: the execution contexts an image can declare,
//! the constants of the tag note, and the byte layout shared by the embedder
//! and the trust gate.

use vstd::prelude::*;
use vstd::bytes::{spec_u32_to_le_bytes, spec_u32_from_le_bytes};

verus! {

/// Declares whether an image is meant to run in the privileged (`Kernel`)
/// or unprivileged (`User`) execution context.
#[derive(Clone, Copy, Debug, PartialEq, Eq, Structural)]
pub enum ElfContext {
    Kernel,
    User,
}

/// The on-disk code of an execution context.
pub open spec fn spec_context_code(c: ElfContext) -> u32 {
    match c {
        ElfContext::Kernel => 1,
        ElfContext::User => 2,
    }
}

/// The on-disk code of an execution context: `1` for `Kernel`, `2` for `User`.
pub fn context_code(c: ElfContext) -> (r: u32)
    ensures
        r == spec_context_code(c),
{
    match c {
        ElfContext::Kernel => 1,
        ElfContext::User => 2,
    }
}

/// The ABI revision that newly embedded images declare.
pub const ABI_VERSION: u32 = 2;

/// The only note type recognized as a trust tag.
pub const TAG_NOTE_TYPE: u32 = 1;

/// Whether `abi` is in the statically known set of supported ABI revisions.
pub open spec fn spec_abi_supported(abi: u32) -> bool {
    abi == ABI_VERSION
}

/// Whether `abi` is in the statically known set of supported ABI revisions.
pub fn abi_supported(abi: u32) -> (r: bool)
    ensures
        r == spec_abi_supported(abi),
{
    abi == ABI_VERSION
}

/// The 8-byte magic that identifies a tag note as belonging to this system:
/// the ASCII name of the producing system, NUL-terminated.
pub open spec fn spec_magic() -> Seq<u8> {
    seq![0x52u8, 0x75u8, 0x73u8, 0x73u8, 0x65u8, 0x74u8, 0x20u8, 0x00u8]
}

/// The 8-byte magic of this system's tag notes.
pub fn magic_bytes() -> (v: Vec<u8>)
    ensures
        v@ == spec_magic(),
{
    let mut v: Vec<u8> = Vec::new();
    v.push(0x52u8);
    v.push(0x75u8);
    v.push(0x73u8);
    v.push(0x73u8);
    v.push(0x65u8);
    v.push(0x74u8);
    v.push(0x20u8);
    v.push(0x00u8);
    proof {
        assert(v@ =~= spec_magic());
    }
    v
}

/// The fixed placeholder content of the auxiliary section that closes every
/// container; it exists only for format compatibility and is never validated.
pub open spec fn spec_aux_section() -> Seq<u8> {
    seq![1u8, 2u8, 3u8, 4u8]
}

/// The container bytes with every field left free: a tag note built from
/// `magic`, `note_type` and the three descriptor words, then the payload
/// verbatim, then the auxiliary section. `magic` must be 8 bytes long for
/// the result to be well formed.
pub open spec fn spec_container(
    magic: Seq<u8>,
    note_type: u32,
    context_code: u32,
    abi: u32,
    checksum: u32,
    payload: Seq<u8>,
) -> Seq<u8> {
    spec_u32_to_le_bytes(8)
        + spec_u32_to_le_bytes(16)
        + spec_u32_to_le_bytes(note_type)
        + magic
        + spec_u32_to_le_bytes(0)
        + spec_u32_to_le_bytes(context_code)
        + spec_u32_to_le_bytes(abi)
        + spec_u32_to_le_bytes(checksum)
        + payload
        + spec_aux_section()
}

} // verus!
