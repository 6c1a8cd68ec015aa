//! The trust gate: parses a tagged container, validates the embedded tag,
//! recomputes the payload checksum, and yields the raw image bytes only if
//! every check passes.

use vstd::prelude::*;
use vstd::bytes::{spec_u32_from_le_bytes, u32_from_le_bytes};
use vstd::slice::{slice_subrange, slice_to_vec};
use crate::container::{
    ElfContext, TAG_NOTE_TYPE, abi_supported, context_code, magic_bytes, spec_abi_supported,
    spec_context_code, spec_magic,
};
use crate::checksum::{crc32_bzip2, crc32_bzip2_of};

verus! {

/// Why a candidate container was rejected. The first four kinds mean the
/// bytes are not a recognizable tagged image at all; the last three mean the
/// image carries a well-formed tag but fails a specific policy check.
#[derive(Clone, Copy, Debug, PartialEq, Eq, Structural)]
pub enum ElfError {
    /// The outer structure cannot be parsed at all: too short to hold a
    /// note header.
    MalformedContainer,
    /// The note entry announced by the header does not fit in the bytes.
    TagNotFound,
    /// The note is well formed but is not a trust tag of this system: a
    /// foreign note type, a foreign magic, or a descriptor of the wrong size.
    NotATrustTag,
    /// No payload section follows the tag note.
    PayloadSectionMissing,
    /// The image was built for the other execution context.
    ContextMismatch,
    /// The image declares an ABI revision outside the supported set.
    UnsupportedAbi,
    /// The stored checksum differs from the checksum recomputed over the
    /// payload: the corruption or tamper signal.
    ChecksumMismatch,
}

/// `len` rounded up to the next multiple of 4: note names are NUL-padded to
/// 4-byte alignment.
pub open spec fn spec_pad4(len: int) -> int {
    ((len + 3) / 4) * 4
}

/// The length of the note entry announced by a container's header: the
/// 12-byte header itself, the padded name, and the descriptor.
pub open spec fn spec_note_end(name_len: u32, desc_len: u32) -> int {
    12 + spec_pad4(name_len as int) + desc_len as int
}

/// The verification decision over a container's bytes, checked in this
/// order: the note header must be present, the announced note entry must fit,
/// the note must be this system's trust tag (note type `1`, an 8-byte name
/// equal to the magic, a 16-byte descriptor), a payload section must follow,
/// the declared context must equal the expected one, the declared ABI
/// revision must be supported, and the checksum recomputed over the payload
/// must equal the stored one. Only then are the payload bytes yielded.
pub open spec fn spec_verify(bytes: Seq<u8>, expected: ElfContext) -> Result<Seq<u8>, ElfError> {
    if bytes.len() < 12 {
        Err(ElfError::MalformedContainer)
    } else {
        let name_len = spec_u32_from_le_bytes(bytes.subrange(0, 4));
        let desc_len = spec_u32_from_le_bytes(bytes.subrange(4, 8));
        let note_type = spec_u32_from_le_bytes(bytes.subrange(8, 12));
        if spec_note_end(name_len, desc_len) > bytes.len() {
            Err(ElfError::TagNotFound)
        } else if note_type != TAG_NOTE_TYPE {
            Err(ElfError::NotATrustTag)
        } else if name_len != 8 || desc_len != 16 || bytes.subrange(12, 20) != spec_magic() {
            Err(ElfError::NotATrustTag)
        } else if bytes.len() - 36 < 4 {
            Err(ElfError::PayloadSectionMissing)
        } else {
            let context_word = spec_u32_from_le_bytes(bytes.subrange(24, 28));
            let abi = spec_u32_from_le_bytes(bytes.subrange(28, 32));
            let stored = spec_u32_from_le_bytes(bytes.subrange(32, 36));
            let payload = bytes.subrange(36, bytes.len() - 4);
            if context_word != spec_context_code(expected) {
                Err(ElfError::ContextMismatch)
            } else if !spec_abi_supported(abi) {
                Err(ElfError::UnsupportedAbi)
            } else if crc32_bzip2_of(payload) != stored {
                Err(ElfError::ChecksumMismatch)
            } else {
                Ok(payload)
            }
        }
    }
}

/// Parses `container` as a tagged container, validates the trust tag against
/// `expected_context`, recomputes the payload checksum, and returns the raw
/// image bytes if and only if every check of [`spec_verify`] passes; the
/// error otherwise names the first failing check. Performs no I/O.
pub fn elf_to_pe(container: &[u8], expected_context: ElfContext) -> (r: Result<Vec<u8>, ElfError>)
    ensures
        ({
            let s = spec_verify(container@, expected_context);
            &&& r is Ok <==> s is Ok
            &&& r is Ok ==> r->Ok_0@ == s->Ok_0
            &&& r is Err ==> r->Err_0 == s->Err_0
        }),
{
    let n = container.len();
    if n < 12 {
        return Err(ElfError::MalformedContainer);
    }
    let name_len = u32_from_le_bytes(slice_subrange(container, 0, 4));
    let desc_len = u32_from_le_bytes(slice_subrange(container, 4, 8));
    let note_type = u32_from_le_bytes(slice_subrange(container, 8, 12));

    let padded_name: u64 = (name_len as u64 + 3) / 4 * 4;
    let note_end: u64 = 12 + padded_name + desc_len as u64;
    proof {
        assert(note_end as int == spec_note_end(name_len, desc_len));
    }
    if note_end > n as u64 {
        return Err(ElfError::TagNotFound);
    }
    if note_type != TAG_NOTE_TYPE {
        return Err(ElfError::NotATrustTag);
    }

    if name_len != 8 || desc_len != 16 {
        return Err(ElfError::NotATrustTag);
    }
    let magic = magic_bytes();
    let name = slice_subrange(container, 12, 20);
    let magic_matches = name[0] == magic[0] && name[1] == magic[1] && name[2] == magic[2]
        && name[3] == magic[3] && name[4] == magic[4] && name[5] == magic[5]
        && name[6] == magic[6] && name[7] == magic[7];
    if !magic_matches {
        proof {
            assert(container@.subrange(12, 20) != spec_magic());
        }
        return Err(ElfError::NotATrustTag);
    }
    proof {
        assert(container@.subrange(12, 20) =~= spec_magic());
    }

    if n - 36 < 4 {
        return Err(ElfError::PayloadSectionMissing);
    }

    let context_word = u32_from_le_bytes(slice_subrange(container, 24, 28));
    let abi = u32_from_le_bytes(slice_subrange(container, 28, 32));
    let stored = u32_from_le_bytes(slice_subrange(container, 32, 36));
    let payload = slice_subrange(container, 36, n - 4);

    if context_word != context_code(expected_context) {
        return Err(ElfError::ContextMismatch);
    }
    if !abi_supported(abi) {
        return Err(ElfError::UnsupportedAbi);
    }
    if crc32_bzip2(payload) != stored {
        return Err(ElfError::ChecksumMismatch);
    }
    Ok(slice_to_vec(payload))
}

} // verus!
