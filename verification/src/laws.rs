//! The laws relating the embedder and the verifier: what verification
//! decides on containers the embedder built, and on tampered variants of
//! them.

use vstd::prelude::*;
use vstd::bytes::{spec_u32_from_le_bytes, spec_u32_to_le_bytes, lemma_auto_spec_u32_to_from_le_bytes};
use crate::container::{
    ElfContext, ABI_VERSION, TAG_NOTE_TYPE, spec_container, spec_context_code, spec_magic,
};
use crate::checksum::crc32_bzip2_of;
use crate::embed::spec_embed;
use crate::gate::{ElfError, spec_verify};

verus! {

/// Where each field of a container built by [`spec_container`] lies in the
/// byte stream.
proof fn lemma_container_fields(
    magic: Seq<u8>,
    note_type: u32,
    context_code: u32,
    abi: u32,
    checksum: u32,
    payload: Seq<u8>,
)
    requires
        magic.len() == 8,
    ensures
        ({
            let b = spec_container(magic, note_type, context_code, abi, checksum, payload);
            &&& b.len() == 40 + payload.len()
            &&& spec_u32_from_le_bytes(b.subrange(0, 4)) == 8
            &&& spec_u32_from_le_bytes(b.subrange(4, 8)) == 16
            &&& spec_u32_from_le_bytes(b.subrange(8, 12)) == note_type
            &&& b.subrange(12, 20) == magic
            &&& spec_u32_from_le_bytes(b.subrange(20, 24)) == 0
            &&& spec_u32_from_le_bytes(b.subrange(24, 28)) == context_code
            &&& spec_u32_from_le_bytes(b.subrange(28, 32)) == abi
            &&& spec_u32_from_le_bytes(b.subrange(32, 36)) == checksum
            &&& b.subrange(36, b.len() - 4) == payload
        }),
{
    lemma_auto_spec_u32_to_from_le_bytes();
    let b = spec_container(magic, note_type, context_code, abi, checksum, payload);
    assert(b.len() == 40 + payload.len());
    assert(b.subrange(0, 4) =~= spec_u32_to_le_bytes(8));
    assert(b.subrange(4, 8) =~= spec_u32_to_le_bytes(16));
    assert(b.subrange(8, 12) =~= spec_u32_to_le_bytes(note_type));
    assert(b.subrange(12, 20) =~= magic);
    assert(b.subrange(20, 24) =~= spec_u32_to_le_bytes(0));
    assert(b.subrange(24, 28) =~= spec_u32_to_le_bytes(context_code));
    assert(b.subrange(28, 32) =~= spec_u32_to_le_bytes(abi));
    assert(b.subrange(32, 36) =~= spec_u32_to_le_bytes(checksum));
    assert(b.subrange(36, b.len() - 4) =~= payload);
}

/// Round trip: verifying a freshly embedded container against the context it
/// was built for yields exactly the original payload bytes.
pub proof fn lemma_round_trip(payload: Seq<u8>, context: ElfContext)
    ensures
        spec_verify(spec_embed(payload, context), context) == Ok::<Seq<u8>, ElfError>(payload),
{
    lemma_container_fields(
        spec_magic(),
        TAG_NOTE_TYPE,
        spec_context_code(context),
        ABI_VERSION,
        crc32_bzip2_of(payload),
        payload,
    );
}

/// Context gate: a container embedded for one execution context is rejected
/// with `ContextMismatch` when verified against the other, whatever the
/// payload.
pub proof fn lemma_context_gate(payload: Seq<u8>, built: ElfContext, expected: ElfContext)
    requires
        built != expected,
    ensures
        spec_verify(spec_embed(payload, built), expected)
            == Err::<Seq<u8>, ElfError>(ElfError::ContextMismatch),
{
    lemma_container_fields(
        spec_magic(),
        TAG_NOTE_TYPE,
        spec_context_code(built),
        ABI_VERSION,
        crc32_bzip2_of(payload),
        payload,
    );
}

/// Unknown ABI: a container whose ABI revision lies outside the supported
/// set is rejected with `UnsupportedAbi`, even when its context matches and
/// its stored checksum is the correct digest of its payload.
pub proof fn lemma_unknown_abi(payload: Seq<u8>, context: ElfContext, abi: u32, checksum: u32)
    requires
        abi != ABI_VERSION,
    ensures
        spec_verify(
            spec_container(
                spec_magic(),
                TAG_NOTE_TYPE,
                spec_context_code(context),
                abi,
                checksum,
                payload,
            ),
            context,
        ) == Err::<Seq<u8>, ElfError>(ElfError::UnsupportedAbi),
{
    lemma_container_fields(
        spec_magic(),
        TAG_NOTE_TYPE,
        spec_context_code(context),
        abi,
        checksum,
        payload,
    );
}

/// Foreign magic: a syntactically valid note with the recognized note type
/// but a different 8-byte name is rejected with `NotATrustTag` before any
/// policy check, never with `ChecksumMismatch`.
pub proof fn lemma_foreign_magic(
    foreign: Seq<u8>,
    context_code: u32,
    abi: u32,
    checksum: u32,
    payload: Seq<u8>,
    expected: ElfContext,
)
    requires
        foreign.len() == 8,
        foreign != spec_magic(),
    ensures
        spec_verify(
            spec_container(foreign, TAG_NOTE_TYPE, context_code, abi, checksum, payload),
            expected,
        ) == Err::<Seq<u8>, ElfError>(ElfError::NotATrustTag),
{
    lemma_container_fields(foreign, TAG_NOTE_TYPE, context_code, abi, checksum, payload);
}

/// Tampering with the stored checksum field of a valid container is caught:
/// changing any byte of that field makes verification fail with
/// `ChecksumMismatch`, because the payload still recomputes to the original
/// digest while the stored word now differs from it.
pub proof fn lemma_checksum_field_tamper(
    payload: Seq<u8>,
    context: ElfContext,
    tampered: Seq<u8>,
    i: int,
)
    requires
        ({
            let b = spec_embed(payload, context);
            &&& tampered.len() == b.len()
            &&& 32 <= i < 36
            &&& tampered[i] != b[i]
            &&& forall|j: int| 0 <= j < b.len() && j != i ==> tampered[j] == b[j]
        }),
    ensures
        spec_verify(tampered, context) == Err::<Seq<u8>, ElfError>(ElfError::ChecksumMismatch),
{
    lemma_auto_spec_u32_to_from_le_bytes();
    let b = spec_embed(payload, context);
    lemma_container_fields(
        spec_magic(),
        TAG_NOTE_TYPE,
        spec_context_code(context),
        ABI_VERSION,
        crc32_bzip2_of(payload),
        payload,
    );
    assert(tampered.subrange(0, 4) =~= b.subrange(0, 4));
    assert(tampered.subrange(4, 8) =~= b.subrange(4, 8));
    assert(tampered.subrange(8, 12) =~= b.subrange(8, 12));
    assert(tampered.subrange(12, 20) =~= b.subrange(12, 20));
    assert(tampered.subrange(24, 28) =~= b.subrange(24, 28));
    assert(tampered.subrange(28, 32) =~= b.subrange(28, 32));
    assert(tampered.subrange(36, tampered.len() - 4) =~= b.subrange(36, b.len() - 4));
    let s = tampered.subrange(32, 36);
    let s0 = b.subrange(32, 36);
    assert(s.len() == 4 && s0.len() == 4);
    assert(s[i - 32] != s0[i - 32]);
    assert(s != s0);
    // A 4-byte word decodes injectively: equal decodings would force the
    // tampered field bytes back to the original ones.
    assert(spec_u32_from_le_bytes(s) != spec_u32_from_le_bytes(s0)) by {
        if spec_u32_from_le_bytes(s) == spec_u32_from_le_bytes(s0) {
            assert(spec_u32_to_le_bytes(spec_u32_from_le_bytes(s)) == s);
            assert(spec_u32_to_le_bytes(spec_u32_from_le_bytes(s0)) == s0);
            assert(s == s0);
        }
    }
}

/// Embedding is a pure function of the payload and the context: any two
/// containers that meet the embedder's contract for the same payload and
/// context are byte-identical, so re-running the embedder on the same
/// original bytes reproduces the container exactly.
pub proof fn lemma_embed_deterministic(
    payload: Seq<u8>,
    context: ElfContext,
    c1: Seq<u8>,
    c2: Seq<u8>,
)
    requires
        c1 == spec_embed(payload, context),
        c2 == spec_embed(payload, context),
    ensures
        c1 == c2,
{
}

/// Tampering with the payload section of a valid container is caught
/// exactly when it changes the digest: whatever replaces the payload, the
/// container still parses, and verification yields the new payload when its
/// digest still equals the stored one and `ChecksumMismatch` otherwise.
/// Which byte changes flip the digest is a property of the CRC-32/BZIP2
/// function itself, which the library names but does not state; single-bit
/// flips are exercised by tests against the real digest.
pub proof fn lemma_payload_tamper(payload: Seq<u8>, context: ElfContext, tampered: Seq<u8>)
    requires
        ({
            let b = spec_embed(payload, context);
            &&& tampered.len() == b.len()
            &&& forall|j: int| 0 <= j < 36 ==> tampered[j] == b[j]
        }),
    ensures
        ({
            let replaced = tampered.subrange(36, tampered.len() - 4);
            spec_verify(tampered, context) == if crc32_bzip2_of(replaced) == crc32_bzip2_of(
                payload,
            ) {
                Ok::<Seq<u8>, ElfError>(replaced)
            } else {
                Err::<Seq<u8>, ElfError>(ElfError::ChecksumMismatch)
            }
        }),
{
    let b = spec_embed(payload, context);
    lemma_container_fields(
        spec_magic(),
        TAG_NOTE_TYPE,
        spec_context_code(context),
        ABI_VERSION,
        crc32_bzip2_of(payload),
        payload,
    );
    assert(tampered.subrange(0, 4) =~= b.subrange(0, 4));
    assert(tampered.subrange(4, 8) =~= b.subrange(4, 8));
    assert(tampered.subrange(8, 12) =~= b.subrange(8, 12));
    assert(tampered.subrange(12, 20) =~= b.subrange(12, 20));
    assert(tampered.subrange(24, 28) =~= b.subrange(24, 28));
    assert(tampered.subrange(28, 32) =~= b.subrange(28, 32));
    assert(tampered.subrange(32, 36) =~= b.subrange(32, 36));
}

/// The reserved word of the tag note carries no semantic weight: changing
/// its bytes in a valid container leaves verification succeeding with the
/// same payload.
pub proof fn lemma_reserved_ignored(
    payload: Seq<u8>,
    context: ElfContext,
    tampered: Seq<u8>,
    i: int,
)
    requires
        ({
            let b = spec_embed(payload, context);
            &&& tampered.len() == b.len()
            &&& 20 <= i < 24
            &&& forall|j: int| 0 <= j < b.len() && j != i ==> tampered[j] == b[j]
        }),
    ensures
        spec_verify(tampered, context) == Ok::<Seq<u8>, ElfError>(payload),
{
    let b = spec_embed(payload, context);
    lemma_container_fields(
        spec_magic(),
        TAG_NOTE_TYPE,
        spec_context_code(context),
        ABI_VERSION,
        crc32_bzip2_of(payload),
        payload,
    );
    assert(tampered.subrange(0, 4) =~= b.subrange(0, 4));
    assert(tampered.subrange(4, 8) =~= b.subrange(4, 8));
    assert(tampered.subrange(8, 12) =~= b.subrange(8, 12));
    assert(tampered.subrange(12, 20) =~= b.subrange(12, 20));
    assert(tampered.subrange(24, 28) =~= b.subrange(24, 28));
    assert(tampered.subrange(28, 32) =~= b.subrange(28, 32));
    assert(tampered.subrange(32, 36) =~= b.subrange(32, 36));
    assert(tampered.subrange(36, tampered.len() - 4) =~= b.subrange(36, b.len() - 4));
}

} // verus!
