//! The tag embedder: wraps raw image bytes in a tagged container carrying
//! the integrity checksum, the declared execution context and the ABI
//! revision of the build.

use vstd::prelude::*;
use vstd::bytes::u32_to_le_bytes;
use vstd::slice::slice_to_vec;
use crate::container::{
    ElfContext, ABI_VERSION, TAG_NOTE_TYPE, context_code, magic_bytes, spec_aux_section,
    spec_container, spec_context_code, spec_magic,
};
use crate::checksum::{crc32_bzip2, crc32_bzip2_of};

verus! {

/// The container that embedding `payload` for `context` produces: a tag note
/// with this system's magic, note type `1`, a zero reserved word, the context
/// code, the build's ABI revision and the CRC-32/BZIP2 checksum of the
/// payload; then the payload verbatim; then the auxiliary section.
pub open spec fn spec_embed(payload: Seq<u8>, context: ElfContext) -> Seq<u8> {
    spec_container(
        spec_magic(),
        TAG_NOTE_TYPE,
        spec_context_code(context),
        ABI_VERSION,
        crc32_bzip2_of(payload),
        payload,
    )
}

/// Wraps the raw image bytes `payload` in a tagged container declaring
/// `context`. The payload is stored verbatim, and the stored checksum is the
/// CRC-32/BZIP2 digest of exactly these bytes, so the container is a function
/// of the payload and the context alone.
pub fn embed(payload: &[u8], context: ElfContext) -> (container: Vec<u8>)
    ensures
        container@ == spec_embed(payload@, context),
{
    let checksum = crc32_bzip2(payload);

    let mut container = u32_to_le_bytes(8);
    let mut desc_len = u32_to_le_bytes(16);
    let mut note_type = u32_to_le_bytes(TAG_NOTE_TYPE);
    let mut name = magic_bytes();
    let mut reserved = u32_to_le_bytes(0);
    let mut context_word = u32_to_le_bytes(context_code(context));
    let mut abi_word = u32_to_le_bytes(ABI_VERSION);
    let mut checksum_word = u32_to_le_bytes(checksum);
    let mut body = slice_to_vec(payload);
    let mut aux: Vec<u8> = Vec::new();
    aux.push(1u8);
    aux.push(2u8);
    aux.push(3u8);
    aux.push(4u8);
    proof {
        assert(aux@ =~= spec_aux_section());
    }

    container.append(&mut desc_len);
    container.append(&mut note_type);
    container.append(&mut name);
    container.append(&mut reserved);
    container.append(&mut context_word);
    container.append(&mut abi_word);
    container.append(&mut checksum_word);
    container.append(&mut body);
    container.append(&mut aux);

    proof {
        assert(container@ =~= spec_embed(payload@, context));
    }
    container
}

/// Why an image could not be rewritten in place as a tagged container.
#[derive(Clone, Copy, Debug, PartialEq, Eq, Structural)]
pub enum EmbedError {
    /// The input image could not be read.
    ImageTooLargeOrUnreadable,
    /// The finished container could not be persisted.
    WriteFailure,
}

/// The embedding step over what the storage collaborator reported: with no
/// readable image the attempt fails with `ImageTooLargeOrUnreadable` before
/// anything else; otherwise the result is exactly the tagged container for
/// the image and the declared context, ready to be written back in place.
pub fn prepare_container(image: Option<Vec<u8>>, context: ElfContext) -> (r: Result<
    Vec<u8>,
    EmbedError,
>)
    ensures
        match image {
            Some(data) => r is Ok && r->Ok_0@ == spec_embed(data@, context),
            None => r == Err::<Vec<u8>, EmbedError>(EmbedError::ImageTooLargeOrUnreadable),
        },
{
    match image {
        Some(data) => Ok(embed(data.as_slice(), context)),
        None => Err(EmbedError::ImageTooLargeOrUnreadable),
    }
}

/// The write step: a container that could not be persisted fails the
/// attempt with `WriteFailure`.
pub fn classify_write(persisted: bool) -> (r: Result<(), EmbedError>)
    ensures
        r == if persisted {
            Ok::<(), EmbedError>(())
        } else {
            Err::<(), EmbedError>(EmbedError::WriteFailure)
        },
{
    if persisted {
        Ok(())
    } else {
        Err(EmbedError::WriteFailure)
    }
}

} // verus!
