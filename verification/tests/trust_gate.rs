use russet_trust::container::ElfContext;
use russet_trust::embed::{classify_write, embed, prepare_container, EmbedError};
use russet_trust::gate::{elf_to_pe, ElfError};

fn valid_container(payload: &[u8], context: ElfContext) -> Vec<u8> {
    embed(payload, context)
}

#[test]
fn round_trip_kernel() {
    let payload = b"\x7fELFprogram image bytes";
    let container = valid_container(payload, ElfContext::Kernel);
    let extracted = elf_to_pe(&container, ElfContext::Kernel).unwrap();
    assert_eq!(extracted, payload.to_vec());
}

#[test]
fn round_trip_user() {
    let payload = b"a user program";
    let container = valid_container(payload, ElfContext::User);
    let extracted = elf_to_pe(&container, ElfContext::User).unwrap();
    assert_eq!(extracted, payload.to_vec());
}

#[test]
fn round_trip_empty_payload() {
    let container = valid_container(&[], ElfContext::User);
    assert_eq!(container.len(), 40);
    assert_eq!(elf_to_pe(&container, ElfContext::User).unwrap(), Vec::<u8>::new());
}

#[test]
fn round_trip_single_byte() {
    let payload = [0u8];
    let container = valid_container(&payload, ElfContext::Kernel);
    assert_eq!(
        elf_to_pe(&container, ElfContext::Kernel).unwrap(),
        payload.to_vec()
    );
}

#[test]
fn embedding_is_deterministic() {
    let payload = b"the same bytes";
    let first = embed(payload, ElfContext::User);
    let second = embed(payload, ElfContext::User);
    assert_eq!(first, second);
}

#[test]
fn container_layout() {
    let payload = b"AB";
    let container = embed(payload, ElfContext::Kernel);
    assert_eq!(container.len(), 40 + payload.len());
    // name_len = 8, desc_len = 16, note_type = 1
    assert_eq!(&container[0..4], &[8, 0, 0, 0]);
    assert_eq!(&container[4..8], &[16, 0, 0, 0]);
    assert_eq!(&container[8..12], &[1, 0, 0, 0]);
    // the 8-byte magic
    assert_eq!(&container[12..20], b"Russet \0");
    // reserved = 0, context = 1 (kernel), abi = 2
    assert_eq!(&container[20..24], &[0, 0, 0, 0]);
    assert_eq!(&container[24..28], &[1, 0, 0, 0]);
    assert_eq!(&container[28..32], &[2, 0, 0, 0]);
    // the payload verbatim, then the fixed auxiliary section
    assert_eq!(&container[36..38], payload);
    assert_eq!(&container[38..42], &[1, 2, 3, 4]);
}

#[test]
fn checksum_is_crc32_bzip2() {
    // The catalog check value: CRC-32/BZIP2 of "123456789" is 0xfc891918.
    let container = embed(b"123456789", ElfContext::User);
    assert_eq!(&container[32..36], &[0x18, 0x19, 0x89, 0xfc]);
}

#[test]
fn embedder_failure_taxonomy() {
    // No readable image fails before anything else; a readable one yields
    // exactly the embedded container; a failed write is typed on its own.
    assert_eq!(
        prepare_container(None, ElfContext::Kernel).unwrap_err(),
        EmbedError::ImageTooLargeOrUnreadable
    );
    let payload = b"image".to_vec();
    assert_eq!(
        prepare_container(Some(payload.clone()), ElfContext::Kernel).unwrap(),
        embed(&payload, ElfContext::Kernel)
    );
    assert_eq!(classify_write(true), Ok(()));
    assert_eq!(classify_write(false), Err(EmbedError::WriteFailure));
}

#[test]
fn context_gate_kernel_for_user() {
    let container = valid_container(b"image", ElfContext::Kernel);
    assert_eq!(
        elf_to_pe(&container, ElfContext::User),
        Err(ElfError::ContextMismatch)
    );
}

#[test]
fn context_gate_user_for_kernel() {
    let container = valid_container(b"image", ElfContext::User);
    assert_eq!(
        elf_to_pe(&container, ElfContext::Kernel),
        Err(ElfError::ContextMismatch)
    );
}

#[test]
fn payload_bit_flips_are_caught() {
    let payload = b"sensitive program text";
    let container = valid_container(payload, ElfContext::Kernel);
    for byte_index in 36..container.len() - 4 {
        for bit in 0..8 {
            let mut tampered = container.clone();
            tampered[byte_index] ^= 1 << bit;
            assert_eq!(
                elf_to_pe(&tampered, ElfContext::Kernel),
                Err(ElfError::ChecksumMismatch)
            );
        }
    }
}

#[test]
fn checksum_field_bit_flips_are_caught() {
    let container = valid_container(b"image", ElfContext::Kernel);
    for byte_index in 32..36 {
        for bit in 0..8 {
            let mut tampered = container.clone();
            tampered[byte_index] ^= 1 << bit;
            assert_eq!(
                elf_to_pe(&tampered, ElfContext::Kernel),
                Err(ElfError::ChecksumMismatch)
            );
        }
    }
}

#[test]
fn reserved_word_is_ignored() {
    let payload = b"image";
    let container = valid_container(payload, ElfContext::Kernel);
    for byte_index in 20..24 {
        let mut tampered = container.clone();
        tampered[byte_index] ^= 0xff;
        assert_eq!(
            elf_to_pe(&tampered, ElfContext::Kernel).unwrap(),
            payload.to_vec()
        );
    }
}

#[test]
fn unknown_abi_is_rejected() {
    // Context and checksum both correct; only the ABI word is foreign.
    let mut container = valid_container(b"image", ElfContext::Kernel);
    container[28..32].copy_from_slice(&[1, 0, 0, 0]);
    assert_eq!(
        elf_to_pe(&container, ElfContext::Kernel),
        Err(ElfError::UnsupportedAbi)
    );
}

#[test]
fn foreign_magic_is_not_a_trust_tag() {
    // A syntactically valid note of another product line: note type 1 and a
    // correct checksum, but a different 8-byte name. The magic check gates
    // before the checksum is even consulted.
    let mut container = valid_container(b"image", ElfContext::Kernel);
    container[12..20].copy_from_slice(b"BunnyOS\0");
    assert_eq!(
        elf_to_pe(&container, ElfContext::Kernel),
        Err(ElfError::NotATrustTag)
    );
}

#[test]
fn foreign_note_type_is_not_a_trust_tag() {
    let mut container = valid_container(b"image", ElfContext::Kernel);
    container[8..12].copy_from_slice(&[3, 0, 0, 0]);
    assert_eq!(
        elf_to_pe(&container, ElfContext::Kernel),
        Err(ElfError::NotATrustTag)
    );
}

#[test]
fn wrong_descriptor_size_is_not_a_trust_tag() {
    let mut container = valid_container(b"a longer payload here", ElfContext::Kernel);
    container[4..8].copy_from_slice(&[20, 0, 0, 0]);
    assert_eq!(
        elf_to_pe(&container, ElfContext::Kernel),
        Err(ElfError::NotATrustTag)
    );
}

#[test]
fn truncated_header_is_malformed() {
    assert_eq!(
        elf_to_pe(&[], ElfContext::Kernel),
        Err(ElfError::MalformedContainer)
    );
    assert_eq!(
        elf_to_pe(&[8, 0, 0, 0, 16, 0], ElfContext::Kernel),
        Err(ElfError::MalformedContainer)
    );
}

#[test]
fn overlong_note_means_tag_not_found() {
    let mut container = valid_container(b"image", ElfContext::Kernel);
    // Announce a descriptor far beyond the end of the container.
    container[4..8].copy_from_slice(&[0xff, 0xff, 0, 0]);
    assert_eq!(
        elf_to_pe(&container, ElfContext::Kernel),
        Err(ElfError::TagNotFound)
    );
}

#[test]
fn missing_payload_section() {
    let container = valid_container(b"image", ElfContext::Kernel);
    // Keep the complete tag note but cut the payload and auxiliary sections
    // down to fewer than the auxiliary section's four bytes.
    let truncated = &container[..38];
    assert_eq!(
        elf_to_pe(truncated, ElfContext::Kernel),
        Err(ElfError::PayloadSectionMissing)
    );
}
