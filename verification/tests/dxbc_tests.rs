use amd_dx_gsa::dxbc::{
    chunk_kind, get_shader_bytecode, read_chunk, read_le_u32, rest_of, starts_with_magic, Chunk,
    ChunkKind, DXBCError, ErrorKind,
};

/// Appends `value` in little-endian order.
fn push_u32(bytes: &mut Vec<u8>, value: u32) {
    bytes.extend_from_slice(&value.to_le_bytes());
}

/// A header with the given chunk offsets, and nothing behind the table.
fn header(offsets: &[u32]) -> Vec<u8> {
    let mut bytes: Vec<u8> = Vec::new();
    bytes.extend_from_slice(b"DXBC");
    bytes.extend_from_slice(&[0xA5u8; 16]);
    push_u32(&mut bytes, 0);
    push_u32(&mut bytes, offsets.len() as u32);
    for offset in offsets {
        push_u32(&mut bytes, *offset);
    }
    bytes
}

/// Writes a chunk with a tag only at `at`, growing `bytes` as needed.
fn put_tag(bytes: &mut Vec<u8>, at: usize, tag: &[u8; 4]) {
    if bytes.len() < at + 4 {
        bytes.resize(at + 4, 0);
    }
    bytes[at..at + 4].copy_from_slice(tag);
}

/// Writes a length-prefixed chunk at `at`, growing `bytes` as needed.
fn put_chunk(bytes: &mut Vec<u8>, at: usize, tag: &[u8; 4], payload: &[u8]) {
    let end = at + 8 + payload.len();
    if bytes.len() < end {
        bytes.resize(end, 0);
    }
    bytes[at..at + 4].copy_from_slice(tag);
    bytes[at + 4..at + 8].copy_from_slice(&(payload.len() as u32).to_le_bytes());
    bytes[at + 8..end].copy_from_slice(payload);
}

fn payload(seed: u8, len: usize) -> Vec<u8> {
    (0..len).map(|i| seed.wrapping_add(i as u8)).collect()
}

#[test]
fn test_extract() {
    // A compiled shader as the compiler lays it out: five chunks, the
    // bytecode in the fourth, its payload at 0xCC..0x104.
    let mut full = header(&[0x30, 0x60, 0x90, 0xC4, 0x104]);
    put_chunk(&mut full, 0x30, b"RDEF", &payload(1, 0x28));
    put_chunk(&mut full, 0x60, b"ISGN", &payload(2, 0x28));
    put_chunk(&mut full, 0x90, b"OSGN", &payload(3, 0x2C));
    put_chunk(&mut full, 0xC4, b"SHEX", &payload(4, 0x38));
    put_chunk(&mut full, 0x104, b"STAT", &payload(5, 0x10));
    let full = full.as_slice();

    let expected_shaderbytes = &full[0xCC..0x104];

    let (_, actual_shaderbytes) = get_shader_bytecode(full).unwrap();

    assert_eq!(actual_shaderbytes, expected_shaderbytes)
}

#[test]
fn returns_whole_container_beside_bytecode() {
    let mut full = header(&[32]);
    put_chunk(&mut full, 32, b"SHDR", &[9, 8, 7]);
    let (container, bytecode) = get_shader_bytecode(&full).unwrap();
    assert_eq!(container, full.as_slice());
    assert_eq!(bytecode, &[9u8, 8, 7][..]);
}

#[test]
fn single_bytecode_chunk_round_trips() {
    let data = payload(0x40, 100);
    let mut full = header(&[40, 60, 48]);
    put_tag(&mut full, 40, b"RDEF");
    put_tag(&mut full, 48, b"STAT");
    put_chunk(&mut full, 60, b"SHEX", &data);
    let (_, bytecode) = get_shader_bytecode(&full).unwrap();
    assert_eq!(bytecode, data.as_slice());
    assert_eq!(bytecode, &full[68..168]);
}

#[test]
fn empty_payload_is_returned_empty() {
    let mut full = header(&[32]);
    put_chunk(&mut full, 32, b"SHEX", &[]);
    let (_, bytecode) = get_shader_bytecode(&full).unwrap();
    assert!(bytecode.is_empty());
}

#[test]
fn first_entry_of_table_wins_over_lower_address() {
    // The table names the chunk at 100 first, the chunk at 40 second.
    let mut full = header(&[100, 40]);
    put_chunk(&mut full, 40, b"SHEX", &[1, 1, 1, 1]);
    put_chunk(&mut full, 100, b"SHDR", &[2, 2, 2]);
    let (_, bytecode) = get_shader_bytecode(&full).unwrap();
    assert_eq!(bytecode, &[2u8, 2, 2][..]);

    let mut swapped = header(&[40, 100]);
    put_chunk(&mut swapped, 40, b"SHEX", &[1, 1, 1, 1]);
    put_chunk(&mut swapped, 100, b"SHDR", &[2, 2, 2]);
    let (_, bytecode) = get_shader_bytecode(&swapped).unwrap();
    assert_eq!(bytecode, &[1u8, 1, 1, 1][..]);
}

#[test]
fn chunks_behind_the_first_match_are_not_read() {
    // The second offset lies far outside the container.
    let mut full = header(&[36, 0xFFFF_FFFF]);
    put_chunk(&mut full, 36, b"SHEX", &[5, 6]);
    let (_, bytecode) = get_shader_bytecode(&full).unwrap();
    assert_eq!(bytecode, &[5u8, 6][..]);
}

#[test]
fn il_only_container_sets_flag() {
    let mut full = header(&[36, 44]);
    put_tag(&mut full, 36, b"RDEF");
    put_tag(&mut full, 44, b"DXIL");
    assert_eq!(
        get_shader_bytecode(&full),
        Err(DXBCError::NoUsableData { dxil: true })
    );

    let mut debug = header(&[32]);
    put_tag(&mut debug, 32, b"ILDB");
    assert_eq!(
        get_shader_bytecode(&debug),
        Err(DXBCError::NoUsableData { dxil: true })
    );
}

#[test]
fn il_chunk_before_bytecode_does_not_stop_the_scan() {
    let mut full = header(&[36, 44]);
    put_tag(&mut full, 36, b"DXIL");
    put_chunk(&mut full, 44, b"SHEX", &[3]);
    let (_, bytecode) = get_shader_bytecode(&full).unwrap();
    assert_eq!(bytecode, &[3u8][..]);
}

#[test]
fn container_without_known_chunks_clears_flag() {
    let mut full = header(&[36, 44]);
    put_tag(&mut full, 36, b"RDEF");
    put_tag(&mut full, 44, b"STAT");
    assert_eq!(
        get_shader_bytecode(&full),
        Err(DXBCError::NoUsableData { dxil: false })
    );
}

#[test]
fn zero_chunks_is_no_usable_data() {
    let full = header(&[]);
    assert_eq!(full.len(), 28);
    assert_eq!(
        get_shader_bytecode(&full),
        Err(DXBCError::NoUsableData { dxil: false })
    );
}

#[test]
fn offset_past_end_is_structural_error() {
    let mut full = header(&[4000]);
    put_tag(&mut full, 32, b"SHEX");
    let empty: &[u8] = &[];
    assert_eq!(
        get_shader_bytecode(&full),
        Err(DXBCError::Nom(empty, ErrorKind::Eof))
    );

    let far = header(&[u32::MAX]);
    assert_eq!(
        get_shader_bytecode(&far),
        Err(DXBCError::Nom(empty, ErrorKind::Eof))
    );
}

#[test]
fn offset_at_end_is_structural_error() {
    let full = header(&[32]);
    assert_eq!(full.len(), 32);
    let empty: &[u8] = &[];
    assert_eq!(
        get_shader_bytecode(&full),
        Err(DXBCError::Nom(empty, ErrorKind::Eof))
    );
}

#[test]
fn truncated_tag_is_structural_error() {
    let mut full = header(&[32]);
    full.extend_from_slice(b"SHE");
    assert_eq!(
        get_shader_bytecode(&full),
        Err(DXBCError::Nom(&b"SHE"[..], ErrorKind::Eof))
    );
}

#[test]
fn missing_length_prefix_is_structural_error() {
    let mut full = header(&[32]);
    full.extend_from_slice(b"SHEX");
    full.extend_from_slice(&[1, 0]);
    assert_eq!(
        get_shader_bytecode(&full),
        Err(DXBCError::Nom(&[1u8, 0][..], ErrorKind::Eof))
    );
}

#[test]
fn length_overrun_is_structural_error() {
    let mut full = header(&[32]);
    put_chunk(&mut full, 32, b"SHEX", &[7, 7, 7, 7]);
    // Claim one byte more than there is.
    full[36] = 5;
    assert_eq!(
        get_shader_bytecode(&full),
        Err(DXBCError::Nom(&[7u8, 7, 7, 7][..], ErrorKind::Eof))
    );
    // The exact length is fine.
    full[36] = 4;
    let (_, bytecode) = get_shader_bytecode(&full).unwrap();
    assert_eq!(bytecode, &[7u8, 7, 7, 7][..]);
}

#[test]
fn huge_length_prefix_is_structural_error() {
    let mut full = header(&[32]);
    put_chunk(&mut full, 32, b"SHDR", &[1, 2]);
    full[36..40].copy_from_slice(&u32::MAX.to_le_bytes());
    assert_eq!(
        get_shader_bytecode(&full),
        Err(DXBCError::Nom(&[1u8, 2][..], ErrorKind::Eof))
    );
}

#[test]
fn magic_mismatch_fails_with_whole_input() {
    let mut full = header(&[32]);
    put_chunk(&mut full, 32, b"SHEX", &[1]);
    full[3] = b'D';
    assert_eq!(
        get_shader_bytecode(&full),
        Err(DXBCError::Nom(full.as_slice(), ErrorKind::Tag))
    );

    let short: &[u8] = b"DXB";
    assert_eq!(
        get_shader_bytecode(short),
        Err(DXBCError::Nom(short, ErrorKind::Tag))
    );

    let empty: &[u8] = &[];
    assert_eq!(
        get_shader_bytecode(empty),
        Err(DXBCError::Nom(empty, ErrorKind::Tag))
    );

    let lower: &[u8] = b"dxbc and then some more bytes to fill the header";
    assert_eq!(
        get_shader_bytecode(lower),
        Err(DXBCError::Nom(lower, ErrorKind::Tag))
    );
}

#[test]
fn truncated_header_is_structural_error() {
    let full = header(&[]);
    // Inside the hash.
    assert_eq!(
        get_shader_bytecode(&full[..10]),
        Err(DXBCError::Nom(&full[4..10], ErrorKind::Eof))
    );
    // Inside the total length.
    assert_eq!(
        get_shader_bytecode(&full[..22]),
        Err(DXBCError::Nom(&full[20..22], ErrorKind::Eof))
    );
    // Inside the chunk count.
    assert_eq!(
        get_shader_bytecode(&full[..27]),
        Err(DXBCError::Nom(&full[24..27], ErrorKind::Eof))
    );
    // Nothing behind the magic tag.
    let empty: &[u8] = &[];
    assert_eq!(
        get_shader_bytecode(&full[..4]),
        Err(DXBCError::Nom(empty, ErrorKind::Eof))
    );
}

#[test]
fn truncated_offset_table_is_structural_error() {
    let full = header(&[40, 50, 60]);
    // Two entries and two bytes of the third.
    assert_eq!(
        get_shader_bytecode(&full[..38]),
        Err(DXBCError::Nom(&full[36..38], ErrorKind::Eof))
    );
    // A table cut at an entry's end.
    let empty: &[u8] = &[];
    assert_eq!(
        get_shader_bytecode(&full[..32]),
        Err(DXBCError::Nom(empty, ErrorKind::Eof))
    );
}

#[test]
fn truncated_table_wins_over_bytecode_chunk() {
    // The first entry leads to bytecode, but the table is not complete.
    let mut full = header(&[8, 0]);
    full.truncate(34);
    full[8..12].copy_from_slice(b"SHEX");
    full[12..16].copy_from_slice(&2u32.to_le_bytes());
    assert_eq!(
        get_shader_bytecode(&full),
        Err(DXBCError::Nom(&full[32..34], ErrorKind::Eof))
    );
}

#[test]
fn total_length_field_is_not_checked() {
    let mut full = header(&[32]);
    put_chunk(&mut full, 32, b"SHEX", &[1, 2, 3]);
    full[20..24].copy_from_slice(&0xDEAD_BEEFu32.to_le_bytes());
    let (_, bytecode) = get_shader_bytecode(&full).unwrap();
    assert_eq!(bytecode, &[1u8, 2, 3][..]);
}

#[test]
fn read_le_u32_is_little_endian() {
    let bytes: [u8; 6] = [0xFF, 0x78, 0x56, 0x34, 0x12, 0xFF];
    assert_eq!(read_le_u32(&bytes, 1), 0x1234_5678);
    assert_eq!(read_le_u32(&[0xFF, 0xFF, 0xFF, 0xFF], 0), u32::MAX);
    assert_eq!(read_le_u32(&[0, 1, 0, 0], 0), 256);
}

#[test]
fn rest_of_is_empty_past_the_end() {
    let bytes: [u8; 3] = [1, 2, 3];
    assert_eq!(rest_of(&bytes, 1), &[2u8, 3][..]);
    assert!(rest_of(&bytes, 3).is_empty());
    assert!(rest_of(&bytes, 4).is_empty());
    assert!(rest_of(&bytes, usize::MAX).is_empty());
}

#[test]
fn starts_with_magic_needs_exact_tag() {
    assert!(starts_with_magic(b"DXBC"));
    assert!(starts_with_magic(b"DXBCxyz"));
    assert!(!starts_with_magic(b"DXB"));
    assert!(!starts_with_magic(b"DXBD"));
    assert!(!starts_with_magic(b"XDBC"));
}

#[test]
fn chunk_kind_knows_four_tags() {
    assert_eq!(chunk_kind(b"SHEX"), ChunkKind::Bytecode);
    assert_eq!(chunk_kind(b"SHDR"), ChunkKind::Bytecode);
    assert_eq!(chunk_kind(b"DXIL"), ChunkKind::IntermediateLanguage);
    assert_eq!(chunk_kind(b"ILDB"), ChunkKind::IntermediateLanguage);
    assert_eq!(chunk_kind(b"RDEF"), ChunkKind::Other);
    assert_eq!(chunk_kind(b"SHEY"), ChunkKind::Other);
    assert_eq!(chunk_kind(b"shex"), ChunkKind::Other);
    assert_eq!(chunk_kind(b"DXBC"), ChunkKind::Other);
}

#[test]
fn read_chunk_reads_each_kind() {
    let mut bytes: Vec<u8> = Vec::new();
    put_chunk(&mut bytes, 0, b"SHEX", &[1, 2, 3]);
    put_tag(&mut bytes, 11, b"DXIL");
    put_tag(&mut bytes, 15, b"ABCD");
    assert_eq!(read_chunk(&bytes, 0), Ok(Chunk::Bytecode(&[1u8, 2, 3][..])));
    assert_eq!(read_chunk(&bytes, 11), Ok(Chunk::IntermediateLanguage));
    assert_eq!(read_chunk(&bytes, 15), Ok(Chunk::Other));
    assert_eq!(
        read_chunk(&bytes, 16),
        Err(DXBCError::Nom(&b"BCD"[..], ErrorKind::Eof))
    );
    let empty: &[u8] = &[];
    assert_eq!(
        read_chunk(&bytes, usize::MAX),
        Err(DXBCError::Nom(empty, ErrorKind::Eof))
    );
}
