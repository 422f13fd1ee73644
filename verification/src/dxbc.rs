//! The DXBC container: a header, a table of chunk offsets, and tagged chunks.
//!
//! Layout, all integers little-endian:
//! a 4-byte magic tag, a 16-byte hash, a 32-bit total length, a 32-bit chunk
//! count, then one 32-bit absolute offset per chunk. A chunk starts with a
//! 4-byte tag; a chunk that carries bytecode continues with a 32-bit length
//! and that many bytes of payload.

use vstd::prelude::*;
use vstd::slice::slice_subrange;

verus! {

/// Byte position of the hash, right behind the magic tag.
pub const HASH_AT: usize = 4;

/// Byte position of the total length in the header.
pub const TOTAL_LENGTH_AT: usize = 20;

/// Byte position of the chunk count in the header.
pub const CHUNK_COUNT_AT: usize = 24;

/// Byte position of the first entry of the offset table.
pub const OFFSET_TABLE_AT: usize = 28;

/// Why the bytes could not be read as the container's structure.
#[derive(Debug, Clone, Copy, PartialEq, Eq, Structural)]
pub enum ErrorKind {
    /// The input does not start with the expected tag.
    Tag,
    /// The input ends before the bytes that were asked for.
    Eof,
}

/// Failure of [`get_shader_bytecode`].
#[derive(Debug, PartialEq)]
pub enum DXBCError<I> {
    /// Every chunk was scanned and none carries bytecode; `dxil` tells whether
    /// a chunk in the intermediate language was among them.
    NoUsableData { dxil: bool },
    /// The container is malformed: the input that could not be read, and why.
    Nom(I, ErrorKind),
}

impl<'a> View for DXBCError<&'a [u8]> {
    type V = DXBCError<Seq<u8>>;

    open spec fn view(&self) -> DXBCError<Seq<u8>> {
        match *self {
            DXBCError::NoUsableData { dxil } => DXBCError::NoUsableData { dxil },
            DXBCError::Nom(input, kind) => DXBCError::Nom(input@, kind),
        }
    }
}

/// What a chunk's tag says about its content.
#[derive(Debug, Clone, Copy, PartialEq, Eq, Structural)]
pub enum ChunkKind {
    /// `SHEX` or `SHDR`: shader bytecode, length-prefixed.
    Bytecode,
    /// `DXIL` or `ILDB`: the intermediate language, which cannot be used.
    IntermediateLanguage,
    /// Any other tag.
    Other,
}

/// One chunk as far as it was read.
#[derive(Debug, PartialEq)]
pub enum Chunk<I> {
    /// A bytecode chunk with its payload.
    Bytecode(I),
    /// A chunk in the intermediate language.
    IntermediateLanguage,
    /// A chunk of no interest.
    Other,
}

impl<'a> View for Chunk<&'a [u8]> {
    type V = Chunk<Seq<u8>>;

    open spec fn view(&self) -> Chunk<Seq<u8>> {
        match *self {
            Chunk::Bytecode(data) => Chunk::Bytecode(data@),
            Chunk::IntermediateLanguage => Chunk::IntermediateLanguage,
            Chunk::Other => Chunk::Other,
        }
    }
}

/// The little-endian 32-bit number held by the four bytes from `at` on.
pub open spec fn le_u32_at(bytes: Seq<u8>, at: int) -> int
    recommends
        0 <= at,
        at + 4 <= bytes.len(),
{
    bytes[at] as int + 0x100 * (bytes[at + 1] as int) + 0x1_0000 * (bytes[at + 2] as int)
        + 0x100_0000 * (bytes[at + 3] as int)
}

/// Reads the little-endian 32-bit number at `at`.
pub fn read_le_u32(bytes: &[u8], at: usize) -> (value: u32)
    requires
        at + 4 <= bytes@.len(),
    ensures
        value as int == le_u32_at(bytes@, at as int),
{
    let b0: u32 = bytes[at] as u32;
    let b1: u32 = bytes[at + 1] as u32;
    let b2: u32 = bytes[at + 2] as u32;
    let b3: u32 = bytes[at + 3] as u32;
    b0 + 0x100 * b1 + 0x1_0000 * b2 + 0x100_0000 * b3
}

/// The input from `at` on; past the end there is nothing left.
pub open spec fn rest_from(bytes: Seq<u8>, at: int) -> Seq<u8> {
    if at <= bytes.len() {
        bytes.subrange(at, bytes.len() as int)
    } else {
        Seq::empty()
    }
}

/// The part of `bytes` from `at` on, empty where `at` lies past the end.
pub fn rest_of<'a>(bytes: &'a [u8], at: usize) -> (rest: &'a [u8])
    ensures
        rest@ == rest_from(bytes@, at as int),
{
    let len: usize = bytes.len();
    if at <= len {
        slice_subrange(bytes, at, len)
    } else {
        let rest = slice_subrange(bytes, len, len);
        assert(rest@ =~= Seq::<u8>::empty());
        rest
    }
}

/// Whether the input starts with the container's magic tag, `DXBC`.
pub open spec fn has_magic(bytes: Seq<u8>) -> bool {
    &&& bytes.len() >= 4
    &&& bytes[0] == 0x44
    &&& bytes[1] == 0x58
    &&& bytes[2] == 0x42
    &&& bytes[3] == 0x43
}

/// Tests the first four bytes against the magic tag.
pub fn starts_with_magic(bytes: &[u8]) -> (found: bool)
    ensures
        found == has_magic(bytes@),
{
    bytes.len() >= 4 && bytes[0] == 0x44 && bytes[1] == 0x58 && bytes[2] == 0x42 && bytes[3]
        == 0x43
}

/// The kind that a four-byte chunk tag stands for.
pub open spec fn spec_chunk_kind(tag: Seq<u8>) -> ChunkKind
    recommends
        tag.len() == 4,
{
    if tag[0] == 0x53 && tag[1] == 0x48 && tag[2] == 0x45 && tag[3] == 0x58 {
        // SHEX
        ChunkKind::Bytecode
    } else if tag[0] == 0x53 && tag[1] == 0x48 && tag[2] == 0x44 && tag[3] == 0x52 {
        // SHDR
        ChunkKind::Bytecode
    } else if tag[0] == 0x44 && tag[1] == 0x58 && tag[2] == 0x49 && tag[3] == 0x4C {
        // DXIL
        ChunkKind::IntermediateLanguage
    } else if tag[0] == 0x49 && tag[1] == 0x4C && tag[2] == 0x44 && tag[3] == 0x42 {
        // ILDB
        ChunkKind::IntermediateLanguage
    } else {
        ChunkKind::Other
    }
}

/// Classifies a four-byte chunk tag.
pub fn chunk_kind(tag: &[u8]) -> (kind: ChunkKind)
    requires
        tag@.len() == 4,
    ensures
        kind == spec_chunk_kind(tag@),
{
    let t0: u8 = tag[0];
    let t1: u8 = tag[1];
    let t2: u8 = tag[2];
    let t3: u8 = tag[3];
    if t0 == 0x53 && t1 == 0x48 && t2 == 0x45 && t3 == 0x58 {
        ChunkKind::Bytecode
    } else if t0 == 0x53 && t1 == 0x48 && t2 == 0x44 && t3 == 0x52 {
        ChunkKind::Bytecode
    } else if t0 == 0x44 && t1 == 0x58 && t2 == 0x49 && t3 == 0x4C {
        ChunkKind::IntermediateLanguage
    } else if t0 == 0x49 && t1 == 0x4C && t2 == 0x44 && t3 == 0x42 {
        ChunkKind::IntermediateLanguage
    } else {
        ChunkKind::Other
    }
}

/// The chunk that starts at `offset`, or why it cannot be read.
///
/// An offset past the end leaves nothing to read, as the end itself does.
/// The tag needs four bytes. A bytecode chunk needs four more for its length,
/// and then as many bytes as that length says.
pub open spec fn spec_read_chunk(bytes: Seq<u8>, offset: int) -> Result<
    Chunk<Seq<u8>>,
    DXBCError<Seq<u8>>,
> {
    if offset + 4 > bytes.len() {
        Err(DXBCError::Nom(rest_from(bytes, offset), ErrorKind::Eof))
    } else {
        match spec_chunk_kind(bytes.subrange(offset, offset + 4)) {
            ChunkKind::Bytecode => {
                if offset + 8 > bytes.len() {
                    Err(DXBCError::Nom(rest_from(bytes, offset + 4), ErrorKind::Eof))
                } else if offset + 8 + le_u32_at(bytes, offset + 4) > bytes.len() {
                    Err(DXBCError::Nom(rest_from(bytes, offset + 8), ErrorKind::Eof))
                } else {
                    Ok(
                        Chunk::Bytecode(
                            bytes.subrange(offset + 8, offset + 8 + le_u32_at(bytes, offset + 4)),
                        ),
                    )
                }
            },
            ChunkKind::IntermediateLanguage => Ok(Chunk::IntermediateLanguage),
            ChunkKind::Other => Ok(Chunk::Other),
        }
    }
}

/// The view of what [`read_chunk`] returns.
pub open spec fn chunk_result_view(
    r: Result<Chunk<&[u8]>, DXBCError<&[u8]>>,
) -> Result<Chunk<Seq<u8>>, DXBCError<Seq<u8>>> {
    match r {
        Ok(chunk) => Ok(chunk@),
        Err(e) => Err(e@),
    }
}

/// Reads the chunk that starts at `offset`, checking every bound.
pub fn read_chunk<'a>(bytes: &'a [u8], offset: usize) -> (r: Result<
    Chunk<&'a [u8]>,
    DXBCError<&'a [u8]>,
>)
    ensures
        chunk_result_view(r) == spec_read_chunk(bytes@, offset as int),
{
    let len: usize = bytes.len();
    if offset > len || len - offset < 4 {
        return Err(DXBCError::Nom(rest_of(bytes, offset), ErrorKind::Eof));
    }
    match chunk_kind(slice_subrange(bytes, offset, offset + 4)) {
        ChunkKind::Bytecode => {
            if len - offset < 8 {
                return Err(DXBCError::Nom(rest_of(bytes, offset + 4), ErrorKind::Eof));
            }
            let length: usize = read_le_u32(bytes, offset + 4) as usize;
            let start: usize = offset + 8;
            if len - start < length {
                return Err(DXBCError::Nom(rest_of(bytes, start), ErrorKind::Eof));
            }
            Ok(Chunk::Bytecode(slice_subrange(bytes, start, start + length)))
        },
        ChunkKind::IntermediateLanguage => Ok(Chunk::IntermediateLanguage),
        ChunkKind::Other => Ok(Chunk::Other),
    }
}

/// The number of chunks that the header announces.
pub open spec fn chunk_count(bytes: Seq<u8>) -> int
    recommends
        bytes.len() >= OFFSET_TABLE_AT,
{
    le_u32_at(bytes, CHUNK_COUNT_AT as int)
}

/// The offset that entry `k` of the offset table holds.
pub open spec fn chunk_offset(bytes: Seq<u8>, k: int) -> int
    recommends
        0 <= k,
        OFFSET_TABLE_AT + 4 * (k + 1) <= bytes.len(),
{
    le_u32_at(bytes, OFFSET_TABLE_AT + 4 * k)
}

/// The first thing that is wrong with the header or the offset table, if
/// anything is: the magic tag, then the hash, the total length, the chunk
/// count, and the entries of the table, each of which must be there in full.
pub open spec fn spec_header_error(bytes: Seq<u8>) -> Option<DXBCError<Seq<u8>>> {
    if !has_magic(bytes) {
        Some(DXBCError::Nom(bytes, ErrorKind::Tag))
    } else if bytes.len() < TOTAL_LENGTH_AT {
        Some(DXBCError::Nom(rest_from(bytes, HASH_AT as int), ErrorKind::Eof))
    } else if bytes.len() < CHUNK_COUNT_AT {
        Some(DXBCError::Nom(rest_from(bytes, TOTAL_LENGTH_AT as int), ErrorKind::Eof))
    } else if bytes.len() < OFFSET_TABLE_AT {
        Some(DXBCError::Nom(rest_from(bytes, CHUNK_COUNT_AT as int), ErrorKind::Eof))
    } else if bytes.len() < OFFSET_TABLE_AT + 4 * chunk_count(bytes) {
        let whole = (bytes.len() - OFFSET_TABLE_AT) / 4;
        Some(DXBCError::Nom(rest_from(bytes, OFFSET_TABLE_AT + 4 * whole), ErrorKind::Eof))
    } else {
        None
    }
}

/// The outcome of scanning the chunks from entry `k` of the offset table on,
/// in the order of the table, when `dxil` says whether a chunk in the
/// intermediate language was seen before. The first chunk that carries
/// bytecode, or cannot be read, ends the scan.
pub open spec fn spec_scan_chunks(bytes: Seq<u8>, k: int, dxil: bool) -> Result<
    (Seq<u8>, Seq<u8>),
    DXBCError<Seq<u8>>,
>
    decreases chunk_count(bytes) - k,
{
    if k >= chunk_count(bytes) {
        Err(DXBCError::NoUsableData { dxil })
    } else {
        match spec_read_chunk(bytes, chunk_offset(bytes, k)) {
            Err(e) => Err(e),
            Ok(Chunk::Bytecode(data)) => Ok((bytes, data)),
            Ok(Chunk::IntermediateLanguage) => spec_scan_chunks(bytes, k + 1, true),
            Ok(Chunk::Other) => spec_scan_chunks(bytes, k + 1, dxil),
        }
    }
}

/// What [`get_shader_bytecode`] returns for a container, over sequences.
pub open spec fn spec_get_shader_bytecode(bytes: Seq<u8>) -> Result<
    (Seq<u8>, Seq<u8>),
    DXBCError<Seq<u8>>,
> {
    match spec_header_error(bytes) {
        Some(e) => Err(e),
        None => spec_scan_chunks(bytes, 0, false),
    }
}

/// The view of what [`get_shader_bytecode`] returns.
pub open spec fn bytecode_result_view(
    r: Result<(&[u8], &[u8]), DXBCError<&[u8]>>,
) -> Result<(Seq<u8>, Seq<u8>), DXBCError<Seq<u8>>> {
    match r {
        Ok((container, bytecode)) => Ok((container@, bytecode@)),
        Err(e) => Err(e@),
    }
}

/// Parses the DXBC file and returns the contents of the first valid bytecode
/// chunk (`SHEX`, `SHDR`), in the order of the offset table. If no such chunk
/// is encountered, `DXBCError::NoUsableData` is returned. Chunks in the
/// intermediate language are of no use to the shader compiler, so they are
/// not returned when found.
///
/// Returns (full dxbc contents, first bytecode chunk contents).
pub fn get_shader_bytecode<'a>(dxbc_bytes: &'a [u8]) -> (r: Result<
    (&'a [u8], &'a [u8]),
    DXBCError<&'a [u8]>,
>)
    ensures
        bytecode_result_view(r) == spec_get_shader_bytecode(dxbc_bytes@),
{
    let len: usize = dxbc_bytes.len();
    if !starts_with_magic(dxbc_bytes) {
        return Err(DXBCError::Nom(dxbc_bytes, ErrorKind::Tag));
    }
    if len < TOTAL_LENGTH_AT {
        return Err(DXBCError::Nom(rest_of(dxbc_bytes, HASH_AT), ErrorKind::Eof));
    }
    if len < CHUNK_COUNT_AT {
        return Err(DXBCError::Nom(rest_of(dxbc_bytes, TOTAL_LENGTH_AT), ErrorKind::Eof));
    }
    if len < OFFSET_TABLE_AT {
        return Err(DXBCError::Nom(rest_of(dxbc_bytes, CHUNK_COUNT_AT), ErrorKind::Eof));
    }
    let num_chunks: usize = read_le_u32(dxbc_bytes, CHUNK_COUNT_AT) as usize;
    let whole: usize = (len - OFFSET_TABLE_AT) / 4;
    if whole < num_chunks {
        return Err(
            DXBCError::Nom(rest_of(dxbc_bytes, OFFSET_TABLE_AT + 4 * whole), ErrorKind::Eof),
        );
    }
    let mut dxil: bool = false;
    let mut k: usize = 0;
    while k < num_chunks
        invariant
            k <= num_chunks,
            len == dxbc_bytes@.len(),
            spec_header_error(dxbc_bytes@).is_none(),
            num_chunks == chunk_count(dxbc_bytes@),
            OFFSET_TABLE_AT + 4 * num_chunks <= len,
            spec_scan_chunks(dxbc_bytes@, k as int, dxil) == spec_scan_chunks(
                dxbc_bytes@,
                0,
                false,
            ),
        decreases num_chunks - k,
    {
        let chunk_offset: usize = read_le_u32(dxbc_bytes, OFFSET_TABLE_AT + 4 * k) as usize;
        match read_chunk(dxbc_bytes, chunk_offset) {
            Err(e) => {
                return Err(e);
            },
            Ok(Chunk::Bytecode(shader_bytecode)) => {
                return Ok((dxbc_bytes, shader_bytecode));
            },
            Ok(Chunk::IntermediateLanguage) => {
                dxil = true;
            },
            Ok(Chunk::Other) => {},
        }
        k += 1;
    }
    // no usable shader data chunks
    Err(DXBCError::NoUsableData { dxil })
}

/// Entry `k` of the offset table leads to a chunk that can be read and
/// carries no bytecode, so the scan goes on behind it.
pub open spec fn passes_over(bytes: Seq<u8>, k: int) -> bool {
    match spec_read_chunk(bytes, chunk_offset(bytes, k)) {
        Ok(Chunk::IntermediateLanguage) => true,
        Ok(Chunk::Other) => true,
        _ => false,
    }
}

/// Entry `k` of the offset table leads to a chunk in the intermediate language.
pub open spec fn is_il_chunk(bytes: Seq<u8>, k: int) -> bool {
    spec_read_chunk(bytes, chunk_offset(bytes, k)) == Ok::<
        Chunk<Seq<u8>>,
        DXBCError<Seq<u8>>,
    >(Chunk::IntermediateLanguage)
}

/// Some entry from `from` up to, not including, `to` leads to a chunk in the
/// intermediate language.
pub open spec fn il_seen(bytes: Seq<u8>, from: int, to: int) -> bool {
    exists|j: int| from <= j < to && is_il_chunk(bytes, j)
}

/// A scan that meets only chunks it passes over arrives behind them, and
/// remembers whether one of them was in the intermediate language.
pub proof fn lemma_scan_passes(bytes: Seq<u8>, from: int, to: int, dxil: bool)
    requires
        0 <= from <= to <= chunk_count(bytes),
        forall|j: int| from <= j < to ==> passes_over(bytes, j),
    ensures
        spec_scan_chunks(bytes, from, dxil) == spec_scan_chunks(
            bytes,
            to,
            dxil || il_seen(bytes, from, to),
        ),
    decreases to - from,
{
    if from < to {
        assert(passes_over(bytes, from));
        if is_il_chunk(bytes, from) {
            lemma_scan_passes(bytes, from + 1, to, true);
        } else {
            lemma_scan_passes(bytes, from + 1, to, dxil);
            assert(il_seen(bytes, from, to) == il_seen(bytes, from + 1, to));
        }
    }
}

/// An input that does not start with the magic tag is refused for that
/// alone: the error holds the whole input and the kind `Tag`, whatever
/// follows the first four bytes.
pub proof fn law_magic_mismatch(bytes: Seq<u8>)
    requires
        !has_magic(bytes),
    ensures
        spec_get_shader_bytecode(bytes) == Err::<(Seq<u8>, Seq<u8>), DXBCError<Seq<u8>>>(
            DXBCError::Nom(bytes, ErrorKind::Tag),
        ),
{
}

/// The first chunk that the scan does not pass over decides the result: its
/// payload where it carries bytecode, its error where it cannot be read.
/// Nothing behind it in the offset table matters.
pub proof fn law_first_stop_decides(bytes: Seq<u8>, k: int)
    requires
        spec_header_error(bytes).is_none(),
        0 <= k < chunk_count(bytes),
        forall|j: int| 0 <= j < k ==> passes_over(bytes, j),
        !passes_over(bytes, k),
    ensures
        spec_read_chunk(bytes, chunk_offset(bytes, k)) matches Ok(Chunk::Bytecode(data))
            ==> spec_get_shader_bytecode(bytes) == Ok::<(Seq<u8>, Seq<u8>), DXBCError<Seq<u8>>>(
            (bytes, data),
        ),
        spec_read_chunk(bytes, chunk_offset(bytes, k)) matches Err(e)
            ==> spec_get_shader_bytecode(bytes) == Err::<(Seq<u8>, Seq<u8>), DXBCError<Seq<u8>>>(
            e,
        ),
{
    lemma_scan_passes(bytes, 0, k, false);
}

/// The first bytecode chunk in the order of the offset table is returned,
/// whatever the later entries hold and wherever the chunks lie in the file.
pub proof fn law_first_bytecode_chunk_wins(bytes: Seq<u8>, k: int, data: Seq<u8>)
    requires
        spec_header_error(bytes).is_none(),
        0 <= k < chunk_count(bytes),
        forall|j: int| 0 <= j < k ==> passes_over(bytes, j),
        spec_read_chunk(bytes, chunk_offset(bytes, k)) == Ok::<
            Chunk<Seq<u8>>,
            DXBCError<Seq<u8>>,
        >(Chunk::Bytecode(data)),
    ensures
        spec_get_shader_bytecode(bytes) == Ok::<(Seq<u8>, Seq<u8>), DXBCError<Seq<u8>>>(
            (bytes, data),
        ),
{
    law_first_stop_decides(bytes, k);
}

/// A container whose only bytecode chunk stands at `offset` with a payload of
/// `length` bytes yields exactly the bytes of that payload.
pub proof fn law_single_bytecode_chunk(bytes: Seq<u8>, k: int, offset: int, length: int)
    requires
        spec_header_error(bytes).is_none(),
        0 <= k < chunk_count(bytes),
        chunk_offset(bytes, k) == offset,
        0 <= offset,
        0 <= length,
        offset + 8 + length <= bytes.len(),
        spec_chunk_kind(bytes.subrange(offset, offset + 4)) == ChunkKind::Bytecode,
        le_u32_at(bytes, offset + 4) == length,
        forall|j: int| 0 <= j < chunk_count(bytes) && j != k ==> passes_over(bytes, j),
    ensures
        spec_get_shader_bytecode(bytes) == Ok::<(Seq<u8>, Seq<u8>), DXBCError<Seq<u8>>>(
            (bytes, bytes.subrange(offset + 8, offset + 8 + length)),
        ),
{
    law_first_bytecode_chunk_wins(bytes, k, bytes.subrange(offset + 8, offset + 8 + length));
}

/// A container in which every chunk can be read and none carries bytecode
/// yields `NoUsableData`, and the flag tells whether one of the chunks was in
/// the intermediate language.
pub proof fn law_no_bytecode(bytes: Seq<u8>)
    requires
        spec_header_error(bytes).is_none(),
        forall|j: int| 0 <= j < chunk_count(bytes) ==> passes_over(bytes, j),
    ensures
        spec_get_shader_bytecode(bytes) == Err::<(Seq<u8>, Seq<u8>), DXBCError<Seq<u8>>>(
            DXBCError::NoUsableData { dxil: il_seen(bytes, 0, chunk_count(bytes)) },
        ),
{
    lemma_scan_passes(bytes, 0, chunk_count(bytes), false);
}

/// A container without chunks is well formed and holds nothing of use.
pub proof fn law_no_chunks(bytes: Seq<u8>)
    requires
        spec_header_error(bytes).is_none(),
        chunk_count(bytes) == 0,
    ensures
        spec_get_shader_bytecode(bytes) == Err::<(Seq<u8>, Seq<u8>), DXBCError<Seq<u8>>>(
            DXBCError::NoUsableData { dxil: false },
        ),
{
}

/// Where the scan arrives at an offset past the end of the container, the
/// container is refused as malformed: nothing is left to read there.
pub proof fn law_offset_past_end_is_refused(bytes: Seq<u8>, k: int)
    requires
        spec_header_error(bytes).is_none(),
        0 <= k < chunk_count(bytes),
        forall|j: int| 0 <= j < k ==> passes_over(bytes, j),
        chunk_offset(bytes, k) > bytes.len(),
    ensures
        spec_get_shader_bytecode(bytes) == Err::<(Seq<u8>, Seq<u8>), DXBCError<Seq<u8>>>(
            DXBCError::Nom(Seq::empty(), ErrorKind::Eof),
        ),
{
    law_first_stop_decides(bytes, k);
}

/// Where the scan arrives at a bytecode chunk whose length runs past the end
/// of the container, the container is refused as malformed: the error holds
/// the bytes that are there in place of the payload.
pub proof fn law_length_overrun_is_refused(bytes: Seq<u8>, k: int)
    requires
        spec_header_error(bytes).is_none(),
        0 <= k < chunk_count(bytes),
        forall|j: int| 0 <= j < k ==> passes_over(bytes, j),
        chunk_offset(bytes, k) + 8 <= bytes.len(),
        spec_chunk_kind(bytes.subrange(chunk_offset(bytes, k), chunk_offset(bytes, k) + 4))
            == ChunkKind::Bytecode,
        chunk_offset(bytes, k) + 8 + le_u32_at(bytes, chunk_offset(bytes, k) + 4) > bytes.len(),
    ensures
        spec_get_shader_bytecode(bytes) == Err::<(Seq<u8>, Seq<u8>), DXBCError<Seq<u8>>>(
            DXBCError::Nom(rest_from(bytes, chunk_offset(bytes, k) + 8), ErrorKind::Eof),
        ),
{
    law_first_stop_decides(bytes, k);
}

/// `part` is the stretch of `bytes` that starts at `start`.
pub open spec fn lies_at(bytes: Seq<u8>, part: Seq<u8>, start: int) -> bool {
    &&& 0 <= start
    &&& start + part.len() <= bytes.len()
    &&& part == bytes.subrange(start, start + part.len())
}

/// A result that, where it holds bytecode, holds a stretch of `bytes`
/// together with `bytes` itself.
pub open spec fn stays_within(
    bytes: Seq<u8>,
    r: Result<(Seq<u8>, Seq<u8>), DXBCError<Seq<u8>>>,
) -> bool {
    match r {
        Ok((container, bytecode)) => {
            &&& container == bytes
            &&& exists|start: int| lies_at(bytes, bytecode, start)
        },
        Err(_) => true,
    }
}

/// The scan hands out only bytes of the container.
pub proof fn lemma_scan_within(bytes: Seq<u8>, k: int, dxil: bool)
    requires
        spec_header_error(bytes).is_none(),
        0 <= k,
    ensures
        stays_within(bytes, spec_scan_chunks(bytes, k, dxil)),
    decreases chunk_count(bytes) - k,
{
    if k < chunk_count(bytes) {
        let offset = chunk_offset(bytes, k);
        match spec_read_chunk(bytes, offset) {
            Ok(Chunk::Bytecode(data)) => {
                assert(lies_at(bytes, data, offset + 8));
                assert(spec_scan_chunks(bytes, k, dxil)->Ok_0.1 == data);
            },
            Ok(Chunk::IntermediateLanguage) => {
                lemma_scan_within(bytes, k + 1, true);
            },
            Ok(Chunk::Other) => {
                lemma_scan_within(bytes, k + 1, dxil);
            },
            Err(_) => {},
        }
    }
}

/// Whatever the container holds, bytecode that is returned lies within it,
/// and comes with the container unchanged.
pub proof fn law_bytecode_within_container(bytes: Seq<u8>)
    ensures
        stays_within(bytes, spec_get_shader_bytecode(bytes)),
{
    if spec_header_error(bytes).is_none() {
        lemma_scan_within(bytes, 0, false);
    }
}

} // verus!
