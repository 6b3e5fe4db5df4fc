//! `.efkefc` container extraction.
//!
//! The `.efkefc` format is a chunk-based binary container wrapping the
//! raw SKFE effect binary (in a `BIN_` chunk) plus optional editor metadata
//! (in an `EDIT` chunk).

use vstd::prelude::*;

use crate::error::{ChunkProblem, Error, FourCC};
use crate::parser::effect::strings_view;
use crate::reader::{eof, le16, le32, sp_bytes, sp_u16, string_from_utf8, u32_le_bytes, BinaryReader, PR};

verus! {

/// The four bytes at `p`.
pub open spec fn fourcc_at(d: Seq<u8>, p: int) -> FourCC {
    FourCC(d[p], d[p + 1], d[p + 2], d[p + 3])
}

/// Magic of a raw effect binary, `"SKFE"`.
pub open spec fn spec_magic_skfe() -> FourCC {
    FourCC(0x53, 0x4B, 0x46, 0x45)
}

/// Magic of an `.efkefc` container, `"EFKE"`.
pub open spec fn spec_magic_efke() -> FourCC {
    FourCC(0x45, 0x46, 0x4B, 0x45)
}

/// Id of the chunk that holds the effect binary, `"BIN_"`.
pub open spec fn spec_chunk_bin() -> FourCC {
    FourCC(0x42, 0x49, 0x4E, 0x5F)
}

/// Id of the chunk that holds the editor data, `"EDIT"`.
pub open spec fn spec_chunk_edit() -> FourCC {
    FourCC(0x45, 0x44, 0x49, 0x54)
}

/// The four bytes at `p`.
pub fn fourcc(data: &[u8], p: usize) -> (f: FourCC)
    requires
        p + 4 <= data@.len(),
    ensures
        f == fourcc_at(data@, p as int),
{
    FourCC(data[p], data[p + 1], data[p + 2], data[p + 3])
}

/// `"SKFE"`.
pub fn magic_skfe() -> (f: FourCC)
    ensures
        f == spec_magic_skfe(),
{
    FourCC(0x53, 0x4B, 0x46, 0x45)
}

/// `"EFKE"`.
pub fn magic_efke() -> (f: FourCC)
    ensures
        f == spec_magic_efke(),
{
    FourCC(0x45, 0x46, 0x4B, 0x45)
}

/// `"BIN_"`.
pub fn chunk_bin() -> (f: FourCC)
    ensures
        f == spec_chunk_bin(),
{
    FourCC(0x42, 0x49, 0x4E, 0x5F)
}

/// `"EDIT"`.
pub fn chunk_edit() -> (f: FourCC)
    ensures
        f == spec_chunk_edit(),
{
    FourCC(0x45, 0x44, 0x49, 0x54)
}

/// Result of extracting chunks from an `.efkefc` container.
pub struct EfkefcChunks<'a> {
    /// The raw SKFE effect binary (from the `BIN_` chunk).
    pub bin: &'a [u8],
    /// The raw `EDIT` chunk data (compressed editor XML), if present.
    pub edit: Option<&'a [u8]>,
}

/// The bytes of an optional slice.
pub open spec fn opt_bytes(o: Option<&[u8]>) -> Option<Seq<u8>> {
    match o {
        Some(s) => Some(s@),
        None => None,
    }
}

/// The chunks a container yields, as byte sequences.
pub open spec fn chunks_view(c: EfkefcChunks) -> (Seq<u8>, Option<Seq<u8>>) {
    (c.bin@, opt_bytes(c.edit))
}

/// Walk the chunk list from `p`, keeping the first `BIN_` and the first `EDIT`
/// payload. The walk stops when fewer than 8 bytes (a chunk header) remain.
pub open spec fn spec_chunk_walk(
    d: Seq<u8>,
    p: int,
    bin: Option<Seq<u8>>,
    edit: Option<Seq<u8>>,
) -> Result<(Seq<u8>, Option<Seq<u8>>), Error>
    decreases d.len() - p,
{
    if p < 0 || d.len() - p < 8 {
        match bin {
            Some(b) => Ok((b, edit)),
            None => Err(Error::MissingChunk { chunk_id: spec_chunk_bin() }),
        }
    } else {
        let id = fourcc_at(d, p);
        let size = le32(d, p + 4) as i32;
        if size < 0 {
            Err(
                Error::InvalidChunk {
                    problem: ChunkProblem::NegativeSize { chunk_id: id, size, position: p as usize },
                },
            )
        } else if p + 8 + size > d.len() {
            Err(eof(p + 8, size as int))
        } else {
            let payload = d.subrange(p + 8, p + 8 + size);
            let bin2 = if id == spec_chunk_bin() && bin is None {
                Some(payload)
            } else {
                bin
            };
            let edit2 = if id == spec_chunk_edit() && edit is None {
                Some(payload)
            } else {
                edit
            };
            spec_chunk_walk(d, p + 8 + size, bin2, edit2)
        }
    }
}

/// What extracting the chunks of `d` gives: the whole input for a raw `SKFE`
/// binary; the `BIN_` and optional `EDIT` payloads for an `EFKE` container.
pub open spec fn spec_extract_chunks(d: Seq<u8>) -> Result<(Seq<u8>, Option<Seq<u8>>), Error> {
    if d.len() < 4 {
        Err(eof(0, 4))
    } else if fourcc_at(d, 0) == spec_magic_skfe() {
        Ok((d, None))
    } else if fourcc_at(d, 0) != spec_magic_efke() {
        Err(Error::InvalidMagic { expected: spec_magic_efke(), got: fourcc_at(d, 0) })
    } else if d.len() < 8 {
        Err(eof(4, 4))
    } else {
        spec_chunk_walk(d, 8, None, None)
    }
}

/// Whether `s` is a contiguous piece of `d`.
pub open spec fn is_slice_of(s: Seq<u8>, d: Seq<u8>) -> bool {
    exists|a: int| 0 <= a && a + s.len() <= d.len() && #[trigger] d.subrange(a, a + s.len()) == s
}

/// The payloads the chunk walk keeps are pieces of the input.
proof fn lemma_walk_slices(d: Seq<u8>, p: int, bin: Option<Seq<u8>>, edit: Option<Seq<u8>>)
    requires
        spec_chunk_walk(d, p, bin, edit) is Ok,
        bin matches Some(b) ==> is_slice_of(b, d),
        edit matches Some(e) ==> is_slice_of(e, d),
    ensures
        is_slice_of(spec_chunk_walk(d, p, bin, edit)->Ok_0.0, d),
        spec_chunk_walk(d, p, bin, edit)->Ok_0.1 matches Some(e) ==> is_slice_of(e, d),
    decreases d.len() - p,
{
    if !(p < 0 || d.len() - p < 8) {
        let size = le32(d, p + 4) as i32;
        if size >= 0 && p + 8 + size <= d.len() {
            let payload = d.subrange(p + 8, p + 8 + size);
            assert(d.subrange(p + 8, (p + 8) + payload.len()) == payload);
            let id = fourcc_at(d, p);
            let bin2 = if id == spec_chunk_bin() && bin is None { Some(payload) } else { bin };
            let edit2 = if id == spec_chunk_edit() && edit is None { Some(payload) } else { edit };
            lemma_walk_slices(d, p + 8 + size, bin2, edit2);
        }
    }
}

/// Law: extraction copies nothing: the effect binary it yields, and the editor
/// data when there is some, are contiguous pieces of the input.
pub proof fn lemma_chunks_are_slices(d: Seq<u8>)
    requires
        spec_extract_chunks(d) is Ok,
    ensures
        is_slice_of(spec_extract_chunks(d)->Ok_0.0, d),
        spec_extract_chunks(d)->Ok_0.1 matches Some(e) ==> is_slice_of(e, d),
{
    if fourcc_at(d, 0) == spec_magic_skfe() {
        assert(d.subrange(0, 0 + d.len() as int) == d);
    } else {
        lemma_walk_slices(d, 8, None, None);
    }
}

/// The bytes of a four-byte identifier.
pub open spec fn fourcc_bytes(f: FourCC) -> Seq<u8> {
    seq![f.0, f.1, f.2, f.3]
}

/// A chunk as it is stored: its identifier, its payload size (little-endian),
/// its payload.
pub open spec fn chunk_bytes(c: (FourCC, Seq<u8>)) -> Seq<u8> {
    fourcc_bytes(c.0) + u32_le_bytes(c.1.len() as u32) + c.1
}

/// Chunks stored one after another.
pub open spec fn chunks_bytes(cs: Seq<(FourCC, Seq<u8>)>) -> Seq<u8>
    decreases cs.len(),
{
    if cs.len() == 0 {
        Seq::empty()
    } else {
        chunk_bytes(cs[0]) + chunks_bytes(cs.drop_first())
    }
}

/// An `.efkefc` container: `"EFKE"`, a container version, then the chunks.
pub open spec fn efke_container(version: u32, cs: Seq<(FourCC, Seq<u8>)>) -> Seq<u8> {
    fourcc_bytes(spec_magic_efke()) + u32_le_bytes(version) + chunks_bytes(cs)
}

/// The payload of the first chunk with identifier `id`.
pub open spec fn first_payload(cs: Seq<(FourCC, Seq<u8>)>, id: FourCC) -> Option<Seq<u8>>
    decreases cs.len(),
{
    if cs.len() == 0 {
        None
    } else if cs[0].0 == id {
        Some(cs[0].1)
    } else {
        first_payload(cs.drop_first(), id)
    }
}

/// Every payload's size fits the non-negative range of an `i32` size field.
pub open spec fn payloads_fit(cs: Seq<(FourCC, Seq<u8>)>) -> bool {
    forall|i: int| 0 <= i < cs.len() ==> (#[trigger] cs[i]).1.len() <= 0x7fff_ffff
}

/// `a` when it is set, else `b`.
pub open spec fn or_else(a: Option<Seq<u8>>, b: Option<Seq<u8>>) -> Option<Seq<u8>> {
    if a is Some {
        a
    } else {
        b
    }
}

/// What the chunk walk over stored chunks gives: the first `BIN_` and `EDIT`
/// payloads, unless already found.
proof fn lemma_walk_stored_chunks(
    d: Seq<u8>,
    p: int,
    cs: Seq<(FourCC, Seq<u8>)>,
    bin: Option<Seq<u8>>,
    edit: Option<Seq<u8>>,
)
    requires
        0 <= p,
        p + chunks_bytes(cs).len() == d.len(),
        d.subrange(p, d.len() as int) == chunks_bytes(cs),
        payloads_fit(cs),
    ensures
        spec_chunk_walk(d, p, bin, edit) == match or_else(bin, first_payload(cs, spec_chunk_bin())) {
            Some(b) => Ok::<(Seq<u8>, Option<Seq<u8>>), Error>((b, or_else(edit, first_payload(cs, spec_chunk_edit())))),
            None => Err(Error::MissingChunk { chunk_id: spec_chunk_bin() }),
        },
    decreases cs.len(),
{
    if cs.len() > 0 {
        let c = cs[0];
        let n = c.1.len();
        let rest = cs.drop_first();
        let cb = chunks_bytes(cs);
        assert(cb == chunk_bytes(c) + chunks_bytes(rest));
        let lb = u32_le_bytes(n as u32);
        assert(payloads_fit(rest)) by {
            assert forall|i: int| 0 <= i < rest.len() implies (#[trigger] rest[i]).1.len() <= 0x7fff_ffff by {
                assert(rest[i] == cs[i + 1]);
            }
        }
        assert(cs[0].1.len() <= 0x7fff_ffff);
        assert forall|j: int| 0 <= j < cb.len() implies d[p + j] == #[trigger] cb[j] by {
            assert(d.subrange(p, d.len() as int)[j] == d[p + j]);
        }
        assert(d[p] == c.0.0 && d[p + 1] == c.0.1 && d[p + 2] == c.0.2 && d[p + 3] == c.0.3) by {
            assert(cb[0] == c.0.0 && cb[1] == c.0.1 && cb[2] == c.0.2 && cb[3] == c.0.3);
        }
        assert(fourcc_at(d, p) == c.0);
        assert(d[p + 4] == lb[0] && d[p + 5] == lb[1] && d[p + 6] == lb[2] && d[p + 7] == lb[3]) by {
            assert(cb[4] == lb[0] && cb[5] == lb[1] && cb[6] == lb[2] && cb[7] == lb[3]);
        }
        crate::reader::lemma_u32_i32_round_trip(n as u32, 0);
        assert(le32(d, p + 4) == le32(lb, 0));
        assert(le32(d, p + 4) == n as u32);
        assert((n as u32) as i32 == n);
        assert(d.subrange(p + 8, p + 8 + n) =~= c.1) by {
            assert forall|j: int| 0 <= j < n implies d.subrange(p + 8, p + 8 + n)[j] == c.1[j] by {
                assert(cb[8 + j] == c.1[j]);
            }
        }
        assert(d.subrange(p + 8 + n, d.len() as int) =~= chunks_bytes(rest)) by {
            assert forall|j: int| 0 <= j < chunks_bytes(rest).len() implies d.subrange(p + 8 + n, d.len() as int)[j]
                == chunks_bytes(rest)[j] by {
                assert(cb[8 + n + j] == chunks_bytes(rest)[j]);
            }
        }
        let bin2 = if c.0 == spec_chunk_bin() && bin is None { Some(c.1) } else { bin };
        let edit2 = if c.0 == spec_chunk_edit() && edit is None { Some(c.1) } else { edit };
        lemma_walk_stored_chunks(d, p + 8 + n, rest, bin2, edit2);
    }
}

/// Law: extracting the chunks of a container built from chunks whose sizes fit
/// gives the payload of the first `BIN_` chunk and of the first `EDIT` chunk,
/// and fails with `MissingChunk` when there is no `BIN_` chunk.
pub proof fn lemma_extract_stored_chunks(version: u32, cs: Seq<(FourCC, Seq<u8>)>)
    requires
        payloads_fit(cs),
    ensures
        spec_extract_chunks(efke_container(version, cs)) == match first_payload(cs, spec_chunk_bin()) {
            Some(b) => Ok::<(Seq<u8>, Option<Seq<u8>>), Error>((b, first_payload(cs, spec_chunk_edit()))),
            None => Err(Error::MissingChunk { chunk_id: spec_chunk_bin() }),
        },
{
    let d = efke_container(version, cs);
    let head = fourcc_bytes(spec_magic_efke()) + u32_le_bytes(version);
    assert(d == head + chunks_bytes(cs));
    assert(d[0] == 0x45 && d[1] == 0x46 && d[2] == 0x4B && d[3] == 0x45);
    assert(d.subrange(8, d.len() as int) =~= chunks_bytes(cs));
    lemma_walk_stored_chunks(d, 8, cs, None, None);
}

/// Extract chunks from an `.efkefc` container (zero-copy).
///
/// If the data starts with `"SKFE"` (raw `.efk` file), returns the entire
/// input slice as the BIN data with no EDIT chunk. If it starts with `"EFKE"`,
/// extracts the `BIN_` and optional `EDIT` chunk payloads.
pub fn extract_chunks(data: &[u8]) -> (res: Result<EfkefcChunks<'_>, Error>)
    ensures
        match res {
            Ok(c) => spec_extract_chunks(data@) == Ok::<_, Error>(chunks_view(c)),
            Err(e) => spec_extract_chunks(data@) == Err::<(Seq<u8>, Option<Seq<u8>>), Error>(e),
        },
{
    if data.len() < 4 {
        return Err(Error::UnexpectedEof { position: 0, expected_bytes: 4 });
    }
    let magic = fourcc(data, 0);
    if magic == magic_skfe() {
        return Ok(EfkefcChunks { bin: data, edit: None });
    }
    if magic != magic_efke() {
        return Err(Error::InvalidMagic { expected: magic_efke(), got: magic });
    }
    let ghost d = data@;
    let mut reader = BinaryReader::new(data);
    reader.skip(4)?;
    let _container_version = reader.read_i32()?;
    let mut bin: Option<&[u8]> = None;
    let mut edit: Option<&[u8]> = None;
    while reader.remaining() >= 8
        invariant
            reader.data() == d,
            d == data@,
            8 <= reader.pos() <= d.len(),
            spec_extract_chunks(d) == spec_chunk_walk(d, reader.pos(), opt_bytes(bin), opt_bytes(edit)),
        decreases d.len() - reader.pos(),
    {
        let ghost p0 = reader.pos();
        let header = reader.read_bytes(4)?;
        let id = fourcc(header, 0);
        assert(id == fourcc_at(d, p0));
        let size = reader.read_i32()?;
        assert(size == #[verifier::truncate] (le32(d, p0 + 4) as i32));
        if size < 0 {
            let position = reader.position() - 8;
            return Err(
                Error::InvalidChunk {
                    problem: ChunkProblem::NegativeSize { chunk_id: id, size, position },
                },
            );
        }
        let chunk_data = reader.read_bytes(size as usize)?;
        if id == chunk_bin() && bin.is_none() {
            bin = Some(chunk_data);
        } else if id == chunk_edit() && edit.is_none() {
            edit = Some(chunk_data);
        }
    }
    match bin {
        Some(b) => Ok(EfkefcChunks { bin: b, edit }),
        None => Err(Error::MissingChunk { chunk_id: chunk_bin() }),
    }
}

// ============================================================
// EDIT chunk: compressed editor tree with key/value dictionaries
// ============================================================

/// What inflating zlib-compressed bytes gives: the inflated bytes, or `None`
/// when the stream is not valid zlib data.
pub uninterp spec fn zlib_inflate(data: Seq<u8>) -> Option<Seq<u8>>;

/// Inflate zlib-compressed bytes with `flate2::read::ZlibDecoder`, read to the
/// end. The contract claims that the outcome depends on the input bytes alone
/// and names it [`zlib_inflate`]; which streams inflate, and to what, is
/// flate2's and is not stated here.
#[verifier::external_body]
fn inflate_zlib(data: &[u8]) -> (res: Option<Vec<u8>>)
    ensures
        match res {
            Some(v) => zlib_inflate(data@) == Some(v@),
            None => zlib_inflate(data@) is None,
        },
{
    let mut decoder = flate2::read::ZlibDecoder::new(data);
    let mut out: Vec<u8> = Vec::new();
    match std::io::Read::read_to_end(&mut decoder, &mut out) {
        Ok(_) => Some(out),
        Err(_) => None,
    }
}

/// An element of the editor tree that sits directly under a `TargetLocation`
/// element and carries a text value (in practice the `X`, `Y` and `Z`
/// components of the effect's target location).
pub struct TargetLocationEntry {
    /// The element's name (empty when its name key is outside the key table).
    pub name: String,
    /// The element's text value.
    pub value: String,
}

impl View for TargetLocationEntry {
    type V = (Seq<char>, Seq<char>);

    open spec fn view(&self) -> (Seq<char>, Seq<char>) {
        (self.name@, self.value@)
    }
}

/// The models of a list of entries.
pub open spec fn entries_view(v: Seq<TargetLocationEntry>) -> Seq<(Seq<char>, Seq<char>)> {
    v.map_values(|e: TargetLocationEntry| e@)
}

/// The name of the element whose children are collected.
pub open spec fn target_location_name() -> Seq<char> {
    "TargetLocation"@
}

/// `count` more entries of a string dictionary from `p`. Each entry is a `u16`
/// byte length, that many UTF-8 bytes and a `u16` slot index; an entry whose
/// index lies inside the table fills that slot (a later entry overwrites an
/// earlier one), others are dropped.
pub open spec fn sp_dict_entries(d: Seq<u8>, p: int, count: nat, table: Seq<Seq<char>>) -> PR<Seq<Seq<char>>>
    decreases count,
{
    if count == 0 {
        Ok((table, p))
    } else {
        match sp_u16(d, p) {
            Err(e) => Err(e),
            Ok((len, q)) => match sp_bytes(d, q, len as int) {
                Err(e) => Err(e),
                Ok((bytes, q2)) => if !vstd::utf8::valid_utf8(bytes) {
                    Err(Error::Utf8DecodeError { position: q as usize })
                } else {
                    match sp_u16(d, q2) {
                        Err(e) => Err(e),
                        Ok((index, q3)) => sp_dict_entries(
                            d,
                            q3,
                            (count - 1) as nat,
                            if (index as int) < table.len() {
                                table.update(index as int, vstd::utf8::decode_utf8(bytes))
                            } else {
                                table
                            },
                        ),
                    }
                },
            },
        }
    }
}

/// A string dictionary: a `u16` count, then that many entries filling a table
/// of `count` slots that start empty.
pub open spec fn sp_dict(d: Seq<u8>, p: int) -> PR<Seq<Seq<char>>> {
    match sp_u16(d, p) {
        Err(e) => Err(e),
        Ok((count, q)) => sp_dict_entries(
            d,
            q,
            count as nat,
            Seq::new(count as nat, |i: int| Seq::<char>::empty()),
        ),
    }
}

/// Slot `k` of a dictionary, or the empty string when `k` lies outside it.
pub open spec fn dict_name(keys: Seq<Seq<char>>, k: u16) -> Seq<char> {
    if (k as int) < keys.len() {
        keys[k as int]
    } else {
        Seq::empty()
    }
}

/// The walk over the editor tree from `p`, one element at a time.
///
/// An element is a `u16` name key, an `i32` has-value flag, a `u16` value key
/// when the flag is set, an `i32` has-children flag, and, when that flag is
/// set, a `u16` child count followed by the children. `stack` holds, for each
/// level still open (innermost last), how many elements remain to be read there
/// and whether the element that opened it is named `TargetLocation`; `acc`
/// holds the entries found so far, in document order. An element with a value
/// (a value key inside the value table) on a level opened by `TargetLocation`
/// adds its name and value.
pub open spec fn sp_walk(
    d: Seq<u8>,
    p: int,
    stack: Seq<(u16, bool)>,
    keys: Seq<Seq<char>>,
    values: Seq<Seq<char>>,
    acc: Seq<(Seq<char>, Seq<char>)>,
) -> PR<Seq<(Seq<char>, Seq<char>)>>
    decreases d.len() - p, stack.len(),
{
    if stack.len() == 0 {
        Ok((acc, p))
    } else if stack.last().0 == 0 {
        sp_walk(d, p, stack.drop_last(), keys, values, acc)
    } else {
        let in_target = stack.last().1;
        let rest = stack.drop_last().push(((stack.last().0 - 1) as u16, in_target));
        if p + 2 > d.len() {
            Err(eof(p, 2))
        } else if p + 6 > d.len() {
            Err(eof(p + 2, 4))
        } else {
            let name = dict_name(keys, le16(d, p));
            let has_value = (le32(d, p + 2) as i32) != 0;
            let flag_at = if has_value { p + 8 } else { p + 6 };
            if has_value && p + 8 > d.len() {
                Err(eof(p + 6, 2))
            } else if flag_at + 4 > d.len() {
                Err(eof(flag_at, 4))
            } else {
                let acc2 = if in_target && has_value && (le16(d, p + 6) as int) < values.len() {
                    acc.push((name, values[le16(d, p + 6) as int]))
                } else {
                    acc
                };
                let r = flag_at + 4;
                if (le32(d, flag_at) as i32) != 0 {
                    if r + 2 > d.len() {
                        Err(eof(r, 2))
                    } else {
                        sp_walk(
                            d,
                            r + 2,
                            rest.push((le16(d, r), name == target_location_name())),
                            keys,
                            values,
                            acc2,
                        )
                    }
                } else {
                    sp_walk(d, r, rest, keys, values, acc2)
                }
            }
        }
    }
}

/// The editor tree at `p`: a `u16` count of top-level elements, then the
/// elements (top-level elements have no parent, so none of them is collected).
pub open spec fn sp_edit_tree(d: Seq<u8>, p: int, keys: Seq<Seq<char>>, values: Seq<Seq<char>>) -> PR<Seq<(Seq<char>, Seq<char>)>> {
    if p + 2 > d.len() {
        Err(eof(p, 2))
    } else {
        sp_walk(d, p + 2, seq![(le16(d, p), false)], keys, values, seq![])
    }
}

/// What the inflated editor data `d` holds: the key dictionary, the value
/// dictionary, then the tree, of which the values under `TargetLocation`
/// elements are kept. Bytes after the tree are ignored.
pub open spec fn spec_parse_edit_data(d: Seq<u8>) -> Result<Seq<(Seq<char>, Seq<char>)>, Error> {
    match sp_dict(d, 0) {
        Err(e) => Err(e),
        Ok((keys, q)) => match sp_dict(d, q) {
            Err(e) => Err(e),
            Ok((values, q2)) => match sp_edit_tree(d, q2, keys, values) {
                Ok((es, _)) => Ok(es),
                Err(e) => Err(e),
            },
        },
    }
}

/// The model of a list of entries or an error.
pub open spec fn edit_result(res: Result<Vec<TargetLocationEntry>, Error>) -> Result<Seq<(Seq<char>, Seq<char>)>, Error> {
    match res {
        Ok(v) => Ok(entries_view(v@)),
        Err(e) => Err(e),
    }
}

/// Read a string dictionary.
#[verifier::loop_isolation(false)]
fn read_dictionary(reader: &mut BinaryReader) -> (res: Result<Vec<String>, Error>)
    ensures
        final(reader).data() == old(reader).data(),
        final(reader).pos() >= old(reader).pos(),
        match (res, sp_dict(old(reader).data(), old(reader).pos())) {
            (Ok(v), Ok((t, q))) => strings_view(v@) == t && q == final(reader).pos(),
            (Err(e), Err(f)) => e == f,
            _ => false,
        },
{
    let ghost d = reader.data();
    let ghost p0 = reader.pos();
    let count = reader.read_u16()?;
    let n = count as usize;
    let mut table: Vec<String> = Vec::new();
    let mut i: usize = 0;
    while i < n
        invariant
            i <= n,
            table@.len() == i,
            forall|j: int| 0 <= j < i ==> (#[trigger] table@[j])@ == Seq::<char>::empty(),
        decreases n - i,
    {
        table.push(String::new());
        i = i + 1;
    }
    proof {
        assert(strings_view(table@) =~= Seq::new(count as nat, |i: int| Seq::<char>::empty()));
    }
    let mut k: usize = 0;
    while k < n
        invariant
            reader.data() == d,
            reader.pos() >= p0,
            k <= n,
            table@.len() == n,
            sp_dict(d, p0) == sp_dict_entries(d, reader.pos(), (n - k) as nat, strings_view(table@)),
        decreases n - k,
    {
        let len = reader.read_u16()?;
        let start = reader.position();
        let bytes = reader.read_bytes(len as usize)?;
        let s = match string_from_utf8(bytes) {
            Some(s) => s,
            None => return Err(Error::Utf8DecodeError { position: start }),
        };
        let index = reader.read_u16()?;
        if (index as usize) < table.len() {
            let ghost before = table@;
            table.set(index as usize, s);
            proof {
                assert(strings_view(table@) =~= strings_view(before).update(index as int, s@));
            }
        }
        k = k + 1;
    }
    Ok(table)
}

/// Read the editor tree, collecting the values under `TargetLocation` elements.
#[verifier::loop_isolation(false)]
fn walk_editor_tree(reader: &mut BinaryReader, keys: &Vec<String>, values: &Vec<String>) -> (res: Result<Vec<TargetLocationEntry>, Error>)
    ensures
        final(reader).data() == old(reader).data(),
        final(reader).pos() >= old(reader).pos(),
        match (res, sp_edit_tree(old(reader).data(), old(reader).pos(), strings_view(keys@), strings_view(values@))) {
            (Ok(v), Ok((es, q))) => entries_view(v@) == es && q == final(reader).pos(),
            (Err(e), Err(f)) => e == f,
            _ => false,
        },
{
    let ghost d = reader.data();
    let ghost p0 = reader.pos();
    let ghost ks = strings_view(keys@);
    let ghost vs = strings_view(values@);
    let top = reader.read_u16()?;
    let target = "TargetLocation".to_owned();
    let mut stack: Vec<(u16, bool)> = Vec::new();
    stack.push((top, false));
    let mut out: Vec<TargetLocationEntry> = Vec::new();
    proof {
        assert(stack@ =~= seq![(top, false)]);
        assert(entries_view(out@) =~= seq![]);
    }
    while stack.len() > 0
        invariant
            reader.data() == d,
            reader.pos() >= p0,
            target@ == target_location_name(),
            sp_edit_tree(d, p0, ks, vs) == sp_walk(d, reader.pos(), stack@, ks, vs, entries_view(out@)),
        decreases d.len() - reader.pos(), stack.len(),
    {
        let last = stack.len() - 1;
        let (left, in_target) = stack[last];
        let ghost before = stack@;
        if left == 0 {
            stack.pop();
            proof {
                assert(stack@ =~= before.drop_last());
            }
            continue;
        }
        stack.set(last, (left - 1, in_target));
        proof {
            assert(stack@ =~= before.drop_last().push(((left - 1) as u16, in_target)));
        }
        let name_key = reader.read_u16()?;
        let has_value = reader.read_i32()? != 0;
        let mut value: Option<&String> = None;
        if has_value {
            let value_key = reader.read_u16()?;
            if (value_key as usize) < values.len() {
                value = Some(&values[value_key as usize]);
            }
        }
        let name = if (name_key as usize) < keys.len() {
            keys[name_key as usize].clone()
        } else {
            String::new()
        };
        if in_target {
            if let Some(v) = value {
                let ghost prev = out@;
                out.push(TargetLocationEntry { name: name.clone(), value: v.clone() });
                proof {
                    assert(entries_view(out@) =~= entries_view(prev).push((name@, v@)));
                }
            }
        }
        let has_children = reader.read_i32()? != 0;
        if has_children {
            let count = reader.read_u16()?;
            let opens_target = name == target;
            stack.push((count, opens_target));
        }
    }
    Ok(out)
}

/// Parse inflated EDIT chunk data: the key and value dictionaries, then the
/// editor tree, of which the elements under `TargetLocation` elements that
/// carry a value are returned, in document order.
pub fn parse_edit_data(data: &[u8]) -> (res: Result<Vec<TargetLocationEntry>, Error>)
    ensures
        edit_result(res) == spec_parse_edit_data(data@),
{
    let mut reader = BinaryReader::new(data);
    let keys = read_dictionary(&mut reader)?;
    let values = read_dictionary(&mut reader)?;
    walk_editor_tree(&mut reader, &keys, &values)
}

/// Parse the compressed EDIT chunk of an `.efkefc` container.
///
/// The chunk is zlib-compressed; inflated, it holds a key dictionary, a value
/// dictionary and an editor tree (see [`parse_edit_data`]). The values under
/// `TargetLocation` elements (the effect's target location, as text) are
/// returned. Data that does not inflate is reported as
/// [`ChunkProblem::DecompressionFailed`].
pub fn parse_edit_chunk(data: &[u8]) -> (res: Result<Vec<TargetLocationEntry>, Error>)
    ensures
        match zlib_inflate(data@) {
            None => res == Err::<Vec<TargetLocationEntry>, Error>(
                Error::InvalidChunk { problem: ChunkProblem::DecompressionFailed },
            ),
            Some(raw) => edit_result(res) == spec_parse_edit_data(raw),
        },
{
    match inflate_zlib(data) {
        None => Err(Error::InvalidChunk { problem: ChunkProblem::DecompressionFailed }),
        Some(raw) => parse_edit_data(raw.as_slice()),
    }
}

} // verus!
