use vstd::prelude::*;

use crate::BspError;
use crate::bytes::{le32_at, le32_bytes, lemma_le32_at_prefix, lemma_le32_bytes_at, push_le32,
    read_le32};

verus! {

/// Number of fixed lump slots in every directory, regardless of version.
pub const HEADER_LUMPS: usize = 64;

/// Bytes of the fixed header: magic, version, 64 entries of 16 bytes, revision.
pub const HEADER_SIZE: usize = 1036;

/// One of the 64 fixed directory records.
///
/// `fileofs` and `filelen` locate the lump's bytes in the source; an entry
/// with either field zero denotes an absent lump that must never be read.
/// `uncompressed_size` zero means the lump is stored raw; non-zero means the
/// lump is wrapped in the block-compression format.
#[derive(Clone, Copy, Debug, PartialEq, Eq, Structural)]
pub struct LumpInfo {
    pub fileofs: u32,
    pub filelen: u32,
    pub version: u32,
    pub uncompressed_size: u32,
}

/// The decoded fixed header: magic, format version, the 64-entry lump
/// directory in ordinal order, and the map revision counter.
#[derive(Clone, Debug)]
pub struct BspHeader {
    pub ident: u32,
    pub version: u32,
    pub lumps: Vec<LumpInfo>,
    pub map_revision: u32,
}

/// The directory record stored little-endian at byte offset `i` of `s`.
pub open spec fn entry_at(s: Seq<u8>, i: int) -> LumpInfo {
    LumpInfo {
        fileofs: le32_at(s, i),
        filelen: le32_at(s, i + 4),
        version: le32_at(s, i + 8),
        uncompressed_size: le32_at(s, i + 12),
    }
}

/// `h` is exactly the header stored in the first `HEADER_SIZE` bytes of `s`:
/// magic at 0, version at 4, the 64 entries at 8, revision at 1032, all
/// little-endian.
pub open spec fn header_matches(s: Seq<u8>, h: BspHeader) -> bool {
    &&& s.len() >= HEADER_SIZE
    &&& h.ident == le32_at(s, 0)
    &&& h.version == le32_at(s, 4)
    &&& h.lumps@.len() == HEADER_LUMPS
    &&& (forall|k: int| 0 <= k < HEADER_LUMPS ==> h.lumps@[k] == entry_at(s, 8 + 16 * k))
    &&& h.map_revision == le32_at(s, 1032)
}

/// A well-formed header carries exactly the fixed number of entries.
pub open spec fn header_wf(h: BspHeader) -> bool {
    h.lumps@.len() == HEADER_LUMPS
}

/// Decode the fixed header from the start of `data`.
///
/// Succeeds exactly when the source holds at least the fixed header size;
/// no semantic validation of the magic or version is performed here.
pub fn parse_header(data: &Vec<u8>) -> (r: Result<BspHeader, BspError>)
    ensures
        r is Ok <==> data@.len() >= HEADER_SIZE,
        r matches Ok(h) ==> header_matches(data@, h) && header_wf(h),
        r matches Err(e) ==> e == BspError::StructuralDecode,
{
    if data.len() < HEADER_SIZE {
        return Err(BspError::StructuralDecode);
    }
    let ident = read_le32(data, 0);
    let version = read_le32(data, 4);
    let mut lumps: Vec<LumpInfo> = Vec::new();
    let mut k: usize = 0;
    while k < HEADER_LUMPS
        invariant
            k <= HEADER_LUMPS,
            data@.len() >= HEADER_SIZE,
            lumps@.len() == k,
            forall|j: int| 0 <= j < k ==> lumps@[j] == entry_at(data@, 8 + 16 * j),
        decreases HEADER_LUMPS - k,
    {
        let base = 8 + 16 * k;
        let entry = LumpInfo {
            fileofs: read_le32(data, base),
            filelen: read_le32(data, base + 4),
            version: read_le32(data, base + 8),
            uncompressed_size: read_le32(data, base + 12),
        };
        lumps.push(entry);
        k += 1;
    }
    let map_revision = read_le32(data, 1032);
    Ok(BspHeader { ident, version, lumps, map_revision })
}

/// Encode `h` into the fixed binary header layout that `parse_header` reads.
pub fn encode_header(h: &BspHeader) -> (r: Vec<u8>)
    requires
        header_wf(*h),
    ensures
        r@.len() == HEADER_SIZE,
        header_matches(r@, *h),
{
    let mut out: Vec<u8> = Vec::new();
    push_le32(&mut out, h.ident);
    push_le32(&mut out, h.version);
    proof {
        lemma_le32_at_of_suffix(out@, 0, h.ident);
        lemma_le32_at_of_suffix(out@, 4, h.version);
    }
    let mut k: usize = 0;
    while k < HEADER_LUMPS
        invariant
            k <= HEADER_LUMPS,
            header_wf(*h),
            out@.len() == 8 + 16 * k,
            le32_at(out@, 0) == h.ident,
            le32_at(out@, 4) == h.version,
            forall|j: int| 0 <= j < k ==> entry_at(out@, 8 + 16 * j) == h.lumps@[j],
        decreases HEADER_LUMPS - k,
    {
        let entry = h.lumps[k];
        let ghost before = out@;
        push_le32(&mut out, entry.fileofs);
        push_le32(&mut out, entry.filelen);
        push_le32(&mut out, entry.version);
        push_le32(&mut out, entry.uncompressed_size);
        proof {
            assert(out@.subrange(0, before.len() as int) =~= before);
            lemma_prefix_read(before, out@, 0);
            lemma_prefix_read(before, out@, 4);
            assert forall|j: int| 0 <= j < k + 1 implies entry_at(out@, 8 + 16 * j)
                == h.lumps@[j] by {
                if j < k {
                    lemma_prefix_entry(before, out@, 8 + 16 * j);
                } else {
                    lemma_le32_at_of_suffix(out@, 8 + 16 * j, entry.fileofs);
                    lemma_le32_at_of_suffix(out@, 12 + 16 * j, entry.filelen);
                    lemma_le32_at_of_suffix(out@, 16 + 16 * j, entry.version);
                    lemma_le32_at_of_suffix(out@, 20 + 16 * j, entry.uncompressed_size);
                }
            }
        }
        k += 1;
    }
    let ghost before = out@;
    push_le32(&mut out, h.map_revision);
    proof {
        assert(out@.subrange(0, before.len() as int) =~= before);
        lemma_prefix_read(before, out@, 0);
        lemma_prefix_read(before, out@, 4);
        assert forall|j: int| 0 <= j < HEADER_LUMPS implies entry_at(out@, 8 + 16 * j)
            == h.lumps@[j] by {
            lemma_prefix_entry(before, out@, 8 + 16 * j);
        }
        lemma_le32_at_of_suffix(out@, 1032, h.map_revision);
    }
    out
}

/// Bytes appended after `s1` leave a 32-bit read inside `s1` unchanged.
proof fn lemma_prefix_read(s1: Seq<u8>, s2: Seq<u8>, i: int)
    requires
        0 <= i,
        i + 4 <= s1.len(),
        s2.len() >= s1.len(),
        s2.subrange(0, s1.len() as int) == s1,
    ensures
        le32_at(s2, i) == le32_at(s1, i),
{
    let t = s2.subrange(s1.len() as int, s2.len() as int);
    assert(s2 =~= s1 + t);
    lemma_le32_at_prefix(s1, t, i);
}

/// Bytes appended after `s1` leave a directory record inside `s1` unchanged.
proof fn lemma_prefix_entry(s1: Seq<u8>, s2: Seq<u8>, i: int)
    requires
        0 <= i,
        i + 16 <= s1.len(),
        s2.len() >= s1.len(),
        s2.subrange(0, s1.len() as int) == s1,
    ensures
        entry_at(s2, i) == entry_at(s1, i),
{
    lemma_prefix_read(s1, s2, i);
    lemma_prefix_read(s1, s2, i + 4);
    lemma_prefix_read(s1, s2, i + 8);
    lemma_prefix_read(s1, s2, i + 12);
}

/// A 32-bit value just appended at offset `i` reads back as itself.
proof fn lemma_le32_at_of_suffix(s: Seq<u8>, i: int, v: u32)
    requires
        0 <= i,
        i + 4 <= s.len(),
        s.subrange(i, i + 4) =~= le32_bytes(v),
    ensures
        le32_at(s, i) == v,
{
    assert(s[i] == le32_bytes(v)[0]);
    assert(s[i + 1] == le32_bytes(v)[1]);
    assert(s[i + 2] == le32_bytes(v)[2]);
    assert(s[i + 3] == le32_bytes(v)[3]);
    lemma_le32_bytes_at(s, i, v);
}

/// A byte image determines the header: any two headers stored in the same
/// bytes agree on every field, so encoding and then decoding a header
/// reproduces it exactly.
pub proof fn lemma_header_round_trip(s: Seq<u8>, h1: BspHeader, h2: BspHeader)
    requires
        header_matches(s, h1),
        header_matches(s, h2),
    ensures
        h1.ident == h2.ident,
        h1.version == h2.version,
        h1.map_revision == h2.map_revision,
        h1.lumps@ == h2.lumps@,
{
    assert(h1.lumps@ =~= h2.lumps@);
}

} // verus!
