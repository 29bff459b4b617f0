use vstd::prelude::*;

use crate::BspError;
use crate::bytes::{le32_at, read_le32};
use crate::header::{BspHeader, HEADER_LUMPS, HEADER_SIZE, LumpInfo, header_matches, header_wf,
    parse_header};
use crate::lumps::{LumpType, lump_from_ordinal, lump_ordinal, lump_ordinal_spec};

verus! {

/// How a present lump is stored, decided by the directory's sentinel field:
/// a zero declared uncompressed size means the bytes lie raw in the source,
/// anything else means they are wrapped in the block-compression format.
#[derive(Clone, Copy, Debug, PartialEq, Eq, Structural)]
pub enum LumpStorage {
    Raw { length: u32 },
    Compressed { declared_size: u32 },
}

/// The storage form that a directory entry declares.
pub open spec fn storage_of_spec(e: LumpInfo) -> LumpStorage {
    if e.uncompressed_size == 0 {
        LumpStorage::Raw { length: e.filelen }
    } else {
        LumpStorage::Compressed { declared_size: e.uncompressed_size }
    }
}

/// The storage form that a directory entry declares.
pub fn storage_of(e: &LumpInfo) -> (r: LumpStorage)
    ensures
        r == storage_of_spec(*e),
{
    if e.uncompressed_size == 0 {
        LumpStorage::Raw { length: e.filelen }
    } else {
        LumpStorage::Compressed { declared_size: e.uncompressed_size }
    }
}

/// An entry with offset or length zero denotes a lump that is not present.
pub open spec fn absent_entry(e: LumpInfo) -> bool {
    e.fileofs == 0 || e.filelen == 0
}

/// The four-byte tag that opens every block-compressed lump.
pub open spec fn lzma_tag() -> Seq<u8> {
    seq![0x4cu8, 0x5au8, 0x4du8, 0x41u8]
}

/// What the block codec yields for a given compressed stream when told to
/// produce exactly `declared_size` bytes: the decoded bytes, or `None` when
/// the stream is corrupt or cannot yield that many bytes. The codec's output
/// is a function of these two arguments alone.
pub uninterp spec fn lzma_decoded(stream: Seq<u8>, declared_size: u32) -> Option<Seq<u8>>;

/// Relies on `lzma_rs::lzma_decompress_with_options` with
/// `UnpackedSize::UseProvided` and `allow_incomplete: false`: the result
/// depends only on the stream bytes and the requested size, and on success
/// the output holds exactly `declared_size` bytes (the decoder stops at the
/// target and rejects any other final length).
#[verifier::external_body]
fn lzma_decompress(stream: &Vec<u8>, declared_size: u32) -> (r: Option<Vec<u8>>)
    ensures
        match r {
            Some(v) => lzma_decoded(stream@, declared_size) == Some(v@) && v@.len()
                == declared_size,
            None => lzma_decoded(stream@, declared_size) is None,
        },
{
    let mut input: &[u8] = stream.as_slice();
    let mut out: Vec<u8> = Vec::new();
    let options = lzma_rs::decompress::Options {
        unpacked_size: lzma_rs::decompress::UnpackedSize::UseProvided(Some(declared_size as u64)),
        allow_incomplete: false,
        memlimit: None,
    };
    match lzma_rs::lzma_decompress_with_options(&mut input, &mut out, &options) {
        Ok(()) => Some(out),
        Err(_) => None,
    }
}

/// The outcome of resolving one directory entry against the source bytes.
#[verifier::ext_equal]
pub enum Resolution {
    /// The entry denotes no stored lump; not an error.
    Absent,
    /// The lump's final content.
    Bytes { content: Seq<u8> },
    /// Why this one resolution failed; other lumps are unaffected.
    Failed { error: BspError },
}

/// The one resolution a directory entry admits against source bytes `data`:
/// absent when the entry is zeroed; otherwise the raw bytes at the declared
/// range, or the decoded block for a compressed entry; or the first failure
/// the resolution runs into.
pub open spec fn spec_resolve(data: Seq<u8>, e: LumpInfo) -> Resolution {
    if absent_entry(e) {
        Resolution::Absent
    } else if data.len() < e.fileofs {
        Resolution::Failed { error: BspError::Seek }
    } else {
        match storage_of_spec(e) {
            LumpStorage::Raw { length } => {
                if data.len() < e.fileofs + length {
                    Resolution::Failed { error: BspError::ShortRead }
                } else {
                    Resolution::Bytes {
                        content: data.subrange(e.fileofs as int, e.fileofs + length),
                    }
                }
            },
            LumpStorage::Compressed { declared_size: _ } => {
                if data.len() < e.fileofs + 12 {
                    Resolution::Failed { error: BspError::ShortRead }
                } else if data.subrange(e.fileofs as int, e.fileofs + 4) != lzma_tag() {
                    Resolution::Failed { error: BspError::CompressionTagMismatch }
                } else {
                    match lzma_decoded(
                        data.subrange(e.fileofs + 12, data.len() as int),
                        le32_at(data, e.fileofs + 4),
                    ) {
                        Some(content) => Resolution::Bytes { content },
                        None => Resolution::Failed { error: BspError::Decompression },
                    }
                }
            },
        }
    }
}

/// `r` is exactly the exec-level outcome that `spec_resolve` assigns.
pub open spec fn resolution_obeys(
    data: Seq<u8>,
    e: LumpInfo,
    r: Result<Option<Vec<u8>>, BspError>,
) -> bool {
    match r {
        Ok(None) => spec_resolve(data, e) == Resolution::Absent,
        Ok(Some(b)) => spec_resolve(data, e) == (Resolution::Bytes { content: b@ }),
        Err(err) => spec_resolve(data, e) == (Resolution::Failed { error: err }),
    }
}

/// A zeroed entry always resolves to `Absent`, never to an error, whatever
/// its other fields hold.
pub proof fn lemma_absent_resolution(data: Seq<u8>, e: LumpInfo)
    requires
        absent_entry(e),
    ensures
        spec_resolve(data, e) == Resolution::Absent,
{
}

/// A raw lump resolves to exactly the `filelen` bytes at `fileofs`.
pub proof fn lemma_raw_identity(data: Seq<u8>, e: LumpInfo, content: Seq<u8>)
    requires
        e.uncompressed_size == 0,
        spec_resolve(data, e) == (Resolution::Bytes { content }),
    ensures
        content == data.subrange(e.fileofs as int, e.fileofs + e.filelen),
        content.len() == e.filelen,
{
}

/// A compressed lump whose block opens with anything but the expected tag
/// resolves to the tag-mismatch error, never to raw bytes.
pub proof fn lemma_tag_mismatch(data: Seq<u8>, e: LumpInfo)
    requires
        !absent_entry(e),
        e.uncompressed_size != 0,
        e.fileofs + 12 <= data.len(),
        data.subrange(e.fileofs as int, e.fileofs + 4) != lzma_tag(),
    ensures
        spec_resolve(data, e) == (Resolution::Failed { error: BspError::CompressionTagMismatch }),
{
}

/// Resolution is local to one entry: its outcome is a function of the source
/// bytes and that entry alone, never of the directory around it or of other
/// resolutions. Two directories that store the same entry — at any slots —
/// resolve it to the same outcome over the same source, so one lump's
/// failure cannot contaminate another lump's bytes, in either order.
pub proof fn lemma_resolution_local(data: Seq<u8>, h1: BspHeader, h2: BspHeader, i: int, j: int)
    requires
        0 <= i < h1.lumps@.len(),
        0 <= j < h2.lumps@.len(),
        h1.lumps@[i] == h2.lumps@[j],
    ensures
        spec_resolve(data, h1.lumps@[i]) == spec_resolve(data, h2.lumps@[j]),
{
}

/// A session over one opened source: the source's bytes, owned exclusively,
/// and the header decoded from them once at open time.
pub struct BspFile {
    header: BspHeader,
    data: Vec<u8>,
}

impl BspFile {
    /// The bytes of the source this session owns.
    pub closed spec fn src(self) -> Seq<u8> {
        self.data@
    }

    /// The header decoded when the session was opened.
    pub closed spec fn hdr(self) -> BspHeader {
        self.header
    }

    /// The session's header is exactly the one stored in its source bytes.
    pub open spec fn wf(self) -> bool {
        &&& header_matches(self.src(), self.hdr())
        &&& header_wf(self.hdr())
    }

    /// Open a session over an in-memory source, decoding the fixed header.
    /// Succeeds exactly when the source holds at least the full header.
    pub fn new(data: Vec<u8>) -> (r: Result<BspFile, BspError>)
        ensures
            r is Ok <==> data@.len() >= HEADER_SIZE,
            r matches Ok(f) ==> f.wf() && f.src() == data@,
            r matches Err(e) ==> e == BspError::StructuralDecode,
    {
        let header = match parse_header(&data) {
            Ok(h) => h,
            Err(e) => {
                return Err(e);
            },
        };
        Ok(BspFile { header, data })
    }

    /// The magic identifier, surfaced for caller policy; never validated here.
    pub fn ident(&self) -> (r: u32)
        ensures
            r == self.hdr().ident,
    {
        self.header.ident
    }

    /// The format version stored in the header.
    pub fn version(&self) -> (r: u32)
        ensures
            r == self.hdr().version,
    {
        self.header.version
    }

    /// The map revision counter stored in the header.
    pub fn map_revision(&self) -> (r: u32)
        ensures
            r == self.hdr().map_revision,
    {
        self.header.map_revision
    }

    /// The decoded header, for direct inspection of the directory.
    pub fn header(&self) -> (r: &BspHeader)
        ensures
            *r == self.hdr(),
    {
        &self.header
    }

    /// Resolve the lump at an unchecked directory ordinal to its final
    /// content. An ordinal outside the fixed range, like a zeroed entry,
    /// yields the absence signal; every failure is local to this call.
    pub fn resolve_ordinal(&self, ordinal: u32) -> (r: Result<Option<Vec<u8>>, BspError>)
        requires
            self.wf(),
        ensures
            ordinal < HEADER_LUMPS ==> resolution_obeys(
                self.src(),
                self.hdr().lumps@[ordinal as int],
                r,
            ),
            ordinal < HEADER_LUMPS ==> ((r matches Ok(None)) <==> absent_entry(
                self.hdr().lumps@[ordinal as int],
            )),
            ordinal >= HEADER_LUMPS ==> r matches Ok(None),
            ordinal < HEADER_LUMPS && self.hdr().lumps@[ordinal as int].uncompressed_size != 0 ==> (
            r matches Ok(Some(b)) ==> b@.len() == le32_at(
                self.src(),
                self.hdr().lumps@[ordinal as int].fileofs + 4,
            )),
    {
        let n = ordinal as usize;
        if n >= HEADER_LUMPS {
            return Ok(None);
        }
        let entry = self.header.lumps[n];
        if entry.fileofs == 0 || entry.filelen == 0 {
            return Ok(None);
        }
        let ofs = entry.fileofs as usize;
        let total = self.data.len();
        if total < ofs {
            return Err(BspError::Seek);
        }
        match storage_of(&entry) {
            LumpStorage::Raw { length } => {
                let len = length as usize;
                if total - ofs < len {
                    return Err(BspError::ShortRead);
                }
                let mut buf: Vec<u8> = Vec::new();
                let mut i: usize = 0;
                while i < len
                    invariant
                        i <= len,
                        total == self.data@.len(),
                        ofs + len <= total,
                        buf@ =~= self.data@.subrange(ofs as int, ofs + i),
                    decreases len - i,
                {
                    buf.push(self.data[ofs + i]);
                    i += 1;
                }
                proof {
                    assert(buf@ =~= self.src().subrange(
                        entry.fileofs as int,
                        entry.fileofs + entry.filelen,
                    ));
                }
                Ok(Some(buf))
            },
            LumpStorage::Compressed { declared_size: _ } => {
                if total - ofs < 12 {
                    return Err(BspError::ShortRead);
                }
                let tag_ok = self.data[ofs] == 0x4c && self.data[ofs + 1] == 0x5a && self.data[ofs
                    + 2] == 0x4d && self.data[ofs + 3] == 0x41;
                if !tag_ok {
                    proof {
                        let sub = self.src().subrange(entry.fileofs as int, entry.fileofs + 4);
                        if sub == lzma_tag() {
                            assert(self.src()[entry.fileofs as int] == sub[0]);
                            assert(self.src()[entry.fileofs + 1] == sub[1]);
                            assert(self.src()[entry.fileofs + 2] == sub[2]);
                            assert(self.src()[entry.fileofs + 3] == sub[3]);
                        }
                    }
                    return Err(BspError::CompressionTagMismatch);
                }
                proof {
                    assert(self.src().subrange(entry.fileofs as int, entry.fileofs + 4)
                        =~= lzma_tag());
                }
                let declared = read_le32(&self.data, ofs + 4);
                // The compressed-stream size is advisory only: the declared
                // decompressed size governs where decoding stops.
                let _advisory: u32 = read_le32(&self.data, ofs + 8);
                let mut stream: Vec<u8> = Vec::new();
                let mut i: usize = ofs + 12;
                while i < total
                    invariant
                        ofs + 12 <= i <= total,
                        total == self.data@.len(),
                        stream@ =~= self.data@.subrange(ofs + 12, i as int),
                    decreases total - i,
                {
                    stream.push(self.data[i]);
                    i += 1;
                }
                proof {
                    assert(stream@ =~= self.src().subrange(
                        entry.fileofs + 12,
                        self.src().len() as int,
                    ));
                }
                match lzma_decompress(&stream, declared) {
                    Some(buf) => Ok(Some(buf)),
                    None => Err(BspError::Decompression),
                }
            },
        }
    }

    /// Resolve a named lump slot to its final content: the raw stored bytes,
    /// or the decoded block when the directory declares it compressed.
    pub fn get_lump(&self, lump: LumpType) -> (r: Result<Option<Vec<u8>>, BspError>)
        requires
            self.wf(),
        ensures
            resolution_obeys(self.src(), self.hdr().lumps@[lump_ordinal_spec(lump) as int], r),
            (r matches Ok(None)) <==> absent_entry(
                self.hdr().lumps@[lump_ordinal_spec(lump) as int],
            ),
            self.hdr().lumps@[lump_ordinal_spec(lump) as int].uncompressed_size != 0 ==> (
            r matches Ok(Some(b)) ==> b@.len() == le32_at(
                self.src(),
                self.hdr().lumps@[lump_ordinal_spec(lump) as int].fileofs + 4,
            )),
    {
        self.resolve_ordinal(lump_ordinal(lump))
    }

    /// Walk the whole directory: one summary per slot, populated or not.
    pub fn list_lumps(&self) -> (r: Vec<LumpSummary>)
        requires
            self.wf(),
        ensures
            r@.len() == HEADER_LUMPS,
            forall|k: int| 0 <= k < HEADER_LUMPS ==> summary_obeys(
                r@[k],
                self.hdr().lumps@[k],
                k,
            ),
    {
        let mut out: Vec<LumpSummary> = Vec::new();
        let mut k: usize = 0;
        while k < HEADER_LUMPS
            invariant
                self.wf(),
                k <= HEADER_LUMPS,
                out@.len() == k,
                forall|j: int| 0 <= j < k ==> summary_obeys(out@[j], self.hdr().lumps@[j], j),
            decreases HEADER_LUMPS - k,
        {
            let e = self.header.lumps[k];
            let effective_size = if e.uncompressed_size != 0 {
                e.uncompressed_size
            } else {
                e.filelen
            };
            out.push(
                LumpSummary {
                    ordinal: k as u32,
                    kind: lump_from_ordinal(k as u32),
                    version: e.version,
                    effective_size,
                    present: !(e.fileofs == 0 || e.filelen == 0),
                },
            );
            k += 1;
        }
        out
    }
}

/// One row of a directory walk: the slot's ordinal, its catalog tag, the
/// per-lump sub-version, the size the lump will have once resolved, and
/// whether the slot is populated at all.
#[derive(Clone, Copy, Debug)]
pub struct LumpSummary {
    pub ordinal: u32,
    pub kind: Option<LumpType>,
    pub version: u32,
    pub effective_size: u32,
    pub present: bool,
}

/// The size a resolved lump will have: the declared uncompressed size for a
/// compressed lump, the on-disk length otherwise.
pub open spec fn effective_size_spec(e: LumpInfo) -> u32 {
    if e.uncompressed_size != 0 {
        e.uncompressed_size
    } else {
        e.filelen
    }
}

/// `s` is exactly the walk row for entry `e` at directory slot `k`.
pub open spec fn summary_obeys(s: LumpSummary, e: LumpInfo, k: int) -> bool {
    &&& s.ordinal == k
    &&& s.kind is Some
    &&& (s.kind matches Some(t) ==> lump_ordinal_spec(t) == k)
    &&& s.version == e.version
    &&& s.effective_size == effective_size_spec(e)
    &&& s.present == !absent_entry(e)
}

} // verus!
