use vstd::prelude::*;

use crate::BspError;
use crate::lumps::{LumpType, lump_ordinal_spec};
use crate::resolve::{BspFile, Resolution, spec_resolve};

verus! {

/// The read-only directory of the archive stored in `data`: for each
/// contained entry, its name and its stored checksum, in archive order; or
/// `None` when the bytes are not a valid archive directory. The listing is a
/// function of the bytes alone.
pub uninterp spec fn zip_entry_list(data: Seq<u8>) -> Option<Seq<(Seq<char>, u32)>>;

/// The entry names and checksums that an exec-level listing reports.
pub open spec fn entry_views(v: Seq<(String, u32)>) -> Seq<(Seq<char>, u32)> {
    v.map_values(|p: (String, u32)| (p.0@, p.1))
}

/// Relies on `zip::ZipArchive`: `new` reads the archive's central directory
/// from the buffer, `len` counts its entries, and `by_index_raw` hands out
/// each entry's stored metadata — `name` and `crc32` — without touching the
/// entry's contents. All of it is read-only and determined by the bytes.
#[verifier::external_body]
fn zip_list_entries(data: &Vec<u8>) -> (r: Option<Vec<(String, u32)>>)
    ensures
        match r {
            Some(v) => zip_entry_list(data@) == Some(entry_views(v@)),
            None => zip_entry_list(data@) is None,
        },
{
    let cursor = std::io::Cursor::new(data.as_slice());
    let mut archive = zip::ZipArchive::new(cursor).ok()?;
    let mut out: Vec<(String, u32)> = Vec::new();
    for i in 0..archive.len() {
        let entry = archive.by_index_raw(i).ok()?;
        out.push((entry.name().to_string(), entry.crc32()));
    }
    Some(out)
}

/// Interpret resolved lump bytes as an embedded archive directory and list
/// each contained entry's name and checksum, without extracting contents.
pub fn pak_entry_list(data: &Vec<u8>) -> (r: Result<Vec<(String, u32)>, BspError>)
    ensures
        match r {
            Ok(v) => zip_entry_list(data@) == Some(entry_views(v@)),
            Err(e) => e == BspError::ArchiveFormat && zip_entry_list(data@) is None,
        },
{
    match zip_list_entries(data) {
        Some(v) => Ok(v),
        None => Err(BspError::ArchiveFormat),
    }
}

impl BspFile {
    /// Resolve the embedded-files lump and list its archive directory:
    /// absence when the lump is not populated, the lump's own resolution
    /// failure if it has one, and the archive-format error when the resolved
    /// bytes are no archive (some sources repurpose the slot).
    pub fn pak_entries(&self) -> (r: Result<Option<Vec<(String, u32)>>, BspError>)
        requires
            self.wf(),
        ensures
            match spec_resolve(
                self.src(),
                self.hdr().lumps@[lump_ordinal_spec(LumpType::PAKFILE) as int],
            ) {
                Resolution::Absent => r matches Ok(None),
                Resolution::Bytes { content } => match zip_entry_list(content) {
                    Some(entries) => r matches Ok(Some(v)) && entry_views(v@) == entries,
                    None => r matches Err(e) && e == BspError::ArchiveFormat,
                },
                Resolution::Failed { error } => r matches Err(e) && e == error,
            },
    {
        let lump = match self.get_lump(LumpType::PAKFILE) {
            Ok(Some(bytes)) => bytes,
            Ok(None) => {
                return Ok(None);
            },
            Err(e) => {
                return Err(e);
            },
        };
        match pak_entry_list(&lump) {
            Ok(v) => Ok(Some(v)),
            Err(e) => Err(e),
        }
    }
}

} // verus!
