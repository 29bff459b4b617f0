use vstd::prelude::*;

pub mod bytes;
pub mod header;
pub mod lumps;
pub mod pak;
pub mod resolve;

verus! {

/// Why a header decode, a lump resolution, or a payload interpretation failed.
///
/// Every failure is local to the one call that produced it: a bad lump does
/// not poison the directory, and a bad archive does not poison other lumps.
#[derive(Clone, Copy, Debug, PartialEq, Eq, Structural)]
pub enum BspError {
    /// The source holds fewer bytes than the fixed directory header needs.
    StructuralDecode,
    /// A lump's declared offset lies beyond the end of the source.
    Seek,
    /// Fewer bytes are available than a declared length demands.
    ShortRead,
    /// A compressed lump's embedded block does not start with the expected tag.
    CompressionTagMismatch,
    /// The compressed stream is corrupt or cannot yield the declared size.
    Decompression,
    /// The embedded-files lump does not hold a valid archive directory.
    ArchiveFormat,
}

} // verus!
