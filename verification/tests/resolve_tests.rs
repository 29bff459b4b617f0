use std::io::Write;

use bspinfo::header::{encode_header, BspHeader, LumpInfo};
use bspinfo::lumps::LumpType;
use bspinfo::pak::pak_entry_list;
use bspinfo::resolve::{storage_of, BspFile, LumpStorage};
use bspinfo::BspError;

fn zero_entry() -> LumpInfo {
    LumpInfo { fileofs: 0, filelen: 0, version: 0, uncompressed_size: 0 }
}

fn build_file(lumps: Vec<LumpInfo>, version: u32, revision: u32, total_len: usize) -> Vec<u8> {
    let header = BspHeader {
        ident: u32::from_le_bytes(*b"VBSP"),
        version,
        lumps,
        map_revision: revision,
    };
    let mut bytes = encode_header(&header);
    if bytes.len() < total_len {
        bytes.resize(total_len, 0);
    }
    bytes
}

/// A block-compressed lump image: tag, declared decompressed size, advisory
/// stream size, then the codec stream (properties followed by data, without
/// the size field that the standalone container format carries).
fn lzma_block(plain: &[u8], declared: u32) -> Vec<u8> {
    let mut compressed: Vec<u8> = Vec::new();
    lzma_rs::lzma_compress(&mut &plain[..], &mut compressed).unwrap();
    let mut block = Vec::new();
    block.extend_from_slice(b"LZMA");
    block.extend_from_slice(&declared.to_le_bytes());
    block.extend_from_slice(&((compressed.len() - 8) as u32).to_le_bytes());
    block.extend_from_slice(&compressed[..5]);
    block.extend_from_slice(&compressed[13..]);
    block
}

#[test]
fn absent_entries_resolve_to_none() {
    let mut lumps = vec![zero_entry(); 64];
    lumps[1] = LumpInfo { fileofs: 0, filelen: 5000, version: 9, uncompressed_size: 777 };
    lumps[2] = LumpInfo { fileofs: 4096, filelen: 0, version: 3, uncompressed_size: 123 };
    let bsp = BspFile::new(build_file(lumps, 20, 1, 1036)).unwrap();
    for ordinal in [0u32, 1, 2] {
        assert_eq!(bsp.resolve_ordinal(ordinal), Ok(None));
    }
    // out-of-range ordinals are absence, not an error
    assert_eq!(bsp.resolve_ordinal(64), Ok(None));
    assert_eq!(bsp.resolve_ordinal(u32::MAX), Ok(None));
}

#[test]
fn raw_lump_identity() {
    let payload: Vec<u8> = (0..10u8).map(|b| 0xa0 | b).collect();
    let mut lumps = vec![zero_entry(); 64];
    lumps[3] = LumpInfo { fileofs: 2000, filelen: 10, version: 0, uncompressed_size: 0 };
    let mut data = build_file(lumps, 19, 1, 2200);
    data[2000..2010].copy_from_slice(&payload);
    let bsp = BspFile::new(data).unwrap();
    assert_eq!(bsp.get_lump(LumpType::VERTICES), Ok(Some(payload)));
}

#[test]
fn compressed_round_trip() {
    let plain: Vec<u8> = b"entity text entity text entity text entity text!".repeat(4);
    let block = lzma_block(&plain, plain.len() as u32);
    let mut lumps = vec![zero_entry(); 64];
    lumps[0] = LumpInfo {
        fileofs: 1100,
        filelen: block.len() as u32,
        version: 0,
        uncompressed_size: plain.len() as u32,
    };
    let mut data = build_file(lumps, 20, 2, 1100 + block.len());
    data[1100..1100 + block.len()].copy_from_slice(&block);
    let bsp = BspFile::new(data).unwrap();
    let resolved = bsp.get_lump(LumpType::ENTITIES).unwrap().unwrap();
    assert_eq!(resolved.len(), plain.len());
    assert_eq!(resolved, plain);
}

#[test]
fn compressed_length_follows_declared_size() {
    // all-literal input, so the codec can stop cleanly at any point
    let plain = b"abcdefghij";
    let block = lzma_block(plain, 5);
    let mut lumps = vec![zero_entry(); 64];
    // the directory's non-zero size only selects the compressed path; the
    // block's own declared size governs the output length
    lumps[0] = LumpInfo {
        fileofs: 1100,
        filelen: block.len() as u32,
        version: 0,
        uncompressed_size: 999,
    };
    let mut data = build_file(lumps, 20, 2, 1100 + block.len());
    data[1100..1100 + block.len()].copy_from_slice(&block);
    let bsp = BspFile::new(data).unwrap();
    let resolved = bsp.get_lump(LumpType::ENTITIES).unwrap().unwrap();
    assert_eq!(resolved.len(), 5);
    assert_eq!(&resolved, b"abcde");
}

#[test]
fn tag_mismatch_is_rejected_not_raw() {
    let plain = b"some lump content";
    let mut block = lzma_block(plain, plain.len() as u32);
    block[0..4].copy_from_slice(b"XZMA");
    let mut lumps = vec![zero_entry(); 64];
    lumps[0] = LumpInfo {
        fileofs: 1100,
        filelen: block.len() as u32,
        version: 0,
        uncompressed_size: plain.len() as u32,
    };
    let mut data = build_file(lumps, 20, 2, 1100 + block.len());
    data[1100..1100 + block.len()].copy_from_slice(&block);
    let bsp = BspFile::new(data).unwrap();
    assert_eq!(bsp.get_lump(LumpType::ENTITIES), Err(BspError::CompressionTagMismatch));
}

#[test]
fn lump_failures_are_independent() {
    let payload = b"well formed raw lump".to_vec();
    let plain = b"lighting data";
    let mut corrupt = lzma_block(plain, plain.len() as u32);
    corrupt[0..4].copy_from_slice(b"NOPE");
    let mut lumps = vec![zero_entry(); 64];
    lumps[0] = LumpInfo {
        fileofs: 1100,
        filelen: payload.len() as u32,
        version: 0,
        uncompressed_size: 0,
    };
    lumps[8] = LumpInfo {
        fileofs: 1200,
        filelen: corrupt.len() as u32,
        version: 0,
        uncompressed_size: plain.len() as u32,
    };
    let mut data = build_file(lumps, 20, 2, 1200 + corrupt.len());
    data[1100..1100 + payload.len()].copy_from_slice(&payload);
    data[1200..1200 + corrupt.len()].copy_from_slice(&corrupt);
    let bsp = BspFile::new(data).unwrap();

    // A then B
    assert_eq!(bsp.get_lump(LumpType::ENTITIES), Ok(Some(payload.clone())));
    assert_eq!(bsp.get_lump(LumpType::LIGHTING), Err(BspError::CompressionTagMismatch));
    // B then A
    assert_eq!(bsp.get_lump(LumpType::LIGHTING), Err(BspError::CompressionTagMismatch));
    assert_eq!(bsp.get_lump(LumpType::ENTITIES), Ok(Some(payload)));
}

#[test]
fn end_to_end_scenario() {
    let blob: &[u8] = b"{\n\"classname\" \"worldspawn\"\n}\n\0padding!";
    let blob = &blob[..37];
    assert_eq!(blob.len(), 37);

    let mut zip_writer = zip::ZipWriter::new(std::io::Cursor::new(Vec::new()));
    let options = zip::write::SimpleFileOptions::default()
        .compression_method(zip::CompressionMethod::Stored);
    zip_writer.start_file("test.txt", options).unwrap();
    zip_writer.write_all(b"hello world").unwrap();
    let archive = zip_writer.finish().unwrap().into_inner();

    let mut lumps = vec![zero_entry(); 64];
    lumps[0] = LumpInfo { fileofs: 1100, filelen: 37, version: 0, uncompressed_size: 0 };
    lumps[40] = LumpInfo {
        fileofs: 1200,
        filelen: archive.len() as u32,
        version: 0,
        uncompressed_size: 0,
    };
    let mut data = build_file(lumps, 20, 4, 1200 + archive.len());
    data[1100..1137].copy_from_slice(blob);
    data[1200..1200 + archive.len()].copy_from_slice(&archive);

    let bsp = BspFile::new(data).unwrap();
    assert_eq!(bsp.version(), 20);
    assert_eq!(bsp.map_revision(), 4);
    assert_eq!(bsp.get_lump(LumpType::ENTITIES), Ok(Some(blob.to_vec())));
    let entries = bsp.pak_entries().unwrap().unwrap();
    assert_eq!(entries, vec![("test.txt".to_string(), 0x0d4a1185u32)]);
}

#[test]
fn directory_walk_is_complete() {
    let mut lumps = vec![zero_entry(); 64];
    lumps[0] = LumpInfo { fileofs: 1100, filelen: 9, version: 7, uncompressed_size: 0 };
    lumps[40] = LumpInfo { fileofs: 1200, filelen: 50, version: 1, uncompressed_size: 400 };
    let bsp = BspFile::new(build_file(lumps, 20, 4, 1300)).unwrap();
    let rows = bsp.list_lumps();
    assert_eq!(rows.len(), 64);
    for (k, row) in rows.iter().enumerate() {
        assert_eq!(row.ordinal, k as u32);
        let kind = row.kind.unwrap();
        assert_eq!(bspinfo::lumps::lump_ordinal(kind), k as u32);
        assert_eq!(row.present, k == 0 || k == 40);
    }
    assert_eq!(rows[0].version, 7);
    assert_eq!(rows[0].effective_size, 9);
    assert_eq!(rows[40].effective_size, 400);
    assert_eq!(rows[1].effective_size, 0);
}

#[test]
fn seek_past_end_is_error() {
    let mut lumps = vec![zero_entry(); 64];
    lumps[0] = LumpInfo { fileofs: 5000, filelen: 10, version: 0, uncompressed_size: 0 };
    let bsp = BspFile::new(build_file(lumps, 20, 1, 1036)).unwrap();
    assert_eq!(bsp.get_lump(LumpType::ENTITIES), Err(BspError::Seek));
}

#[test]
fn short_raw_lump_is_error() {
    let mut lumps = vec![zero_entry(); 64];
    lumps[0] = LumpInfo { fileofs: 1100, filelen: 100, version: 0, uncompressed_size: 0 };
    let bsp = BspFile::new(build_file(lumps, 20, 1, 1150)).unwrap();
    assert_eq!(bsp.get_lump(LumpType::ENTITIES), Err(BspError::ShortRead));
}

#[test]
fn short_compressed_block_is_error() {
    let mut lumps = vec![zero_entry(); 64];
    // only 8 of the 12 wrapper bytes fit before the source ends
    lumps[0] = LumpInfo { fileofs: 1100, filelen: 60, version: 0, uncompressed_size: 60 };
    let bsp = BspFile::new(build_file(lumps, 20, 1, 1108)).unwrap();
    assert_eq!(bsp.get_lump(LumpType::ENTITIES), Err(BspError::ShortRead));
}

#[test]
fn corrupt_stream_is_decompression_error() {
    let mut block = Vec::new();
    block.extend_from_slice(b"LZMA");
    block.extend_from_slice(&64u32.to_le_bytes());
    block.extend_from_slice(&16u32.to_le_bytes());
    block.extend_from_slice(&[0xff; 16]);
    let mut lumps = vec![zero_entry(); 64];
    lumps[0] = LumpInfo {
        fileofs: 1100,
        filelen: block.len() as u32,
        version: 0,
        uncompressed_size: 64,
    };
    let mut data = build_file(lumps, 20, 1, 1100 + block.len());
    data[1100..1100 + block.len()].copy_from_slice(&block);
    let bsp = BspFile::new(data).unwrap();
    assert_eq!(bsp.get_lump(LumpType::ENTITIES), Err(BspError::Decompression));
}

#[test]
fn non_archive_bytes_are_archive_format_error() {
    let garbage = b"this is not an archive".to_vec();
    assert_eq!(pak_entry_list(&garbage), Err(BspError::ArchiveFormat));

    let mut lumps = vec![zero_entry(); 64];
    lumps[40] = LumpInfo {
        fileofs: 1100,
        filelen: garbage.len() as u32,
        version: 0,
        uncompressed_size: 0,
    };
    let mut data = build_file(lumps, 20, 1, 1100 + garbage.len());
    data[1100..1100 + garbage.len()].copy_from_slice(&garbage);
    let bsp = BspFile::new(data).unwrap();
    assert_eq!(bsp.pak_entries(), Err(BspError::ArchiveFormat));
}

#[test]
fn absent_pak_lump_is_none() {
    let bsp = BspFile::new(build_file(vec![zero_entry(); 64], 20, 1, 1036)).unwrap();
    assert_eq!(bsp.pak_entries(), Ok(None));
}

#[test]
fn truncated_source_cannot_open() {
    assert!(matches!(BspFile::new(vec![0u8; 100]), Err(BspError::StructuralDecode)));
    assert!(matches!(BspFile::new(Vec::new()), Err(BspError::StructuralDecode)));
}

#[test]
fn storage_form_follows_sentinel() {
    let raw = LumpInfo { fileofs: 10, filelen: 20, version: 0, uncompressed_size: 0 };
    let packed = LumpInfo { fileofs: 10, filelen: 20, version: 0, uncompressed_size: 64 };
    assert_eq!(storage_of(&raw), LumpStorage::Raw { length: 20 });
    assert_eq!(storage_of(&packed), LumpStorage::Compressed { declared_size: 64 });
}

#[test]
fn ident_is_surfaced_unvalidated() {
    let mut data = vec![0u8; 1036];
    data[0..4].copy_from_slice(b"JUNK");
    let bsp = BspFile::new(data).unwrap();
    assert_eq!(bsp.ident(), u32::from_le_bytes(*b"JUNK"));
}
