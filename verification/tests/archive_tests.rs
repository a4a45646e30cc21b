//! Tests for archive packaging: the produced container is read back with
//! the same library the packager writes with.

use std::io::Cursor;
use std::io::Read;

use rakuyomi_core::archive::pack_archive;

fn entries(files: &[(&str, &[u8])]) -> Vec<(Vec<u8>, Vec<u8>)> {
    files
        .iter()
        .map(|(n, b)| (n.as_bytes().to_vec(), b.to_vec()))
        .collect()
}

#[test]
fn round_trip_keeps_names_order_and_bytes() {
    let files = entries(&[
        ("001.jpg", b"first page bytes"),
        ("003.jpg", b"third page bytes"),
        ("005.png", b"fifth page bytes"),
    ]);
    let bytes = pack_archive(&files).expect("packaging should succeed");
    let mut archive = zip::ZipArchive::new(Cursor::new(bytes)).expect("readable archive");
    assert_eq!(archive.len(), 3);
    let expected_names = ["001.jpg", "003.jpg", "005.png"];
    let expected_bytes: [&[u8]; 3] =
        [b"first page bytes", b"third page bytes", b"fifth page bytes"];
    for i in 0..3 {
        let mut entry = archive.by_index(i).expect("entry");
        assert_eq!(entry.name(), expected_names[i]);
        let mut data = Vec::new();
        entry.read_to_end(&mut data).expect("entry bytes");
        assert_eq!(data, expected_bytes[i].to_vec());
        // stored method: determinism over size
        assert_eq!(entry.compression(), zip::CompressionMethod::Stored);
        assert_eq!(entry.unix_mode().map(|m| m & 0o777), Some(0o644));
    }
}

#[test]
fn packaging_is_deterministic() {
    let files = entries(&[("001.jpg", b"alpha"), ("002.jpg", b"beta")]);
    let a = pack_archive(&files).expect("first run");
    let b = pack_archive(&files).expect("second run");
    assert_eq!(a, b);
}

#[test]
fn empty_input_gives_an_empty_archive() {
    let files: Vec<(Vec<u8>, Vec<u8>)> = Vec::new();
    let bytes = pack_archive(&files).expect("empty archive");
    let archive = zip::ZipArchive::new(Cursor::new(bytes)).expect("readable archive");
    assert_eq!(archive.len(), 0);
}

#[test]
fn duplicate_entry_names_fail_without_a_partial_archive() {
    let files = entries(&[("001.jpg", b"a"), ("001.jpg", b"b")]);
    assert!(pack_archive(&files).is_err());
}
