use std::io::{Cursor, Read, Write};

use onnx_embedding::{
    check_path_safe, extract_archive, extract_tgz, extract_zip, unpack, zip_dir, FileType,
    PackEntry, ProvisionError,
};

fn entry(path: &str, executable: bool, data: &[u8]) -> PackEntry {
    PackEntry { path: String::from(path), executable, data: data.to_vec() }
}

fn sample_tree() -> Vec<PackEntry> {
    vec![
        entry("lib/", true, b""),
        entry("lib/libonnxruntime.so", true, b"\x7fELF fake shared object"),
        entry("lib/VERSION", false, b"1.20.0\n"),
        entry("lib/empty_dir/", true, b""),
    ]
}

#[test]
fn pack_then_unpack_reproduces_the_tree() {
    let tree = sample_tree();
    let blob = zip_dir(&tree).unwrap();
    let back = unpack(&blob).unwrap();
    assert_eq!(back.len(), tree.len());
    for (a, b) in tree.iter().zip(back.iter()) {
        assert_eq!(a.path, b.path);
        assert_eq!(a.executable, b.executable);
        assert_eq!(a.data, b.data);
    }
}

#[test]
fn pack_then_extract_zip_reproduces_the_tree() {
    let tree = sample_tree();
    let blob = zip_dir(&tree).unwrap();
    let back = extract_zip(&blob).unwrap();
    assert_eq!(back.len(), tree.len());
    for (a, b) in tree.iter().zip(back.iter()) {
        assert_eq!(a.path, b.path);
        assert_eq!(a.executable, b.executable);
        assert_eq!(a.data, b.data);
    }
}

#[test]
fn packing_the_same_tree_twice_gives_the_same_bytes() {
    let b1 = zip_dir(&sample_tree()).unwrap();
    let b2 = zip_dir(&sample_tree()).unwrap();
    assert_eq!(b1, b2);
    assert!(!b1.is_empty());
}

#[test]
fn packed_blob_is_a_real_zip_container() {
    let blob = zip_dir(&sample_tree()).unwrap();
    let mut archive = zip::ZipArchive::new(Cursor::new(blob)).unwrap();
    assert_eq!(archive.len(), 4);
    let names: Vec<String> = (0..archive.len())
        .map(|i| archive.by_index(i).unwrap().name().to_string())
        .collect();
    assert_eq!(
        names,
        vec!["lib/", "lib/libonnxruntime.so", "lib/VERSION", "lib/empty_dir/"]
    );
    let mut content = Vec::new();
    archive
        .by_index(2)
        .unwrap()
        .read_to_end(&mut content)
        .unwrap();
    assert_eq!(content, b"1.20.0\n");
}

#[test]
fn empty_snapshot_round_trips() {
    let blob = zip_dir(&Vec::new()).unwrap();
    assert!(!blob.is_empty());
    let back = unpack(&blob).unwrap();
    assert!(back.is_empty());
}

#[test]
fn non_ascii_paths_round_trip() {
    let tree =
        vec![entry("lib/", true, b""), entry("lib/caf\u{e8} r\u{e9}sum\u{e9}.txt", false, b"bytes")];
    let blob = zip_dir(&tree).unwrap();
    let back = unpack(&blob).unwrap();
    assert_eq!(back[1].path, "lib/caf\u{e8} r\u{e9}sum\u{e9}.txt");
    assert_eq!(back[1].data, b"bytes");
}

#[test]
fn executable_bits_survive_the_zip_container() {
    let tree = vec![entry("bin/", true, b""), entry("bin/tool", true, b"#!x"), entry(
        "bin/notes.txt",
        false,
        b"plain",
    )];
    let blob = zip_dir(&tree).unwrap();
    let mut archive = zip::ZipArchive::new(Cursor::new(blob.clone())).unwrap();
    assert_eq!(archive.by_index(1).unwrap().unix_mode().unwrap() & 0o777, 0o755);
    assert_eq!(archive.by_index(2).unwrap().unix_mode().unwrap() & 0o777, 0o644);
    let back = unpack(&blob).unwrap();
    assert!(back[0].executable && back[1].executable);
    assert!(!back[2].executable);
}

#[test]
fn pack_rejects_traversal_duplicate_and_misshapen_entries() {
    let evil = vec![entry("../escape.txt", false, b"x")];
    match zip_dir(&evil) {
        Err(ProvisionError::PathTraversal { name }) => assert_eq!(name, "../escape.txt"),
        _ => panic!("expected PathTraversal"),
    }
    let dup = vec![entry("a.txt", false, b"1"), entry("a.txt", false, b"2")];
    assert!(matches!(zip_dir(&dup), Err(ProvisionError::Pack)));
    let dir_with_data = vec![entry("d/", true, b"bytes")];
    assert!(matches!(zip_dir(&dir_with_data), Err(ProvisionError::Pack)));
    let non_exec_dir = vec![entry("d/", false, b"")];
    assert!(matches!(zip_dir(&non_exec_dir), Err(ProvisionError::Pack)));
}

#[test]
fn unpack_rejects_garbage_bytes() {
    let garbage = b"\x00\x00\x06\x00\x00\x00\x17\x00\x00\x00X\x0b\x00\x00\x85\x00\x91\x00\x00";
    assert!(matches!(unpack(garbage), Err(ProvisionError::Unpack)));
    assert!(matches!(
        extract_zip(garbage),
        Err(ProvisionError::Extraction)
    ));
}

fn zip_with_entry_named(name: &str) -> Vec<u8> {
    let mut w = zip::ZipWriter::new(Cursor::new(Vec::new()));
    let options: zip::write::FileOptions<'_, ()> = zip::write::FileOptions::default()
        .compression_method(zip::CompressionMethod::Stored);
    w.start_file(name, options).unwrap();
    w.write_all(b"escaped").unwrap();
    w.finish().unwrap().into_inner()
}

#[test]
fn zip_entry_escaping_the_destination_is_rejected() {
    let blob = zip_with_entry_named("../escape.txt");
    match extract_zip(&blob) {
        Err(ProvisionError::PathTraversal { name }) => assert_eq!(name, "../escape.txt"),
        _ => panic!("expected PathTraversal"),
    }
    match unpack(&blob) {
        Err(ProvisionError::PathTraversal { name }) => assert_eq!(name, "../escape.txt"),
        _ => panic!("expected PathTraversal"),
    }
}

#[test]
fn zip_entry_with_absolute_path_is_rejected() {
    let blob = zip_with_entry_named("/etc/evil");
    assert!(matches!(
        extract_zip(&blob),
        Err(ProvisionError::PathTraversal { .. })
    ));
}

fn tgz_of(entries: &[(&str, Option<&[u8]>, u32)]) -> Vec<u8> {
    let mut builder = tar::Builder::new(Vec::new());
    for (name, data, mode) in entries {
        let mut header = tar::Header::new_gnu();
        match data {
            Some(bytes) => {
                header.set_size(bytes.len() as u64);
                header.set_entry_type(tar::EntryType::Regular);
                header.set_mode(*mode);
                header.set_cksum();
                builder.append_data(&mut header, name, *bytes).unwrap();
            }
            None => {
                header.set_size(0);
                header.set_entry_type(tar::EntryType::Directory);
                header.set_mode(*mode);
                header.set_cksum();
                builder.append_data(&mut header, name, &b""[..]).unwrap();
            }
        }
    }
    let tar_bytes = builder.into_inner().unwrap();
    let mut encoder =
        flate2::write::GzEncoder::new(Vec::new(), flate2::Compression::default());
    encoder.write_all(&tar_bytes).unwrap();
    encoder.finish().unwrap()
}

#[test]
fn extract_tgz_reads_files_and_directories() {
    let blob = tgz_of(&[
        ("pkg/lib", None, 0o755),
        ("pkg/lib/libonnxruntime.so", Some(b"fake so"), 0o755),
        ("pkg/lib/VERSION", Some(b"1.20.0\n"), 0o644),
    ]);
    let entries = extract_tgz(&blob).unwrap();
    assert_eq!(entries.len(), 3);
    assert_eq!(entries[0].path, "pkg/lib/");
    assert_eq!(entries[0].data, b"");
    assert!(entries[0].executable);
    assert_eq!(entries[1].path, "pkg/lib/libonnxruntime.so");
    assert_eq!(entries[1].data, b"fake so");
    assert!(entries[1].executable);
    assert_eq!(entries[2].path, "pkg/lib/VERSION");
    assert_eq!(entries[2].data, b"1.20.0\n");
    assert!(!entries[2].executable);
}

#[test]
fn extract_tgz_rejects_traversal_and_garbage() {
    // `tar::Builder` refuses to *write* `..` paths, so the hostile header is
    // filled in by hand: the extractor must still reject it on its own.
    let mut builder = tar::Builder::new(Vec::new());
    let mut header = tar::Header::new_gnu();
    let name = b"../escape.txt";
    header.as_old_mut().name[..name.len()].copy_from_slice(name);
    header.set_size(7);
    header.set_entry_type(tar::EntryType::Regular);
    header.set_mode(0o755);
    header.set_cksum();
    builder.append(&header, &b"escaped"[..]).unwrap();
    let tar_bytes = builder.into_inner().unwrap();
    let mut encoder =
        flate2::write::GzEncoder::new(Vec::new(), flate2::Compression::default());
    encoder.write_all(&tar_bytes).unwrap();
    let evil = encoder.finish().unwrap();
    match extract_tgz(&evil) {
        Err(ProvisionError::PathTraversal { name }) => assert_eq!(name, "../escape.txt"),
        _ => panic!("expected PathTraversal"),
    }
    assert!(matches!(
        extract_tgz(b"not a tarball at all"),
        Err(ProvisionError::Extraction)
    ));
}

#[test]
fn tar_link_entries_are_rejected_as_unexpected() {
    // Upstream tarballs ship the unversioned library name as a symlink; a
    // snapshot holds files and directories only, so a link entry must fail
    // extraction loudly rather than flatten into an empty file under the
    // very name the pipeline probes for.
    let mut builder = tar::Builder::new(Vec::new());
    let mut header = tar::Header::new_gnu();
    header.set_size(0);
    header.set_entry_type(tar::EntryType::Symlink);
    header.set_mode(0o777);
    builder
        .append_link(&mut header, "pkg/lib/libonnxruntime.so", "libonnxruntime.so.1.20.0")
        .unwrap();
    let tar_bytes = builder.into_inner().unwrap();
    let mut encoder =
        flate2::write::GzEncoder::new(Vec::new(), flate2::Compression::default());
    encoder.write_all(&tar_bytes).unwrap();
    let blob = encoder.finish().unwrap();
    assert!(matches!(extract_tgz(&blob), Err(ProvisionError::Extraction)));
}

#[test]
fn extract_archive_dispatches_on_kind() {
    let tree = vec![entry("f.txt", false, b"zip side")];
    let zip_blob = zip_dir(&tree).unwrap();
    let from_zip = extract_archive(&zip_blob, FileType::Zip).unwrap();
    assert_eq!(from_zip[0].path, "f.txt");
    assert_eq!(from_zip[0].data, b"zip side");

    let tgz_blob = tgz_of(&[("f.txt", Some(b"tgz side"), 0o644)]);
    let from_tgz = extract_archive(&tgz_blob, FileType::Tgz).unwrap();
    assert_eq!(from_tgz[0].path, "f.txt");
    assert_eq!(from_tgz[0].data, b"tgz side");
}

#[test]
fn traversal_guard_on_paths() {
    assert!(check_path_safe("lib/libonnxruntime.so"));
    assert!(check_path_safe("a/b/c"));
    assert!(check_path_safe("lib/"));
    assert!(check_path_safe("..a/b"));
    assert!(check_path_safe("a/..b"));
    assert!(check_path_safe("a...b"));
    assert!(!check_path_safe("../escape.txt"));
    assert!(!check_path_safe(".."));
    assert!(!check_path_safe("a/../b"));
    assert!(!check_path_safe("a/.."));
    assert!(!check_path_safe("/absolute"));
    assert!(!check_path_safe("a\\b"));
    assert!(!check_path_safe("c:/windows"));
    assert!(!check_path_safe(""));
}
