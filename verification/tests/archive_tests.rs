use std::io::Write;

use readstat_fetch::archive::{
    archive_kind_of, extract_binary, find_entry, ArchiveEntry, ArchiveKind,
};
use readstat_fetch::InstallError;

fn tar_gz_with(entries: &[(&str, &[u8])]) -> Vec<u8> {
    let mut builder = tar::Builder::new(Vec::new());
    for (name, data) in entries {
        let mut header = tar::Header::new_gnu();
        header.set_size(data.len() as u64);
        header.set_mode(0o755);
        header.set_cksum();
        builder.append_data(&mut header, name, *data).unwrap();
    }
    let tar_bytes = builder.into_inner().unwrap();
    let mut encoder = flate2::write::GzEncoder::new(Vec::new(), flate2::Compression::default());
    encoder.write_all(&tar_bytes).unwrap();
    encoder.finish().unwrap()
}

fn zip_with(entries: &[(&str, &[u8])]) -> Vec<u8> {
    let mut writer = zip::ZipWriter::new(std::io::Cursor::new(Vec::new()));
    for (name, data) in entries {
        writer
            .start_file(*name, zip::write::SimpleFileOptions::default())
            .unwrap();
        writer.write_all(data).unwrap();
    }
    writer.finish().unwrap().into_inner()
}

#[test]
fn archive_kind_follows_extension() {
    assert_eq!(
        archive_kind_of("readstat-v0.12.2-x86_64-unknown-linux-gnu.tar.gz"),
        Ok(ArchiveKind::TarGz)
    );
    assert_eq!(
        archive_kind_of("readstat-v0.12.2-x86_64-pc-windows-msvc.zip"),
        Ok(ArchiveKind::Zip)
    );
    assert_eq!(
        archive_kind_of("readstat.txt"),
        Err(InstallError::UnsupportedArchiveFormat)
    );
    assert_eq!(
        archive_kind_of("no-extension"),
        Err(InstallError::UnsupportedArchiveFormat)
    );
}

#[test]
fn find_entry_returns_identical_bytes() {
    let entries = vec![
        ArchiveEntry { name: "README.md".to_string(), data: vec![1, 2, 3] },
        ArchiveEntry { name: "readstat".to_string(), data: vec![0x7f, b'E', b'L', b'F', 9] },
    ];
    let found = find_entry(&entries, "readstat", false).unwrap();
    assert_eq!(found, vec![0x7f, b'E', b'L', b'F', 9]);
}

#[test]
fn find_entry_takes_the_first_match() {
    let entries = vec![
        ArchiveEntry { name: "readstat".to_string(), data: vec![1] },
        ArchiveEntry { name: "readstat".to_string(), data: vec![2] },
    ];
    assert_eq!(find_entry(&entries, "readstat", false).unwrap(), vec![1]);
}

#[test]
fn find_entry_matches_by_file_name_when_asked() {
    let entries = vec![ArchiveEntry {
        name: "bin/readstat".to_string(),
        data: vec![42],
    }];
    assert_eq!(find_entry(&entries, "readstat", true).unwrap(), vec![42]);
    assert_eq!(
        find_entry(&entries, "readstat", false),
        Err(InstallError::BinaryNotFoundInArchive)
    );
}

#[test]
fn find_entry_fails_on_missing_name() {
    let entries = vec![ArchiveEntry { name: "other".to_string(), data: vec![1] }];
    assert_eq!(
        find_entry(&entries, "readstat", false),
        Err(InstallError::BinaryNotFoundInArchive)
    );
    let empty: Vec<ArchiveEntry> = Vec::new();
    assert_eq!(
        find_entry(&empty, "readstat", false),
        Err(InstallError::BinaryNotFoundInArchive)
    );
}

#[test]
fn tar_gz_extraction_is_byte_identical() {
    let payload: Vec<u8> = (0u8..=255).collect();
    let archive = tar_gz_with(&[("readstat", payload.as_slice())]);
    let extracted = extract_binary(&archive, ArchiveKind::TarGz, "readstat").unwrap();
    assert_eq!(extracted, payload);
    assert_ne!(extracted, archive);
}

#[test]
fn tar_gz_extraction_matches_nested_paths_by_file_name() {
    let payload = b"binary bytes".to_vec();
    let archive = tar_gz_with(&[
        ("docs/README.md", b"hello".as_slice()),
        ("bin/readstat", payload.as_slice()),
    ]);
    let extracted = extract_binary(&archive, ArchiveKind::TarGz, "readstat").unwrap();
    assert_eq!(extracted, payload);
}

#[test]
fn tar_gz_extraction_fails_without_the_entry() {
    let archive = tar_gz_with(&[("something-else", b"x".as_slice())]);
    assert_eq!(
        extract_binary(&archive, ArchiveKind::TarGz, "readstat"),
        Err(InstallError::BinaryNotFoundInArchive)
    );
}

#[test]
fn tar_gz_extraction_fails_on_garbage_bytes() {
    let garbage = b"this is not a gzip stream at all".to_vec();
    assert_eq!(
        extract_binary(&garbage, ArchiveKind::TarGz, "readstat"),
        Err(InstallError::ArchiveParse)
    );
}

#[test]
fn zip_extraction_is_byte_identical() {
    let payload = b"MZ windows binary".to_vec();
    let archive = zip_with(&[
        ("README.md", b"hello".as_slice()),
        ("readstat.exe", payload.as_slice()),
    ]);
    let extracted = extract_binary(&archive, ArchiveKind::Zip, "readstat.exe").unwrap();
    assert_eq!(extracted, payload);
    assert_ne!(extracted, archive);
}

#[test]
fn zip_extraction_matches_the_full_entry_name() {
    let archive = zip_with(&[("bin/readstat.exe", b"x".as_slice())]);
    assert_eq!(
        extract_binary(&archive, ArchiveKind::Zip, "readstat.exe"),
        Err(InstallError::BinaryNotFoundInArchive)
    );
    let extracted = extract_binary(&archive, ArchiveKind::Zip, "bin/readstat.exe").unwrap();
    assert_eq!(extracted, b"x".to_vec());
}

#[test]
fn zip_extraction_fails_on_garbage_bytes() {
    let garbage = vec![0u8; 64];
    assert_eq!(
        extract_binary(&garbage, ArchiveKind::Zip, "readstat.exe"),
        Err(InstallError::ArchiveParse)
    );
}
