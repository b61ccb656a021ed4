use release_installer::archive::{read_entries, ArchiveEntry};
use release_installer::error::InstallError;
use std::io::Write;
use zip::write::FileOptions;
use zip::CompressionMethod;

fn stored() -> FileOptions {
    FileOptions::default().compression_method(CompressionMethod::Stored)
}

fn deflated() -> FileOptions {
    FileOptions::default().compression_method(CompressionMethod::Deflated)
}

fn file(name: &str, data: &[u8]) -> ArchiveEntry {
    ArchiveEntry { name: name.to_string(), is_dir: false, data: data.to_vec() }
}

fn dir(name: &str) -> ArchiveEntry {
    ArchiveEntry { name: name.to_string(), is_dir: true, data: Vec::new() }
}

#[test]
fn entries_come_in_the_order_of_the_archive() {
    let mut writer = zip::ZipWriter::new(std::io::Cursor::new(Vec::new()));
    writer.start_file("z.txt", stored()).unwrap();
    writer.write_all(b"last letter first").unwrap();
    writer.add_directory("m/", stored()).unwrap();
    writer.start_file("a.bin", deflated()).unwrap();
    writer.write_all(&[0u8, 1, 2, 3, 255]).unwrap();
    let bytes = writer.finish().unwrap().into_inner();

    assert_eq!(
        read_entries(bytes),
        Ok(vec![file("z.txt", b"last letter first"), dir("m/"), file("a.bin", &[0, 1, 2, 3, 255])])
    );
}

#[test]
fn deflated_bytes_come_back_as_they_went_in() {
    let mut data = Vec::new();
    for i in 0..20000u32 {
        data.push((i % 251) as u8);
    }
    let mut writer = zip::ZipWriter::new(std::io::Cursor::new(Vec::new()));
    writer.start_file("big.bin", deflated()).unwrap();
    writer.write_all(&data).unwrap();
    let bytes = writer.finish().unwrap().into_inner();
    assert!(bytes.len() < data.len());

    let entries = read_entries(bytes).unwrap();
    assert_eq!(entries.len(), 1);
    assert_eq!(entries[0].name, "big.bin");
    assert!(!entries[0].is_dir);
    assert_eq!(entries[0].data, data);
}

#[test]
fn an_archive_without_entries_is_read_as_empty() {
    let writer = zip::ZipWriter::new(std::io::Cursor::new(Vec::new()));
    let mut writer = writer;
    let bytes = writer.finish().unwrap().into_inner();
    assert_eq!(read_entries(bytes), Ok(Vec::new()));
}

#[test]
fn a_name_that_ends_in_a_backslash_is_a_directory() {
    let mut writer = zip::ZipWriter::new(std::io::Cursor::new(Vec::new()));
    writer.start_file("odd\\", stored()).unwrap();
    writer.start_file("plain", stored()).unwrap();
    let bytes = writer.finish().unwrap().into_inner();
    let entries = read_entries(bytes).unwrap();
    assert_eq!(entries.len(), 2);
    assert_eq!(entries[0].name, "odd\\");
    assert!(entries[0].is_dir);
    assert_eq!(entries[1].name, "plain");
    assert!(!entries[1].is_dir);
    assert!(entries[1].data.is_empty());
}

#[test]
fn bytes_that_are_no_archive_are_corrupt() {
    assert_eq!(read_entries(Vec::new()), Err(InstallError::CorruptArchive));
    assert_eq!(
        read_entries(b"not a zip archive at all".to_vec()),
        Err(InstallError::CorruptArchive)
    );
    assert_eq!(read_entries(vec![0u8; 4096]), Err(InstallError::CorruptArchive));
}

#[test]
fn a_damaged_entry_is_corrupt() {
    let mut writer = zip::ZipWriter::new(std::io::Cursor::new(Vec::new()));
    writer.start_file("a.txt", stored()).unwrap();
    writer.write_all(b"0123456789").unwrap();
    let mut bytes = writer.finish().unwrap().into_inner();
    let at = bytes.windows(10).position(|w| w == b"0123456789").unwrap();
    bytes[at] = b'X';
    assert_eq!(read_entries(bytes), Err(InstallError::CorruptArchive));
}

#[test]
fn a_truncated_archive_is_corrupt() {
    let mut writer = zip::ZipWriter::new(std::io::Cursor::new(Vec::new()));
    writer.start_file("a.txt", stored()).unwrap();
    writer.write_all(b"0123456789").unwrap();
    let mut bytes = writer.finish().unwrap().into_inner();
    bytes.truncate(bytes.len() - 5);
    assert_eq!(read_entries(bytes), Err(InstallError::CorruptArchive));
}

#[test]
fn an_aes_field_without_encryption_is_corrupt() {
    let mut writer = zip::ZipWriter::new(std::io::Cursor::new(Vec::new()));
    writer.start_file_with_extra_data("a.txt", stored()).unwrap();
    // An extra field of seven bytes: AE-2, vendor "AE", 256 bits, stored.
    writer.write_all(&[0xef, 0xbe, 7, 0, 2, 0, 0x41, 0x45, 3, 0, 0]).unwrap();
    writer.end_extra_data().unwrap();
    writer.write_all(b"plain").unwrap();
    let mut bytes = writer.finish().unwrap().into_inner();
    assert_eq!(read_entries(bytes.clone()), Ok(vec![file("a.txt", b"plain")]));

    // The same field under the identifier of the AES field.
    let mut patched = 0;
    for at in 0..bytes.len() - 3 {
        if bytes[at..at + 4] == [0xef, 0xbe, 7, 0] {
            bytes[at] = 0x01;
            bytes[at + 1] = 0x99;
            patched += 1;
        }
    }
    assert_eq!(patched, 2);
    assert_eq!(read_entries(bytes), Err(InstallError::CorruptArchive));
}

#[test]
fn an_entry_that_asks_for_a_password_is_corrupt() {
    let mut writer = zip::ZipWriter::new(std::io::Cursor::new(Vec::new()));
    writer.start_file("secret.txt", stored()).unwrap();
    writer.write_all(b"0123456789abcdef0123456789abcdef").unwrap();
    let mut bytes = writer.finish().unwrap().into_inner();

    // Set the "encrypted" bit of the flags in the local and the central header.
    let local = bytes.windows(4).position(|w| w == b"PK\x03\x04").unwrap();
    bytes[local + 6] |= 1;
    let central = bytes.windows(4).position(|w| w == b"PK\x01\x02").unwrap();
    bytes[central + 8] |= 1;
    assert_eq!(read_entries(bytes), Err(InstallError::CorruptArchive));
}
