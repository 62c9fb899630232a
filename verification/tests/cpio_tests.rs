use initramfs_builder::cpio::{CpioArchive, CpioEntry, HostMetadata, NodeContent};
use initramfs_builder::BuilderError;

fn file_meta() -> HostMetadata {
    HostMetadata { mode: 0o100644, uid: 1000, gid: 1000, nlink: 1, mtime: 1_700_000_000 }
}

fn dir_meta() -> HostMetadata {
    HostMetadata { mode: 0o040755, uid: 0, gid: 0, nlink: 2, mtime: 0 }
}

/// Reads the records of a newc archive up to the closing one: name, mode, payload.
fn parse_cpio_entries(data: &[u8]) -> Vec<(String, u32, Vec<u8>)> {
    let mut entries = Vec::new();
    let mut offset = 0;
    while offset + 110 <= data.len() {
        let header = &data[offset..offset + 110];
        let magic = std::str::from_utf8(&header[0..6]).unwrap_or("");
        if magic != "070701" {
            break;
        }
        let mode = u32::from_str_radix(std::str::from_utf8(&header[14..22]).unwrap_or("0"), 16)
            .unwrap_or(0);
        let filesize =
            usize::from_str_radix(std::str::from_utf8(&header[54..62]).unwrap_or("0"), 16)
                .unwrap_or(0);
        let namesize =
            usize::from_str_radix(std::str::from_utf8(&header[94..102]).unwrap_or("0"), 16)
                .unwrap_or(0);
        let name_start = offset + 110;
        if name_start + namesize > data.len() {
            break;
        }
        let name = std::str::from_utf8(&data[name_start..name_start + namesize - 1])
            .unwrap_or("")
            .to_string();
        if name == "TRAILER!!!" {
            break;
        }
        let header_plus_name = 110 + namesize;
        let name_padding = (4 - (header_plus_name % 4)) % 4;
        let data_start = name_start + namesize + name_padding;
        let data_padding = (4 - (filesize % 4)) % 4;
        let payload = data[data_start..data_start + filesize].to_vec();
        offset = data_start + filesize + data_padding;
        entries.push((name, mode, payload));
    }
    entries
}

#[test]
fn test_empty_archive() {
    let archive = CpioArchive::new();
    assert!(archive.is_empty());
    assert_eq!(archive.len(), 0);
}

#[test]
fn test_cpio_trailer() {
    let archive = CpioArchive::new();
    let mut output = Vec::new();
    archive.write_to(&mut output).unwrap();

    let output_str = String::from_utf8_lossy(&output);
    assert!(
        output_str.contains("TRAILER!!!"),
        "Archive should end with TRAILER!!!"
    );
}

#[test]
fn empty_archive_is_exactly_the_trailer() {
    let archive = CpioArchive::default();
    let mut output = Vec::new();
    archive.write_to(&mut output).unwrap();
    let mut expected = Vec::new();
    expected.extend_from_slice(b"070701");
    expected.extend_from_slice(b"00000000"); // ino
    expected.extend_from_slice(b"00000000"); // mode
    expected.extend_from_slice(b"00000000"); // uid
    expected.extend_from_slice(b"00000000"); // gid
    expected.extend_from_slice(b"00000001"); // nlink
    expected.extend_from_slice(b"00000000"); // mtime
    expected.extend_from_slice(b"00000000"); // filesize
    expected.extend_from_slice(b"00000000");
    expected.extend_from_slice(b"00000000");
    expected.extend_from_slice(b"00000000");
    expected.extend_from_slice(b"00000000");
    expected.extend_from_slice(b"0000000B"); // namesize
    expected.extend_from_slice(b"00000000"); // check
    expected.extend_from_slice(b"TRAILER!!!\0");
    expected.extend_from_slice(&[0, 0, 0]);
    assert_eq!(output.len(), 124);
    assert_eq!(output, expected);
}

#[test]
fn single_file_record_is_bit_exact() {
    let mut archive = CpioArchive::new();
    archive.add_path("odd.txt", &file_meta(), NodeContent::File(b"123".to_vec()));
    assert_eq!(archive.len(), 1);
    assert!(!archive.is_empty());
    let mut output = Vec::new();
    archive.write_to(&mut output).unwrap();

    let mut expected = Vec::new();
    expected.extend_from_slice(b"070701");
    expected.extend_from_slice(b"00000001"); // ino
    expected.extend_from_slice(b"000081A4"); // mode 0o100644
    expected.extend_from_slice(b"000003E8"); // uid 1000
    expected.extend_from_slice(b"000003E8"); // gid 1000
    expected.extend_from_slice(b"00000001"); // nlink
    expected.extend_from_slice(b"6553F100"); // mtime 1_700_000_000
    expected.extend_from_slice(b"00000003"); // filesize
    expected.extend_from_slice(b"00000000");
    expected.extend_from_slice(b"00000000");
    expected.extend_from_slice(b"00000000");
    expected.extend_from_slice(b"00000000");
    expected.extend_from_slice(b"00000008"); // namesize
    expected.extend_from_slice(b"00000000");
    expected.extend_from_slice(b"odd.txt\0"); // 110 + 8 = 118, two zeros follow
    expected.extend_from_slice(&[0, 0]);
    expected.extend_from_slice(b"123");
    expected.extend_from_slice(&[0]);
    assert_eq!(&output[..expected.len()], &expected[..]);
    assert_eq!(output.len(), expected.len() + 124);
    assert_eq!(&output[expected.len() + 110..expected.len() + 121], b"TRAILER!!!\0");
}

#[test]
fn archive_starts_with_magic() {
    let mut archive = CpioArchive::new();
    archive.add_path("test.txt", &file_meta(), NodeContent::File(b"test".to_vec()));
    let mut output = Vec::new();
    archive.write_to(&mut output).unwrap();
    let header = String::from_utf8_lossy(&output[..6]);
    assert_eq!(header, "070701", "CPIO header should start with newc magic");
}

#[test]
fn archive_length_is_a_multiple_of_four() {
    for name_len in 1..9usize {
        for data_len in 0..9usize {
            let mut archive = CpioArchive::new();
            let name = "n".repeat(name_len);
            archive.add_path(&name, &file_meta(), NodeContent::File(vec![7u8; data_len]));
            let mut output = Vec::new();
            archive.write_to(&mut output).unwrap();
            assert_eq!(output.len() % 4, 0, "CPIO output should be 4-byte aligned");
            let entries = parse_cpio_entries(&output);
            assert_eq!(entries.len(), 1);
            assert_eq!(entries[0].0, name);
            assert_eq!(entries[0].2, vec![7u8; data_len]);
        }
    }
}

#[test]
fn inode_numbers_count_up_from_one() {
    let mut archive = CpioArchive::new();
    archive.add_path("a.txt", &file_meta(), NodeContent::File(b"aaa".to_vec()));
    archive.add_path("b.txt", &file_meta(), NodeContent::File(b"bbb".to_vec()));
    archive.add_path("subdir", &dir_meta(), NodeContent::Other);
    archive.add_path("subdir/c.txt", &file_meta(), NodeContent::File(b"ccc".to_vec()));
    assert_eq!(archive.len(), 4);
    let mut output = Vec::new();
    archive.write_to(&mut output).unwrap();
    let mut offset = 0;
    for ino in 1..=4u32 {
        let field = std::str::from_utf8(&output[offset + 6..offset + 14]).unwrap();
        assert_eq!(u32::from_str_radix(field, 16).unwrap(), ino);
        let filesize =
            usize::from_str_radix(std::str::from_utf8(&output[offset + 54..offset + 62]).unwrap(), 16)
                .unwrap();
        let namesize =
            usize::from_str_radix(std::str::from_utf8(&output[offset + 94..offset + 102]).unwrap(), 16)
                .unwrap();
        offset += (110 + namesize + 3) / 4 * 4 + (filesize + 3) / 4 * 4;
    }
    assert_eq!(&output[offset + 110..offset + 120], b"TRAILER!!!");
    assert_eq!(offset + 124, output.len());
    let names: Vec<String> = parse_cpio_entries(&output).into_iter().map(|e| e.0).collect();
    assert_eq!(names, vec!["a.txt", "b.txt", "subdir", "subdir/c.txt"]);
}

#[test]
fn symlink_payload_is_the_target() {
    let mut archive = CpioArchive::new();
    let meta = HostMetadata { mode: 0o120777, uid: 0, gid: 0, nlink: 1, mtime: 5 };
    archive.add_path("link.txt", &meta, NodeContent::Symlink("target.txt".to_string()));
    let mut output = Vec::new();
    archive.write_to(&mut output).unwrap();
    let entries = parse_cpio_entries(&output);
    assert_eq!(entries.len(), 1);
    assert_eq!(entries[0].0, "link.txt");
    assert_eq!(entries[0].1, 0o120777);
    assert_eq!(entries[0].2, b"target.txt".to_vec());
}

#[test]
fn directory_has_no_payload() {
    let entry = CpioEntry::from_host("etc", &dir_meta(), NodeContent::Other);
    assert_eq!(entry.path, "etc");
    assert_eq!(entry.mode, 0o040755);
    assert!(entry.data.is_empty());
    assert_eq!(entry.dev_major, 0);
    assert_eq!(entry.rdev_minor, 0);
}

#[test]
fn link_count_and_time_are_cut_to_32_bits() {
    let meta = HostMetadata {
        mode: 0o100644,
        uid: 1,
        gid: 2,
        nlink: 0x1_0000_0003,
        mtime: -1,
    };
    let entry = CpioEntry::from_host("f", &meta, NodeContent::File(Vec::new()));
    assert_eq!(entry.nlink, 3);
    assert_eq!(entry.mtime, 0xFFFF_FFFF);
    let later = HostMetadata { mtime: 0x1_0000_0010, ..meta };
    assert_eq!(CpioEntry::from_host("f", &later, NodeContent::Other).mtime, 0x10);
}

#[test]
fn write_to_appends_behind_what_is_there() {
    let archive = CpioArchive::new();
    let mut output = vec![1u8, 2, 3];
    archive.write_to(&mut output).unwrap();
    assert_eq!(&output[..3], &[1, 2, 3]);
    assert_eq!(&output[3..9], b"070701");
    assert_eq!(output.len(), 127);
}

#[test]
fn entry_named_like_the_trailer_is_written_as_it_is() {
    let mut archive = CpioArchive::new();
    archive.add_path("TRAILER!!!", &file_meta(), NodeContent::File(b"x".to_vec()));
    archive.add_path("after", &file_meta(), NodeContent::File(b"y".to_vec()));
    let mut output = Vec::new();
    archive.write_to(&mut output).unwrap();
    let text = String::from_utf8_lossy(&output);
    assert_eq!(text.matches("TRAILER!!!").count(), 2);
    assert!(parse_cpio_entries(&output).is_empty());
    assert_eq!(&output[output.len() - 14..output.len() - 3], b"TRAILER!!!\0");
}

#[test]
fn payload_that_just_fits_is_accepted() {
    let mut archive = CpioArchive::new();
    archive.add_path("a", &file_meta(), NodeContent::File(vec![0u8; 70_000]));
    assert!(archive.is_encodable());
    let mut output = Vec::new();
    archive.write_to(&mut output).unwrap();
    assert_eq!(&output[54..62], b"00011170");
    assert_eq!(output.len(), 112 + 70_000 + 124);
}

#[test]
fn entry_with_a_device_number_is_refused() {
    for field in 0..4 {
        let mut entry = CpioEntry::from_host("dev/null", &file_meta(), NodeContent::Other);
        match field {
            0 => entry.dev_major = 1,
            1 => entry.dev_minor = 3,
            2 => entry.rdev_major = 1,
            _ => entry.rdev_minor = 3,
        }
        let mut archive = CpioArchive::new();
        archive.add_path("etc", &dir_meta(), NodeContent::Other);
        archive.add_entry(entry);
        assert!(!archive.is_encodable());
        let mut output = vec![9u8];
        match archive.write_to(&mut output) {
            Err(BuilderError::CpioGeneration(detail)) => {
                assert_eq!(detail, "an entry cannot be written as a newc record")
            }
            other => panic!("unexpected {:?}", other),
        }
        assert_eq!(output, vec![9u8]);
    }
}

#[test]
fn device_fields_are_written_as_zero() {
    let mut archive = CpioArchive::new();
    archive.add_path("odd.txt", &file_meta(), NodeContent::File(b"123".to_vec()));
    assert!(archive.is_encodable());
    let mut output = Vec::new();
    archive.write_to(&mut output).unwrap();
    assert_eq!(&output[62..94], b"00000000000000000000000000000000");
    assert_eq!(&output[102..110], b"00000000");
}
