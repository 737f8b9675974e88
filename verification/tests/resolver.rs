use ls_core::{FileEntry, FileType, RawEntry};

fn raw(name: &str, size: u64, is_dir: bool, is_file: bool, attrs: u32) -> RawEntry {
    RawEntry {
        file_name: name.to_string(),
        size,
        modified_secs: 1_000_000_000,
        is_dir,
        is_file,
        is_symlink: false,
        attributes: attrs,
    }
}

#[test]
fn classification_first_match_wins() {
    assert_eq!(FileType::classify(true, true, true), FileType::Directory);
    assert_eq!(FileType::classify(false, true, true), FileType::File);
    assert_eq!(FileType::classify(false, false, true), FileType::Symlink);
    assert_eq!(FileType::classify(false, false, false), FileType::Unknown);
}

#[test]
fn classification_labels() {
    assert_eq!(FileType::File.label(), "file");
    assert_eq!(FileType::Directory.label(), "directory");
    assert_eq!(FileType::Symlink.label(), "symlink");
    assert_eq!(FileType::Unknown.label(), "unknown");
}

#[test]
fn one_file_and_one_subdirectory() {
    // A read-only ten-byte regular file and a subdirectory.
    let listing = vec![raw("a.txt", 10, false, true, 0x1), raw("b", 0, true, false, 0x10)];
    let rows = FileEntry::get_file(listing).unwrap();
    assert_eq!(rows.len(), 2);
    assert_eq!(rows[0].file_name, "a.txt");
    assert_eq!(rows[0].file_len, 10);
    assert!(rows[0].permissions.contains("ReadOnly"));
    assert_eq!(rows[0].file_type, "file");
    assert_eq!(rows[0].modified.len(), 19);
    assert_eq!(rows[1].file_name, "b");
    assert_eq!(rows[1].file_type, "directory");
    assert_eq!(rows[1].permissions, "Directory");
}

#[test]
fn empty_listing_is_empty_not_an_error() {
    let rows = FileEntry::get_file(Vec::new()).unwrap();
    assert!(rows.is_empty());
}

#[test]
fn enumeration_order_is_preserved() {
    let listing = vec![
        raw("c", 1, false, true, 0),
        raw("a", 2, false, true, 0),
        raw("b", 3, false, true, 0),
    ];
    let rows = FileEntry::get_file(listing).unwrap();
    let names: Vec<&str> = rows.iter().map(|r| r.file_name.as_str()).collect();
    assert_eq!(names, ["c", "a", "b"]);
    let sizes: Vec<u64> = rows.iter().map(|r| r.file_len).collect();
    assert_eq!(sizes, [1, 2, 3]);
}

#[test]
fn attribute_query_failure_degrades_one_field_only() {
    let listing = vec![raw("odd", 7, false, true, u32::MAX)];
    let rows = FileEntry::get_file(listing).unwrap();
    assert_eq!(rows[0].permissions, "attributes unavailable");
    assert_eq!(rows[0].file_name, "odd");
    assert_eq!(rows[0].file_len, 7);
}

#[test]
fn metadata_of_one_entry() {
    let m = FileEntry::get_file_metadata(&raw("x", 42, false, false, 0x2 | 0x4)).unwrap();
    assert_eq!(m.size, 42);
    assert_eq!(m.permissions, "Hidden | System");
    assert_eq!(m.file_type, "unknown");
    assert_eq!(m.modified.len(), 19);
}

#[test]
fn unrenderable_timestamp_fails_the_pass() {
    let mut e = raw("y", 1, false, true, 0);
    e.modified_secs = 8_000_000_000_001;
    assert!(FileEntry::get_file_metadata(&e).is_none());
    let listing = vec![raw("ok", 1, false, true, 0), e];
    assert!(FileEntry::get_file(listing).is_none());
}
