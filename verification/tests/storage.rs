use engine_orchestrator::digest::calculate_hash;
use engine_orchestrator::storage::{
    hash_prefix, is_same_content, stored_name, try_is_same_content, try_stored_name, Storage,
    StorageError,
};

const HELLO_HASH: &str = "2cf24dba5fb0a30e26e83b2ac5b9e29e1b161e5c1fa7425e73043362938b9824";
const EMPTY_HASH: &str = "e3b0c44298fc1c149afbf4c8996fb92427ae41e4649b934ca495991b7852b855";

#[test]
fn content_hash_is_sha256_in_lower_case_hexadecimal() {
    assert_eq!(calculate_hash(b"hello"), HELLO_HASH);
    assert_eq!(calculate_hash(b""), EMPTY_HASH);
    assert_eq!(Storage::calculate_hash(b"hello"), HELLO_HASH);
    assert_eq!(calculate_hash(&[0u8, 255, 16]).len(), 64);
    assert_ne!(calculate_hash(b"hello"), calculate_hash(b"hellp"));
}

#[test]
fn identical_content_has_identical_hash() {
    let data = vec![7u8; 10_000];
    assert_eq!(calculate_hash(&data), calculate_hash(&data.clone()));
}

#[test]
fn stored_name_holds_the_beginning_of_the_hash() {
    assert_eq!(hash_prefix(HELLO_HASH), "2cf24dba");
    assert_eq!(stored_name("report", "pdf", HELLO_HASH), "report-2cf24dba.pdf");
    assert_eq!(stored_name("report", "", HELLO_HASH), "report-2cf24dba");
    assert_eq!(stored_name("file", "", EMPTY_HASH), "file-e3b0c442");
    assert_eq!(stored_name("a.b", "gz", "0123456789"), "a.b-01234567.gz");
}

#[test]
fn stored_name_is_not_built_from_a_hash_that_cannot_be_cut() {
    assert_eq!(try_stored_name("report", "pdf", "short"), None);
    assert_eq!(try_stored_name("report", "pdf", "1234567é9"), None);
    assert_eq!(
        try_stored_name("report", "pdf", "12345678"),
        Some("report-12345678.pdf".to_string())
    );
}

#[test]
fn a_stored_file_holds_the_same_content_when_its_name_holds_the_hash() {
    assert!(is_same_content("report-2cf24dba.pdf", HELLO_HASH));
    assert!(is_same_content("other-name-2cf24dba", HELLO_HASH));
    assert!(!is_same_content("report-e3b0c442.pdf", HELLO_HASH));
    assert!(!is_same_content("2cf24dba.pdf", HELLO_HASH));
    assert!(!is_same_content("report-2cf24db.pdf", HELLO_HASH));
    assert_eq!(try_is_same_content("report-2cf24dba.pdf", "2cf"), None);
    assert_eq!(try_is_same_content("report-2cf24dba.pdf", HELLO_HASH), Some(true));
}

#[test]
fn directories_lie_below_the_base_path() {
    let storage = Storage::new("/data/app".to_string());
    assert_eq!(storage.base_path(), "/data/app");
    assert_eq!(storage.documents_dir(), "/data/app/documents");
    assert_eq!(storage.case_dir("case-1"), "/data/app/documents/case-1");
    let slash = Storage::new("/data/app/".to_string());
    assert_eq!(slash.documents_dir(), "/data/app/documents");
    let relative = Storage::new(String::new());
    assert_eq!(relative.case_dir("c"), "documents/c");
}

#[test]
fn storage_errors_are_reported_in_words() {
    assert_eq!(StorageError::Io("disk full".to_string()).message(), "IO error: disk full");
    assert_eq!(
        StorageError::NotFound("Path outside storage".to_string()).message(),
        "File not found: Path outside storage"
    );
}
