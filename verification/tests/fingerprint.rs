use mailbackup::fingerprint::{entry_path, fingerprint};

const HELLO_SHA256: &str = "2cf24dba5fb0a30e26e83b2ac5b9e29e1b161e5c1fa7425e73043362938b9824";
const EMPTY_SHA256: &str = "e3b0c44298fc1c149afbf4c8996fb92427ae41e4649b934ca495991b7852b855";

#[test]
fn fingerprint_matches_known_digest() {
    let body = b"hello".to_vec();
    assert_eq!(HELLO_SHA256, fingerprint(&body));
}

#[test]
fn fingerprint_of_empty_body_is_well_defined() {
    let body = Vec::new();
    assert_eq!(EMPTY_SHA256, fingerprint(&body));
}

#[test]
fn fingerprint_is_deterministic() {
    let body = b"some message body\r\n".to_vec();
    let first = fingerprint(&body);
    let second = fingerprint(&body);
    assert_eq!(first, second);
    assert_eq!(64, first.len());
}

#[test]
fn entry_path_is_folder_then_fingerprint() {
    let body = b"hello".to_vec();
    let path = entry_path("INBOX", &body);
    assert_eq!(format!("INBOX/{HELLO_SHA256}.eml"), path);
}

#[test]
fn entry_path_is_idempotent() {
    let first = entry_path("Sent Items", &b"hello".to_vec());
    let second = entry_path("Sent Items", &b"hello".to_vec());
    assert_eq!(first, second);
}
