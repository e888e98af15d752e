use std::io::Read;

use mailbackup::archive::{ByteSink, MemByteSink};
use mailbackup::mail::{write_messages, Message};
use mailbackup::progress::counting_progress;
use mailbackup::tar_sink::TarSink;
use mailbackup::zip_sink::ZipSink;

const HELLO_SHA256: &str = "2cf24dba5fb0a30e26e83b2ac5b9e29e1b161e5c1fa7425e73043362938b9824";

#[test]
fn tar_sink_streams_a_readable_container() {
    let mut sink = TarSink::new(MemByteSink::new());
    let mut progress = counting_progress();
    let messages = vec![Message { body: Some(b"hello".to_vec()) }];

    let total = write_messages(&messages, "INBOX", &mut progress, &mut sink).unwrap();
    assert_eq!(5, total);

    let bytes = sink.finish().unwrap().bytes;
    // The finalize contract: the byte sink holds the full stream, ending
    // in the two zeroed termination blocks.
    assert!(bytes.len() >= 1024);
    assert!(bytes[bytes.len() - 1024..].iter().all(|byte| *byte == 0));
    let mut archive = tar::Archive::new(bytes.as_slice());
    let mut found = false;
    for entry in archive.entries().unwrap() {
        let mut entry = entry.unwrap();
        let path = entry.path().unwrap().to_str().unwrap().to_string();
        if path == format!("INBOX/{HELLO_SHA256}.eml") {
            let mut contents = Vec::new();
            entry.read_to_end(&mut contents).unwrap();
            assert_eq!(b"hello".to_vec(), contents);
            assert_eq!(0o755, entry.header().mode().unwrap());
            found = true;
        }
    }
    assert!(found);
}

#[test]
fn zip_sink_collects_a_readable_container() {
    let mut sink = ZipSink::new();
    let mut progress = counting_progress();
    let messages = vec![Message { body: Some(b"hello".to_vec()) }];

    let total = write_messages(&messages, "INBOX", &mut progress, &mut sink).unwrap();
    assert_eq!(5, total);

    let bytes = sink.finish().unwrap();
    let cursor = std::io::Cursor::new(bytes);
    let mut archive = zip::ZipArchive::new(cursor).unwrap();
    let mut file = archive
        .by_name(&format!("INBOX/{HELLO_SHA256}.eml"))
        .unwrap();
    let mut contents = Vec::new();
    file.read_to_end(&mut contents).unwrap();
    assert_eq!(b"hello".to_vec(), contents);
}

#[test]
fn mem_byte_sink_receives_in_order() {
    let mut sink = MemByteSink::new();
    sink.write_all(&b"abc".to_vec()).unwrap();
    sink.write_all(&b"def".to_vec()).unwrap();
    assert_eq!(b"abcdef".to_vec(), sink.bytes);
}
