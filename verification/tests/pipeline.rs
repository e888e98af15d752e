use mailbackup::archive::{ArchiveError, FaultSink, MemSink};
use mailbackup::mail::{write_messages, Backup, Message};
use mailbackup::progress::{counting_progress, Progress, ProgressDisplay};

/// A display that records the skip reports it receives.
struct RecordingDisplay {
    skipped: Vec<(u64, u64)>,
}

impl ProgressDisplay for RecordingDisplay {
    fn start_folders(&mut self, _total: u64) {}

    fn start_messages(&mut self, _total: u64) {}

    fn advance_message(&mut self) {}

    fn advance_folder(&mut self) {}

    fn label(&mut self, _name: &str, _bytes: u64) {}

    fn message_written(&mut self, _index: u64, _count: u64, _size: u64) {}

    fn message_skipped(&mut self, index: u64, count: u64) {
        self.skipped.push((index, count));
    }

    fn folder_done(&mut self, _index: u64, _count: u64, _name: &str, _size: u64) {}

    fn folder_skipped(&mut self, _index: u64, _count: u64, _name: &str, _cause: &str) {}

    fn finish_messages(&mut self) {}

    fn finish_folders(&mut self) {}
}

const HELLO_SHA256: &str = "2cf24dba5fb0a30e26e83b2ac5b9e29e1b161e5c1fa7425e73043362938b9824";
const WORLD_SHA256: &str = "486ea46224d1bb4fb680f34f7c9ad96a8f24ec88be73ea8e5a6c65260e9cb8a7";

fn message(body: &[u8]) -> Message {
    Message { body: Some(body.to_vec()) }
}

#[test]
fn no_body_skip_writes_two_of_three() {
    let mut sink = MemSink::new();
    let mut progress = counting_progress();
    let messages = vec![message(b"first body"), Message { body: None }, message(b"third")];

    let total = write_messages(&messages, "INBOX", &mut progress, &mut sink).unwrap();

    assert_eq!(10 + 5, total);
    assert_eq!(2, sink.records.len());
    assert_eq!(3, progress.messages);
}

#[test]
fn skipped_message_is_reported_with_index_and_count() {
    let mut sink = MemSink::new();
    let mut progress = Progress::new(RecordingDisplay { skipped: Vec::new() });
    let messages = vec![message(b"first body"), Message { body: None }, message(b"third")];

    let total = write_messages(&messages, "INBOX", &mut progress, &mut sink).unwrap();

    // The missing body is reported once, as message 2 of 3, and the
    // skip is not an error.
    assert_eq!(15, total);
    assert_eq!(vec![(2, 3)], progress.display.skipped);
}

#[test]
fn all_bodiless_folder_still_succeeds_with_fallible_sink() {
    // A folder whose messages all lack bodies never touches the sink,
    // so even a sink that refuses every write cannot make it fail.
    let mut sink = FaultSink::new(0);
    let mut progress = counting_progress();
    let messages = vec![Message { body: None }, Message { body: None }];

    let total = write_messages(&messages, "INBOX", &mut progress, &mut sink).unwrap();

    assert_eq!(0, total);
    assert_eq!(2, progress.messages);
    assert_eq!(0, sink.records.len());
}

#[test]
fn duplicate_bodies_collapse_to_one_entry() {
    let mut sink = MemSink::new();
    let mut progress = counting_progress();
    let messages = vec![message(b"hello"), message(b"hello")];

    let total = write_messages(&messages, "INBOX", &mut progress, &mut sink).unwrap();

    // Both write attempts count toward the byte total, but the second
    // identical body never produces a second distinct entry.
    assert_eq!(10, total);
    assert_eq!(1, sink.records.len());
    assert_eq!(format!("INBOX/{HELLO_SHA256}.eml"), sink.records[0].path);
}

#[test]
fn empty_folder_contributes_nothing() {
    let mut sink = MemSink::new();
    let mut progress = counting_progress();
    let messages: Vec<Message> = Vec::new();

    let total = write_messages(&messages, "Drafts", &mut progress, &mut sink).unwrap();

    assert_eq!(0, total);
    assert_eq!(0, sink.records.len());
    assert_eq!(0, progress.messages);
}

#[test]
fn empty_body_is_written_not_skipped() {
    let mut sink = MemSink::new();
    let mut progress = counting_progress();
    let messages = vec![Message { body: Some(Vec::new()) }];

    let total = write_messages(&messages, "INBOX", &mut progress, &mut sink).unwrap();

    assert_eq!(0, total);
    assert_eq!(1, sink.records.len());
    assert!(sink.records[0].data.is_empty());
}

#[test]
fn entries_carry_body_and_mode() {
    let mut sink = MemSink::new();
    let mut progress = counting_progress();
    let messages = vec![message(b"hello")];

    write_messages(&messages, "INBOX", &mut progress, &mut sink).unwrap();

    assert_eq!(b"hello".to_vec(), sink.records[0].data);
    assert_eq!(0o755, sink.records[0].mode);
}

#[test]
fn partial_failure_isolation() {
    let sink = MemSink::new();
    let mut progress = counting_progress();
    let mut run = Backup::new(sink, 3);

    let folder_a = vec![message(b"alpha one"), message(b"alpha two")];
    let folder_c = vec![message(b"gamma")];

    let a = run.process_folder("A", Ok(folder_a), &mut progress).unwrap();
    let b = run
        .process_folder("B", Err(String::from("folder vanished")), &mut progress)
        .unwrap();
    let c = run.process_folder("C", Ok(folder_c), &mut progress).unwrap();

    assert_eq!(9 + 9, a);
    assert_eq!(0, b);
    assert_eq!(5, c);
    assert_eq!(a + c, run.total());
    assert_eq!(3, run.folders_done());
    assert_eq!(3, progress.folders);

    let sink = run.into_sink();
    assert_eq!(3, sink.records.len());
    assert!(sink.records.iter().all(|record| {
        record.path.starts_with("A/") || record.path.starts_with("C/")
    }));
}

#[test]
fn fatal_abort_stops_the_run() {
    let sink = FaultSink::new(4);
    let mut progress = counting_progress();
    let mut run = Backup::new(sink, 3);

    let folder_one = vec![message(b"one"), message(b"two"), message(b"three")];
    let folder_two = vec![message(b"four"), message(b"five"), message(b"six")];

    let first = run.process_folder("First", Ok(folder_one), &mut progress);
    assert_eq!(3 + 3 + 5, first.unwrap());

    // The fifth write across the run is refused: fatal, the folder's
    // byte count is not added and no later folder is processed.
    let second = run.process_folder("Second", Ok(folder_two), &mut progress);
    assert!(second.is_err());

    assert_eq!(11, run.total());
    assert_eq!(1, run.folders_done());
    assert_eq!(1, progress.folders);

    let sink = run.into_sink();
    assert_eq!(4, sink.records.len());
    assert_eq!(0, sink.budget);
}

#[test]
fn refused_write_reports_its_cause() {
    let mut sink = FaultSink::new(0);
    let mut progress = counting_progress();
    let messages = vec![message(b"anything")];

    let result = write_messages(&messages, "INBOX", &mut progress, &mut sink);

    match result {
        Err(ArchiveError::Write(cause)) => assert_eq!("write budget exhausted", cause),
        Ok(_) => panic!("the refused write must be fatal"),
    }
}

#[test]
fn end_to_end_two_folders() {
    let sink = MemSink::new();
    let mut progress = counting_progress();
    let mut run = Backup::new(sink, 2);

    let inbox = vec![message(b"hello"), message(b"hello")];
    let archive = vec![message(b"world")];

    // Both identical INBOX bodies count toward the byte total.
    let inbox_total = run.process_folder("INBOX", Ok(inbox), &mut progress).unwrap();
    let archive_total = run.process_folder("Archive", Ok(archive), &mut progress).unwrap();

    assert_eq!(10, inbox_total);
    assert_eq!(5, archive_total);
    assert_eq!(inbox_total + archive_total, run.total());

    let sink = run.into_sink();
    assert_eq!(2, sink.records.len());
    assert_eq!(format!("INBOX/{HELLO_SHA256}.eml"), sink.records[0].path);
    assert_eq!(b"hello".to_vec(), sink.records[0].data);
    assert_eq!(format!("Archive/{WORLD_SHA256}.eml"), sink.records[1].path);
    assert_eq!(b"world".to_vec(), sink.records[1].data);
}
