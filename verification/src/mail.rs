//! The fetch-to-archive pipeline: writing one folder's messages into the
//! archive, and the orchestrator that drives folder after folder while
//! keeping the grand byte total.

use vstd::prelude::*;

use crate::archive::{ArchiveError, ArchiveSink, EntryModel};
use crate::fingerprint::{entry_path, entry_path_of};
use crate::progress::{Progress, ProgressDisplay};

verus! {

/// The permission mode bits every archive entry is tagged with.
pub const ENTRY_MODE: u32 = 0o755;

/// One fetched message: its raw body bytes, if the store could hand
/// them out. A missing body is a normal, non-fatal condition.
pub struct Message {
    pub body: Option<Vec<u8>>,
}

/// The bytes a message contributes to the folder total: its body
/// length, or zero when it has no body.
pub open spec fn message_size(message: Message) -> int {
    match message.body {
        Some(body) => body@.len() as int,
        None => 0,
    }
}

/// The byte total of a folder's message batch: every present body
/// counts, whether or not its content duplicates an earlier one.
pub open spec fn folder_bytes(messages: Seq<Message>) -> int
    decreases messages.len(),
{
    if messages.len() == 0 {
        0
    } else {
        folder_bytes(messages.drop_last()) + message_size(messages.last())
    }
}

/// Whether some entry of the sequence carries the given path.
pub open spec fn contains_path(entries: Seq<EntryModel>, path: Seq<char>) -> bool {
    exists|i: int| 0 <= i < entries.len() && entries[i].path == path
}

/// The archive entries a folder's message batch produces, in order:
/// one entry per retrievable body, except that a body whose entry path
/// already appeared earlier in the same folder is skipped, never
/// written a second time.
pub open spec fn folder_entries(folder: Seq<char>, messages: Seq<Message>) -> Seq<EntryModel>
    decreases messages.len(),
{
    if messages.len() == 0 {
        Seq::empty()
    } else {
        let rest = folder_entries(folder, messages.drop_last());
        match messages.last().body {
            None => rest,
            Some(body) => if contains_path(rest, entry_path_of(folder, body@)) {
                rest
            } else {
                rest.push(
                    EntryModel {
                        path: entry_path_of(folder, body@),
                        data: body@,
                        mode: ENTRY_MODE,
                    },
                )
            },
        }
    }
}

/// A folder's byte total is never negative.
pub proof fn lemma_folder_bytes_nonneg(messages: Seq<Message>)
    ensures
        folder_bytes(messages) >= 0,
    decreases messages.len(),
{
    if messages.len() > 0 {
        lemma_folder_bytes_nonneg(messages.drop_last());
    }
}

proof fn lemma_folder_bytes_take_step(messages: Seq<Message>, i: int)
    requires
        0 <= i < messages.len(),
    ensures
        folder_bytes(messages.take(i + 1)) == folder_bytes(messages.take(i)) + message_size(
            messages[i],
        ),
{
    assert(messages.take(i + 1).drop_last() =~= messages.take(i));
    assert(messages.take(i + 1).last() == messages[i]);
}

/// Growing the processed prefix never shrinks the byte total.
pub proof fn lemma_folder_bytes_take_le(messages: Seq<Message>, i: int)
    requires
        0 <= i <= messages.len(),
    ensures
        folder_bytes(messages.take(i)) <= folder_bytes(messages),
    decreases messages.len() - i,
{
    if i == messages.len() {
        assert(messages.take(i) =~= messages);
    } else {
        lemma_folder_bytes_take_step(messages, i);
        lemma_folder_bytes_take_le(messages, i + 1);
    }
}

proof fn lemma_folder_entries_take_step(folder: Seq<char>, messages: Seq<Message>, i: int)
    requires
        0 <= i < messages.len(),
    ensures
        folder_entries(folder, messages.take(i + 1)) == (match messages[i].body {
            None => folder_entries(folder, messages.take(i)),
            Some(body) => if contains_path(
                folder_entries(folder, messages.take(i)),
                entry_path_of(folder, body@),
            ) {
                folder_entries(folder, messages.take(i))
            } else {
                folder_entries(folder, messages.take(i)).push(
                    EntryModel {
                        path: entry_path_of(folder, body@),
                        data: body@,
                        mode: ENTRY_MODE,
                    },
                )
            },
        }),
{
    assert(messages.take(i + 1).drop_last() =~= messages.take(i));
    assert(messages.take(i + 1).last() == messages[i]);
}

/// No two entries of a folder's batch ever carry the same path: a
/// duplicate body never produces a second distinct entry.
pub proof fn lemma_folder_entries_no_duplicate_paths(folder: Seq<char>, messages: Seq<Message>)
    ensures
        forall|i: int, j: int|
            0 <= i < j < folder_entries(folder, messages).len() ==> folder_entries(
                folder,
                messages,
            )[i].path != folder_entries(folder, messages)[j].path,
    decreases messages.len(),
{
    if messages.len() > 0 {
        let rest = folder_entries(folder, messages.drop_last());
        let cur = folder_entries(folder, messages);
        lemma_folder_entries_no_duplicate_paths(folder, messages.drop_last());
        assert forall|i: int, j: int| 0 <= i < j < cur.len() implies cur[i].path != cur[j].path by {
            if j >= rest.len() {
                assert(cur != rest);
                assert(!contains_path(rest, cur[j].path));
                assert(cur[i] == rest[i]);
            }
        }
    }
}

proof fn lemma_paths_track_push(seen: Seq<String>, entries: Seq<EntryModel>, s: String, e: EntryModel)
    requires
        seen.map_values(|x: String| x@) == entries.map_values(|x: EntryModel| x.path),
        s@ == e.path,
    ensures
        seen.push(s).map_values(|x: String| x@) == entries.push(e).map_values(
            |x: EntryModel| x.path,
        ),
{
    let a = seen.push(s).map_values(|x: String| x@);
    let b = entries.push(e).map_values(|x: EntryModel| x.path);
    assert(seen.len() == entries.len()) by {
        assert(seen.map_values(|x: String| x@).len() == seen.len());
        assert(entries.map_values(|x: EntryModel| x.path).len() == entries.len());
    }
    assert forall|idx: int| 0 <= idx < a.len() implies #[trigger] a[idx] == b[idx] by {
        if idx < seen.len() {
            assert(seen.map_values(|x: String| x@)[idx] == seen[idx]@);
            assert(entries.map_values(|x: EntryModel| x.path)[idx] == entries[idx].path);
        }
    }
    assert(a =~= b);
}

/// Whether the path is already among the remembered entry paths.
fn contains_string(seen: &Vec<String>, path: &String) -> (found: bool)
    ensures
        found == exists|j: int| 0 <= j < seen@.len() && seen@[j]@ == path@,
{
    let mut j: usize = 0;
    while j < seen.len()
        invariant
            j <= seen@.len(),
            forall|k: int| 0 <= k < j ==> seen@[k]@ != path@,
        decreases seen@.len() - j,
    {
        if seen[j].eq(path) {
            proof {
                assert(seen@[j as int]@ == path@);
            }
            return true;
        }
        j = j + 1;
    }
    false
}

/// Write one folder's fetched messages into the archive.
///
/// Each message with a retrievable body is fingerprinted and written
/// under `<folder>/<fingerprint>.eml` with mode bits 0755, except that
/// a path already written for this folder is skipped; its size still
/// counts toward the returned byte total. A message without a body is
/// skipped and reported, not an error. The first refused archive write
/// aborts with that error: nothing later is processed.
pub fn write_messages<S: ArchiveSink, D: ProgressDisplay>(
    messages: &Vec<Message>,
    name: &str,
    progress: &mut Progress<D>,
    sink: &mut S,
) -> (result: Result<u64, ArchiveError>)
    requires
        folder_bytes(messages@) <= u64::MAX,
        old(progress).messages + messages@.len() <= u64::MAX,
    ensures
        final (progress).folders == old(progress).folders,
        final (sink).infallible() == old(sink).infallible(),
        old(sink).wf() && result is Ok ==> final (sink).wf(),
        result matches Ok(total) ==> {
            &&& total as int == folder_bytes(messages@)
            &&& final (sink).entries() == old(sink).entries() + folder_entries(name@, messages@)
            &&& final (progress).messages == old(progress).messages
                + messages@.len()
        },
        old(sink).infallible() ==> result is Ok,
        result is Err ==> exists|k: int|
            0 <= k < messages@.len() && messages@[k].body is Some && final (sink).entries() == old(
                sink,
            ).entries() + folder_entries(name@, messages@.take(k)) && final (progress).messages
                == old(progress).messages + k,
{
    let count: u64 = messages.len() as u64;
    progress.start_messages(count);
    let mut total: u64 = 0;
    let mut seen: Vec<String> = Vec::new();
    let mut i: usize = 0;
    proof {
        assert(messages@.take(0) =~= Seq::<Message>::empty());
        assert(seen@.map_values(|s: String| s@) =~= folder_entries(
            name@,
            messages@.take(0),
        ).map_values(|e: EntryModel| e.path));
    }
    while i < messages.len()
        invariant
            i <= messages@.len(),
            folder_bytes(messages@) <= u64::MAX,
            old(progress).messages + messages@.len() <= u64::MAX,
            total as int == folder_bytes(messages@.take(i as int)),
            sink.entries() == old(sink).entries() + folder_entries(
                name@,
                messages@.take(i as int),
            ),
            sink.infallible() == old(sink).infallible(),
            old(sink).wf() ==> sink.wf(),
            seen@.map_values(|s: String| s@) == folder_entries(
                name@,
                messages@.take(i as int),
            ).map_values(|e: EntryModel| e.path),
            progress.messages == old(progress).messages + i,
            progress.folders == old(progress).folders,
        decreases messages@.len() - i,
    {
        let ghost prefix = folder_entries(name@, messages@.take(i as int));
        let index: u64 = (i as u64) + 1;
        let message = &messages[i];
        match &message.body {
            Some(body) => {
                let path = entry_path(name, body);
                let already = contains_string(&seen, &path);
                proof {
                    let seen_paths = seen@.map_values(|s: String| s@);
                    let prefix_paths = prefix.map_values(|e: EntryModel| e.path);
                    assert(seen_paths.len() == seen@.len());
                    assert(prefix_paths.len() == prefix.len());
                    assert(contains_path(prefix, path@) == already) by {
                        if already {
                            let j = choose|j: int|
                                0 <= j < seen@.len() && seen@[j]@ == path@;
                            assert(seen_paths[j] == seen@[j]@);
                            assert(prefix_paths[j] == prefix[j].path);
                            assert(prefix[j].path == path@);
                        } else {
                            if contains_path(prefix, path@) {
                                let j = choose|j: int|
                                    0 <= j < prefix.len() && prefix[j].path == path@;
                                assert(prefix_paths[j] == prefix[j].path);
                                assert(seen_paths[j] == seen@[j]@);
                                assert(seen@[j]@ == path@);
                            }
                        }
                    }
                    lemma_folder_entries_take_step(name@, messages@, i as int);
                }
                if !already {
                    match sink.write_entry(&path, body, ENTRY_MODE) {
                        Ok(()) => {},
                        Err(error) => {
                            proof {
                                assert(final (sink).entries() == old(sink).entries()
                                    + folder_entries(name@, messages@.take(i as int)));
                            }
                            return Err(error);
                        },
                    }
                    let ghost seen_before = seen@;
                    seen.push(path);
                    proof {
                        let entry = EntryModel { path: path@, data: body@, mode: ENTRY_MODE };
                        let extended = folder_entries(name@, messages@.take(i + 1));
                        assert(extended == prefix.push(entry));
                        assert(sink.entries() =~= old(sink).entries() + extended);
                        assert(seen@ == seen_before.push(path));
                        lemma_paths_track_push(seen_before, prefix, path, entry);
                    }
                } else {
                    proof {
                        assert(folder_entries(name@, messages@.take(i + 1)) == prefix);
                    }
                }
                let size: u64 = body.len() as u64;
                proof {
                    lemma_folder_bytes_take_step(messages@, i as int);
                    lemma_folder_bytes_take_le(messages@, i + 1);
                    lemma_folder_bytes_nonneg(messages@.take(i as int));
                }
                total = total + size;
                progress.message_written(index, count, size);
                progress.label(name, total);
            },
            None => {
                progress.message_skipped(index, count);
                proof {
                    lemma_folder_entries_take_step(name@, messages@, i as int);
                    lemma_folder_bytes_take_step(messages@, i as int);
                }
            },
        }
        progress.advance_message();
        i = i + 1;
    }
    progress.finish_messages();
    proof {
        assert(messages@.take(messages@.len() as int) =~= messages@);
    }
    Ok(total)
}

/// The orchestrator of one backup run: it owns the archive sink and the
/// grand byte total, and absorbs folder-level failures so that only a
/// refused archive write aborts the run.
pub struct Backup<S: ArchiveSink> {
    sink: S,
    total: u64,
    folders_done: u64,
    folder_count: u64,
}

impl<S: ArchiveSink> Backup<S> {
    /// Every entry the archive has accepted so far.
    pub closed spec fn entries(&self) -> Seq<EntryModel> {
        self.sink.entries()
    }

    /// The grand total of bytes written so far.
    pub closed spec fn total_spec(&self) -> int {
        self.total as int
    }

    pub closed spec fn folders_done_spec(&self) -> int {
        self.folders_done as int
    }

    pub closed spec fn folder_count_spec(&self) -> int {
        self.folder_count as int
    }

    pub closed spec fn infallible(&self) -> bool {
        self.sink.infallible()
    }

    /// The archive sink's internal consistency, as the sink defines it.
    pub closed spec fn sink_wf(&self) -> bool {
        self.sink.wf()
    }

    /// A fresh run over `folder_count` folders, writing into `sink`.
    pub fn new(sink: S, folder_count: u64) -> (run: Backup<S>)
        ensures
            run.entries() == sink.entries(),
            run.infallible() == sink.infallible(),
            run.sink_wf() == sink.wf(),
            run.total_spec() == 0,
            run.folders_done_spec() == 0,
            run.folder_count_spec() == folder_count as int,
    {
        Backup { sink, total: 0, folders_done: 0, folder_count }
    }

    pub fn total(&self) -> (total: u64)
        ensures
            total as int == self.total_spec(),
    {
        self.total
    }

    pub fn folders_done(&self) -> (done: u64)
        ensures
            done as int == self.folders_done_spec(),
    {
        self.folders_done
    }

    /// Hand the archive sink back, for the caller to finalize.
    pub fn into_sink(self) -> (sink: S)
        ensures
            sink.entries() == self.entries(),
            sink.infallible() == self.infallible(),
            sink.wf() == self.sink_wf(),
    {
        self.sink
    }

    /// Process one folder of the run.
    ///
    /// `fetched` is what the mail store handed back for this folder:
    /// its message batch, or the cause text of a selection or fetch
    /// failure. A failed fetch is non-fatal: it is reported, the folder
    /// contributes zero bytes, and the run may continue. Only a refused
    /// archive write is returned as an error; the grand total then
    /// keeps its old value and nothing later was processed.
    pub fn process_folder<D: ProgressDisplay>(
        &mut self,
        name: &str,
        fetched: Result<Vec<Message>, String>,
        progress: &mut Progress<D>,
    ) -> (result: Result<u64, ArchiveError>)
        requires
            fetched matches Ok(msgs) ==> {
                &&& old(self).total_spec() + folder_bytes(msgs@) <= u64::MAX
                &&& old(progress).messages + msgs@.len() <= u64::MAX
            },
            old(progress).folders < u64::MAX,
            old(self).folders_done_spec() < u64::MAX,
        ensures
            final (self).infallible() == old(self).infallible(),
            final (self).folder_count_spec() == old(self).folder_count_spec(),
            old(self).sink_wf() && result is Ok ==> final (self).sink_wf(),
            final (progress).folders <= old(progress).folders + 1,
            result is Ok ==> {
                &&& final (self).total_spec() >= old(self).total_spec()
                &&& final (self).folders_done_spec() == old(self).folders_done_spec() + 1
                &&& final (progress).folders == old(progress).folders
                    + 1
            },
            fetched matches Err(cause) ==> {
                &&& result == Ok::<u64, ArchiveError>(0u64)
                &&& final (self).total_spec() == old(self).total_spec()
                &&& final (self).entries() == old(self).entries()
                &&& final (progress).messages == old(progress).messages
            },
            fetched matches Ok(msgs) ==> {
                &&& (result matches Ok(size) ==> {
                    &&& size as int == folder_bytes(msgs@)
                    &&& final (self).total_spec() == old(self).total_spec() + size as int
                    &&& final (self).entries() == old(self).entries() + folder_entries(
                        name@,
                        msgs@,
                    )
                    &&& final (progress).messages == old(progress).messages + msgs@.len()
                })
                &&& (old(self).infallible() ==> result is Ok)
                &&& (result is Err ==> {
                    &&& final (self).total_spec() == old(self).total_spec()
                    &&& final (self).folders_done_spec() == old(self).folders_done_spec()
                    &&& exists|k: int|
                        0 <= k < msgs@.len() && msgs@[k].body is Some && final (self).entries()
                            == old(self).entries() + folder_entries(name@, msgs@.take(k))
                })
            },
    {
        let index: u64 = self.folders_done + 1;
        let count: u64 = self.folder_count;
        match fetched {
            Ok(msgs) => {
                progress.label(name, self.total);
                proof {
                    lemma_folder_bytes_nonneg(msgs@);
                }
                match write_messages(&msgs, name, progress, &mut self.sink) {
                    Ok(size) => {
                        self.total = self.total + size;
                        progress.folder_done(index, count, name, size);
                        self.folders_done = self.folders_done + 1;
                        progress.advance_folder();
                        Ok(size)
                    },
                    Err(error) => Err(error),
                }
            },
            Err(cause) => {
                progress.folder_skipped(index, count, name, cause.as_str());
                self.folders_done = self.folders_done + 1;
                progress.advance_folder();
                Ok(0)
            },
        }
    }
}

} // verus!
