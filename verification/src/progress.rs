//! Progress and reporting: the pipeline keeps two monotonic counters,
//! one per message processed and one per folder, and forwards every
//! event to an injected display. A display that does nothing turns the
//! pipeline headless for test operation.

use vstd::prelude::*;

verus! {

/// Renders progress and report events; the pipeline claims nothing
/// about what a display does, so any renderer may stand here.
pub trait ProgressDisplay: Sized {
    /// A run over the given number of folders begins.
    fn start_folders(&mut self, total: u64);

    /// A folder with the given number of messages begins.
    fn start_messages(&mut self, total: u64);

    /// One message was processed, written or skipped.
    fn advance_message(&mut self);

    /// One folder was processed, copied or skipped.
    fn advance_folder(&mut self);

    /// The folder now being copied and its running byte total.
    fn label(&mut self, name: &str, bytes: u64);

    /// Message `index` of `count` was written with the given byte size.
    fn message_written(&mut self, index: u64, count: u64, size: u64);

    /// Message `index` of `count` had no retrievable body and was skipped.
    fn message_skipped(&mut self, index: u64, count: u64);

    /// Folder `index` of `count` was copied with the given byte total.
    fn folder_done(&mut self, index: u64, count: u64, name: &str, size: u64);

    /// Folder `index` of `count` could not be read and was skipped.
    fn folder_skipped(&mut self, index: u64, count: u64, name: &str, cause: &str);

    /// The current folder's messages are done.
    fn finish_messages(&mut self);

    /// The whole run is done.
    fn finish_folders(&mut self);
}

/// A display that renders nothing.
pub struct NullDisplay {
}

impl ProgressDisplay for NullDisplay {
    fn start_folders(&mut self, total: u64) {
    }

    fn start_messages(&mut self, total: u64) {
    }

    fn advance_message(&mut self) {
    }

    fn advance_folder(&mut self) {
    }

    fn label(&mut self, name: &str, bytes: u64) {
    }

    fn message_written(&mut self, index: u64, count: u64, size: u64) {
    }

    fn message_skipped(&mut self, index: u64, count: u64) {
    }

    fn folder_done(&mut self, index: u64, count: u64, name: &str, size: u64) {
    }

    fn folder_skipped(&mut self, index: u64, count: u64, name: &str, cause: &str) {
    }

    fn finish_messages(&mut self) {
    }

    fn finish_folders(&mut self) {
    }
}

/// The progress sink the pipeline drives: two counters it keeps itself,
/// and a display every event is forwarded to. The counters only ever
/// grow, by exactly one per message and per folder processed.
pub struct Progress<D: ProgressDisplay> {
    pub display: D,
    pub messages: u64,
    pub folders: u64,
}

impl<D: ProgressDisplay> Progress<D> {
    pub fn new(display: D) -> (progress: Progress<D>)
        ensures
            progress.messages == 0,
            progress.folders == 0,
    {
        Progress { display, messages: 0, folders: 0 }
    }

    pub fn start_folders(&mut self, total: u64)
        ensures
            final (self).messages == old(self).messages,
            final (self).folders == old(self).folders,
    {
        self.display.start_folders(total);
    }

    pub fn start_messages(&mut self, total: u64)
        ensures
            final (self).messages == old(self).messages,
            final (self).folders == old(self).folders,
    {
        self.display.start_messages(total);
    }

    /// Count one processed message.
    pub fn advance_message(&mut self)
        requires
            old(self).messages < u64::MAX,
        ensures
            final (self).messages == old(self).messages + 1,
            final (self).folders == old(self).folders,
    {
        self.messages = self.messages + 1;
        self.display.advance_message();
    }

    /// Count one processed folder.
    pub fn advance_folder(&mut self)
        requires
            old(self).folders < u64::MAX,
        ensures
            final (self).messages == old(self).messages,
            final (self).folders == old(self).folders + 1,
    {
        self.folders = self.folders + 1;
        self.display.advance_folder();
    }

    pub fn label(&mut self, name: &str, bytes: u64)
        ensures
            final (self).messages == old(self).messages,
            final (self).folders == old(self).folders,
    {
        self.display.label(name, bytes);
    }

    pub fn message_written(&mut self, index: u64, count: u64, size: u64)
        ensures
            final (self).messages == old(self).messages,
            final (self).folders == old(self).folders,
    {
        self.display.message_written(index, count, size);
    }

    pub fn message_skipped(&mut self, index: u64, count: u64)
        ensures
            final (self).messages == old(self).messages,
            final (self).folders == old(self).folders,
    {
        self.display.message_skipped(index, count);
    }

    pub fn folder_done(&mut self, index: u64, count: u64, name: &str, size: u64)
        ensures
            final (self).messages == old(self).messages,
            final (self).folders == old(self).folders,
    {
        self.display.folder_done(index, count, name, size);
    }

    pub fn folder_skipped(&mut self, index: u64, count: u64, name: &str, cause: &str)
        ensures
            final (self).messages == old(self).messages,
            final (self).folders == old(self).folders,
    {
        self.display.folder_skipped(index, count, name, cause);
    }

    pub fn finish_messages(&mut self)
        ensures
            final (self).messages == old(self).messages,
            final (self).folders == old(self).folders,
    {
        self.display.finish_messages();
    }

    pub fn finish_folders(&mut self)
        ensures
            final (self).messages == old(self).messages,
            final (self).folders == old(self).folders,
    {
        self.display.finish_folders();
    }
}

/// A progress sink that only counts: the headless substitute for a
/// live display.
pub fn counting_progress() -> (progress: Progress<NullDisplay>)
    ensures
        progress.messages == 0,
        progress.folders == 0,
{
    Progress::new(NullDisplay {  })
}

} // verus!
