//! The random-access container: an archive sink that collects entries
//! into a zip container. A zip index needs seeking, so the container
//! is assembled in memory and handed out as bytes when finalized.
//!
//! The container built here is deterministic: the entry options are
//! fixed (deflate, the library's constant default timestamp — the zip
//! time feature is off — and the given mode bits), and the writer fills
//! an in-memory buffer. So the finished container bytes are a function
//! of the accepted entries alone, named [`zip_container_of`].

use vstd::prelude::*;

use crate::archive::{ArchiveError, ArchiveSink, EntryModel};

verus! {

/// An in-progress zip container; opaque to verification and only
/// carried between the trusted calls below.
#[verifier::external_body]
pub struct ZipStream {
    writer: zip::ZipWriter<std::io::Cursor<Vec<u8>>>,
}

/// The entries the container records, in the order they were accepted.
pub uninterp spec fn zip_contents_of(stream: ZipStream) -> Seq<EntryModel>;

/// The finished container bytes for a sequence of recorded entries;
/// what the bytes are is left to the zip library, but with the fixed
/// options used here they depend on the entries alone.
pub uninterp spec fn zip_container_of(entries: Seq<EntryModel>) -> Seq<u8>;

/// Relies on zip::ZipWriter::new: a writer that builds the container
/// in an internal seekable buffer, recording no entries yet.
#[verifier::external_body]
fn zip_new() -> (stream: ZipStream)
    ensures
        zip_contents_of(stream) == Seq::<EntryModel>::empty(),
{
    ZipStream { writer: zip::ZipWriter::new(std::io::Cursor::new(Vec::new())) }
}

/// Relies on zip::ZipWriter::start_file and std::io::Write::write_all:
/// on success exactly one entry under the given name, with the given
/// contents and unix mode bits, is recorded; on failure (a name the
/// container refuses, rejected before it is recorded — writes into the
/// in-memory buffer cannot fail) nothing is recorded and the error is
/// reported. The container keeps only the nine permission bits of the
/// mode, so modes above them are left out; entries are written in
/// zip64 form, so no entry size makes a write or the finish fail.
#[verifier::external_body]
fn zip_append(stream: &mut ZipStream, path: &String, data: &Vec<u8>, mode: u32) -> (result: Result<
    (),
    ArchiveError,
>)
    requires
        mode <= 0o777,
    ensures
        result is Ok ==> zip_contents_of(*final (stream)) == zip_contents_of(*old(stream)).push(
            EntryModel { path: path@, data: data@, mode },
        ),
        result is Err ==> zip_contents_of(*final (stream)) == zip_contents_of(*old(stream)),
{
    let options = zip::write::SimpleFileOptions::default().large_file(true).unix_permissions(mode);
    if let Err(error) = stream.writer.start_file(path.as_str(), options) {
        return Err(ArchiveError::Write(format!("{error}")));
    }
    match std::io::Write::write_all(&mut stream.writer, data.as_slice()) {
        Ok(()) => Ok(()),
        Err(error) => Err(ArchiveError::Write(format!("{error}"))),
    }
}

/// Relies on zip::ZipWriter::finish: writes the central directory into
/// the in-memory buffer, which cannot fail, and hands the finished
/// container bytes back — a function of the recorded entries alone
/// under the fixed options used here.
#[verifier::external_body]
fn zip_finish(stream: ZipStream) -> (result: Result<Vec<u8>, ArchiveError>)
    ensures
        result is Ok,
        result matches Ok(bytes) ==> bytes@ == zip_container_of(zip_contents_of(stream)),
{
    match stream.writer.finish() {
        Ok(cursor) => Ok(cursor.into_inner()),
        Err(error) => Err(ArchiveError::Write(format!("{error}"))),
    }
}

/// An archive sink that collects entries into a zip container.
pub struct ZipSink {
    stream: ZipStream,
}

impl ZipSink {
    /// A sink assembling a zip container in memory.
    pub fn new() -> (sink: ZipSink)
        ensures
            sink.entries() == Seq::<EntryModel>::empty(),
            sink.wf(),
    {
        ZipSink { stream: zip_new() }
    }

    /// Finalize the container: write its index and hand the finished
    /// container bytes back for the caller to store. The bytes are
    /// exactly the container encoding of the accepted entries.
    pub fn finish(self) -> (result: Result<Vec<u8>, ArchiveError>)
        ensures
            result is Ok,
            result matches Ok(bytes) ==> bytes@ == zip_container_of(self.entries()),
    {
        zip_finish(self.stream)
    }
}

impl ArchiveSink for ZipSink {
    closed spec fn entries(&self) -> Seq<EntryModel> {
        zip_contents_of(self.stream)
    }

    closed spec fn infallible(&self) -> bool {
        false
    }

    closed spec fn wf(&self) -> bool {
        true
    }

    fn write_entry(&mut self, path: &String, data: &Vec<u8>, mode: u32) -> (result: Result<
        (),
        ArchiveError,
    >) {
        zip_append(&mut self.stream, path, data, mode)
    }
}

} // verus!
