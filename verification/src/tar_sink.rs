//! The streaming container: an archive sink that appends tar entries
//! and hands the produced stream bytes on to a byte sink as it goes,
//! so a run never holds more than one entry's stream in memory.
//!
//! The tar encoding produced here is deterministic — a zeroed GNU
//! header with only size, mode, path and checksum set, fixed padding,
//! and a fixed all-zero trailer — so the bytes an entry contributes are
//! a function of its path, contents and mode alone, named
//! [`tar_entry_encoding_of`].

use vstd::prelude::*;

use crate::archive::{ArchiveError, ArchiveSink, ByteSink, EntryModel};

verus! {

/// An in-progress tar stream. The tar builder inside appends entries
/// to an internal byte buffer that [`TarSink`] drains after every
/// entry; the type is opaque to verification and is only carried
/// between the trusted calls below.
#[verifier::external_body]
pub struct TarStream {
    builder: tar::Builder<Vec<u8>>,
}

/// The stream bytes produced and not yet taken out of the buffer.
pub uninterp spec fn tar_buffer_of(stream: TarStream) -> Seq<u8>;

/// Whether the stream's termination sections have been written.
pub uninterp spec fn tar_finished_of(stream: TarStream) -> bool;

/// The stream bytes one appended entry produces: header, contents and
/// padding. A function of path, contents and mode alone; what the
/// bytes are is left to the tar library.
pub uninterp spec fn tar_entry_encoding_of(path: Seq<char>, data: Seq<u8>, mode: u32) -> Seq<u8>;

/// The stream bytes a sequence of entries produces, in order.
pub open spec fn tar_encoding_of(entries: Seq<EntryModel>) -> Seq<u8>
    decreases entries.len(),
{
    if entries.len() == 0 {
        Seq::empty()
    } else {
        tar_encoding_of(entries.drop_last()) + tar_entry_encoding_of(
            entries.last().path,
            entries.last().data,
            entries.last().mode,
        )
    }
}

/// The stream's termination sections: two zeroed blocks.
pub open spec fn tar_trailer() -> Seq<u8> {
    Seq::new(1024, |i: int| 0u8)
}

pub proof fn lemma_tar_encoding_push(entries: Seq<EntryModel>, entry: EntryModel)
    ensures
        tar_encoding_of(entries.push(entry)) == tar_encoding_of(entries) + tar_entry_encoding_of(
            entry.path,
            entry.data,
            entry.mode,
        ),
{
    assert(entries.push(entry).drop_last() =~= entries);
    assert(entries.push(entry).last() == entry);
}

/// Relies on tar::Builder::new: a builder that appends the archive
/// stream to an internal buffer, which starts empty.
#[verifier::external_body]
fn tar_new() -> (stream: TarStream)
    ensures
        tar_buffer_of(stream) == Seq::<u8>::empty(),
        !tar_finished_of(stream),
{
    TarStream { builder: tar::Builder::new(Vec::new()) }
}

/// Relies on tar::Builder::append_data: on success it appends exactly
/// one entry's encoding to the buffer; on failure (a path the format
/// refuses, rejected before anything is written) the stream is
/// untouched and the error is reported. Writing into the in-memory
/// buffer itself cannot fail.
#[verifier::external_body]
fn tar_append(stream: &mut TarStream, path: &String, data: &Vec<u8>, mode: u32) -> (result: Result<
    (),
    ArchiveError,
>)
    ensures
        result is Ok ==> tar_buffer_of(*final (stream)) == tar_buffer_of(*old(stream))
            + tar_entry_encoding_of(path@, data@, mode),
        result is Err ==> tar_buffer_of(*final (stream)) == tar_buffer_of(*old(stream)),
        tar_finished_of(*final (stream)) == tar_finished_of(*old(stream)),
{
    let mut header = tar::Header::new_gnu();
    header.set_size(data.len() as u64);
    header.set_mode(mode);
    let path = std::path::Path::new(path.as_str());
    match stream.builder.append_data(&mut header, path, data.as_slice()) {
        Ok(()) => Ok(()),
        Err(error) => Err(ArchiveError::Write(format!("{error}"))),
    }
}

/// Relies on tar::Builder::finish: the first call appends the two
/// zeroed termination blocks to the buffer, a later call appends
/// nothing; writing into the in-memory buffer cannot fail.
#[verifier::external_body]
fn tar_finish(stream: &mut TarStream) -> (result: Result<(), ArchiveError>)
    ensures
        result is Ok,
        tar_finished_of(*final (stream)),
        !tar_finished_of(*old(stream)) ==> tar_buffer_of(*final (stream)) == tar_buffer_of(
            *old(stream),
        ) + tar_trailer(),
        tar_finished_of(*old(stream)) ==> tar_buffer_of(*final (stream)) == tar_buffer_of(
            *old(stream),
        ),
{
    match stream.builder.finish() {
        Ok(()) => Ok(()),
        Err(error) => Err(ArchiveError::Write(format!("{error}"))),
    }
}

/// Relies on tar::Builder::get_mut and std::mem::take: hands out the
/// stream bytes buffered since the last take, leaving the buffer empty.
#[verifier::external_body]
fn tar_take_buffer(stream: &mut TarStream) -> (chunk: Vec<u8>)
    ensures
        chunk@ == tar_buffer_of(*old(stream)),
        tar_buffer_of(*final (stream)) == Seq::<u8>::empty(),
        tar_finished_of(*final (stream)) == tar_finished_of(*old(stream)),
{
    std::mem::take(stream.builder.get_mut())
}

/// Append a copy of `src` to `dst`.
fn append_bytes(dst: &mut Vec<u8>, src: &Vec<u8>)
    ensures
        final (dst)@ == old(dst)@ + src@,
{
    let mut i: usize = 0;
    proof {
        assert(dst@ =~= old(dst)@ + src@.take(0));
    }
    while i < src.len()
        invariant
            i <= src@.len(),
            dst@ == old(dst)@ + src@.take(i as int),
        decreases src@.len() - i,
    {
        dst.push(src[i]);
        proof {
            assert(dst@ =~= old(dst)@ + src@.take(i + 1));
        }
        i = i + 1;
    }
    proof {
        assert(old(dst)@ + src@.take(src@.len() as int) =~= old(dst)@ + src@);
    }
}

/// An archive sink that streams entries through a tar container into
/// a byte sink. Stream bytes that the byte sink has not yet taken wait
/// in `pending`, so a refused flush loses nothing.
pub struct TarSink<B: ByteSink> {
    stream: TarStream,
    out: B,
    pending: Vec<u8>,
    accepted: Ghost<Seq<EntryModel>>,
}

impl<B: ByteSink> TarSink<B> {
    /// Whether the underlying byte sink ever refuses a write.
    pub closed spec fn out_infallible(&self) -> bool {
        self.out.infallible()
    }

    /// A sink streaming a tar container into the given byte sink,
    /// which must still be at the start of its output stream.
    pub fn new(out: B) -> (sink: TarSink<B>)
        requires
            out.received() == Seq::<u8>::empty(),
        ensures
            sink.entries() == Seq::<EntryModel>::empty(),
            sink.wf(),
            sink.out_infallible() == out.infallible(),
    {
        let sink = TarSink {
            stream: tar_new(),
            out,
            pending: Vec::new(),
            accepted: Ghost(Seq::empty()),
        };
        proof {
            assert(tar_encoding_of(sink.accepted@) =~= sink.out.received() + sink.pending@
                + tar_buffer_of(sink.stream));
        }
        sink
    }

    /// Finalize the container: write the termination sections and flush
    /// everything still pending into the byte sink, which is handed
    /// back. For a sink whose writes were all accepted, the byte sink
    /// has then received exactly the tar encoding of the accepted
    /// entries followed by the trailer.
    pub fn finish(self) -> (result: Result<B, ArchiveError>)
        ensures
            self.out_infallible() ==> result is Ok,
            self.wf() ==> (result matches Ok(out) ==> out.received() == tar_encoding_of(
                self.entries(),
            ) + tar_trailer()),
    {
        let TarSink { mut stream, mut out, mut pending, accepted } = self;
        match tar_finish(&mut stream) {
            Ok(()) => {},
            Err(error) => {
                return Err(error);
            },
        }
        let chunk = tar_take_buffer(&mut stream);
        append_bytes(&mut pending, &chunk);
        match out.write_all(&pending) {
            Ok(()) => {
                proof {
                    if self.wf() {
                        assert(out.received() =~= tar_encoding_of(accepted@) + tar_trailer());
                    }
                }
                Ok(out)
            },
            Err(cause) => Err(ArchiveError::Write(cause)),
        }
    }
}

impl<B: ByteSink> ArchiveSink for TarSink<B> {
    closed spec fn entries(&self) -> Seq<EntryModel> {
        self.accepted@
    }

    closed spec fn infallible(&self) -> bool {
        false
    }

    closed spec fn wf(&self) -> bool {
        &&& !tar_finished_of(self.stream)
        &&& tar_encoding_of(self.accepted@) == self.out.received() + self.pending@
            + tar_buffer_of(self.stream)
    }

    fn write_entry(&mut self, path: &String, data: &Vec<u8>, mode: u32) -> (result: Result<
        (),
        ArchiveError,
    >)
        ensures
            final (self).out_infallible() == old(self).out_infallible(),
    {
        let entry = Ghost(EntryModel { path: path@, data: data@, mode });
        match tar_append(&mut self.stream, path, data, mode) {
            Ok(()) => {},
            Err(error) => {
                return Err(error);
            },
        }
        let chunk = tar_take_buffer(&mut self.stream);
        append_bytes(&mut self.pending, &chunk);
        match self.out.write_all(&self.pending) {
            Ok(()) => {
                self.pending = Vec::new();
                proof {
                    self.accepted@ = self.accepted@.push(entry@);
                    lemma_tar_encoding_push(old(self).accepted@, entry@);
                    if old(self).wf() {
                        let produced = tar_entry_encoding_of(path@, data@, mode);
                        assert(self.out.received() =~= old(self).out.received() + (old(
                            self,
                        ).pending@ + (tar_buffer_of(old(self).stream) + produced)));
                        assert(tar_encoding_of(self.accepted@) =~= tar_encoding_of(
                            old(self).accepted@,
                        ) + produced);
                        assert(tar_encoding_of(old(self).accepted@) + produced =~= ((old(
                            self,
                        ).out.received() + old(self).pending@) + tar_buffer_of(old(self).stream))
                            + produced);
                        assert(tar_encoding_of(self.accepted@) =~= self.out.received()
                            + self.pending@ + tar_buffer_of(self.stream));
                    }
                }
                Ok(())
            },
            Err(cause) => Err(ArchiveError::Write(cause)),
        }
    }
}

} // verus!
