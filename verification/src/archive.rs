//! The archive sink: the capability the message writer appends entries
//! through, modelled as the sequence of entries the sink has accepted.

use vstd::prelude::*;
use vstd::string::StringExecFns;

verus! {

/// One accepted archive entry: its path, its exact contents, and its
/// permission mode bits.
pub struct EntryModel {
    pub path: Seq<char>,
    pub data: Seq<u8>,
    pub mode: u32,
}

/// A failed archive write. Any such failure is fatal to the run: the
/// container can no longer be trusted once a write has gone wrong.
#[derive(Debug)]
pub enum ArchiveError {
    Write(String),
}

impl ArchiveError {
    /// The cause text carried by the error.
    pub fn message(&self) -> (cause: &String)
        ensures
            *self == ArchiveError::Write(*cause),
    {
        match self {
            ArchiveError::Write(cause) => cause,
        }
    }
}

/// An output container that accepts named entries one at a time.
///
/// `entries` is the sequence of writes the sink has accepted, in order.
/// A sink that reports `infallible` never refuses a write; an in-memory
/// sink is such, a sink backed by a real file is not.
pub trait ArchiveSink: Sized {
    spec fn entries(&self) -> Seq<EntryModel>;

    spec fn infallible(&self) -> bool;

    /// The sink's internal consistency: constructors establish it and
    /// every accepted write preserves it. After a refused write the
    /// container is no longer trustworthy, and nothing more is claimed.
    spec fn wf(&self) -> bool;

    /// Append one entry, tagged with the given permission mode bits.
    /// On success exactly the given entry is appended; on failure
    /// nothing is recorded as accepted.
    fn write_entry(&mut self, path: &String, data: &Vec<u8>, mode: u32) -> (result: Result<
        (),
        ArchiveError,
    >)
        requires
            mode <= 0o777,
        ensures
            result is Ok ==> final (self).entries() == old(self).entries().push(
                EntryModel { path: path@, data: data@, mode },
            ),
            result is Err ==> final (self).entries() == old(self).entries(),
            old(self).infallible() ==> result is Ok,
            final (self).infallible() == old(self).infallible(),
            old(self).wf() && result is Ok ==> final (self).wf(),
    ;
}

/// Where finished container bytes go: a plain byte stream, supplied by
/// the composition root (a file in the real program, a buffer in tests).
pub trait ByteSink: Sized {
    spec fn received(&self) -> Seq<u8>;

    /// Whether this byte sink ever refuses a write; an in-memory sink
    /// does not, one backed by a real file may.
    spec fn infallible(&self) -> bool;

    /// Append the bytes to the output stream. On success exactly these
    /// bytes follow what was received before; on failure nothing is
    /// recorded as received.
    fn write_all(&mut self, bytes: &Vec<u8>) -> (result: Result<(), String>)
        ensures
            result is Ok ==> final (self).received() == old(self).received() + bytes@,
            result is Err ==> final (self).received() == old(self).received(),
            old(self).infallible() ==> result is Ok,
            final (self).infallible() == old(self).infallible(),
    ;
}

/// A byte sink that keeps everything in memory and never fails.
pub struct MemByteSink {
    pub bytes: Vec<u8>,
}

impl MemByteSink {
    pub fn new() -> (sink: MemByteSink)
        ensures
            sink.received() == Seq::<u8>::empty(),
    {
        let sink = MemByteSink { bytes: Vec::new() };
        proof {
            assert(sink.received() =~= Seq::<u8>::empty());
        }
        sink
    }
}

impl ByteSink for MemByteSink {
    open spec fn received(&self) -> Seq<u8> {
        self.bytes@
    }

    open spec fn infallible(&self) -> bool {
        true
    }

    fn write_all(&mut self, bytes: &Vec<u8>) -> (result: Result<(), String>) {
        let mut i: usize = 0;
        proof {
            assert(self.bytes@ =~= old(self).bytes@ + bytes@.take(0));
        }
        while i < bytes.len()
            invariant
                i <= bytes@.len(),
                self.bytes@ == old(self).bytes@ + bytes@.take(i as int),
            decreases bytes@.len() - i,
        {
            self.bytes.push(bytes[i]);
            proof {
                assert(self.bytes@ =~= old(self).bytes@ + bytes@.take(i + 1));
            }
            i = i + 1;
        }
        proof {
            assert(old(self).bytes@ + bytes@.take(bytes@.len() as int) =~= old(self).bytes@
                + bytes@);
        }
        Ok(())
    }
}

/// One entry held in memory by [`MemSink`].
pub struct ArchiveRecord {
    pub path: String,
    pub data: Vec<u8>,
    pub mode: u32,
}

impl ArchiveRecord {
    pub open spec fn model(self) -> EntryModel {
        EntryModel { path: self.path@, data: self.data@, mode: self.mode }
    }
}

/// An in-memory archive: every accepted entry is kept as a record.
/// It never refuses a write, so it also serves headless operation.
pub struct MemSink {
    pub records: Vec<ArchiveRecord>,
}

impl MemSink {
    pub fn new() -> (sink: MemSink)
        ensures
            sink.entries() == Seq::<EntryModel>::empty(),
    {
        let sink = MemSink { records: Vec::new() };
        proof {
            assert(sink.entries() =~= Seq::<EntryModel>::empty());
        }
        sink
    }
}

impl ArchiveSink for MemSink {
    open spec fn entries(&self) -> Seq<EntryModel> {
        self.records@.map(|i: int, record: ArchiveRecord| record.model())
    }

    open spec fn infallible(&self) -> bool {
        true
    }

    open spec fn wf(&self) -> bool {
        true
    }

    fn write_entry(&mut self, path: &String, data: &Vec<u8>, mode: u32) -> (result: Result<
        (),
        ArchiveError,
    >)
    {
        let record = ArchiveRecord { path: path.clone(), data: clone_bytes(data), mode };
        self.records.push(record);
        proof {
            assert(self.entries() =~= old(self).entries().push(
                EntryModel { path: path@, data: data@, mode },
            ));
        }
        Ok(())
    }
}

/// A sink that accepts a fixed number of writes and refuses every write
/// after that budget is spent; it exercises the fatal-abort path.
pub struct FaultSink {
    pub records: Vec<ArchiveRecord>,
    pub budget: u64,
}

impl FaultSink {
    /// A sink whose first `budget` writes succeed and whose later writes
    /// all fail.
    pub fn new(budget: u64) -> (sink: FaultSink)
        ensures
            sink.entries() == Seq::<EntryModel>::empty(),
            sink.budget == budget,
    {
        let sink = FaultSink { records: Vec::new(), budget };
        proof {
            assert(sink.entries() =~= Seq::<EntryModel>::empty());
        }
        sink
    }
}

impl ArchiveSink for FaultSink {
    open spec fn entries(&self) -> Seq<EntryModel> {
        self.records@.map(|i: int, record: ArchiveRecord| record.model())
    }

    open spec fn infallible(&self) -> bool {
        false
    }

    open spec fn wf(&self) -> bool {
        true
    }

    fn write_entry(&mut self, path: &String, data: &Vec<u8>, mode: u32) -> (result: Result<
        (),
        ArchiveError,
    >)
        ensures
            result is Err <==> old(self).budget == 0,
            result is Ok ==> final (self).budget == old(self).budget - 1,
            result is Err ==> final (self).budget == old(self).budget,
    {
        if self.budget == 0 {
            return Err(ArchiveError::Write(String::from_str("write budget exhausted")));
        }
        self.budget = self.budget - 1;
        let record = ArchiveRecord { path: path.clone(), data: clone_bytes(data), mode };
        self.records.push(record);
        proof {
            assert(self.entries() =~= old(self).entries().push(
                EntryModel { path: path@, data: data@, mode },
            ));
        }
        Ok(())
    }
}

/// A byte-for-byte copy of a byte vector.
fn clone_bytes(bytes: &Vec<u8>) -> (copy: Vec<u8>)
    ensures
        copy@ == bytes@,
{
    let mut copy: Vec<u8> = Vec::new();
    let mut i: usize = 0;
    while i < bytes.len()
        invariant
            i <= bytes@.len(),
            copy@ == bytes@.take(i as int),
        decreases bytes@.len() - i,
    {
        copy.push(bytes[i]);
        proof {
            assert(copy@ =~= bytes@.take(i + 1));
        }
        i = i + 1;
    }
    proof {
        assert(bytes@.take(bytes@.len() as int) =~= bytes@);
    }
    copy
}

} // verus!
