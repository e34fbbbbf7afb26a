//! Memory access records and the per-shard record that collects them.
//!
//! Every traced access to memory leaves one record: the address, the value
//! that was read or written, and the ordering key of the access, made of the
//! shard and the logical clock. The records of a shard, in the order in which
//! they were made, are what the memory-consistency argument of the proof
//! system later consumes.
use vstd::prelude::*;

verus! {

/// A traced read of one word.
#[derive(Debug, Copy, Clone, PartialEq, Eq, Structural)]
pub struct MemoryReadRecord {
    /// The address that was read.
    pub addr: u32,
    /// The value that the read observed.
    pub value: u32,
    /// The shard in which the read took place.
    pub shard: u32,
    /// The logical clock of the read.
    pub timestamp: u32,
}

/// A traced write of one word.
#[derive(Debug, Copy, Clone, PartialEq, Eq, Structural)]
pub struct MemoryWriteRecord {
    /// The address that was written.
    pub addr: u32,
    /// The value that the write stored.
    pub value: u32,
    /// The shard in which the write took place.
    pub shard: u32,
    /// The logical clock of the write.
    pub timestamp: u32,
}

/// A traced access to memory.
#[derive(Debug, Copy, Clone, PartialEq, Eq, Structural)]
pub enum MemoryRecord {
    /// A read.
    Read(MemoryReadRecord),
    /// A write.
    Write(MemoryWriteRecord),
}

impl MemoryReadRecord {
    /// Creates the record of a read.
    pub fn new(addr: u32, value: u32, shard: u32, timestamp: u32) -> (record: Self)
        ensures
            record == (MemoryReadRecord { addr, value, shard, timestamp }),
    {
        MemoryReadRecord { addr, value, shard, timestamp }
    }
}

impl MemoryWriteRecord {
    /// Creates the record of a write.
    pub fn new(addr: u32, value: u32, shard: u32, timestamp: u32) -> (record: Self)
        ensures
            record == (MemoryWriteRecord { addr, value, shard, timestamp }),
    {
        MemoryWriteRecord { addr, value, shard, timestamp }
    }
}

impl MemoryRecord {
    /// The address that the access touched.
    pub open spec fn spec_addr(self) -> u32 {
        match self {
            MemoryRecord::Read(r) => r.addr,
            MemoryRecord::Write(w) => w.addr,
        }
    }

    /// The value that the access observed or stored.
    pub open spec fn spec_value(self) -> u32 {
        match self {
            MemoryRecord::Read(r) => r.value,
            MemoryRecord::Write(w) => w.value,
        }
    }

    /// The shard of the access.
    pub open spec fn spec_shard(self) -> u32 {
        match self {
            MemoryRecord::Read(r) => r.shard,
            MemoryRecord::Write(w) => w.shard,
        }
    }

    /// The logical clock of the access.
    pub open spec fn spec_timestamp(self) -> u32 {
        match self {
            MemoryRecord::Read(r) => r.timestamp,
            MemoryRecord::Write(w) => w.timestamp,
        }
    }

    /// Whether the access is a write to `addr`.
    pub open spec fn writes_to(self, addr: u32) -> bool {
        self is Write && self.spec_addr() == addr
    }

    /// The address that the access touched.
    #[verifier::when_used_as_spec(spec_addr)]
    pub fn addr(self) -> (addr: u32)
        ensures
            addr == self.spec_addr(),
    {
        match self {
            MemoryRecord::Read(r) => r.addr,
            MemoryRecord::Write(w) => w.addr,
        }
    }

    /// The value that the access observed or stored.
    #[verifier::when_used_as_spec(spec_value)]
    pub fn value(self) -> (value: u32)
        ensures
            value == self.spec_value(),
    {
        match self {
            MemoryRecord::Read(r) => r.value,
            MemoryRecord::Write(w) => w.value,
        }
    }

    /// The shard of the access.
    #[verifier::when_used_as_spec(spec_shard)]
    pub fn shard(self) -> (shard: u32)
        ensures
            shard == self.spec_shard(),
    {
        match self {
            MemoryRecord::Read(r) => r.shard,
            MemoryRecord::Write(w) => w.shard,
        }
    }

    /// The logical clock of the access.
    #[verifier::when_used_as_spec(spec_timestamp)]
    pub fn timestamp(self) -> (timestamp: u32)
        ensures
            timestamp == self.spec_timestamp(),
    {
        match self {
            MemoryRecord::Read(r) => r.timestamp,
            MemoryRecord::Write(w) => w.timestamp,
        }
    }
}

/// The record of one shard: every traced memory access of the shard, in the
/// order in which it was made.
pub struct ExecutionRecord {
    memory_accesses: Vec<MemoryRecord>,
}

impl View for ExecutionRecord {
    type V = Seq<MemoryRecord>;

    closed spec fn view(&self) -> Seq<MemoryRecord> {
        self.memory_accesses@
    }
}

impl ExecutionRecord {
    /// A record that holds no access.
    pub fn new() -> (record: Self)
        ensures
            record@ == Seq::<MemoryRecord>::empty(),
    {
        ExecutionRecord { memory_accesses: Vec::new() }
    }

    /// The number of accesses recorded so far.
    pub fn len(&self) -> (n: usize)
        ensures
            n == self@.len(),
    {
        self.memory_accesses.len()
    }

    /// The access recorded at place `index`, if there is one.
    pub fn get(&self, index: usize) -> (record: Option<MemoryRecord>)
        ensures
            record == (if index < self@.len() {
                Some(self@[index as int])
            } else {
                None
            }),
    {
        if index < self.memory_accesses.len() {
            Some(self.memory_accesses[index])
        } else {
            None
        }
    }

    /// Appends one access to the record.
    pub(crate) fn push(&mut self, record: MemoryRecord)
        ensures
            final(self)@ == old(self)@.push(record),
    {
        self.memory_accesses.push(record);
    }
}

} // verus!
