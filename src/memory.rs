//! Word-addressed memory with the access records the memory-consistency
//! argument consumes.
use std::collections::HashMap;
use vstd::prelude::*;

verus! {

broadcast use vstd::std_specs::hash::group_hash_axioms;

/// The lowest address of main memory; lower addresses name registers.
pub const FIRST_MEMORY_ADDR: u32 = 32;

/// An address that a syscall may read or write: word-aligned, past the registers.
pub open spec fn valid_addr(addr: u32) -> bool {
    addr % 4 == 0 && addr >= FIRST_MEMORY_ADDR
}

/// Tells whether `addr` is a valid word address of main memory.
pub fn is_valid_addr(addr: u32) -> (r: bool)
    ensures
        r == valid_addr(addr),
{
    addr % 4 == 0 && addr >= FIRST_MEMORY_ADDR
}

/// The state of one memory word: its value and the time of its last access.
#[derive(Clone, Copy, Debug, Default, PartialEq, Eq)]
pub struct MemoryRecord {
    pub shard: u32,
    pub timestamp: u32,
    pub value: u32,
}

/// A read of one word: the value read, when it was read, and when the word
/// was last accessed before that.
#[derive(Clone, Copy, Debug, Default, PartialEq, Eq)]
pub struct MemoryReadRecord {
    pub value: u32,
    pub shard: u32,
    pub timestamp: u32,
    pub prev_shard: u32,
    pub prev_timestamp: u32,
}

/// A write of one word: the value written, the value it replaced, when it was
/// written, and when the word was last accessed before that.
#[derive(Clone, Copy, Debug, Default, PartialEq, Eq)]
pub struct MemoryWriteRecord {
    pub value: u32,
    pub shard: u32,
    pub timestamp: u32,
    pub prev_value: u32,
    pub prev_shard: u32,
    pub prev_timestamp: u32,
}

/// The first and the last access of one address within a shard.
#[derive(Clone, Copy, Debug, Default, PartialEq, Eq)]
pub struct MemoryLocalEvent {
    pub addr: u32,
    pub initial_mem_access: MemoryRecord,
    pub final_mem_access: MemoryRecord,
}

/// The state of a word never accessed: value zero at time zero.
pub open spec fn untouched() -> MemoryRecord {
    MemoryRecord { shard: 0, timestamp: 0, value: 0 }
}

/// The record that a read of a word in state `prev` at `(shard, timestamp)` yields.
pub open spec fn read_record(prev: MemoryRecord, shard: u32, timestamp: u32) -> MemoryReadRecord {
    MemoryReadRecord {
        value: prev.value,
        shard,
        timestamp,
        prev_shard: prev.shard,
        prev_timestamp: prev.timestamp,
    }
}

/// The record that a write of `value` over a word in state `prev` yields.
pub open spec fn write_record(
    prev: MemoryRecord,
    value: u32,
    shard: u32,
    timestamp: u32,
) -> MemoryWriteRecord {
    MemoryWriteRecord {
        value,
        shard,
        timestamp,
        prev_value: prev.value,
        prev_shard: prev.shard,
        prev_timestamp: prev.timestamp,
    }
}

/// The memory image: the state of each word that has been accessed.
pub struct Memory {
    entries: HashMap<u32, MemoryRecord>,
}

impl View for Memory {
    type V = Map<u32, MemoryRecord>;

    closed spec fn view(&self) -> Map<u32, MemoryRecord> {
        self.entries@
    }
}

impl Memory {
    /// The state of the word at `addr`.
    pub open spec fn record_at(self, addr: u32) -> MemoryRecord {
        if self@.contains_key(addr) {
            self@[addr]
        } else {
            untouched()
        }
    }

    /// The value of the word at `addr`.
    pub open spec fn value_at(self, addr: u32) -> u32 {
        self.record_at(addr).value
    }

    /// An empty memory image: every word holds zero.
    pub fn new() -> (m: Memory)
        ensures
            m@ == Map::<u32, MemoryRecord>::empty(),
    {
        Memory { entries: HashMap::new() }
    }

    /// The state of the word at `addr`.
    pub fn record(&self, addr: u32) -> (r: MemoryRecord)
        ensures
            r == self.record_at(addr),
    {
        match self.entries.get(&addr) {
            Some(r) => *r,
            None => MemoryRecord { shard: 0, timestamp: 0, value: 0 },
        }
    }

    /// The value of the word at `addr`.
    pub fn value(&self, addr: u32) -> (r: u32)
        ensures
            r == self.value_at(addr),
    {
        self.record(addr).value
    }

    /// Sets the value of the word at `addr`, as at time zero, as a program
    /// image does before execution starts.
    pub fn init(&mut self, addr: u32, value: u32)
        ensures
            final(self)@ == old(self)@.insert(
                addr,
                MemoryRecord { shard: 0, timestamp: 0, value },
            ),
    {
        self.entries.insert(addr, MemoryRecord { shard: 0, timestamp: 0, value });
    }

    /// Reads the word at `addr` at `(shard, timestamp)`; the word keeps its
    /// value and takes the new access time.
    pub fn read(&mut self, addr: u32, shard: u32, timestamp: u32) -> (r: MemoryReadRecord)
        ensures
            r == read_record(old(self).record_at(addr), shard, timestamp),
            final(self)@ == old(self)@.insert(
                addr,
                MemoryRecord { shard, timestamp, value: old(self).value_at(addr) },
            ),
    {
        let prev = self.record(addr);
        self.entries.insert(addr, MemoryRecord { shard, timestamp, value: prev.value });
        MemoryReadRecord {
            value: prev.value,
            shard,
            timestamp,
            prev_shard: prev.shard,
            prev_timestamp: prev.timestamp,
        }
    }

    /// Writes `value` to the word at `addr` at `(shard, timestamp)`.
    pub fn write(&mut self, addr: u32, value: u32, shard: u32, timestamp: u32) -> (r:
        MemoryWriteRecord)
        ensures
            r == write_record(old(self).record_at(addr), value, shard, timestamp),
            final(self)@ == old(self)@.insert(addr, MemoryRecord { shard, timestamp, value }),
    {
        let prev = self.record(addr);
        self.entries.insert(addr, MemoryRecord { shard, timestamp, value });
        MemoryWriteRecord {
            value,
            shard,
            timestamp,
            prev_value: prev.value,
            prev_shard: prev.shard,
            prev_timestamp: prev.timestamp,
        }
    }
}

} // verus!
