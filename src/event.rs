//! The events that execution leaves for the prover, and the per-shard record
//! that holds them.
use crate::memory::{MemoryLocalEvent, MemoryReadRecord, MemoryWriteRecord};
use vstd::prelude::*;

verus! {

/// Correlates a precompile event with the syscall instruction that issued it.
pub type LookupId = u64;

/// The square of `x` as 32-bit multiplication defines it: reduced modulo 2^32.
pub open spec fn square(x: u32) -> u32 {
    ((x as nat * x as nat) % 0x1_0000_0000) as u32
}

/// The square of `x`, wrapping on overflow.
pub fn square_u32(x: u32) -> (r: u32)
    ensures
        r == square(x),
{
    let w: u64 = x as u64;
    assert(w * w <= 0xffff_fffe_0000_0001) by (nonlinear_arith)
        requires
            w <= 0xffff_ffff,
    ;
    ((w * w) % 0x1_0000_0000) as u32
}

/// One execution of the square precompile.
#[derive(Clone, Debug, Default)]
pub struct SquareEvent {
    /// The lookup identifier.
    pub lookup_id: LookupId,
    /// The shard number.
    pub shard: u32,
    /// The clock cycle at the start of the call.
    pub clk: u32,
    /// The pointer to the input.
    pub input_ptr: u32,
    /// The pointer to the output.
    pub output_ptr: u32,
    /// The input value.
    pub input: u32,
    /// The output value.
    pub output: u32,
    /// The read of the input word.
    pub input_memory_record: MemoryReadRecord,
    /// The write of the output word.
    pub output_memory_record: MemoryWriteRecord,
    /// Local memory accesses.
    pub local_mem_access: Vec<MemoryLocalEvent>,
}

impl SquareEvent {
    /// What every event that execution emits satisfies: the output is the
    /// square of the input, the input was read at `clk` and the output written
    /// one cycle later, both in the event's shard.
    pub open spec fn wf(&self) -> bool {
        &&& self.output == square(self.input)
        &&& self.input_memory_record.value == self.input
        &&& self.input_memory_record.shard == self.shard
        &&& self.input_memory_record.timestamp == self.clk
        &&& self.output_memory_record.value == self.output
        &&& self.output_memory_record.shard == self.shard
        &&& self.output_memory_record.timestamp == self.clk + 1
    }
}

/// An event of a precompile, tagged by its kind.
#[derive(Clone, Debug)]
pub enum PrecompileEvent {
    Square(SquareEvent),
}

impl PrecompileEvent {
    /// The square event this event carries.
    pub open spec fn square_event(self) -> SquareEvent {
        match self {
            PrecompileEvent::Square(e) => e,
        }
    }
}

/// The syscall instruction as the CPU saw it.
#[derive(Clone, Copy, Debug, Default, PartialEq, Eq)]
pub struct SyscallEvent {
    pub shard: u32,
    pub clk: u32,
    pub arg1: u32,
    pub arg2: u32,
    pub lookup_id: LookupId,
}

/// The events of one shard for the square syscall, in execution order.
pub struct ExecutionRecord {
    pub precompile_events: Vec<(SyscallEvent, PrecompileEvent)>,
}

impl ExecutionRecord {
    /// The square events of the record, in execution order.
    pub open spec fn events(self) -> Seq<(SyscallEvent, PrecompileEvent)> {
        self.precompile_events@
    }

    /// Every event of the record is well formed.
    pub open spec fn wf(self) -> bool {
        forall|i: int| 0 <= i < self.events().len() ==> (#[trigger] self.events()[i]).1.square_event().wf()
    }

    /// A record with no events.
    pub fn new() -> (r: ExecutionRecord)
        ensures
            r.events() == Seq::<(SyscallEvent, PrecompileEvent)>::empty(),
            r.wf(),
    {
        ExecutionRecord { precompile_events: Vec::new() }
    }

    /// The events of the square syscall, in execution order.
    pub fn get_precompile_events(&self) -> (r: &Vec<(SyscallEvent, PrecompileEvent)>)
        ensures
            r@ == self.events(),
    {
        &self.precompile_events
    }

    /// Appends one event.
    pub fn add_precompile_event(&mut self, syscall_event: SyscallEvent, event: PrecompileEvent)
        ensures
            final(self).events() == old(self).events().push((syscall_event, event)),
    {
        self.precompile_events.push((syscall_event, event));
    }
}

} // verus!
