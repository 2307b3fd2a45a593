//! The interpreter-facing context a syscall runs in, and the square syscall.
use crate::air::events_chained;
use crate::event::{
    square, square_u32, ExecutionRecord, LookupId, PrecompileEvent, SquareEvent, SyscallEvent,
};
use crate::memory::{
    is_valid_addr, read_record, valid_addr, write_record, Memory, MemoryLocalEvent,
    MemoryReadRecord, MemoryRecord, MemoryWriteRecord,
};
use vstd::prelude::*;

verus! {

/// Whether some entry of `s` is for `addr`.
pub open spec fn has_local(s: Seq<MemoryLocalEvent>, addr: u32) -> bool {
    exists|i: int| 0 <= i < s.len() && #[trigger] s[i].addr == addr
}

/// No two entries of `s` are for the same address.
pub open spec fn unique_addrs(s: Seq<MemoryLocalEvent>) -> bool {
    forall|i: int, j: int| 0 <= i < j < s.len() ==> #[trigger] s[i].addr != #[trigger] s[j].addr
}

/// The local accesses `s` after an access of `addr` that took the word from
/// state `prev` to state `cur`: an address seen before keeps its first state
/// and takes `cur` as its last; a new one is appended.
pub open spec fn noted(
    s: Seq<MemoryLocalEvent>,
    addr: u32,
    prev: MemoryRecord,
    cur: MemoryRecord,
) -> Seq<MemoryLocalEvent> {
    if has_local(s, addr) {
        let i = choose|i: int| 0 <= i < s.len() && #[trigger] s[i].addr == addr;
        s.update(
            i,
            MemoryLocalEvent {
                addr,
                initial_mem_access: s[i].initial_mem_access,
                final_mem_access: cur,
            },
        )
    } else {
        s.push(MemoryLocalEvent { addr, initial_mem_access: prev, final_mem_access: cur })
    }
}

/// A memory access at an address that is unaligned or names a register.
#[derive(Clone, Copy, Debug, PartialEq, Eq)]
pub enum ExecutionError {
    InvalidMemoryAccess(u32),
}

/// What a syscall handler sees of the interpreter: the clock, the shard, the
/// memory image, the lookup identifier of the current call, the local memory
/// accesses not yet handed to an event, and the shard's record of events.
pub struct SyscallContext {
    pub clk: u32,
    pub shard: u32,
    pub syscall_lookup_id: LookupId,
    pub memory: Memory,
    pub local_memory_access: Vec<MemoryLocalEvent>,
    pub record: ExecutionRecord,
}

impl SyscallContext {
    /// Each address has at most one pending local access.
    pub open spec fn wf(&self) -> bool {
        unique_addrs(self.local_memory_access@)
    }

    /// A context at `(shard, clk)` over `memory`, with no pending accesses
    /// and no events.
    pub fn new(shard: u32, clk: u32, syscall_lookup_id: LookupId, memory: Memory) -> (r:
        SyscallContext)
        ensures
            r.wf(),
            r.clk == clk,
            r.shard == shard,
            r.syscall_lookup_id == syscall_lookup_id,
            r.memory@ == memory@,
            r.local_memory_access@.len() == 0,
            r.record.events().len() == 0,
    {
        SyscallContext {
            clk,
            shard,
            syscall_lookup_id,
            memory,
            local_memory_access: Vec::new(),
            record: ExecutionRecord::new(),
        }
    }

    /// The shard that events of this call belong to.
    pub fn current_shard(&self) -> (r: u32)
        ensures
            r == self.shard,
    {
        self.shard
    }

    #[verifier::loop_isolation(false)]
    fn note_local_access(&mut self, addr: u32, prev: MemoryRecord, cur: MemoryRecord)
        requires
            old(self).wf(),
        ensures
            final(self).wf(),
            final(self).local_memory_access@ == noted(
                old(self).local_memory_access@,
                addr,
                prev,
                cur,
            ),
            final(self).clk == old(self).clk,
            final(self).shard == old(self).shard,
            final(self).syscall_lookup_id == old(self).syscall_lookup_id,
            final(self).memory@ == old(self).memory@,
            final(self).record.events() == old(self).record.events(),
    {
        let ghost s = self.local_memory_access@;
        let n = self.local_memory_access.len();
        let mut i: usize = 0;
        while i < n
            invariant
                n == s.len(),
                s == self.local_memory_access@,
                i <= n,
                forall|k: int| 0 <= k < i ==> #[trigger] s[k].addr != addr,
                self.clk == old(self).clk,
                self.shard == old(self).shard,
                self.syscall_lookup_id == old(self).syscall_lookup_id,
                self.memory@ == old(self).memory@,
                self.record.events() == old(self).record.events(),
            decreases n - i,
        {
            if self.local_memory_access[i].addr == addr {
                let first = self.local_memory_access[i].initial_mem_access;
                self.local_memory_access.set(
                    i,
                    MemoryLocalEvent { addr, initial_mem_access: first, final_mem_access: cur },
                );
                proof {
                    assert(s[i as int].addr == addr);
                    assert(has_local(s, addr));
                    let j = choose|j: int| 0 <= j < s.len() && #[trigger] s[j].addr == addr;
                    if j < i as int {
                        assert(s[j].addr != s[i as int].addr);
                    } else if j > i as int {
                        assert(s[i as int].addr != s[j].addr);
                    }
                    let t = self.local_memory_access@;
                    assert forall|a: int, b: int| 0 <= a < b < t.len() implies #[trigger] t[a].addr
                        != #[trigger] t[b].addr by {
                        assert(t[a].addr == s[a].addr);
                        assert(t[b].addr == s[b].addr);
                    }
                }
                return;
            }
            i = i + 1;
        }
        self.local_memory_access.push(
            MemoryLocalEvent { addr, initial_mem_access: prev, final_mem_access: cur },
        );
        proof {
            let t = self.local_memory_access@;
            assert forall|a: int, b: int| 0 <= a < b < t.len() implies #[trigger] t[a].addr
                != #[trigger] t[b].addr by {
                if b == s.len() {
                    assert(t[a].addr == s[a].addr);
                } else {
                    assert(t[a].addr == s[a].addr);
                    assert(t[b].addr == s[b].addr);
                }
            }
            assert(!has_local(s, addr));
        }
    }

    /// Reads the word at `addr` at the current clock.
    pub fn mr(&mut self, addr: u32) -> (r: (MemoryReadRecord, u32))
        requires
            old(self).wf(),
        ensures
            final(self).wf(),
            r.0 == read_record(old(self).memory.record_at(addr), old(self).shard, old(self).clk),
            r.1 == old(self).memory.value_at(addr),
            final(self).memory@ == old(self).memory@.insert(
                addr,
                MemoryRecord { shard: old(self).shard, timestamp: old(self).clk, value: r.1 },
            ),
            final(self).local_memory_access@ == noted(
                old(self).local_memory_access@,
                addr,
                old(self).memory.record_at(addr),
                MemoryRecord { shard: old(self).shard, timestamp: old(self).clk, value: r.1 },
            ),
            final(self).clk == old(self).clk,
            final(self).shard == old(self).shard,
            final(self).syscall_lookup_id == old(self).syscall_lookup_id,
            final(self).record.events() == old(self).record.events(),
    {
        let prev = self.memory.record(addr);
        let rec = self.memory.read(addr, self.shard, self.clk);
        let cur = MemoryRecord { shard: self.shard, timestamp: self.clk, value: rec.value };
        self.note_local_access(addr, prev, cur);
        (rec, rec.value)
    }

    /// Writes `value` to the word at `addr` at the current clock.
    pub fn mw(&mut self, addr: u32, value: u32) -> (r: MemoryWriteRecord)
        requires
            old(self).wf(),
        ensures
            final(self).wf(),
            r == write_record(old(self).memory.record_at(addr), value, old(self).shard, old(self).clk),
            final(self).memory@ == old(self).memory@.insert(
                addr,
                MemoryRecord { shard: old(self).shard, timestamp: old(self).clk, value },
            ),
            final(self).local_memory_access@ == noted(
                old(self).local_memory_access@,
                addr,
                old(self).memory.record_at(addr),
                MemoryRecord { shard: old(self).shard, timestamp: old(self).clk, value },
            ),
            final(self).clk == old(self).clk,
            final(self).shard == old(self).shard,
            final(self).syscall_lookup_id == old(self).syscall_lookup_id,
            final(self).record.events() == old(self).record.events(),
    {
        let prev = self.memory.record(addr);
        let rec = self.memory.write(addr, value, self.shard, self.clk);
        let cur = MemoryRecord { shard: self.shard, timestamp: self.clk, value };
        self.note_local_access(addr, prev, cur);
        rec
    }

    /// Hands over the pending local accesses and clears them.
    pub fn postprocess(&mut self) -> (r: Vec<MemoryLocalEvent>)
        ensures
            r@ == old(self).local_memory_access@,
            final(self).wf(),
            final(self).local_memory_access@.len() == 0,
            final(self).clk == old(self).clk,
            final(self).shard == old(self).shard,
            final(self).syscall_lookup_id == old(self).syscall_lookup_id,
            final(self).memory@ == old(self).memory@,
            final(self).record.events() == old(self).record.events(),
    {
        let mut drained: Vec<MemoryLocalEvent> = Vec::new();
        std::mem::swap(&mut drained, &mut self.local_memory_access);
        drained
    }
}

/// What a square syscall on `(arg1, arg2)` does to a context that was `pre`
/// and is now `post`: the word at `arg1` is read at the current clock, its
/// square is written to `arg2` one cycle later, the pending local accesses go
/// into one new event, and that event is appended to the record.
pub open spec fn square_executed(
    pre: SyscallContext,
    post: SyscallContext,
    arg1: u32,
    arg2: u32,
) -> bool {
    let x = pre.memory.value_at(arg1);
    let y = square(x);
    let s = pre.shard;
    let c = pre.clk;
    let input_state = MemoryRecord { shard: s, timestamp: c, value: x };
    let output_state = MemoryRecord { shard: s, timestamp: (c + 1) as u32, value: y };
    let output_prev = if arg1 == arg2 {
        input_state
    } else {
        pre.memory.record_at(arg2)
    };
    let n = pre.record.events().len();
    let e = post.record.events()[n as int].1.square_event();
    &&& post.wf()
    &&& post.clk == c + 1
    &&& post.shard == s
    &&& post.syscall_lookup_id == pre.syscall_lookup_id
    &&& post.memory@ == pre.memory@.insert(arg1, input_state).insert(arg2, output_state)
    &&& post.local_memory_access@.len() == 0
    &&& post.record.events().len() == n + 1
    &&& post.record.events().take(n as int) == pre.record.events()
    &&& post.record.events()[n as int].0 == SyscallEvent {
        shard: s,
        clk: c,
        arg1,
        arg2,
        lookup_id: pre.syscall_lookup_id,
    }
    &&& e.lookup_id == pre.syscall_lookup_id
    &&& e.shard == s
    &&& e.clk == c
    &&& e.input_ptr == arg1
    &&& e.output_ptr == arg2
    &&& e.input == x
    &&& e.output == y
    &&& e.input_memory_record == read_record(pre.memory.record_at(arg1), s, c)
    &&& e.output_memory_record == write_record(output_prev, y, s, (c + 1) as u32)
    &&& e.local_mem_access@ == noted(
        noted(pre.local_memory_access@, arg1, pre.memory.record_at(arg1), input_state),
        arg2,
        output_prev,
        output_state,
    )
    &&& e.wf()
}

/// A square syscall run in the shard of the record's last event, at the
/// clock that event left, keeps adjacent events one cycle apart in one shard.
pub proof fn lemma_back_to_back_keeps_chain(
    pre: SyscallContext,
    post: SyscallContext,
    arg1: u32,
    arg2: u32,
)
    requires
        square_executed(pre, post, arg1, arg2),
        events_chained(pre.record.events()),
        pre.record.events().len() > 0 ==> {
            let last = pre.record.events().last().1.square_event();
            last.shard == pre.shard && last.clk + 1 == pre.clk
        },
    ensures
        events_chained(post.record.events()),
{
    let a = pre.record.events();
    let b = post.record.events();
    let n = a.len();
    assert forall|i: int| 0 <= i < b.len() - 1 implies {
        &&& (#[trigger] b[i + 1]).1.square_event().shard == b[i].1.square_event().shard
        &&& b[i + 1].1.square_event().clk == b[i].1.square_event().clk + 1
    } by {
        assert(b[i] == b.take(n as int)[i]);
        if i + 1 < n {
            assert(b[i + 1] == b.take(n as int)[i + 1]);
            assert(a[i + 1] == a[i + 1]);
        }
    }
}

/// The square precompile: reads a word, writes its square.
pub struct SquareSyscall;

impl SquareSyscall {
    /// Squares the word at `arg1` into the word at `arg2` and records the
    /// event. Both pointers are valid word addresses: anything else is a
    /// fatal fault, which `try_execute` reports. No register result is
    /// returned.
    pub fn execute(&self, rt: &mut SyscallContext, arg1: u32, arg2: u32) -> (r: Option<u32>)
        requires
            old(rt).wf(),
            old(rt).clk < u32::MAX,
            valid_addr(arg1),
            valid_addr(arg2),
        ensures
            r == None::<u32>,
            square_executed(*old(rt), *final(rt), arg1, arg2),
            old(rt).record.wf() ==> final(rt).record.wf(),
    {
        let clk = rt.clk;
        let input_ptr = arg1;
        let output_ptr = arg2;

        let (input_memory_record, input) = rt.mr(input_ptr);
        let output = square_u32(input);

        // The write happens in the next cycle.
        rt.clk = rt.clk + 1;
        let output_memory_record = rt.mw(output_ptr, output);

        let lookup_id = rt.syscall_lookup_id;
        let shard = rt.current_shard();
        let local_mem_access = rt.postprocess();
        let event = PrecompileEvent::Square(
            SquareEvent {
                lookup_id,
                shard,
                clk,
                input_ptr,
                output_ptr,
                input,
                output,
                input_memory_record,
                output_memory_record,
                local_mem_access,
            },
        );
        let syscall_event = SyscallEvent { shard, clk, arg1, arg2, lookup_id };
        let ghost before = rt.record.events();
        rt.record.add_precompile_event(syscall_event, event);
        assert(rt.record.events().take(before.len() as int) =~= before);
        assert forall|k: int| 0 <= k < before.len() implies (#[trigger] rt.record.events()[k])
            == before[k] by {
            assert(rt.record.events()[k] == rt.record.events().take(before.len() as int)[k]);
        }
        None
    }

    /// Checks both pointers, then squares as `execute` does. A pointer that
    /// is not a valid word address is a fault: the context is left exactly
    /// as it was, so no event is recorded.
    pub fn try_execute(&self, rt: &mut SyscallContext, arg1: u32, arg2: u32) -> (r: Result<
        Option<u32>,
        ExecutionError,
    >)
        requires
            old(rt).wf(),
            old(rt).clk < u32::MAX,
        ensures
            !valid_addr(arg1) ==> r == Err::<Option<u32>, ExecutionError>(
                ExecutionError::InvalidMemoryAccess(arg1),
            ),
            valid_addr(arg1) && !valid_addr(arg2) ==> r == Err::<Option<u32>, ExecutionError>(
                ExecutionError::InvalidMemoryAccess(arg2),
            ),
            r.is_err() ==> *final(rt) == *old(rt),
            old(rt).record.wf() ==> final(rt).record.wf(),
            valid_addr(arg1) && valid_addr(arg2) ==> r == Ok::<Option<u32>, ExecutionError>(None)
                && square_executed(*old(rt), *final(rt), arg1, arg2),
    {
        if !is_valid_addr(arg1) {
            return Err(ExecutionError::InvalidMemoryAccess(arg1));
        }
        if !is_valid_addr(arg2) {
            return Err(ExecutionError::InvalidMemoryAccess(arg2));
        }
        Ok(self.execute(rt, arg1, arg2))
    }

    /// The cycles the square syscall costs beyond an ordinary instruction.
    pub fn num_extra_cycles(&self) -> (r: u32)
        ensures
            r == 1,
    {
        1
    }
}

} // verus!
