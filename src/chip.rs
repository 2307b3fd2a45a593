//! The square chip: its column layout and the trace it builds from a record.
use crate::event::{ExecutionRecord, PrecompileEvent, SquareEvent, SyscallEvent};
use crate::trace::Trace;
use vstd::prelude::*;

verus! {

/// The columns of one memory access: the word before and after, and when it
/// was last accessed before.
#[derive(Clone, Copy, Debug, Default, PartialEq, Eq)]
pub struct MemoryReadWriteCols<T> {
    pub prev_value: T,
    pub value: T,
    pub prev_shard: T,
    pub prev_clk: T,
}

/// The columns of one trace row.
#[derive(Clone, Copy, Debug, Default, PartialEq, Eq)]
pub struct SquareCols<T> {
    /// The shard number of the syscall.
    pub shard: T,
    /// The clock cycle of the syscall.
    pub clk: T,
    /// The row's index in the trace.
    pub nonce: T,
    /// The pointer to the input.
    pub input_ptr: T,
    /// The pointer to the output.
    pub output_ptr: T,
    /// The input value.
    pub input: T,
    /// The output value.
    pub output: T,
    /// The read of the input.
    pub input_access: MemoryReadWriteCols<T>,
    /// The write of the output.
    pub output_access: MemoryReadWriteCols<T>,
    /// One on a row that holds an event, zero on a padding row.
    pub is_real: T,
}

/// The number of columns of a row.
pub const SQUARE_NUM_COLS: usize = 16;

/// The column of the nonce.
pub const NONCE_COL: usize = 2;

/// The most events one trace is built from, so that every cell index and
/// every nonce fits a 32-bit word.
pub const MAX_TRACE_EVENTS: usize = 0x0400_0000;

impl SquareCols<u32> {
    /// The row as a sequence of cells, in column order.
    pub open spec fn cells(self) -> Seq<u32> {
        seq![
            self.shard,
            self.clk,
            self.nonce,
            self.input_ptr,
            self.output_ptr,
            self.input,
            self.output,
            self.input_access.prev_value,
            self.input_access.value,
            self.input_access.prev_shard,
            self.input_access.prev_clk,
            self.output_access.prev_value,
            self.output_access.value,
            self.output_access.prev_shard,
            self.output_access.prev_clk,
            self.is_real,
        ]
    }
}

/// The row of a real event, before its nonce is assigned.
pub open spec fn event_cols(e: SquareEvent) -> SquareCols<u32> {
    SquareCols {
        shard: e.shard,
        clk: e.clk,
        nonce: 0,
        input_ptr: e.input_ptr,
        output_ptr: e.output_ptr,
        input: e.input,
        output: e.output,
        input_access: MemoryReadWriteCols {
            prev_value: e.input_memory_record.value,
            value: e.input_memory_record.value,
            prev_shard: e.input_memory_record.prev_shard,
            prev_clk: e.input_memory_record.prev_timestamp,
        },
        output_access: MemoryReadWriteCols {
            prev_value: e.output_memory_record.prev_value,
            value: e.output_memory_record.value,
            prev_shard: e.output_memory_record.prev_shard,
            prev_clk: e.output_memory_record.prev_timestamp,
        },
        is_real: 1,
    }
}

/// The smallest power of two that is at least `n` and at least `p`, for a
/// power of two `p`.
pub open spec fn next_pow2_from(n: nat, p: nat) -> nat
    decreases (if p >= n {
        0
    } else {
        n - p
    }) as nat,
    when p >= 1
{
    if p >= n {
        p
    } else {
        next_pow2_from(n, 2 * p)
    }
}

/// The smallest power of two that is at least `n`.
pub open spec fn next_power_of_two(n: nat) -> nat {
    next_pow2_from(n, 1)
}

/// Whether `p` is a power of two.
pub open spec fn is_pow2(p: nat) -> bool
    decreases p,
{
    if p == 1 {
        true
    } else if p >= 2 && p % 2 == 0 {
        is_pow2(p / 2)
    } else {
        false
    }
}

/// The number of rows of the trace of `n` events.
pub open spec fn num_rows(n: nat) -> nat {
    if n == 0 {
        1
    } else {
        next_power_of_two(n)
    }
}

/// Cell `(i, j)` of the trace of `events`: the nonce column holds the row
/// index, a row of an event holds that event, a padding row holds zeros.
pub open spec fn expected_cell(events: Seq<(SyscallEvent, PrecompileEvent)>, i: int, j: int) -> u32 {
    if j == NONCE_COL {
        i as u32
    } else if i < events.len() {
        event_cols(events[i].1.square_event()).cells()[j]
    } else {
        0
    }
}

/// The smallest power of two reached from `p` is a power of two, at least
/// `n` and `p`, and it is `p` itself or below `2 * n`.
proof fn lemma_next_pow2_from(n: nat, p: nat)
    requires
        p >= 1,
        is_pow2(p),
    ensures
        is_pow2(next_pow2_from(n, p)),
        next_pow2_from(n, p) >= n,
        next_pow2_from(n, p) >= p,
        next_pow2_from(n, p) == p || next_pow2_from(n, p) < 2 * n,
    decreases (if p >= n {
        0
    } else {
        n - p
    }) as nat,
{
    if p < n {
        assert((2 * p) % 2 == 0);
        assert((2 * p) / 2 == p);
        lemma_next_pow2_from(n, 2 * p);
    }
}

/// The trace of `n` events has `max(1, next_power_of_two(n))` rows: the
/// smallest power of two that is at least one and at least `n`.
pub proof fn lemma_num_rows(n: nat)
    ensures
        is_pow2(num_rows(n)),
        num_rows(n) >= 1,
        num_rows(n) >= n,
        n <= 1 ==> num_rows(n) == 1,
        n >= 1 ==> num_rows(n) < 2 * n,
        num_rows(n) == if n == 0 {
            1
        } else {
            next_power_of_two(n)
        },
{
    lemma_next_pow2_from(n, 1);
}

/// The smallest power of two that is at least `n`.
pub fn next_power_of_two_usize(n: usize) -> (r: usize)
    requires
        n <= MAX_TRACE_EVENTS,
    ensures
        r == next_power_of_two(n as nat),
        r <= 2 * MAX_TRACE_EVENTS,
{
    let mut p: usize = 1;
    while p < n
        invariant
            1 <= p <= 2 * MAX_TRACE_EVENTS,
            p == 1 || p < 2 * n,
            n <= MAX_TRACE_EVENTS,
            next_pow2_from(n as nat, p as nat) == next_power_of_two(n as nat),
        decreases 2 * MAX_TRACE_EVENTS - p,
    {
        p = p * 2;
    }
    p
}

/// The chip that proves square syscalls.
#[derive(Clone, Copy, Debug, Default)]
pub struct SquareChip;

impl SquareChip {
    /// The chip.
    pub fn new() -> (r: SquareChip)
        ensures
            r == SquareChip,
    {
        SquareChip
    }

    /// The chip's stable name.
    pub fn name(&self) -> (r: String)
        ensures
            r@ == "Square"@,
    {
        String::from_str("Square")
    }

    /// The number of columns of the trace.
    pub fn width(&self) -> (r: usize)
        ensures
            r == SQUARE_NUM_COLS,
    {
        SQUARE_NUM_COLS
    }

    /// Whether the chip has a trace in `shard`: whether the shard has a square event.
    pub fn included(&self, shard: &ExecutionRecord) -> (r: bool)
        ensures
            r == (shard.events().len() > 0),
    {
        shard.get_precompile_events().len() != 0
    }

    /// Writes the row of `event` into row `row` of `values`; the other cells
    /// keep their values.
    pub fn populate_chunk(&self, event: &PrecompileEvent, values: &mut Vec<u32>, row: usize)
        requires
            (row + 1) * SQUARE_NUM_COLS <= old(values)@.len(),
        ensures
            final(values)@.len() == old(values)@.len(),
            forall|k: int|
                0 <= k < final(values)@.len() && !(row * SQUARE_NUM_COLS <= k < (row + 1)
                    * SQUARE_NUM_COLS) ==> #[trigger] final(values)@[k] == old(values)@[k],
            forall|j: int|
                0 <= j < SQUARE_NUM_COLS ==> #[trigger] final(values)@[row * SQUARE_NUM_COLS + j]
                    == event_cols(event.square_event()).cells()[j],
    {
        let PrecompileEvent::Square(e) = event;
        // The buffer's length bounds the row's offset, which therefore fits a usize.
        let len = values.len();
        assert(row * SQUARE_NUM_COLS + SQUARE_NUM_COLS <= len);
        let base = row * SQUARE_NUM_COLS;
        values.set(base, e.shard);
        values.set(base + 1, e.clk);
        values.set(base + 2, 0);
        values.set(base + 3, e.input_ptr);
        values.set(base + 4, e.output_ptr);
        values.set(base + 5, e.input);
        values.set(base + 6, e.output);
        values.set(base + 7, e.input_memory_record.value);
        values.set(base + 8, e.input_memory_record.value);
        values.set(base + 9, e.input_memory_record.prev_shard);
        values.set(base + 10, e.input_memory_record.prev_timestamp);
        values.set(base + 11, e.output_memory_record.prev_value);
        values.set(base + 12, e.output_memory_record.value);
        values.set(base + 13, e.output_memory_record.prev_shard);
        values.set(base + 14, e.output_memory_record.prev_timestamp);
        values.set(base + 15, 1);
    }

    /// Builds the trace of the square events of `input`: one row per event in
    /// order, zero rows up to the next power of two (at least one row), and
    /// the row index in the nonce column of every row.
    pub fn generate_trace(&self, input: &ExecutionRecord, output: &mut ExecutionRecord) -> (t:
        Trace)
        requires
            input.events().len() <= MAX_TRACE_EVENTS,
        ensures
            t.is_trace_of(input.events()),
            t.rows() == num_rows(input.events().len()),
            final(output).events() == old(output).events(),
    {
        let events = input.get_precompile_events();
        let n = events.len();
        let height = if n > 0 {
            next_power_of_two_usize(n)
        } else {
            1
        };
        proof {
            lemma_num_rows(n as nat);
        }
        let total = height * SQUARE_NUM_COLS;
        let mut values: Vec<u32> = Vec::new();
        while values.len() < total
            invariant
                values@.len() <= total,
                forall|k: int| 0 <= k < values@.len() ==> #[trigger] values@[k] == 0,
            decreases total - values@.len(),
        {
            values.push(0);
        }
        let mut i: usize = 0;
        while i < n
            invariant
                n == events@.len(),
                events@ == input.events(),
                n <= height,
                height == num_rows(n as nat),
                total == height * SQUARE_NUM_COLS,
                values@.len() == total,
                i <= n,
                forall|r: int, j: int|
                    0 <= r < height && 0 <= j < SQUARE_NUM_COLS ==> #[trigger] cell_of(
                        values@,
                        r,
                        j,
                    ) == if r < i {
                        event_cols(events@[r].1.square_event()).cells()[j]
                    } else {
                        0
                    },
            decreases n - i,
        {
            let ghost before = values@;
            self.populate_chunk(&events[i].1, &mut values, i);
            proof {
                assert forall|r: int, j: int|
                    0 <= r < height && 0 <= j < SQUARE_NUM_COLS implies #[trigger] cell_of(
                        values@,
                        r,
                        j,
                    ) == if r < i + 1 {
                        event_cols(events@[r].1.square_event()).cells()[j]
                    } else {
                        0
                    } by {
                    if r != i {
                        assert(cell_of(before, r, j) == cell_of(values@, r, j));
                    }
                }
            }
            i = i + 1;
        }
        let mut i: usize = 0;
        while i < height
            invariant
                n == events@.len(),
                events@ == input.events(),
                n <= height,
                height == num_rows(n as nat),
                height <= 2 * MAX_TRACE_EVENTS,
                total == height * SQUARE_NUM_COLS,
                values@.len() == total,
                i <= height,
                forall|r: int, j: int|
                    0 <= r < height && 0 <= j < SQUARE_NUM_COLS ==> #[trigger] cell_of(
                        values@,
                        r,
                        j,
                    ) == if r < i {
                        expected_cell(events@, r, j)
                    } else if r < n {
                        event_cols(events@[r].1.square_event()).cells()[j]
                    } else {
                        0
                    },
            decreases height - i,
        {
            let ghost before = values@;
            values.set(i * SQUARE_NUM_COLS + NONCE_COL, i as u32);
            proof {
                assert forall|r: int, j: int|
                    0 <= r < height && 0 <= j < SQUARE_NUM_COLS implies #[trigger] cell_of(
                        values@,
                        r,
                        j,
                    ) == if r < i + 1 {
                        expected_cell(events@, r, j)
                    } else if r < n {
                        event_cols(events@[r].1.square_event()).cells()[j]
                    } else {
                        0
                    } by {
                    if r != i || j != NONCE_COL {
                        assert(cell_of(before, r, j) == cell_of(values@, r, j));
                    }
                }
            }
            i = i + 1;
        }
        let t = Trace::new(values, SQUARE_NUM_COLS);
        proof {
            assert forall|r: int, j: int|
                0 <= r < height && 0 <= j < SQUARE_NUM_COLS implies #[trigger] t.cell(r, j)
                == expected_cell(events@, r, j) by {
                assert(cell_of(t.flat(), r, j) == t.cell(r, j));
            }
            assert(t.flat().len() / (SQUARE_NUM_COLS as nat) == height as nat);
        }
        t
    }
}

/// Cell `(i, j)` of the row-major cells `s`.
pub open spec fn cell_of(s: Seq<u32>, i: int, j: int) -> u32 {
    s[i * SQUARE_NUM_COLS + j]
}

} // verus!
