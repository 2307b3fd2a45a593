//! The constraints every pair of adjacent trace rows satisfies, and the proof
//! that the traces the chip builds satisfy them.
use crate::chip::{
    expected_cell, num_rows, MemoryReadWriteCols, SquareChip, SquareCols, NONCE_COL,
    SQUARE_NUM_COLS,
};
use crate::trace::Trace;
use crate::event::{square, square_u32, ExecutionRecord, PrecompileEvent, SyscallEvent};
use vstd::prelude::*;

verus! {

/// The constraints of one row: the real flag is boolean, and a real row
/// holds a square with a read of the input that kept its value and a write
/// of the output.
pub open spec fn row_constraints(local: SquareCols<u32>) -> bool {
    &&& (local.is_real == 0 || local.is_real == 1)
    &&& local.is_real == 1 ==> {
        &&& local.output == square(local.input)
        &&& local.input_access.value == local.input
        &&& local.input_access.prev_value == local.input_access.value
        &&& local.output_access.value == local.output
    }
}

/// The constraint of the first row: its nonce is zero.
pub open spec fn first_row_constraints(local: SquareCols<u32>) -> bool {
    local.nonce == 0
}

/// The constraints of a transition: the nonce goes up by one, and between
/// two real rows the shard stays and the clock goes up by one.
pub open spec fn transition_constraints(local: SquareCols<u32>, next: SquareCols<u32>) -> bool {
    &&& next.nonce == local.nonce + 1
    &&& local.is_real == 1 && next.is_real == 1 ==> {
        &&& next.shard == local.shard
        &&& next.clk == local.clk + 1
    }
}

/// Adjacent events of `events` belong to the same shard and start one clock
/// cycle apart.
pub open spec fn events_chained(events: Seq<(SyscallEvent, PrecompileEvent)>) -> bool {
    forall|i: int|
        0 <= i < events.len() - 1 ==> {
            &&& (#[trigger] events[i + 1]).1.square_event().shard == events[i].1.square_event().shard
            &&& events[i + 1].1.square_event().clk == events[i].1.square_event().clk + 1
        }
}

/// Row `i` of `t`, read by columns.
pub open spec fn row_at(t: Trace, i: int) -> SquareCols<u32> {
    SquareCols {
        shard: t.cell(i, 0),
        clk: t.cell(i, 1),
        nonce: t.cell(i, 2),
        input_ptr: t.cell(i, 3),
        output_ptr: t.cell(i, 4),
        input: t.cell(i, 5),
        output: t.cell(i, 6),
        input_access: MemoryReadWriteCols {
            prev_value: t.cell(i, 7),
            value: t.cell(i, 8),
            prev_shard: t.cell(i, 9),
            prev_clk: t.cell(i, 10),
        },
        output_access: MemoryReadWriteCols {
            prev_value: t.cell(i, 11),
            value: t.cell(i, 12),
            prev_shard: t.cell(i, 13),
            prev_clk: t.cell(i, 14),
        },
        is_real: t.cell(i, 15),
    }
}

/// `t` has the chip's width, at least one row, and every row and every pair
/// of adjacent rows meets the constraints.
pub open spec fn trace_satisfies(t: Trace) -> bool {
    &&& t.cols() == SQUARE_NUM_COLS
    &&& t.flat().len() % SQUARE_NUM_COLS as nat == 0
    &&& t.rows() >= 1
    &&& first_row_constraints(row_at(t, 0))
    &&& forall|i: int| 0 <= i < t.rows() ==> #[trigger] row_constraints(row_at(t, i))
    &&& forall|i: int|
        0 <= i < t.rows() - 1 ==> #[trigger] transition_constraints(row_at(t, i), row_at(t, i + 1))
}

/// The row of a padding position `i`: zeros, with `i` as its nonce.
pub open spec fn padding_row(i: int) -> SquareCols<u32> {
    SquareCols {
        shard: 0,
        clk: 0,
        nonce: i as u32,
        input_ptr: 0,
        output_ptr: 0,
        input: 0,
        output: 0,
        input_access: MemoryReadWriteCols { prev_value: 0, value: 0, prev_shard: 0, prev_clk: 0 },
        output_access: MemoryReadWriteCols { prev_value: 0, value: 0, prev_shard: 0, prev_clk: 0 },
        is_real: 0,
    }
}

/// In the trace of `events`, row `i` holds `i` as its nonce, for every row,
/// padding rows included.
pub proof fn lemma_nonce_is_row_index(events: Seq<(SyscallEvent, PrecompileEvent)>, t: Trace, i: int)
    requires
        t.is_trace_of(events),
        0 <= i < num_rows(events.len()),
    ensures
        row_at(t, i).nonce == i as u32,
{
    assert(t.cell(i, NONCE_COL as int) == expected_cell(events, i, NONCE_COL as int));
}

/// In the trace of `events`, every row past the events is zero but for its
/// nonce, and is not real.
pub proof fn lemma_padding_rows(events: Seq<(SyscallEvent, PrecompileEvent)>, t: Trace, i: int)
    requires
        t.is_trace_of(events),
        events.len() <= i < num_rows(events.len()),
    ensures
        row_at(t, i) == padding_row(i),
        row_at(t, i).is_real == 0,
{
    assert forall|j: int| 0 <= j < SQUARE_NUM_COLS implies #[trigger] t.cell(i, j) == (if j
        == NONCE_COL {
        i as u32
    } else {
        0
    }) by {
        assert(t.cell(i, j) == expected_cell(events, i, j));
    }
}

/// Every trace the chip builds from well-formed events, where adjacent events
/// share a shard and start one cycle apart, meets the constraints.
pub proof fn lemma_generated_trace_satisfies(record: ExecutionRecord, t: Trace)
    requires
        record.wf(),
        events_chained(record.events()),
        record.events().len() <= crate::chip::MAX_TRACE_EVENTS,
        t.is_trace_of(record.events()),
    ensures
        trace_satisfies(t),
{
    let events = record.events();
    let n = events.len();
    let h = num_rows(n);
    crate::chip::lemma_num_rows(n);
    assert(t.flat().len() % SQUARE_NUM_COLS as nat == 0) by (nonlinear_arith)
        requires
            t.flat().len() == h * SQUARE_NUM_COLS,
    ;
    assert(t.rows() == h) by (nonlinear_arith)
        requires
            t.flat().len() == h * SQUARE_NUM_COLS,
            t.cols() == SQUARE_NUM_COLS,
            t.rows() == t.flat().len() / (t.cols() as nat),
    ;
    lemma_nonce_is_row_index(events, t, 0);
    assert forall|i: int| 0 <= i < t.rows() implies #[trigger] row_constraints(row_at(t, i)) by {
        if i < n {
            let e = events[i].1.square_event();
            assert(events[i] == record.events()[i]);
            assert(e.wf());
            assert(t.cell(i, 5) == expected_cell(events, i, 5));
            assert(t.cell(i, 6) == expected_cell(events, i, 6));
            assert(t.cell(i, 7) == expected_cell(events, i, 7));
            assert(t.cell(i, 8) == expected_cell(events, i, 8));
            assert(t.cell(i, 12) == expected_cell(events, i, 12));
            assert(t.cell(i, 15) == expected_cell(events, i, 15));
        } else {
            lemma_padding_rows(events, t, i);
        }
    }
    assert forall|i: int| 0 <= i < t.rows() - 1 implies #[trigger] transition_constraints(
        row_at(t, i),
        row_at(t, i + 1),
    ) by {
        lemma_nonce_is_row_index(events, t, i);
        lemma_nonce_is_row_index(events, t, i + 1);
        assert(t.cell(i, 0) == expected_cell(events, i, 0));
        assert(t.cell(i + 1, 0) == expected_cell(events, i + 1, 0));
        assert(t.cell(i, 1) == expected_cell(events, i, 1));
        assert(t.cell(i + 1, 1) == expected_cell(events, i + 1, 1));
        assert(t.cell(i, 15) == expected_cell(events, i, 15));
        assert(t.cell(i + 1, 15) == expected_cell(events, i + 1, 15));
        if i + 1 < n {
            assert(events[i + 1] == events[i + 1]);
        }
    }
}

impl Trace {
    /// Row `i`, read by columns.
    pub fn row(&self, i: usize) -> (r: SquareCols<u32>)
        requires
            self.cols() == SQUARE_NUM_COLS,
            i < self.rows(),
        ensures
            r == row_at(*self, i as int),
    {
        let v = self.values();
        let len = v.len();
        assert((i + 1) * 16 <= len) by (nonlinear_arith)
            requires
                (i as int) < (len as int) / 16,
        ;
        let b = i * SQUARE_NUM_COLS;
        SquareCols {
            shard: v[b],
            clk: v[b + 1],
            nonce: v[b + 2],
            input_ptr: v[b + 3],
            output_ptr: v[b + 4],
            input: v[b + 5],
            output: v[b + 6],
            input_access: MemoryReadWriteCols {
                prev_value: v[b + 7],
                value: v[b + 8],
                prev_shard: v[b + 9],
                prev_clk: v[b + 10],
            },
            output_access: MemoryReadWriteCols {
                prev_value: v[b + 11],
                value: v[b + 12],
                prev_shard: v[b + 13],
                prev_clk: v[b + 14],
            },
            is_real: v[b + 15],
        }
    }
}

impl SquareChip {
    /// Evaluates the constraints on the window `(local, next)`: those of
    /// `local` itself, those of the first row where `is_first_row`, and those
    /// of a transition where `is_transition`.
    pub fn eval(
        &self,
        local: &SquareCols<u32>,
        next: &SquareCols<u32>,
        is_first_row: bool,
        is_transition: bool,
    ) -> (r: bool)
        ensures
            r == ((is_first_row ==> first_row_constraints(*local)) && row_constraints(*local) && (
            is_transition ==> transition_constraints(*local, *next))),
    {
        if is_first_row && local.nonce != 0 {
            return false;
        }
        if is_transition && (local.nonce == u32::MAX || next.nonce != local.nonce + 1) {
            return false;
        }
        if is_transition && local.is_real == 1 && next.is_real == 1 && (next.shard != local.shard
            || local.clk == u32::MAX || next.clk != local.clk + 1) {
            return false;
        }
        if local.is_real != 0 && local.is_real != 1 {
            return false;
        }
        if local.is_real == 1 {
            local.output == square_u32(local.input) && local.input_access.value == local.input
                && local.input_access.prev_value == local.input_access.value
                && local.output_access.value == local.output
        } else {
            true
        }
    }

    /// Whether `t` has the chip's width, at least one row, and meets the
    /// constraints on every window of two adjacent rows.
    pub fn check_trace(&self, t: &Trace) -> (r: bool)
        ensures
            r == trace_satisfies(*t),
    {
        if t.width() != SQUARE_NUM_COLS || t.values().len() % SQUARE_NUM_COLS != 0 {
            return false;
        }
        let h = t.height();
        if h == 0 {
            return false;
        }
        let mut i: usize = 0;
        while i < h
            invariant
                t.cols() == SQUARE_NUM_COLS,
                h == t.rows(),
                h >= 1,
                i <= h,
                first_row_constraints(row_at(*t, 0)) || i == 0,
                forall|k: int| 0 <= k < i ==> #[trigger] row_constraints(row_at(*t, k)),
                forall|k: int|
                    0 <= k < i && k < h - 1 ==> #[trigger] transition_constraints(
                        row_at(*t, k),
                        row_at(*t, k + 1),
                    ),
            decreases h - i,
        {
            let local = t.row(i);
            let is_transition = i + 1 < h;
            let next = if is_transition {
                t.row(i + 1)
            } else {
                local
            };
            if !self.eval(&local, &next, i == 0, is_transition) {
                return false;
            }
            i = i + 1;
        }
        true
    }
}

} // verus!
