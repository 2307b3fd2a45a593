use square_precompile::chip::{
    next_power_of_two_usize, SquareChip, SquareCols, NONCE_COL, SQUARE_NUM_COLS,
};
use square_precompile::trace::Trace;
use square_precompile::event::{square_u32, ExecutionRecord, PrecompileEvent};
use square_precompile::memory::{is_valid_addr, Memory};
use square_precompile::syscall::{ExecutionError, SquareSyscall, SyscallContext};

fn context_with(values: &[(u32, u32)]) -> SyscallContext {
    let mut memory = Memory::new();
    for &(addr, value) in values {
        memory.init(addr, value);
    }
    SyscallContext::new(1, 8, 0, memory)
}

fn square_events(rt: &SyscallContext) -> Vec<(u32, u32)> {
    rt.record
        .get_precompile_events()
        .iter()
        .map(|(_, e)| match e {
            PrecompileEvent::Square(e) => (e.input, e.output),
        })
        .collect()
}

fn run_chain(start: u32, steps: u32) -> SyscallContext {
    let result_ptr: u32 = 100;
    let mut rt = context_with(&[(result_ptr, start)]);
    for i in 0..steps {
        rt.syscall_lookup_id = i as u64;
        let r = SquareSyscall.execute(&mut rt, result_ptr + i * 4, result_ptr + (i + 1) * 4);
        assert_eq!(r, None);
    }
    rt
}

fn trace_of(rt: &SyscallContext) -> Trace {
    let mut out = ExecutionRecord::new();
    SquareChip::new().generate_trace(&rt.record, &mut out)
}

#[test]
fn test_square_program_execute() {
    let rt = run_chain(5, 10);
    let mut x: u32 = 5;
    let events = square_events(&rt);
    assert_eq!(events.len(), 10);
    for (i, &(input, output)) in events.iter().enumerate() {
        assert_eq!(input, x);
        x = x.wrapping_mul(x);
        assert_eq!(output, x);
        assert_eq!(rt.memory.value(100 + (i as u32 + 1) * 4), x);
    }
    assert_eq!(events[0], (5, 25));
    assert_eq!(events[1], (25, 625));
    assert_eq!(events[2], (625, 390625));
    assert_eq!(events[3], (390625, 2264035265));
    let trace = trace_of(&rt);
    assert_eq!(trace.height(), 16);
    for i in 0..16 {
        assert_eq!(trace.values()[i * SQUARE_NUM_COLS + NONCE_COL], i as u32);
    }
    assert!(SquareChip::new().check_trace(&trace));
}

#[test]
fn square_wraps_modulo_word() {
    assert_eq!(square_u32(5), 25);
    assert_eq!(square_u32(0x1_0000), 0);
    assert_eq!(square_u32(0xFFFF_FFFF), 1);
    assert_eq!(square_u32(0x1_0001), 0x2_0001);
}

#[test]
fn execute_writes_square_to_output() {
    let mut rt = context_with(&[(40, 0x1_0001)]);
    let r = SquareSyscall.execute(&mut rt, 40, 44);
    assert_eq!(r, None);
    assert_eq!(rt.memory.value(44), 0x2_0001);
    assert_eq!(rt.memory.value(40), 0x1_0001);
    assert_eq!(rt.clk, 9);
    assert_eq!(rt.record.get_precompile_events().len(), 1);
    assert_eq!(SquareSyscall.num_extra_cycles(), 1);
}

#[test]
fn write_clock_follows_read_clock() {
    let rt = run_chain(3, 4);
    for (sys, e) in rt.record.get_precompile_events().iter() {
        let PrecompileEvent::Square(e) = e;
        assert_eq!(e.input_memory_record.timestamp, e.clk);
        assert_eq!(e.output_memory_record.timestamp, e.input_memory_record.timestamp + 1);
        assert_eq!(sys.clk, e.clk);
        assert_eq!(e.shard, 1);
    }
}

#[test]
fn event_records_memory_history() {
    let mut rt = context_with(&[(40, 7), (44, 9)]);
    assert_eq!(SquareSyscall.try_execute(&mut rt, 40, 44), Ok(None));
    let (sys, e) = &rt.record.get_precompile_events()[0];
    let PrecompileEvent::Square(e) = e;
    assert_eq!(sys.arg1, 40);
    assert_eq!(sys.arg2, 44);
    assert_eq!(e.input_memory_record.value, 7);
    assert_eq!(e.input_memory_record.prev_timestamp, 0);
    assert_eq!(e.output_memory_record.prev_value, 9);
    assert_eq!(e.output_memory_record.value, 49);
    assert_eq!(e.local_mem_access.len(), 2);
    assert_eq!(e.local_mem_access[0].addr, 40);
    assert_eq!(e.local_mem_access[1].addr, 44);
    assert_eq!(e.local_mem_access[1].initial_mem_access.value, 9);
    assert_eq!(e.local_mem_access[1].final_mem_access.value, 49);
    assert_eq!(e.local_mem_access[1].final_mem_access.timestamp, 9);
    assert_eq!(rt.local_memory_access.len(), 0);
}

#[test]
fn same_pointer_squares_in_place() {
    let mut rt = context_with(&[(64, 12)]);
    SquareSyscall.execute(&mut rt, 64, 64);
    assert_eq!(rt.memory.value(64), 144);
    let (_, e) = &rt.record.get_precompile_events()[0];
    let PrecompileEvent::Square(e) = e;
    assert_eq!(e.output_memory_record.prev_value, 12);
    assert_eq!(e.output_memory_record.prev_timestamp, 8);
    assert_eq!(e.local_mem_access.len(), 1);
    assert_eq!(e.local_mem_access[0].initial_mem_access.value, 12);
    assert_eq!(e.local_mem_access[0].final_mem_access.value, 144);
}

#[test]
fn unaligned_pointer_is_refused() {
    let mut rt = context_with(&[(40, 3)]);
    assert_eq!(SquareSyscall.try_execute(&mut rt, 41, 44), Err(ExecutionError::InvalidMemoryAccess(41)));
    assert_eq!(SquareSyscall.try_execute(&mut rt, 40, 46), Err(ExecutionError::InvalidMemoryAccess(46)));
    assert_eq!(rt.record.get_precompile_events().len(), 0);
    assert_eq!(rt.memory.value(44), 0);
    assert_eq!(rt.clk, 8);
}

#[test]
fn register_pointer_is_refused() {
    let mut rt = context_with(&[(40, 3)]);
    assert_eq!(SquareSyscall.try_execute(&mut rt, 28, 44), Err(ExecutionError::InvalidMemoryAccess(28)));
    assert_eq!(SquareSyscall.try_execute(&mut rt, 40, 0), Err(ExecutionError::InvalidMemoryAccess(0)));
    assert_eq!(rt.record.get_precompile_events().len(), 0);
    assert!(!is_valid_addr(31));
    assert!(is_valid_addr(32));
}

#[test]
fn empty_record_gives_one_padding_row() {
    let rt = context_with(&[]);
    let trace = trace_of(&rt);
    assert_eq!(trace.height(), 1);
    assert_eq!(trace.values(), &vec![0u32; SQUARE_NUM_COLS]);
    assert_eq!(trace.width(), SQUARE_NUM_COLS);
    assert!(!SquareChip::new().included(&rt.record));
    assert!(SquareChip::new().check_trace(&trace));
}

#[test]
fn row_count_is_next_power_of_two() {
    for (n, rows) in [(1u32, 1usize), (2, 2), (3, 4), (5, 8), (8, 8), (9, 16)] {
        let rt = run_chain(2, n);
        assert_eq!(trace_of(&rt).height(), rows);
    }
    assert_eq!(next_power_of_two_usize(0), 1);
    assert_eq!(next_power_of_two_usize(17), 32);
    assert_eq!(next_power_of_two_usize(64), 64);
}

#[test]
fn padding_rows_are_zero_but_nonce() {
    let rt = run_chain(6, 3);
    let trace = trace_of(&rt);
    assert_eq!(trace.height(), 4);
    let last = trace.row(3);
    let mut expected = SquareCols::<u32>::default();
    expected.nonce = 3;
    assert_eq!(last, expected);
    let first = trace.row(0);
    assert_eq!(first.is_real, 1);
    assert_eq!(first.nonce, 0);
    assert_eq!(first.input, 6);
    assert_eq!(first.output, 36);
    assert_eq!(first.input_ptr, 100);
    assert_eq!(first.output_ptr, 104);
    assert_eq!(first.shard, 1);
    assert_eq!(first.clk, 8);
    assert_eq!(trace.row(2).nonce, 2);
}

#[test]
fn included_iff_events() {
    let chip = SquareChip::new();
    let rt = run_chain(2, 1);
    assert!(chip.included(&rt.record));
    assert!(chip.included(&rt.record));
    assert!(!chip.included(&ExecutionRecord::new()));
}

#[test]
fn chip_identity() {
    let chip = SquareChip::new();
    assert_eq!(chip.name(), "Square");
    assert_eq!(chip.width(), SQUARE_NUM_COLS);
    assert_eq!(SQUARE_NUM_COLS, 16);
}

#[test]
fn tampered_trace_fails_constraints() {
    let chip = SquareChip::new();
    let rt = run_chain(3, 3);
    let good = trace_of(&rt);
    assert!(chip.check_trace(&good));
    let tampered = |k: usize, v: u32| {
        let mut values = good.values().clone();
        values[k] = v;
        Trace::new(values, SQUARE_NUM_COLS)
    };
    assert!(!chip.check_trace(&tampered(6, 10)));
    assert!(!chip.check_trace(&tampered(SQUARE_NUM_COLS + NONCE_COL, 5)));
    assert!(!chip.check_trace(&tampered(SQUARE_NUM_COLS + 15, 2)));
    assert!(!chip.check_trace(&tampered(SQUARE_NUM_COLS + 8, 4)));
    assert!(chip.check_trace(&tampered(3 * SQUARE_NUM_COLS + 3, 4)));
    let matrix = good.into_matrix();
    assert_eq!(matrix.width, SQUARE_NUM_COLS);
    assert_eq!(matrix.values.len(), 4 * SQUARE_NUM_COLS);
    let narrow = Trace::new(vec![0u32; 15], 15);
    assert!(!chip.check_trace(&narrow));
}

#[test]
fn events_apart_in_time_fail_transition() {
    let mut rt = context_with(&[(100, 2)]);
    SquareSyscall.execute(&mut rt, 100, 104);
    rt.clk += 4;
    SquareSyscall.execute(&mut rt, 104, 108);
    let trace = trace_of(&rt);
    assert_eq!(trace.height(), 2);
    assert!(!SquareChip::new().check_trace(&trace));
}

#[test]
fn eval_checks_each_constraint() {
    let chip = SquareChip::new();
    let mut local = SquareCols::<u32>::default();
    let mut next = SquareCols::<u32>::default();
    next.nonce = 1;
    assert!(chip.eval(&local, &next, true, true));
    local.nonce = 1;
    assert!(!chip.eval(&local, &next, true, false));
    assert!(!chip.eval(&local, &next, false, true));
    local.nonce = 0;
    local.is_real = 1;
    local.input = 4;
    local.output = 16;
    local.input_access.value = 4;
    local.input_access.prev_value = 4;
    local.output_access.value = 16;
    assert!(chip.eval(&local, &next, true, true));
    local.output = 15;
    assert!(!chip.eval(&local, &next, false, false));
    let mut padding = SquareCols::<u32>::default();
    padding.nonce = 4;
    let mut real = SquareCols::<u32>::default();
    real.nonce = 5;
    real.is_real = 1;
    real.shard = 1;
    real.clk = 8;
    assert!(chip.eval(&padding, &real, false, true));
    let mut other = real;
    other.nonce = 6;
    other.clk = 9;
    assert!(chip.eval(&real, &other, false, true));
    other.shard = 2;
    assert!(!chip.eval(&real, &other, false, true));
    assert!(chip.eval(&real, &other, false, false));
    other.shard = 1;
    other.clk = 100;
    assert!(!chip.eval(&real, &other, false, true));
    local.is_real = 2;
    assert!(!chip.eval(&local, &next, false, false));
}
