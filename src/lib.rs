//! The squaring precompile of a zkVM: its execution against interpreter
//! state, the event that records it, the trace rows built from those events,
//! and the row constraints that the trace satisfies.
pub mod air;
pub mod chip;
pub mod event;
pub mod memory;
pub mod syscall;
pub mod trace;
