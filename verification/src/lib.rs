use vstd::prelude::*;

pub mod boundary_exchanger;
pub mod checkpoint;
pub mod icarus;
pub mod mixed_signal;
pub mod native_kernel;
pub mod order;
pub mod rollback;
pub mod scheduler;
pub mod text;
pub mod time;
pub mod transient;
pub mod vcd_writer;
pub mod verilator;
