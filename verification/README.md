# analysis_orchestration

Orchestration of circuit analyses and of mixed-signal co-simulation, with the
co-simulation logic verified by Verus.

- `src/` — the verified library: the simulation clock and identifiers
  (`time`), sparse analog checkpoints and their manager (`checkpoint`), the
  rollback handler (`rollback`), the boundary-signal exchanger
  (`boundary_exchanger`), the scheduler's decision machine and the scheduler
  over two kernels (`scheduler`, `mixed_signal`), the Icarus Verilog, Verilator
  and native-kernel adapters (`icarus`, `verilator`, `native_kernel`), the VCD
  writer (`vcd_writer`), and the non-numeric settings of a transient analysis
  (`transient`).
- `tests/` — tests of the library.
- `app/` — the floating-point analyses (DC, AC, noise, sweeps, transient), the
  co-simulation loop around the scheduler, the driver of the native digital
  kernel and the Python binding. They use the numeric solver, netlist graph,
  device-modelling and digital-kernel crates of the surrounding workspace.
