# simulator

A teaching model of the memory side of a RISC-V pipeline simulator, written in
Verus.

- `src/hardware/mem/simple_dram`: a cycle-accurate single-bank DRAM controller.
  `model.rs` is its state machine, `laws.rs` what holds of it: latency,
  accounting, byte-array behaviour.
- `src/hardware/mem/general_cache`: the configuration of a cache.
- `src/sim/runner.rs`: the configuration of a simulation, its set-up, its clock
  and its report.
- `src/sim/cli.rs`, `src/sim/options.rs`, `src/sim/command_line.rs`: the command
  line and its options, read with clap.
- `src/number.rs`: decimal notation and powers of two.
- `app`: the front end. It performs input and output, and drives a processor
  and a flat memory that the program using it supplies.
- `tests`: the library run on concrete values.
