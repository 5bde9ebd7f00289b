//! Timing model and run configuration of a teaching RISC-V pipeline simulator.

pub mod hardware;
pub mod number;
pub mod sim;
