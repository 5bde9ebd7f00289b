//! Running a program on the modelled hardware.

pub mod cli;
pub mod command_line;
pub mod elf;
pub mod options;
pub mod runner;
