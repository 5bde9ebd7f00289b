//! Loaded programs.

use vstd::prelude::*;

verus! {

/// A program in memory, ready to run.
#[derive(Debug)]
pub struct ProgramInfo {
    /// Address of the first instruction.
    pub entry_pc: u32,
    /// The memory image, from address 0 on.
    pub prog_body: Vec<u8>,
}

} // verus!
