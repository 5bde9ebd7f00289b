//! Latency budget of a DRAM bank.

use vstd::prelude::*;

verus! {

/// Latencies of the three bank commands, in core clock cycles.
#[derive(Clone, Copy, Debug, PartialEq, Eq, Structural)]
pub struct DramTiming {
    /// Row-to-column delay: cycles from ACT until the row is open.
    pub t_rcd: usize,
    /// CAS latency: cycles from a read or write command until it finishes.
    pub t_cl: usize,
    /// Precharge time: cycles from PRE until the bank is idle.
    pub t_rp: usize,
}

impl DramTiming {
    /// Every command takes at least one cycle.
    pub open spec fn valid(self) -> bool {
        self.t_rcd >= 1 && self.t_cl >= 1 && self.t_rp >= 1
    }

    /// Four cycles for each command.
    pub fn educational_default() -> (timing: Self)
        ensures
            timing == (DramTiming { t_rcd: 4, t_cl: 4, t_rp: 4 }),
            timing.valid(),
    {
        DramTiming { t_rcd: 4, t_cl: 4, t_rp: 4 }
    }

    /// Whether every command takes at least one cycle.
    pub fn is_valid(&self) -> (ok: bool)
        ensures
            ok == self.valid(),
            ok == (self.t_rcd >= 1 && self.t_cl >= 1 && self.t_rp >= 1),
    {
        self.t_rcd >= 1 && self.t_cl >= 1 && self.t_rp >= 1
    }
}

/// Validity. A timing is valid exactly when each of its three commands takes a
/// cycle or more.
pub proof fn law_valid_timing(t_rcd: usize, t_cl: usize, t_rp: usize)
    ensures
        (DramTiming { t_rcd, t_cl, t_rp }).valid() <==> t_rcd > 0 && t_cl > 0 && t_rp > 0,
{
}

} // verus!
