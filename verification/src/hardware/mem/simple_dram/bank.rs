//! One DRAM bank: the open row and the command in progress.

use vstd::prelude::*;

verus! {

/// What a bank is doing. `remaining` counts the cycles until the command in
/// progress finishes.
#[derive(Clone, Copy, Debug, PartialEq, Eq, Structural)]
pub enum BankState {
    /// No row is open.
    Idle,
    /// ACT in progress for `row`.
    Activating { row: u32, remaining: usize },
    /// The row is open and no command is in progress.
    Active(u32),
    /// Read command in progress in the open `row`.
    Reading { row: u32, remaining: usize },
    /// Write command in progress in the open `row`.
    Writing { row: u32, remaining: usize },
    /// PRE in progress.
    Precharging { remaining: usize },
}

/// The command that finished on a cycle.
#[derive(Clone, Copy, Debug, PartialEq, Eq, Structural)]
pub enum BankEvent {
    ActivationFinished,
    ReadFinished,
    WriteFinished,
    PrechargeFinished,
}

impl BankState {
    /// A command in progress has at least one cycle left.
    pub open spec fn wf(self) -> bool {
        match self {
            BankState::Idle => true,
            BankState::Active(_) => true,
            BankState::Activating { remaining, .. } => remaining >= 1,
            BankState::Reading { remaining, .. } => remaining >= 1,
            BankState::Writing { remaining, .. } => remaining >= 1,
            BankState::Precharging { remaining } => remaining >= 1,
        }
    }

    /// No command is in progress.
    pub open spec fn quiet(self) -> bool {
        self is Idle || self is Active
    }

    /// The state one cycle later, and the command that finished meanwhile.
    pub open spec fn advanced(self) -> (BankState, Option<BankEvent>) {
        match self {
            BankState::Idle => (self, None),
            BankState::Active(_) => (self, None),
            BankState::Activating { row, remaining } => if remaining <= 1 {
                (BankState::Active(row), Some(BankEvent::ActivationFinished))
            } else {
                (BankState::Activating { row, remaining: (remaining - 1) as usize }, None)
            },
            BankState::Reading { row, remaining } => if remaining <= 1 {
                (BankState::Active(row), Some(BankEvent::ReadFinished))
            } else {
                (BankState::Reading { row, remaining: (remaining - 1) as usize }, None)
            },
            BankState::Writing { row, remaining } => if remaining <= 1 {
                (BankState::Active(row), Some(BankEvent::WriteFinished))
            } else {
                (BankState::Writing { row, remaining: (remaining - 1) as usize }, None)
            },
            BankState::Precharging { remaining } => if remaining <= 1 {
                (BankState::Idle, Some(BankEvent::PrechargeFinished))
            } else {
                (BankState::Precharging { remaining: (remaining - 1) as usize }, None)
            },
        }
    }
}

/// A bank, idle when it is made.
#[derive(Debug)]
pub struct Bank {
    state: BankState,
}

impl View for Bank {
    type V = BankState;

    closed spec fn view(&self) -> BankState {
        self.state
    }
}

impl Bank {
    /// An idle bank.
    pub fn new() -> (bank: Self)
        ensures
            bank@ == BankState::Idle,
    {
        Bank { state: BankState::Idle }
    }

    /// What the bank is doing.
    pub fn state(&self) -> (state: BankState)
        ensures
            state == self@,
    {
        self.state
    }

    /// Issues ACT: `row` is open after `t_rcd` cycles.
    pub fn issue_activate(&mut self, row: u32, t_rcd: usize)
        requires
            old(self)@ is Idle,
            t_rcd >= 1,
        ensures
            final(self)@ == (BankState::Activating { row, remaining: t_rcd }),
    {
        self.state = BankState::Activating { row, remaining: t_rcd };
    }

    /// Issues a read in the open `row`: it finishes after `t_cl` cycles.
    pub fn issue_read(&mut self, row: u32, t_cl: usize)
        requires
            old(self)@ == BankState::Active(row),
            t_cl >= 1,
        ensures
            final(self)@ == (BankState::Reading { row, remaining: t_cl }),
    {
        self.state = BankState::Reading { row, remaining: t_cl };
    }

    /// Issues a write in the open `row`: it finishes after `t_cl` cycles.
    pub fn issue_write(&mut self, row: u32, t_cl: usize)
        requires
            old(self)@ == BankState::Active(row),
            t_cl >= 1,
        ensures
            final(self)@ == (BankState::Writing { row, remaining: t_cl }),
    {
        self.state = BankState::Writing { row, remaining: t_cl };
    }

    /// Issues PRE: the bank is idle after `t_rp` cycles.
    pub fn issue_precharge(&mut self, t_rp: usize)
        requires
            old(self)@ is Active,
            t_rp >= 1,
        ensures
            final(self)@ == (BankState::Precharging { remaining: t_rp }),
    {
        self.state = BankState::Precharging { remaining: t_rp };
    }

    /// Lets one cycle pass, and says which command finished on it.
    pub fn advance_one_cycle(&mut self) -> (event: Option<BankEvent>)
        ensures
            (final(self)@, event) == old(self)@.advanced(),
    {
        match self.state {
            BankState::Idle => None,
            BankState::Active(_) => None,
            BankState::Activating { row, remaining } => if remaining <= 1 {
                self.state = BankState::Active(row);
                Some(BankEvent::ActivationFinished)
            } else {
                self.state = BankState::Activating { row, remaining: remaining - 1 };
                None
            },
            BankState::Reading { row, remaining } => if remaining <= 1 {
                self.state = BankState::Active(row);
                Some(BankEvent::ReadFinished)
            } else {
                self.state = BankState::Reading { row, remaining: remaining - 1 };
                None
            },
            BankState::Writing { row, remaining } => if remaining <= 1 {
                self.state = BankState::Active(row);
                Some(BankEvent::WriteFinished)
            } else {
                self.state = BankState::Writing { row, remaining: remaining - 1 };
                None
            },
            BankState::Precharging { remaining } => if remaining <= 1 {
                self.state = BankState::Idle;
                Some(BankEvent::PrechargeFinished)
            } else {
                self.state = BankState::Precharging { remaining: remaining - 1 };
                None
            },
        }
    }
}

/// One cycle of a bank. A command with more than one cycle left has one less; a
/// command on its last cycle finishes: ACT, reads and writes leave the row open,
/// and PRE leaves none open. A bank without a command stays as it is.
pub proof fn law_bank_counts_down(row: u32, left: usize)
    requires
        left >= 1,
    ensures
        BankState::Idle.advanced() == (BankState::Idle, None::<BankEvent>),
        BankState::Active(row).advanced() == (BankState::Active(row), None::<BankEvent>),
        left > 1 ==> {
            let less = (left - 1) as usize;
            &&& (BankState::Activating { row, remaining: left }).advanced() == (
                BankState::Activating { row, remaining: less },
                None::<BankEvent>,
            )
            &&& (BankState::Reading { row, remaining: left }).advanced() == (
                BankState::Reading { row, remaining: less },
                None::<BankEvent>,
            )
            &&& (BankState::Writing { row, remaining: left }).advanced() == (
                BankState::Writing { row, remaining: less },
                None::<BankEvent>,
            )
            &&& (BankState::Precharging { remaining: left }).advanced() == (
                BankState::Precharging { remaining: less },
                None::<BankEvent>,
            )
        },
        (BankState::Activating { row, remaining: 1 }).advanced() == (
            BankState::Active(row),
            Some(BankEvent::ActivationFinished),
        ),
        (BankState::Reading { row, remaining: 1 }).advanced() == (
            BankState::Active(row),
            Some(BankEvent::ReadFinished),
        ),
        (BankState::Writing { row, remaining: 1 }).advanced() == (
            BankState::Active(row),
            Some(BankEvent::WriteFinished),
        ),
        (BankState::Precharging { remaining: 1 }).advanced() == (
            BankState::Idle,
            Some(BankEvent::PrechargeFinished),
        ),
{
}

} // verus!
