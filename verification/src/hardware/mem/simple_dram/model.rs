//! The controller as a state machine: one state, one step per clock cycle.

use vstd::prelude::*;

use crate::hardware::mem::abstract_mem::RequestView;
use super::bank::{BankEvent, BankState};
use super::timing::DramTiming;

verus! {

/// How a request finds the row buffer when the controller first looks at it.
pub enum RowAccess {
    /// No row is open.
    ColdOpen,
    /// The row that the request needs is open.
    Hit,
    /// Another row is open.
    Conflict,
}

/// Everything that decides how a controller behaves.
#[verifier::ext_equal]
pub struct DramView {
    /// The stored bytes.
    pub data: Seq<u8>,
    /// Latencies of the bank commands.
    pub timing: DramTiming,
    /// Bytes that share one row buffer.
    pub row_size: nat,
    /// What the bank is doing.
    pub bank: BankState,
    /// The request in flight.
    pub pending: Option<RequestView>,
    /// Whether ACT was issued for the request in flight.
    pub activated: bool,
    /// Whether PRE was issued for the request in flight.
    pub precharged: bool,
    /// Requests served from an open row.
    pub row_buffer_hit_cnt: nat,
    /// Requests that needed ACT.
    pub row_buffer_miss_cnt: nat,
    /// Requests that found no row open.
    pub cold_open_cnt: nat,
    /// Requests that found another row open.
    pub row_conflict_cnt: nat,
    /// Cycles charged to all requests so far.
    pub total_access_time_cycles: nat,
}

/// The part of it that only the controller itself reads and changes.
pub struct DramCoreView {
    pub data: Seq<u8>,
    pub timing: DramTiming,
    pub row_size: nat,
    pub bank: BankState,
    pub pending: Option<RequestView>,
    pub activated: bool,
    pub precharged: bool,
}

impl DramTiming {
    /// Cycles that a request takes, by the way in which it finds the row buffer.
    pub open spec fn latency(self, access: RowAccess) -> nat {
        match access {
            RowAccess::ColdOpen => (self.t_rcd + self.t_cl) as nat,
            RowAccess::Hit => self.t_cl as nat,
            RowAccess::Conflict => (self.t_rp + self.t_rcd + self.t_cl) as nat,
        }
    }
}

impl DramView {
    /// A controller over `data` that has served nothing yet.
    pub open spec fn fresh(data: Seq<u8>, timing: DramTiming, row_size: nat) -> DramView {
        DramView {
            data,
            timing,
            row_size,
            bank: BankState::Idle,
            pending: None,
            activated: false,
            precharged: false,
            row_buffer_hit_cnt: 0,
            row_buffer_miss_cnt: 0,
            cold_open_cnt: 0,
            row_conflict_cnt: 0,
            total_access_time_cycles: 0,
        }
    }

    /// The row that holds `addr`.
    pub open spec fn row_of(self, addr: u32) -> u32 {
        (addr as int / self.row_size as int) as u32
    }

    /// How a request for `addr` finds the row buffer.
    pub open spec fn access(self, addr: u32) -> RowAccess {
        match self.bank {
            BankState::Active(open_row) => if open_row == self.row_of(addr) {
                RowAccess::Hit
            } else {
                RowAccess::Conflict
            },
            _ => RowAccess::ColdOpen,
        }
    }

    /// Cycles that a request for `addr` takes from here.
    pub open spec fn latency(self, addr: u32) -> nat {
        self.timing.latency(self.access(addr))
    }

    /// The state right after `req` was taken on.
    pub open spec fn registered(self, req: RequestView) -> DramView {
        DramView { pending: Some(req), activated: false, precharged: false, ..self }
    }

    /// ACT issued for `row`: a miss, and a cold open unless PRE came first.
    pub open spec fn with_activate(self, row: u32) -> DramView {
        DramView {
            bank: BankState::Activating { row, remaining: self.timing.t_rcd },
            activated: true,
            row_buffer_miss_cnt: self.row_buffer_miss_cnt + 1,
            cold_open_cnt: if self.precharged {
                self.cold_open_cnt
            } else {
                self.cold_open_cnt + 1
            },
            total_access_time_cycles: if self.precharged {
                self.total_access_time_cycles
            } else {
                self.total_access_time_cycles + self.timing.latency(RowAccess::ColdOpen)
            },
            ..self
        }
    }

    /// Read or write issued in the open `row`: a hit unless ACT came first.
    pub open spec fn with_column_access(self, row: u32, store: bool) -> DramView {
        DramView {
            bank: if store {
                BankState::Writing { row, remaining: self.timing.t_cl }
            } else {
                BankState::Reading { row, remaining: self.timing.t_cl }
            },
            row_buffer_hit_cnt: if self.activated {
                self.row_buffer_hit_cnt
            } else {
                self.row_buffer_hit_cnt + 1
            },
            total_access_time_cycles: if self.activated {
                self.total_access_time_cycles
            } else {
                self.total_access_time_cycles + self.timing.latency(RowAccess::Hit)
            },
            ..self
        }
    }

    /// PRE issued: a row conflict.
    pub open spec fn with_precharge(self) -> DramView {
        DramView {
            bank: BankState::Precharging { remaining: self.timing.t_rp },
            precharged: true,
            row_conflict_cnt: self.row_conflict_cnt + 1,
            total_access_time_cycles: self.total_access_time_cycles + self.timing.latency(
                RowAccess::Conflict,
            ),
            ..self
        }
    }

    /// First half of a cycle: the command that the pending request needs next
    /// is issued, if the bank can take one.
    pub open spec fn issued(self) -> DramView {
        match self.pending {
            None => self,
            Some(req) => {
                let row = self.row_of(req.addr());
                match self.bank {
                    BankState::Idle => self.with_activate(row),
                    BankState::Active(open_row) => if open_row == row {
                        self.with_column_access(row, req is Store)
                    } else {
                        self.with_precharge()
                    },
                    _ => self,
                }
            },
        }
    }

    /// Second half of a cycle: the bank advances, and a read or write that
    /// finishes completes the pending request.
    pub open spec fn advanced(self) -> (DramView, Option<RequestView>) {
        let (bank, event) = self.bank.advanced();
        match (event, self.pending) {
            (Some(BankEvent::ReadFinished), Some(req)) => (
                DramView { bank, pending: None, activated: false, precharged: false, ..self },
                Some(req.completed(self.data)),
            ),
            (Some(BankEvent::WriteFinished), Some(req)) => (
                DramView {
                    bank,
                    data: req.applied(self.data),
                    pending: None,
                    activated: false,
                    precharged: false,
                    ..self
                },
                Some(req.completed(self.data)),
            ),
            _ => (DramView { bank, ..self }, None),
        }
    }

    /// One clock cycle: the state after it, and the request it completed.
    pub open spec fn step(self) -> (DramView, Option<RequestView>) {
        self.issued().advanced()
    }

    /// The state after `n` clock cycles in which no request is registered.
    pub open spec fn after(self, n: nat) -> DramView
        decreases n,
    {
        if n == 0 {
            self
        } else {
            self.after((n - 1) as nat).step().0
        }
    }

    /// The state after `offer` was offered: a request is taken on unless one is
    /// in flight.
    pub open spec fn offered(self, offer: Option<RequestView>) -> DramView {
        match offer {
            Some(req) => if self.pending is None {
                self.registered(req)
            } else {
                self
            },
            None => self,
        }
    }

    /// The state after one cycle for each of `offers`, each offered before its
    /// cycle.
    pub open spec fn driven(self, offers: Seq<Option<RequestView>>) -> DramView
        decreases offers.len(),
    {
        if offers.len() == 0 {
            self
        } else {
            self.driven(offers.drop_last()).offered(offers.last()).step().0
        }
    }

    /// The state after `reqs` were served one after the other, each ticked until
    /// it was done before the next was taken on.
    pub open spec fn ran(self, reqs: Seq<RequestView>) -> DramView
        decreases reqs.len(),
    {
        if reqs.len() == 0 {
            self
        } else {
            let before = self.ran(reqs.drop_last());
            before.registered(reqs.last()).after(before.latency(reqs.last().addr()))
        }
    }

    /// The cycles that `reqs` take in such a run, added up.
    pub open spec fn cycles(self, reqs: Seq<RequestView>) -> nat
        decreases reqs.len(),
    {
        if reqs.len() == 0 {
            0
        } else {
            self.cycles(reqs.drop_last()) + self.ran(reqs.drop_last()).latency(reqs.last().addr())
        }
    }

    /// What is handed out in such a run for the `n`-th of `reqs`, on its last
    /// cycle.
    pub open spec fn handed_out(self, reqs: Seq<RequestView>, n: int) -> Option<RequestView> {
        let before = self.ran(reqs.take(n));
        before.registered(reqs[n]).after(
            (before.latency(reqs[n].addr()) - 1) as nat,
        ).step().1
    }

    /// PRE was issued for the request in flight and its ACT is still to come.
    pub open spec fn activation_owed(self) -> bool {
        self.bank is Precharging || (self.bank is Idle && self.precharged)
    }

    /// Requests that have been classified.
    pub open spec fn access_cnt(self) -> nat {
        self.row_buffer_hit_cnt + self.cold_open_cnt + self.row_conflict_cnt
    }

    /// The latencies of all classified requests, added up.
    pub open spec fn service_time(self) -> nat {
        self.row_buffer_hit_cnt * self.timing.latency(RowAccess::Hit) + self.cold_open_cnt
            * self.timing.latency(RowAccess::ColdOpen) + self.row_conflict_cnt
            * self.timing.latency(RowAccess::Conflict)
    }

    /// What holds of a controller in every state.
    pub open spec fn inv(self) -> bool {
        &&& self.timing.valid()
        &&& vstd::arithmetic::power2::is_pow2(self.row_size as int)
        &&& self.bank.wf()
        &&& match self.pending {
            None => self.bank.quiet() && !self.activated && !self.precharged,
            Some(req) => {
                &&& req.within(self.data.len())
                &&& self.bank is Reading ==> req is Load
                &&& self.bank is Writing ==> req is Store
                &&& self.bank is Precharging ==> self.precharged
            },
        }
        &&& self.row_buffer_miss_cnt + (if self.activation_owed() {
            1nat
        } else {
            0nat
        }) == self.cold_open_cnt + self.row_conflict_cnt
        &&& self.total_access_time_cycles == self.service_time()
    }

    /// The state once `req` has been served from here, in closed form: one
    /// counter and its latency more, the row of the request open, and the
    /// bytes that a store covers replaced.
    pub open spec fn served(self, req: RequestView) -> DramView {
        let access = self.access(req.addr());
        DramView {
            data: req.applied(self.data),
            bank: BankState::Active(self.row_of(req.addr())),
            row_buffer_hit_cnt: self.row_buffer_hit_cnt + (if access is Hit {
                1nat
            } else {
                0nat
            }),
            row_buffer_miss_cnt: self.row_buffer_miss_cnt + (if access is Hit {
                0nat
            } else {
                1nat
            }),
            cold_open_cnt: self.cold_open_cnt + (if access is ColdOpen {
                1nat
            } else {
                0nat
            }),
            row_conflict_cnt: self.row_conflict_cnt + (if access is Conflict {
                1nat
            } else {
                0nat
            }),
            total_access_time_cycles: self.total_access_time_cycles + self.latency(req.addr()),
            ..self
        }
    }

    /// Taking on a request keeps the invariant.
    pub proof fn lemma_registered_keeps_inv(self, req: RequestView)
        requires
            self.inv(),
            self.pending is None,
            req.within(self.data.len()),
        ensures
            self.registered(req).inv(),
    {
    }

    /// Issuing a command keeps the invariant.
    pub proof fn lemma_issued_keeps_inv(self)
        requires
            self.inv(),
        ensures
            self.issued().inv(),
    {
        let hit = self.timing.latency(RowAccess::Hit);
        let cold = self.timing.latency(RowAccess::ColdOpen);
        let conflict = self.timing.latency(RowAccess::Conflict);
        lemma_one_more(self.row_buffer_hit_cnt, hit);
        lemma_one_more(self.cold_open_cnt, cold);
        lemma_one_more(self.row_conflict_cnt, conflict);
    }

    /// One cycle keeps the invariant.
    pub proof fn lemma_step_keeps_inv(self)
        requires
            self.inv(),
        ensures
            self.step().0.inv(),
    {
        self.lemma_issued_keeps_inv();
    }

    /// The cycles charged bound every counter.
    pub proof fn lemma_total_bounds_counters(self)
        requires
            self.inv(),
        ensures
            self.access_cnt() <= self.total_access_time_cycles,
            self.row_buffer_miss_cnt <= self.cold_open_cnt + self.row_conflict_cnt,
    {
        lemma_at_least(self.row_buffer_hit_cnt, self.timing.latency(RowAccess::Hit));
        lemma_at_least(self.cold_open_cnt, self.timing.latency(RowAccess::ColdOpen));
        lemma_at_least(self.row_conflict_cnt, self.timing.latency(RowAccess::Conflict));
    }
}

proof fn lemma_one_more(n: nat, k: nat)
    ensures
        (n + 1) * k == n * k + k,
{
    assert((n + 1) * k == n * k + k) by (nonlinear_arith);
}

proof fn lemma_at_least(n: nat, k: nat)
    requires
        k >= 1,
    ensures
        n <= n * k,
{
    assert(n <= n * k) by (nonlinear_arith)
        requires
            k >= 1,
    ;
}

} // verus!
