//! Cycle-accurate single-bank DRAM controller.
//!
//! Unlike a flat memory, the controller exposes row-buffer hits, row-buffer
//! misses and bank-busy stalls.
//!
//! ## Timing model
//!
//! | Path                | Cycles until done  | When                                   |
//! |---------------------|--------------------|----------------------------------------|
//! | Cold open           | `tRCD + tCL`       | No row is open.                        |
//! | Row buffer **hit**  | `tCL`              | The row of the request is open.        |
//! | Row buffer **miss** | `tRP + tRCD + tCL` | Another row is open: PRE comes first.  |
//!
//! A cold open counts as a miss, since it issues an ACT like any other miss.
//!
//! ## Order within a cycle
//!
//! [`SimpleDram::tick`] decides first and advances second: it looks at the
//! bank and the pending request, issues a command if one can be issued, and
//! lets the bank advance by one cycle. A read or write that finishes completes
//! the request in the same tick. This order makes the latencies of the table
//! exact: [`laws::law_service`] proves them of the state machine in [`model`],
//! which the contracts below speak of.

pub mod bank;
pub mod laws;
pub mod model;
pub mod timing;

use vstd::prelude::*;

use crate::hardware::mem::abstract_mem::{MemoryReqType, RequestView};
pub use timing::DramTiming;
use bank::{Bank, BankEvent, BankState};
use model::{DramCoreView, DramView};

verus! {

/// Default number of bytes that share one row buffer: a power of two, and
/// large enough for a typical cache block.
pub const DEFAULT_ROW_SIZE_BYTES: usize = 1024;

/// Single-bank DRAM controller. The whole address space is row-major within
/// the one bank.
#[derive(Debug)]
pub struct SimpleDram {
    /// What the controller keeps to itself.
    pub core: DramCore,
    /// Number of requests served entirely from an open row.
    pub row_buffer_hit_cnt: usize,
    /// Number of requests that required an ACT, counted when it is issued.
    pub row_buffer_miss_cnt: usize,
    /// Number of requests that opened an idle bank.
    pub cold_open_cnt: usize,
    /// Number of requests that had to precharge a different open row.
    pub row_conflict_cnt: usize,
    /// Sum of the modelled service latency of every request.
    pub total_access_time_cycles: usize,
}

/// The part of a controller that only its methods read and change.
#[derive(Debug)]
pub struct DramCore {
    /// Backing byte storage, sized at construction.
    data: Vec<u8>,
    /// Latencies of the bank commands.
    timing: DramTiming,
    /// Bytes per row buffer, a power of two.
    row_size_bytes: usize,
    /// The single bank.
    bank: Bank,
    /// Request in flight. It stays here until it is done.
    pending_req: Option<MemoryReqType>,
    /// Set on the cycle on which ACT is issued for the request in flight, so
    /// that its own read or write is not counted as a hit.
    pending_req_required_activate: bool,
    /// Set when the request in flight finds a different row open.
    pending_req_required_precharge: bool,
}

/// The view of an optional request.
pub open spec fn request_view(req: Option<MemoryReqType>) -> Option<RequestView> {
    match req {
        Some(req) => Some(req@),
        None => None,
    }
}

impl View for DramCore {
    type V = DramCoreView;

    closed spec fn view(&self) -> DramCoreView {
        DramCoreView {
            data: self.data@,
            timing: self.timing,
            row_size: self.row_size_bytes as nat,
            bank: self.bank@,
            pending: request_view(self.pending_req),
            activated: self.pending_req_required_activate,
            precharged: self.pending_req_required_precharge,
        }
    }
}

impl View for SimpleDram {
    type V = DramView;

    open spec fn view(&self) -> DramView {
        DramView {
            data: self.core@.data,
            timing: self.core@.timing,
            row_size: self.core@.row_size,
            bank: self.core@.bank,
            pending: self.core@.pending,
            activated: self.core@.activated,
            precharged: self.core@.precharged,
            row_buffer_hit_cnt: self.row_buffer_hit_cnt as nat,
            row_buffer_miss_cnt: self.row_buffer_miss_cnt as nat,
            cold_open_cnt: self.cold_open_cnt as nat,
            row_conflict_cnt: self.row_conflict_cnt as nat,
            total_access_time_cycles: self.total_access_time_cycles as nat,
        }
    }
}

impl SimpleDram {
    /// What every constructor establishes and every method keeps.
    pub open spec fn wf(&self) -> bool {
        self@.inv()
    }

    /// Whether the cycles charged by the next tick still fit in the counters.
    pub open spec fn next_tick_fits(&self) -> bool {
        self@.issued().total_access_time_cycles <= usize::MAX
    }

    /// A controller backed by `init_data`, with rows of
    /// [`DEFAULT_ROW_SIZE_BYTES`]; [`SimpleDram::with_row_size`] changes them.
    pub fn new(init_data: Vec<u8>, timing: DramTiming) -> (dram: Self)
        requires
            timing.valid(),
        ensures
            dram.wf(),
            dram@ == DramView::fresh(init_data@, timing, DEFAULT_ROW_SIZE_BYTES as nat),
            dram.core@.data == init_data@,
            dram.core@.timing.t_rcd == timing.t_rcd,
            dram.core@.timing.t_cl == timing.t_cl,
            dram.core@.timing.t_rp == timing.t_rp,
            dram.core@.row_size == 1024,
            dram.core@.bank == BankState::Idle,
            dram.core@.pending is None,
            dram.row_buffer_hit_cnt == 0,
            dram.row_buffer_miss_cnt == 0,
            dram.cold_open_cnt == 0,
            dram.row_conflict_cnt == 0,
            dram.total_access_time_cycles == 0,
    {
        let core = DramCore {
            data: init_data,
            timing,
            row_size_bytes: DEFAULT_ROW_SIZE_BYTES,
            bank: Bank::new(),
            pending_req: None,
            pending_req_required_activate: false,
            pending_req_required_precharge: false,
        };
        let dram = SimpleDram {
            core,
            row_buffer_hit_cnt: 0,
            row_buffer_miss_cnt: 0,
            cold_open_cnt: 0,
            row_conflict_cnt: 0,
            total_access_time_cycles: 0,
        };
        proof {
            reveal_with_fuel(vstd::arithmetic::power2::is_pow2, 11);
        }
        dram
    }

    /// Changes the row size.
    pub fn with_row_size(self, row_size_bytes: usize) -> (dram: Self)
        requires
            self.wf(),
            vstd::arithmetic::power2::is_pow2(row_size_bytes as int),
        ensures
            dram.wf(),
            dram@ == (DramView { row_size: row_size_bytes as nat, ..self@ }),
            dram.core@ == (DramCoreView { row_size: row_size_bytes as nat, ..self.core@ }),
            dram.row_buffer_hit_cnt == self.row_buffer_hit_cnt,
            dram.row_buffer_miss_cnt == self.row_buffer_miss_cnt,
            dram.cold_open_cnt == self.cold_open_cnt,
            dram.row_conflict_cnt == self.row_conflict_cnt,
            dram.total_access_time_cycles == self.total_access_time_cycles,
    {
        let mut dram = self;
        dram.core.row_size_bytes = row_size_bytes;
        dram
    }

    /// The latencies of the bank commands.
    pub fn timing(&self) -> (timing: DramTiming)
        ensures
            timing == self@.timing,
            timing == self.core@.timing,
    {
        self.core.timing
    }

    /// Number of completed or in-flight requests that have been classified as a
    /// hit, a cold open or a row conflict.
    ///
    /// A row conflict is counted as a miss when its ACT is issued. So this is
    /// the number of hits and misses, but for a conflict whose ACT is still to
    /// come.
    pub fn dram_access_cnt(&self) -> (cnt: usize)
        requires
            self.wf(),
        ensures
            cnt == self@.access_cnt(),
            cnt == self.row_buffer_hit_cnt + self.cold_open_cnt + self.row_conflict_cnt,
            cnt == self@.row_buffer_hit_cnt + self@.row_buffer_miss_cnt + (
            if self@.activation_owed() {
                1nat
            } else {
                0nat
            }),
    {
        proof {
            self@.lemma_total_bounds_counters();
        }
        self.row_buffer_hit_cnt + self.cold_open_cnt + self.row_conflict_cnt
    }

    /// Whether the whole of `req` lies in this memory.
    pub fn covers(&self, req: &MemoryReqType) -> (inside: bool)
        ensures
            inside == req@.within(self@.data.len()),
    {
        let addr: usize = req.get_addr() as usize;
        let size: usize = self.core.data.len();
        addr <= size && req.get_len() <= size - addr
    }

    /// Whether the next [`SimpleDram::tick`] keeps every counter in range.
    pub fn can_tick(&self) -> (fits: bool)
        requires
            self.wf(),
        ensures
            fits == self.next_tick_fits(),
    {
        let t = self.core.timing;
        let total: usize = self.total_access_time_cycles;
        match &self.core.pending_req {
            None => true,
            Some(req) => match self.core.bank.state() {
                BankState::Idle => self.core.pending_req_required_precharge || fits_in_usize(
                    total,
                    t.t_rcd,
                    t.t_cl,
                    0,
                ),
                BankState::Active(open_row) => if open_row == self.addr_to_row(req.get_addr()) {
                    self.core.pending_req_required_activate || fits_in_usize(total, t.t_cl, 0, 0)
                } else {
                    fits_in_usize(total, t.t_rp, t.t_rcd, t.t_cl)
                },
                BankState::Activating { .. } => true,
                BankState::Precharging { .. } => true,
                BankState::Reading { .. } => true,
                BankState::Writing { .. } => true,
            },
        }
    }

    /// The row that holds `addr`. The division is done in 64 bits, so rows
    /// larger than the address space are one row.
    pub fn addr_to_row(&self, addr: u32) -> (row: u32)
        requires
            self.wf(),
        ensures
            row == self@.row_of(addr),
            row * self@.row_size <= addr < (row + 1) * self@.row_size,
    {
        proof {
            lemma_row_fits(addr, self.core.row_size_bytes);
            laws::law_rows_are_aligned_blocks(self@, addr, addr, 0);
        }
        (addr as u64 / self.core.row_size_bytes as u64) as u32
    }

    /// Takes on `req` unless another request is in flight; the caller retries
    /// after `Err`.
    pub fn try_register_req(&mut self, req: &MemoryReqType) -> (res: Result<(), ()>)
        requires
            old(self).wf(),
            req@.within(old(self)@.data.len()),
        ensures
            final(self).wf(),
            res is Err <==> old(self)@.pending is Some,
            res is Err ==> *final(self) == *old(self),
            res is Ok ==> final(self)@ == old(self)@.registered(req@),
            res is Ok <==> old(self).core@.pending is None,
            res is Ok ==> final(self).core@.pending == Some(req@),
            res is Ok ==> final(self).core@.data == old(self).core@.data,
    {
        if self.core.pending_req.is_some() {
            return Err(());
        }
        self.core.pending_req = Some(req.duplicate());
        self.core.pending_req_required_activate = false;
        self.core.pending_req_required_precharge = false;
        Ok(())
    }

    /// First half of a tick: issues the command that the pending request
    /// needs next, if the bank can take one.
    fn issue_command(&mut self)
        requires
            old(self).wf(),
            old(self).next_tick_fits(),
        ensures
            final(self).wf(),
            final(self)@ == old(self)@.issued(),
    {
        proof {
            self@.lemma_issued_keeps_inv();
            self@.issued().lemma_total_bounds_counters();
        }
        let wanted: Option<(u32, bool)> = match &self.core.pending_req {
            Some(req) => Some((self.addr_to_row(req.get_addr()), req.is_store())),
            None => None,
        };
        if let Some((req_row, req_is_store)) = wanted {
            match self.core.bank.state() {
                BankState::Idle => {
                    self.row_buffer_miss_cnt += 1;
                    if !self.core.pending_req_required_precharge {
                        self.cold_open_cnt += 1;
                        self.total_access_time_cycles += self.core.timing.t_rcd + self.core.timing.t_cl;
                    }
                    self.core.pending_req_required_activate = true;
                    self.core.bank.issue_activate(req_row, self.core.timing.t_rcd);
                },
                BankState::Active(open_row) => if open_row == req_row {
                    // Without an ACT of its own the request is a hit; with
                    // one it was counted when the ACT was issued.
                    if !self.core.pending_req_required_activate {
                        self.row_buffer_hit_cnt += 1;
                        self.total_access_time_cycles += self.core.timing.t_cl;
                    }
                    if req_is_store {
                        self.core.bank.issue_write(req_row, self.core.timing.t_cl);
                    } else {
                        self.core.bank.issue_read(req_row, self.core.timing.t_cl);
                    }
                } else {
                    // A later tick finds the bank idle and opens the row.
                    self.row_conflict_cnt += 1;
                    self.total_access_time_cycles += self.core.timing.t_rp + self.core.timing.t_rcd
                        + self.core.timing.t_cl;
                    self.core.pending_req_required_precharge = true;
                    self.core.bank.issue_precharge(self.core.timing.t_rp);
                },
                BankState::Activating { .. } => {},
                BankState::Precharging { .. } => {},
                BankState::Reading { .. } => {},
                BankState::Writing { .. } => {},
            }
        }
    }

    /// Hands out the pending load with the bytes that it reads.
    fn complete_pending_read(&mut self) -> (done: Option<MemoryReqType>)
        requires
            old(self)@.pending matches Some(req) && req is Load && req.within(
                old(self)@.data.len(),
            ),
        ensures
            final(self)@ == (DramView {
                pending: None,
                activated: false,
                precharged: false,
                ..old(self)@
            }),
            request_view(done) == Some(old(self)@.pending->0.completed(old(self)@.data)),
    {
        let taken = self.core.pending_req.take();
        self.core.pending_req_required_activate = false;
        self.core.pending_req_required_precharge = false;
        match taken {
            Some(req) => Some(req.complete_load_from(&self.core.data)),
            None => None,
        }
    }

    /// Carries out the pending store and hands it out.
    fn complete_pending_write(&mut self) -> (done: Option<MemoryReqType>)
        requires
            old(self)@.pending matches Some(req) && req is Store && req.within(
                old(self)@.data.len(),
            ),
        ensures
            final(self)@ == (DramView {
                data: old(self)@.pending->0.applied(old(self)@.data),
                pending: None,
                activated: false,
                precharged: false,
                ..old(self)@
            }),
            request_view(done) == Some(old(self)@.pending->0.completed(old(self)@.data)),
    {
        let taken = self.core.pending_req.take();
        self.core.pending_req_required_activate = false;
        self.core.pending_req_required_precharge = false;
        match taken {
            Some(req) => Some(req.complete_store_into(&mut self.core.data)),
            None => None,
        }
    }

    /// One core clock cycle. The request that is done on it, if any, is handed
    /// out completed.
    pub fn tick(&mut self) -> (done: Option<MemoryReqType>)
        requires
            old(self).wf(),
            old(self).next_tick_fits(),
        ensures
            final(self).wf(),
            final(self)@ == old(self)@.step().0,
            request_view(done) == old(self)@.step().1,
            match done {
                Some(req) => old(self)@.step().1 == Some(req@),
                None => old(self)@.step().1 is None,
            },
    {
        self.issue_command();
        proof {
            old(self)@.lemma_step_keeps_inv();
        }
        match self.core.bank.advance_one_cycle() {
            Some(BankEvent::ReadFinished) => self.complete_pending_read(),
            Some(BankEvent::WriteFinished) => self.complete_pending_write(),
            Some(BankEvent::ActivationFinished) => None,
            Some(BankEvent::PrechargeFinished) => None,
            None => None,
        }
    }
}

/// Whether the four numbers add up to a `usize`.
fn fits_in_usize(a: usize, b: usize, c: usize, d: usize) -> (fits: bool)
    ensures
        fits == (a + b + c + d <= usize::MAX),
{
    match a.checked_add(b) {
        None => false,
        Some(ab) => match ab.checked_add(c) {
            None => false,
            Some(abc) => abc.checked_add(d).is_some(),
        },
    }
}

/// A row number fits in 32 bits.
proof fn lemma_row_fits(addr: u32, row_size: usize)
    requires
        vstd::arithmetic::power2::is_pow2(row_size as int),
    ensures
        row_size >= 1,
        0 <= addr as int / row_size as int <= addr,
{
    reveal(vstd::arithmetic::power2::is_pow2);
    assert(0 <= addr as int / row_size as int <= addr) by (nonlinear_arith)
        requires
            row_size >= 1,
    ;
}

} // verus!
