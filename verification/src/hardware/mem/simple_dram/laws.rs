//! Laws of the controller: latency, accounting and contents.

use vstd::prelude::*;

use crate::hardware::mem::abstract_mem::RequestView;
use super::bank::BankState;
use super::model::DramView;
use super::timing::DramTiming;

verus! {

/// Latency. A request that a controller takes on while it has nothing in
/// flight is done after exactly the cycles that its row access costs: `tCL`
/// for a hit, `tRCD + tCL` for a cold open, `tRP + tRCD + tCL` for a conflict.
/// It is in flight until that cycle and handed out on it, and nothing is handed
/// out before. The state it leaves is [`DramView::served`].
pub proof fn law_service(s: DramView, req: RequestView)
    requires
        s.inv(),
        s.pending is None,
        req.within(s.data.len()),
    ensures
        s.latency(req.addr()) >= 1,
        forall|k: nat|
            k < s.latency(req.addr()) ==> (#[trigger] s.registered(req).after(k)).pending == Some(
                req,
            ),
        forall|k: nat|
            k + 1 < s.latency(req.addr()) ==> (#[trigger] s.registered(req).after(k)).step().1
                is None,
        s.registered(req).after((s.latency(req.addr()) - 1) as nat).step().1 == Some(
            req.completed(s.data),
        ),
        s.registered(req).after(s.latency(req.addr())) == s.served(req),
{
    let t = s.timing;
    let start = s.registered(req);
    let row = s.row_of(req.addr());
    match s.bank {
        BankState::Active(open_row) => {
            if open_row == row {
                lemma_column_access(start, req);
                lemma_last_cycle(start, 0, t.t_cl as nat, req);
            } else {
                lemma_precharge(start, req);
                let idle = start.after(t.t_rp as nat);
                lemma_activate(idle, req);
                let open = idle.after(t.t_rcd as nat);
                lemma_column_access(open, req);
                lemma_after_adds(start, t.t_rp as nat, t.t_rcd as nat);
                lemma_waits_add(start, t.t_rp as nat, t.t_rcd as nat, req);
                lemma_last_cycle(start, (t.t_rp + t.t_rcd) as nat, t.t_cl as nat, req);
            }
        },
        _ => {
            lemma_activate(start, req);
            lemma_column_access(start.after(t.t_rcd as nat), req);
            lemma_last_cycle(start, t.t_rcd as nat, t.t_cl as nat, req);
        },
    }
    assert(s.registered(req).after(s.latency(req.addr())) =~= s.served(req));
}

/// Start. A new controller holds the bytes, the timing and the row size that it
/// is made with; no row is open, nothing is in flight and nothing is counted. It
/// has the invariant for every timing of a cycle or more per command.
pub proof fn law_fresh_controller_is_as_given(
    data: Seq<u8>,
    t_rcd: usize,
    t_cl: usize,
    t_rp: usize,
    row_size: nat,
)
    requires
        t_rcd >= 1,
        t_cl >= 1,
        t_rp >= 1,
        vstd::arithmetic::power2::is_pow2(row_size as int),
    ensures
        ({
            let fresh = DramView::fresh(data, DramTiming { t_rcd, t_cl, t_rp }, row_size);
            &&& fresh.inv()
            &&& fresh.data == data
            &&& fresh.timing.t_rcd == t_rcd
            &&& fresh.timing.t_cl == t_cl
            &&& fresh.timing.t_rp == t_rp
            &&& fresh.row_size == row_size
            &&& fresh.bank == BankState::Idle
            &&& fresh.pending is None
            &&& fresh.row_buffer_hit_cnt == 0
            &&& fresh.row_buffer_miss_cnt == 0
            &&& fresh.cold_open_cnt == 0
            &&& fresh.row_conflict_cnt == 0
            &&& fresh.total_access_time_cycles == 0
        }),
{
}

/// Timing as chosen. Whatever a controller has served since it was made with
/// `t_rcd`, `t_cl` and `t_rp`, the next request takes `t_rcd + t_cl` cycles if it
/// is the first, `t_cl` if it is to the row of the request before it, and
/// `t_rp + t_rcd + t_cl` otherwise. On the last of these cycles and no other it
/// is handed out: a load with the bytes that it covers, a store as it was. Of the
/// counters, one of hits, cold opens and conflicts grows by one, the misses with
/// the latter two, and the total by the cycles taken.
pub proof fn law_next_request_takes_the_cycles_chosen(
    data: Seq<u8>,
    t_rcd: usize,
    t_cl: usize,
    t_rp: usize,
    row_size: nat,
    reqs: Seq<RequestView>,
    req: RequestView,
)
    requires
        t_rcd >= 1,
        t_cl >= 1,
        t_rp >= 1,
        vstd::arithmetic::power2::is_pow2(row_size as int),
        forall|k: int| 0 <= k < reqs.len() ==> (#[trigger] reqs[k]).within(data.len()),
        req.within(data.len()),
    ensures
        ({
            let s = DramView::fresh(data, DramTiming { t_rcd, t_cl, t_rp }, row_size).ran(reqs);
            let first = reqs.len() == 0;
            let hit = !first && reqs.last().addr() as int / row_size as int == req.addr() as int
                / row_size as int;
            let cycles: nat = if first {
                (t_rcd + t_cl) as nat
            } else if hit {
                t_cl as nat
            } else {
                (t_rp + t_rcd + t_cl) as nat
            };
            let begun = s.registered(req);
            let end = begun.after(cycles);
            &&& s.pending is None
            &&& forall|k: nat| k < cycles ==> (#[trigger] begun.after(k)).pending == Some(req)
            &&& forall|k: nat| k + 1 < cycles ==> (#[trigger] begun.after(k)).step().1 is None
            &&& begun.after((cycles - 1) as nat).step() == (end, Some(req.completed(s.data)))
            &&& end.pending is None
            &&& end.bank == BankState::Active((req.addr() as int / row_size as int) as u32)
            &&& end.data == req.applied(s.data)
            &&& end.row_buffer_hit_cnt == s.row_buffer_hit_cnt + (if hit {
                1nat
            } else {
                0nat
            })
            &&& end.row_buffer_miss_cnt == s.row_buffer_miss_cnt + (if hit {
                0nat
            } else {
                1nat
            })
            &&& end.cold_open_cnt == s.cold_open_cnt + (if first {
                1nat
            } else {
                0nat
            })
            &&& end.row_conflict_cnt == s.row_conflict_cnt + (if first || hit {
                0nat
            } else {
                1nat
            })
            &&& end.total_access_time_cycles == s.total_access_time_cycles + cycles
            &&& DramView::fresh(data, DramTiming { t_rcd, t_cl, t_rp }, row_size).ran(
                reqs.push(req),
            ) == end
        }),
{
    let fresh = DramView::fresh(data, DramTiming { t_rcd, t_cl, t_rp }, row_size);
    let s = fresh.ran(reqs);
    law_fresh_controller_is_as_given(data, t_rcd, t_cl, t_rp, row_size);
    law_run_leaves_latest_bytes(fresh, reqs);
    law_service(s, req);
    lemma_cycle_after_cycle(s.registered(req), (s.latency(req.addr()) - 1) as nat);
    if reqs.len() > 0 {
        let earlier = reqs.drop_last();
        lemma_part_lies_within(reqs, earlier, data.len());
        law_run_leaves_latest_bytes(fresh, earlier);
        assert(reqs[reqs.len() - 1].within(data.len()));
        law_service(fresh.ran(earlier), reqs.last());
        law_rows_are_aligned_blocks(s, req.addr(), reqs.last().addr(), 0);
        reveal(vstd::arithmetic::power2::is_pow2);
        lemma_quotient(req.addr() as int, row_size as int);
        lemma_quotient(reqs.last().addr() as int, row_size as int);
    }
    assert(reqs.push(req).drop_last() =~= reqs);
    assert(reqs.push(req).last() == req);
}

/// Waiting and taking on. No cycle is no change, each further cycle is one
/// step, and taking on a request puts it in flight and changes nothing else.
pub proof fn law_cycles_are_steps(s: DramView, n: nat, req: RequestView)
    ensures
        s.after(0) == s,
        s.after(n + 1) == s.after(n).step().0,
        s.registered(req) == (DramView {
            pending: Some(req),
            activated: false,
            precharged: false,
            ..s
        }),
{
}

/// A cycle at rest. With nothing in flight, a cycle changes nothing and hands
/// nothing out.
pub proof fn law_cycle_at_rest(s: DramView)
    requires
        s.bank is Idle || s.bank is Active,
        s.pending is None,
    ensures
        s.step() == (s, None::<RequestView>),
{
    assert(s.step().0 =~= s);
}

/// The cycle of an ACT. With no row open, a request opens its row: this is a
/// miss, and a cold open of `tRCD + tCL` cycles unless PRE was issued for it.
pub proof fn law_cycle_that_activates(s: DramView, req: RequestView)
    requires
        s.timing.t_rcd >= 1,
        s.row_size >= 1,
        s.bank is Idle,
        s.pending == Some(req),
    ensures
        ({
            let row = (req.addr() as int / s.row_size as int) as u32;
            s.step() == (
                DramView {
                    bank: if s.timing.t_rcd == 1 {
                        BankState::Active(row)
                    } else {
                        BankState::Activating { row, remaining: (s.timing.t_rcd - 1) as usize }
                    },
                    activated: true,
                    row_buffer_miss_cnt: s.row_buffer_miss_cnt + 1,
                    cold_open_cnt: if s.precharged {
                        s.cold_open_cnt
                    } else {
                        s.cold_open_cnt + 1
                    },
                    total_access_time_cycles: if s.precharged {
                        s.total_access_time_cycles
                    } else {
                        (s.total_access_time_cycles + s.timing.t_rcd + s.timing.t_cl) as nat
                    },
                    ..s
                },
                None::<RequestView>,
            )
        }),
{
}

/// The cycle of a PRE. With another row open, a request closes it: this is a
/// row conflict of `tRP + tRCD + tCL` cycles.
pub proof fn law_cycle_that_precharges(s: DramView, req: RequestView, open_row: u32)
    requires
        s.timing.t_rp >= 1,
        s.row_size >= 1,
        s.bank == BankState::Active(open_row),
        s.pending == Some(req),
        open_row != (req.addr() as int / s.row_size as int) as u32,
    ensures
        s.step() == (
            DramView {
                bank: if s.timing.t_rp == 1 {
                    BankState::Idle
                } else {
                    BankState::Precharging { remaining: (s.timing.t_rp - 1) as usize }
                },
                precharged: true,
                row_conflict_cnt: s.row_conflict_cnt + 1,
                total_access_time_cycles: (s.total_access_time_cycles + s.timing.t_rp
                    + s.timing.t_rcd + s.timing.t_cl) as nat,
                ..s
            },
            None::<RequestView>,
        ),
{
}

/// The cycle of a read or write. With its row open, a request is read or
/// written: this is a hit of `tCL` cycles unless ACT was issued for it. With a
/// `tCL` of one cycle it is done at once.
pub proof fn law_cycle_that_reads_or_writes(s: DramView, req: RequestView)
    requires
        s.timing.t_cl >= 1,
        s.row_size >= 1,
        s.pending == Some(req),
        s.bank == BankState::Active((req.addr() as int / s.row_size as int) as u32),
    ensures
        ({
            let row = (req.addr() as int / s.row_size as int) as u32;
            let counted = DramView {
                row_buffer_hit_cnt: if s.activated {
                    s.row_buffer_hit_cnt
                } else {
                    s.row_buffer_hit_cnt + 1
                },
                total_access_time_cycles: if s.activated {
                    s.total_access_time_cycles
                } else {
                    s.total_access_time_cycles + s.timing.t_cl as nat
                },
                ..s
            };
            let left = (s.timing.t_cl - 1) as usize;
            s.step() == if s.timing.t_cl == 1 {
                (
                    DramView {
                        data: req.applied(s.data),
                        pending: None,
                        activated: false,
                        precharged: false,
                        ..counted
                    },
                    Some(req.completed(s.data)),
                )
            } else if req is Store {
                (
                    DramView { bank: BankState::Writing { row, remaining: left }, ..counted },
                    None::<RequestView>,
                )
            } else {
                (
                    DramView { bank: BankState::Reading { row, remaining: left }, ..counted },
                    None::<RequestView>,
                )
            }
        }),
{
}

/// A cycle of a busy bank. A command in progress has one cycle less, and nothing
/// else changes; when a read or write finishes, its request is done.
pub proof fn law_cycle_of_a_busy_bank(s: DramView, req: RequestView, row: u32, left: usize)
    requires
        left >= 1,
        s.pending == Some(req),
    ensures
        ({
            let less = (left - 1) as usize;
            let done = (
                DramView {
                    bank: BankState::Active(row),
                    data: req.applied(s.data),
                    pending: None,
                    activated: false,
                    precharged: false,
                    ..s
                },
                Some(req.completed(s.data)),
            );
            &&& s.bank == (BankState::Activating { row, remaining: left }) ==> s.step() == (
                DramView {
                    bank: if left == 1 {
                        BankState::Active(row)
                    } else {
                        BankState::Activating { row, remaining: less }
                    },
                    ..s
                },
                None::<RequestView>,
            )
            &&& s.bank == (BankState::Precharging { remaining: left }) ==> s.step() == (
                DramView {
                    bank: if left == 1 {
                        BankState::Idle
                    } else {
                        BankState::Precharging { remaining: less }
                    },
                    ..s
                },
                None::<RequestView>,
            )
            &&& s.bank == (BankState::Reading { row, remaining: left }) && req is Load ==> s.step()
                == if left == 1 {
                done
            } else {
                (DramView { bank: BankState::Reading { row, remaining: less }, ..s }, None)
            }
            &&& s.bank == (BankState::Writing { row, remaining: left }) && req is Store ==> s.step()
                == if left == 1 {
                done
            } else {
                (DramView { bank: BankState::Writing { row, remaining: less }, ..s }, None)
            }
        }),
{
}

/// The numbers held. The view of a controller has the counters that the
/// controller shows, and what its core holds.
pub proof fn law_view_shows_what_is_held(dram: super::SimpleDram)
    ensures
        dram@.data == dram.core@.data,
        dram@.timing == dram.core@.timing,
        dram@.row_size == dram.core@.row_size,
        dram@.bank == dram.core@.bank,
        dram@.pending == dram.core@.pending,
        dram@.activated == dram.core@.activated,
        dram@.precharged == dram.core@.precharged,
        dram@.row_buffer_hit_cnt == dram.row_buffer_hit_cnt,
        dram@.row_buffer_miss_cnt == dram.row_buffer_miss_cnt,
        dram@.cold_open_cnt == dram.cold_open_cnt,
        dram@.row_conflict_cnt == dram.row_conflict_cnt,
        dram@.total_access_time_cycles == dram.total_access_time_cycles,
        dram@.access_cnt() == dram.row_buffer_hit_cnt + dram.cold_open_cnt + dram.row_conflict_cnt,
        dram.wf() <==> dram@.inv(),
{
}

/// Room for a cycle. A cycle fits exactly when the total, with the cycles that
/// the request in flight is charged on it, fits: its whole latency on the cycle
/// that finds out how it meets the row buffer, and nothing on any other.
pub proof fn law_cycle_fits(dram: super::SimpleDram)
    requires
        dram.wf(),
    ensures
        ({
            let t = dram.core@.timing;
            let charge: int = match (dram.core@.pending, dram.core@.bank) {
                (Some(req), BankState::Idle) => if dram.core@.precharged {
                    0
                } else {
                    t.t_rcd + t.t_cl
                },
                (Some(req), BankState::Active(open_row)) => if open_row == (req.addr() as int
                    / dram.core@.row_size as int) as u32 {
                    if dram.core@.activated {
                        0
                    } else {
                        t.t_cl as int
                    }
                } else {
                    t.t_rp + t.t_rcd + t.t_cl
                },
                _ => 0,
            };
            dram.next_tick_fits() <==> dram.total_access_time_cycles + charge <= usize::MAX
        }),
{
}

/// Reachable states. However requests are offered to a controller, it keeps its
/// invariant, its size, its timing and its rows, and no counter ever falls.
pub proof fn law_every_run_keeps_inv(s: DramView, offers: Seq<Option<RequestView>>)
    requires
        s.inv(),
        forall|i: int|
            0 <= i < offers.len() ==> (#[trigger] offers[i] matches Some(req) ==> req.within(
                s.data.len(),
            )),
    ensures
        ({
            let end = s.driven(offers);
            &&& end.inv()
            &&& end.data.len() == s.data.len()
            &&& end.timing == s.timing
            &&& end.row_size == s.row_size
            &&& end.row_buffer_hit_cnt >= s.row_buffer_hit_cnt
            &&& end.row_buffer_miss_cnt >= s.row_buffer_miss_cnt
            &&& end.cold_open_cnt >= s.cold_open_cnt
            &&& end.row_conflict_cnt >= s.row_conflict_cnt
            &&& end.total_access_time_cycles >= s.total_access_time_cycles
        }),
    decreases offers.len(),
{
    if offers.len() > 0 {
        law_every_run_keeps_inv(s, offers.drop_last());
        assert(offers.last() == offers[offers.len() - 1]);
        let before = s.driven(offers.drop_last());
        before.offered(offers.last()).lemma_step_keeps_inv();
    }
}

/// Waiting. Cycles in which nothing is offered keep the invariant, the size, the
/// timing and the rows.
pub proof fn law_cycles_keep_inv(s: DramView, n: nat)
    requires
        s.inv(),
    ensures
        s.after(n).inv(),
        s.after(n).data.len() == s.data.len(),
        s.after(n).timing == s.timing,
        s.after(n).row_size == s.row_size,
    decreases n,
{
    if n > 0 {
        law_cycles_keep_inv(s, (n - 1) as nat);
        s.after((n - 1) as nat).lemma_step_keeps_inv();
    }
}

/// Rest. While nothing is in flight, cycles change nothing and hand nothing
/// out.
pub proof fn law_idle_cycles_change_nothing(s: DramView, n: nat)
    requires
        s.inv(),
        s.pending is None,
    ensures
        s.after(n) == s,
        s.after(n).step() == (s, None::<RequestView>),
    decreases n,
{
    if n > 0 {
        law_idle_cycles_change_nothing(s, (n - 1) as nat);
    }
    assert(s.issued() == s);
    assert(s.step().0 =~= s);
}

/// Accounting. Whenever nothing is in flight, the misses are the cold opens
/// and the row conflicts, the accesses are the hits and the misses, and the
/// cycles charged are the latencies of all accesses.
pub proof fn law_accounting(s: DramView)
    requires
        s.inv(),
        s.pending is None,
    ensures
        s.row_buffer_miss_cnt == s.cold_open_cnt + s.row_conflict_cnt,
        s.access_cnt() == s.row_buffer_hit_cnt + s.row_buffer_miss_cnt,
        s.total_access_time_cycles == s.row_buffer_hit_cnt * s.timing.t_cl + s.cold_open_cnt * (
        s.timing.t_rcd + s.timing.t_cl) + s.row_conflict_cnt * (s.timing.t_rp + s.timing.t_rcd
            + s.timing.t_cl),
{
}

/// Charge. The cycles charged to a request are the cycles it took, and it is
/// counted once.
pub proof fn law_charge_is_latency(s: DramView, req: RequestView)
    requires
        s.inv(),
        s.pending is None,
        req.within(s.data.len()),
    ensures
        ({
            let cycles = s.latency(req.addr());
            let end = s.registered(req).after(cycles);
            &&& end.total_access_time_cycles == s.total_access_time_cycles + cycles
            &&& end.access_cnt() == s.access_cnt() + 1
            &&& end.row_buffer_hit_cnt + end.row_buffer_miss_cnt == s.row_buffer_hit_cnt
                + s.row_buffer_miss_cnt + 1
        }),
{
    law_service(s, req);
}

/// Locality. Once a request has been served, its row is open: the next access
/// to that row takes `tCL` cycles, and one to any other row takes
/// `tRP + tRCD + tCL`.
pub proof fn law_row_stays_open(s: DramView, req: RequestView, addr: u32)
    requires
        s.inv(),
        s.pending is None,
        req.within(s.data.len()),
    ensures
        ({
            let end = s.registered(req).after(s.latency(req.addr()));
            &&& end.inv()
            &&& end.pending is None
            &&& end.latency(addr) == if s.row_of(addr) == s.row_of(req.addr()) {
                s.timing.t_cl as nat
            } else {
                (s.timing.t_rp + s.timing.t_rcd + s.timing.t_cl) as nat
            }
        }),
{
    law_service(s, req);
    s.lemma_registered_keeps_inv(req);
    law_cycles_keep_inv(s.registered(req), s.latency(req.addr()));
}

/// Cold start. The first request of a fresh controller is done after
/// `tRCD + tCL` cycles, whatever its address.
pub proof fn law_first_access_is_cold(
    data: Seq<u8>,
    timing: DramTiming,
    row_size: nat,
    req: RequestView,
)
    requires
        timing.valid(),
        vstd::arithmetic::power2::is_pow2(row_size as int),
        req.within(data.len()),
    ensures
        ({
            let fresh = DramView::fresh(data, timing, row_size);
            let last = fresh.registered(req).after((timing.t_rcd + timing.t_cl - 1) as nat);
            &&& fresh.inv()
            &&& last.pending == Some(req)
            &&& last.step() == (fresh.served(req), Some(req.completed(data)))
        }),
{
    let fresh = DramView::fresh(data, timing, row_size);
    law_service(fresh, req);
    let cycles = (timing.t_rcd + timing.t_cl) as nat;
    assert(fresh.registered(req).after(cycles) == fresh.registered(req).after(
        (cycles - 1) as nat,
    ).step().0);
}

/// Round trip. A load of the bytes that a store has written gives them back.
pub proof fn law_store_then_load(s: DramView, store: RequestView, load: RequestView)
    requires
        s.inv(),
        s.pending is None,
        store is Store,
        load is Load,
        store.within(s.data.len()),
        load.addr() == store.addr(),
        load.len() == store.len(),
    ensures
        ({
            let stored = s.registered(store).after(s.latency(store.addr()));
            let cycles = stored.latency(load.addr());
            &&& stored.pending is None
            &&& cycles >= 1
            &&& stored.registered(load).after((cycles - 1) as nat).step().1 == Some(
                RequestView::Load {
                    addr: store.addr(),
                    len: store.len(),
                    data: store->Store_data,
                    done: true,
                },
            )
        }),
{
    let cycles = s.latency(store.addr());
    let stored = s.registered(store).after(cycles);
    law_service(s, store);
    s.lemma_registered_keeps_inv(store);
    law_cycles_keep_inv(s.registered(store), cycles);
    law_service(stored, load);
    assert(load.covered(stored.data) =~= store->Store_data);
}

/// Byte array. In any run of loads and stores, each served before the next is
/// taken on, a load hands out for each of its bytes what the latest store
/// before it that covers the byte put there, and the initial byte if there is
/// none: whatever the timing, the row size and the rows that the bytes lie in.
pub proof fn law_memory_is_a_byte_array(s: DramView, reqs: Seq<RequestView>, n: int)
    requires
        s.inv(),
        s.pending is None,
        forall|k: int| 0 <= k < reqs.len() ==> (#[trigger] reqs[k]).within(s.data.len()),
        0 <= n < reqs.len(),
        reqs[n] is Load,
    ensures
        s.handed_out(reqs, n) matches Some(RequestView::Load { addr, len, data, done }) && {
            &&& addr == reqs[n].addr()
            &&& len == reqs[n].len()
            &&& data.len() == len
            &&& done
            &&& forall|j: int, k: int|
                0 <= j < len && #[trigger] RequestView::last_writer(reqs.take(n), k, addr + j) ==> data[j]
                    == reqs[k]->Store_data[addr + j - reqs[k].addr()]
            &&& forall|j: int|
                0 <= j < len && RequestView::no_writer(reqs.take(n), addr + j) ==> #[trigger] data[j]
                    == s.data[addr + j]
        },
{
    let earlier = reqs.take(n);
    lemma_part_lies_within(reqs, earlier, s.data.len());
    law_run_leaves_latest_bytes(s, earlier);
    let before = s.ran(earlier);
    law_service(before, reqs[n]);
    let load = reqs[n];
    assert forall|j: int, k: int|
        0 <= j < load.len() && #[trigger] RequestView::last_writer(
            earlier,
            k,
            load.addr() + j,
        ) implies load.covered(before.data)[j] == reqs[k]->Store_data[load.addr() + j
        - reqs[k].addr()] by {
        assert(earlier[k] == reqs[k]);
    }
}

/// Contents. After any run of loads and stores nothing is in flight, and each
/// byte is what the latest store that covers it put there, or the initial byte.
pub proof fn law_run_leaves_latest_bytes(s: DramView, reqs: Seq<RequestView>)
    requires
        s.inv(),
        s.pending is None,
        forall|k: int| 0 <= k < reqs.len() ==> (#[trigger] reqs[k]).within(s.data.len()),
    ensures
        s.ran(reqs).inv(),
        s.ran(reqs).pending is None,
        s.ran(reqs).data.len() == s.data.len(),
        s.ran(reqs).timing == s.timing,
        s.ran(reqs).row_size == s.row_size,
        forall|i: int, k: int|
            0 <= i < s.data.len() && #[trigger] RequestView::last_writer(reqs, k, i) ==> s.ran(reqs).data[i]
                == reqs[k]->Store_data[i - reqs[k].addr()],
        forall|i: int|
            0 <= i < s.data.len() && #[trigger] RequestView::no_writer(reqs, i) ==> s.ran(reqs).data[i]
                == s.data[i],
    decreases reqs.len(),
{
    if reqs.len() > 0 {
        let earlier = reqs.drop_last();
        let req = reqs.last();
        lemma_part_lies_within(reqs, earlier, s.data.len());
        law_run_leaves_latest_bytes(s, earlier);
        let before = s.ran(earlier);
        assert(reqs[reqs.len() - 1].within(s.data.len()));
        law_service(before, req);
        before.lemma_registered_keeps_inv(req);
        law_cycles_keep_inv(before.registered(req), before.latency(req.addr()));
        assert forall|i: int, k: int|
            0 <= i < s.data.len() && #[trigger] RequestView::last_writer(reqs, k, i) implies s.ran(reqs).data[i]
            == reqs[k]->Store_data[i - reqs[k].addr()] by {
            if k < earlier.len() {
                assert(!reqs[reqs.len() - 1].writes(i));
                assert forall|l: int| k < l < earlier.len() implies !(#[trigger] earlier[l]).writes(
                    i,
                ) by {
                    assert(!reqs[l].writes(i));
                }
                assert(RequestView::last_writer(earlier, k, i));
            }
        }
        assert forall|i: int| 0 <= i < s.data.len() && #[trigger] RequestView::no_writer(reqs, i) implies s.ran(
            reqs,
        ).data[i] == s.data[i] by {
            assert(!reqs[reqs.len() - 1].writes(i));
            assert forall|l: int| 0 <= l < earlier.len() implies !(#[trigger] earlier[l]).writes(
                i,
            ) by {
                assert(!reqs[l].writes(i));
            }
            assert(RequestView::no_writer(earlier, i));
        }
    }
}

/// Sum. After any run of requests, each served before the next is taken on, the
/// cycles charged have grown by the cycles that the requests took, and the
/// accesses by their number.
pub proof fn law_total_is_sum_of_service_times(s: DramView, reqs: Seq<RequestView>)
    requires
        s.inv(),
        s.pending is None,
        forall|k: int| 0 <= k < reqs.len() ==> (#[trigger] reqs[k]).within(s.data.len()),
    ensures
        s.ran(reqs).total_access_time_cycles == s.total_access_time_cycles + s.cycles(reqs),
        s.ran(reqs).access_cnt() == s.access_cnt() + reqs.len(),
    decreases reqs.len(),
{
    if reqs.len() > 0 {
        let earlier = reqs.drop_last();
        lemma_part_lies_within(reqs, earlier, s.data.len());
        law_total_is_sum_of_service_times(s, earlier);
        law_run_leaves_latest_bytes(s, earlier);
        assert(reqs[reqs.len() - 1].within(s.data.len()));
        law_charge_is_latency(s.ran(earlier), reqs.last());
    }
}

/// Rows. The row of an address is the one aligned block of the row size that
/// holds it, and rows are in the order of addresses.
pub proof fn law_rows_are_aligned_blocks(s: DramView, a: u32, b: u32, row: u32)
    requires
        s.inv(),
    ensures
        s.row_of(a) * s.row_size <= a < (s.row_of(a) + 1) * s.row_size,
        s.row_of(a) == row <==> row * s.row_size <= a < (row + 1) * s.row_size,
        a <= b ==> s.row_of(a) <= s.row_of(b),
{
    reveal(vstd::arithmetic::power2::is_pow2);
    let size = s.row_size as int;
    lemma_quotient(a as int, size);
    lemma_quotient(b as int, size);
    lemma_block_is_unique(a as int, size, a as int / size, row as int);
    if a <= b {
        lemma_quotient_grows(a as int, b as int, size);
    }
}

/// One cycle. It hands out the request in flight or nothing; the stored bytes
/// change only when a store is handed out, and then exactly those it covers.
/// Size, timing and rows never change.
pub proof fn law_cycle_changes_stored_bytes_only(s: DramView)
    requires
        s.inv(),
    ensures
        s.step().1 matches Some(done) ==> {
            &&& s.pending is Some
            &&& s.step().0.pending is None
            &&& done == s.pending->0.completed(s.data)
        },
        s.step().1 is None ==> s.step().0.pending == s.pending,
        s.step().0.data.len() == s.data.len(),
        forall|i: int|
            0 <= i < s.data.len() ==> #[trigger] s.step().0.data[i] == (
            if s.step().1 is Some && s.pending->0.writes(i) {
                s.pending->0->Store_data[i - s.pending->0.addr()]
            } else {
                s.data[i]
            }),
        s.step().0.timing == s.timing,
        s.step().0.row_size == s.row_size,
{
}

/// Frame. Serving a request changes no byte outside the bytes that a store
/// covers, and a load changes none.
pub proof fn law_other_bytes_keep(s: DramView, req: RequestView, i: int)
    requires
        s.inv(),
        s.pending is None,
        req.within(s.data.len()),
        0 <= i < s.data.len(),
        req is Load || i < req.addr() || req.addr() + req.len() <= i,
    ensures
        s.registered(req).after(s.latency(req.addr())).data[i] == s.data[i],
{
    law_service(s, req);
}

/// With all requests, the first of them lie in a memory.
proof fn lemma_part_lies_within(reqs: Seq<RequestView>, part: Seq<RequestView>, size: nat)
    requires
        forall|k: int| 0 <= k < reqs.len() ==> (#[trigger] reqs[k]).within(size),
        part.len() <= reqs.len(),
        forall|k: int| 0 <= k < part.len() ==> #[trigger] part[k] == reqs[k],
    ensures
        forall|k: int| 0 <= k < part.len() ==> (#[trigger] part[k]).within(size),
{
    assert forall|k: int| 0 <= k < part.len() implies (#[trigger] part[k]).within(size) by {
        assert(reqs[k].within(size));
    }
}

/// A number lies in the block of its quotient.
proof fn lemma_quotient(x: int, size: int)
    requires
        x >= 0,
        size >= 1,
    ensures
        (x / size) * size <= x < (x / size + 1) * size,
        0 <= x / size <= x,
{
    assert((x / size) * size <= x < (x / size + 1) * size && 0 <= x / size <= x)
        by (nonlinear_arith)
        requires
            x >= 0,
            size >= 1,
    ;
}

/// A number lies in one block only.
proof fn lemma_block_is_unique(x: int, size: int, p: int, q: int)
    by (nonlinear_arith)
    requires
        size >= 1,
        p * size <= x < (p + 1) * size,
    ensures
        q * size <= x < (q + 1) * size ==> p == q,
{
}

/// Quotients are in the order of the numbers.
proof fn lemma_quotient_grows(x: int, y: int, size: int)
    requires
        0 <= x <= y,
        size >= 1,
    ensures
        x / size <= y / size,
{
    lemma_quotient(x, size);
    lemma_quotient(y, size);
    assert(x / size <= y / size) by (nonlinear_arith)
        requires
            0 <= x <= y,
            size >= 1,
            (x / size) * size <= x,
            y < (y / size + 1) * size,
    ;
}

/// For `n` cycles from `s` on, `req` is in flight and nothing is handed out.
spec fn waits(s: DramView, n: nat, req: RequestView) -> bool {
    forall|k: nat|
        k < n ==> (#[trigger] s.after(k)).pending == Some(req) && s.after(k).step().1 is None
}

/// The bank with `n` cycles of its command gone.
spec fn lowered(bank: BankState, n: nat) -> BankState {
    match bank {
        BankState::Activating { row, remaining } => BankState::Activating {
            row,
            remaining: (remaining - n) as usize,
        },
        BankState::Reading { row, remaining } => BankState::Reading {
            row,
            remaining: (remaining - n) as usize,
        },
        BankState::Writing { row, remaining } => BankState::Writing {
            row,
            remaining: (remaining - n) as usize,
        },
        BankState::Precharging { remaining } => BankState::Precharging {
            remaining: (remaining - n) as usize,
        },
        _ => bank,
    }
}

/// Cycles until the command in progress finishes.
spec fn cycles_left(bank: BankState) -> nat {
    match bank {
        BankState::Activating { remaining, .. } => remaining as nat,
        BankState::Reading { remaining, .. } => remaining as nat,
        BankState::Writing { remaining, .. } => remaining as nat,
        BankState::Precharging { remaining } => remaining as nat,
        _ => 0,
    }
}

/// Cycles add up.
proof fn lemma_after_adds(s: DramView, a: nat, b: nat)
    ensures
        s.after(a + b) == s.after(a).after(b),
    decreases b,
{
    if b > 0 {
        lemma_after_adds(s, a, (b - 1) as nat);
        assert((a + b - 1) as nat == a + (b - 1) as nat);
    }
}

/// One more cycle is one more step.
proof fn lemma_cycle_after_cycle(s: DramView, n: nat)
    ensures
        s.after(n + 1) == s.after(n).step().0,
{
}

/// Two stretches of waiting make one.
proof fn lemma_waits_add(s: DramView, a: nat, b: nat, req: RequestView)
    requires
        waits(s, a, req),
        waits(s.after(a), b, req),
    ensures
        waits(s, a + b, req),
{
    assert forall|k: nat| k < a + b implies (#[trigger] s.after(k)).pending == Some(req)
        && s.after(k).step().1 is None by {
        if k >= a {
            lemma_after_adds(s, a, (k - a) as nat);
            assert(s.after(a).after((k - a) as nat) == s.after(k));
        }
    }
}

/// A command in progress runs down one cycle at a time.
proof fn lemma_countdown(s: DramView, n: nat)
    requires
        n < cycles_left(s.bank),
    ensures
        s.after(n) == (DramView { bank: lowered(s.bank, n), ..s }),
    decreases n,
{
    if n == 0 {
        assert(s.after(0) =~= (DramView { bank: lowered(s.bank, 0), ..s }));
    } else {
        lemma_countdown(s, (n - 1) as nat);
    }
}

/// A state and the state right after it issued its command are the same from
/// the next cycle on.
proof fn lemma_same_after_issue(s: DramView, n: nat)
    requires
        cycles_left(s.issued().bank) >= 1,
        n >= 1,
    ensures
        s.after(n) == s.issued().after(n),
    decreases n,
{
    if n > 1 {
        lemma_same_after_issue(s, (n - 1) as nat);
    } else {
        assert(s.after(0) == s && s.issued().after(0) == s.issued());
        assert(s.issued().issued() == s.issued());
        assert(s.after(1) == s.after(0).step().0);
        assert(s.issued().after(1) == s.issued().after(0).step().0);
    }
}

/// From a cycle that issues a command until the command is about to finish,
/// the request waits and only the bank changes.
proof fn lemma_command_runs(s: DramView, req: RequestView)
    requires
        s.pending == Some(req),
        s.bank.quiet(),
        cycles_left(s.issued().bank) >= 1,
        s.issued().pending == Some(req),
    ensures
        waits(s, (cycles_left(s.issued().bank) - 1) as nat, req),
        s.after((cycles_left(s.issued().bank) - 1) as nat).pending == Some(req),
        s.after((cycles_left(s.issued().bank) - 1) as nat).issued() == (DramView {
            bank: lowered(s.issued().bank, (cycles_left(s.issued().bank) - 1) as nat),
            ..s.issued()
        }),
{
    let i = s.issued();
    let r = cycles_left(i.bank);
    assert forall|k: nat| k < r implies (#[trigger] s.after(k)).pending == Some(req)
        && s.after(k).issued() == (DramView { bank: lowered(i.bank, k), ..i }) by {
        lemma_countdown(i, k);
        if k >= 1 {
            lemma_same_after_issue(s, k);
            assert(s.after(k).issued() == s.after(k));
        } else {
            assert(lowered(i.bank, 0) == i.bank);
            assert(s.after(0) == s);
        }
    }
    assert forall|k: nat| k < (r - 1) as nat implies (#[trigger] s.after(k)).pending == Some(req)
        && s.after(k).step().1 is None by {
        assert(s.after(k).issued() == (DramView { bank: lowered(i.bank, k), ..i }));
    }
    assert(s.after((r - 1) as nat).pending == Some(req));
}

/// From an idle bank, the row of the request is open after `tRCD` cycles.
proof fn lemma_activate(s: DramView, req: RequestView)
    requires
        s.timing.valid(),
        s.pending == Some(req),
        s.bank is Idle,
    ensures
        waits(s, s.timing.t_rcd as nat, req),
        s.after(s.timing.t_rcd as nat) == (DramView {
            bank: BankState::Active(s.row_of(req.addr())),
            ..s.issued()
        }),
{
    lemma_one_more_cycle(s, req);
}

/// From another open row, the bank is idle after `tRP` cycles.
proof fn lemma_precharge(s: DramView, req: RequestView)
    requires
        s.timing.valid(),
        s.pending == Some(req),
        s.bank matches BankState::Active(open_row) && open_row != s.row_of(req.addr()),
    ensures
        waits(s, s.timing.t_rp as nat, req),
        s.after(s.timing.t_rp as nat) == (DramView { bank: BankState::Idle, ..s.issued() }),
{
    lemma_one_more_cycle(s, req);
}

/// The cycle on which ACT or PRE finishes hands nothing out.
proof fn lemma_one_more_cycle(s: DramView, req: RequestView)
    requires
        s.pending == Some(req),
        s.bank.quiet(),
        s.issued().bank is Activating || s.issued().bank is Precharging,
        cycles_left(s.issued().bank) >= 1,
        s.issued().pending == Some(req),
    ensures
        waits(s, cycles_left(s.issued().bank), req),
        s.after(cycles_left(s.issued().bank)) == (DramView {
            bank: match s.issued().bank {
                BankState::Activating { row, .. } => BankState::Active(row),
                _ => BankState::Idle,
            },
            ..s.issued()
        }),
{
    lemma_command_runs(s, req);
    let r = cycles_left(s.issued().bank);
    let last = s.after((r - 1) as nat);
    assert(s.after(r) == last.step().0);
    assert(last.step().1 is None);
}

/// From the open row, the request is done after `tCL` cycles.
proof fn lemma_column_access(s: DramView, req: RequestView)
    requires
        s.timing.valid(),
        s.pending == Some(req),
        s.bank == BankState::Active(s.row_of(req.addr())),
    ensures
        waits(s, (s.timing.t_cl - 1) as nat, req),
        s.after((s.timing.t_cl - 1) as nat).pending == Some(req),
        s.after((s.timing.t_cl - 1) as nat).step().1 == Some(req.completed(s.data)),
        s.after(s.timing.t_cl as nat) == (DramView {
            data: req.applied(s.data),
            bank: s.bank,
            pending: None,
            activated: false,
            precharged: false,
            ..s.issued()
        }),
{
    lemma_command_runs(s, req);
    let last = s.after((s.timing.t_cl - 1) as nat);
    assert(s.after(s.timing.t_cl as nat) == last.step().0);
}

/// A wait of `a` cycles, followed by a last stretch of `b` cycles that ends
/// with the request handed out.
proof fn lemma_last_cycle(s: DramView, a: nat, b: nat, req: RequestView)
    requires
        b >= 1,
        waits(s, a, req),
        waits(s.after(a), (b - 1) as nat, req),
        s.after(a).after((b - 1) as nat).pending == Some(req),
    ensures
        waits(s, (a + b - 1) as nat, req),
        forall|k: nat| k < a + b ==> (#[trigger] s.after(k)).pending == Some(req),
        s.after((a + b - 1) as nat) == s.after(a).after((b - 1) as nat),
        s.after(a + b) == s.after(a).after(b),
{
    lemma_waits_add(s, a, (b - 1) as nat, req);
    lemma_after_adds(s, a, (b - 1) as nat);
    lemma_after_adds(s, a, b);
    assert((a + (b - 1) as nat) == (a + b - 1) as nat);
}

} // verus!
