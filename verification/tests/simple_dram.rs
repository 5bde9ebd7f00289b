use simulator::hardware::mem::abstract_mem::MemoryReqType;
use simulator::hardware::mem::simple_dram::bank::{Bank, BankEvent, BankState};
use simulator::hardware::mem::simple_dram::{DramTiming, SimpleDram, DEFAULT_ROW_SIZE_BYTES};

fn build_dram(row_size: usize) -> SimpleDram {
    SimpleDram::new(vec![0u8; 0x10000], DramTiming::educational_default()).with_row_size(row_size)
}

/// Registers `req` and ticks the DRAM until it hands the request out; returns
/// the number of ticks and the completed request.
fn run_to_completion(dram: &mut SimpleDram, req: &MemoryReqType) -> (usize, MemoryReqType) {
    dram.try_register_req(req).expect("register request");
    let mut cycles = 0usize;
    loop {
        let done = dram.tick();
        cycles += 1;
        if let Some(done) = done {
            assert!(done.is_done());
            return (cycles, done);
        }
        assert!(
            cycles < 10_000,
            "request never completed (state stuck somewhere?)"
        );
    }
}

fn make_load(addr: u32, len: usize) -> MemoryReqType {
    MemoryReqType::load(addr, len)
}

fn make_store(addr: u32, data: Vec<u8>) -> MemoryReqType {
    MemoryReqType::store(addr, data)
}

fn average_access_time_cycles(d: &SimpleDram) -> f64 {
    d.total_access_time_cycles as f64 / d.dram_access_cnt() as f64
}

/// Hits, misses, cold opens, conflicts and cycles.
fn counters(d: &SimpleDram) -> [usize; 5] {
    [
        d.row_buffer_hit_cnt,
        d.row_buffer_miss_cnt,
        d.cold_open_cnt,
        d.row_conflict_cnt,
        d.total_access_time_cycles,
    ]
}

#[test]
fn cold_load_takes_t_rcd_plus_t_cl_cycles() {
    let mut d = build_dram(256);
    let t = d.timing();
    let req = make_load(0x100, 4); // row = 0x100 / 256 = 1
    let (cycles, _) = run_to_completion(&mut d, &req);
    assert_eq!(cycles, t.t_rcd + t.t_cl);
    assert_eq!(d.row_buffer_miss_cnt, 1);
    assert_eq!(d.row_buffer_hit_cnt, 0);
    assert_eq!(d.cold_open_cnt, 1);
    assert_eq!(d.row_conflict_cnt, 0);
    assert_eq!(d.total_access_time_cycles, cycles);
    assert_eq!(d.dram_access_cnt(), 1);
    assert_eq!(average_access_time_cycles(&d), cycles as f64);
}

#[test]
fn row_buffer_hit_takes_only_t_cl_cycles() {
    let mut d = build_dram(256);
    let t = d.timing();
    // Prime: cold-load opens row 1.
    let warm = make_load(0x100, 4);
    run_to_completion(&mut d, &warm);
    // Second access into the same row.
    let hit = make_load(0x110, 4);
    let (cycles, _) = run_to_completion(&mut d, &hit);
    assert_eq!(
        cycles, t.t_cl,
        "row buffer hit must take exactly tCL cycles"
    );
    assert_eq!(d.row_buffer_hit_cnt, 1);
    assert_eq!(d.row_buffer_miss_cnt, 1);
    assert_eq!(d.cold_open_cnt, 1);
    assert_eq!(d.row_conflict_cnt, 0);
    assert_eq!(d.total_access_time_cycles, t.t_rcd + 2 * t.t_cl);
}

#[test]
fn row_buffer_miss_takes_t_rp_plus_t_rcd_plus_t_cl() {
    let mut d = build_dram(256);
    let t = d.timing();
    // Open row 1, then access row 2: the full miss path.
    let prime = make_load(0x100, 4);
    run_to_completion(&mut d, &prime);
    let miss = make_load(0x200, 4); // row 2
    let (cycles, _) = run_to_completion(&mut d, &miss);
    assert_eq!(cycles, t.t_rp + t.t_rcd + t.t_cl);
    assert_eq!(d.row_buffer_miss_cnt, 2);
    assert_eq!(d.row_buffer_hit_cnt, 0);
    assert_eq!(d.cold_open_cnt, 1);
    assert_eq!(d.row_conflict_cnt, 1);
    assert_eq!(
        d.total_access_time_cycles,
        (t.t_rcd + t.t_cl) + (t.t_rp + t.t_rcd + t.t_cl)
    );
}

#[test]
fn store_then_load_round_trips_data() {
    let mut d = build_dram(256);
    let s = make_store(0x40, vec![0xDE, 0xAD, 0xBE, 0xEF]);
    run_to_completion(&mut d, &s);
    let l = make_load(0x40, 4);
    let (_, done) = run_to_completion(&mut d, &l);
    let buf = done.load_data();
    assert_eq!(&buf[..], &[0xDE, 0xAD, 0xBE, 0xEF]);
}

#[test]
fn store_to_open_row_is_a_hit() {
    let mut d = build_dram(256);
    let t = d.timing();
    // Cold-load opens row 0.
    let prime = make_load(0x00, 4);
    run_to_completion(&mut d, &prime);
    // Store to the same row.
    let s = make_store(0x10, vec![1, 2, 3, 4]);
    let (cycles, _) = run_to_completion(&mut d, &s);
    assert_eq!(cycles, t.t_cl, "store hit must take tCL cycles");
    assert_eq!(d.row_buffer_hit_cnt, 1);
}

#[test]
fn second_request_rejected_while_one_is_in_flight() {
    let mut d = build_dram(256);
    let first = make_load(0x40, 4);
    d.try_register_req(&first).expect("first register");
    // Without ticking, the first request is still in flight when we try the
    // second register.
    let second = make_load(0x80, 4);
    assert!(
        d.try_register_req(&second).is_err(),
        "DRAM must reject second outstanding request"
    );
}

#[test]
fn rejected_request_leaves_the_first_one_alone() {
    let mut d = build_dram(256);
    d.try_register_req(&make_store(0x40, vec![7])).expect("first register");
    assert!(d.try_register_req(&make_store(0x40, vec![9])).is_err());
    let mut done = None;
    for _ in 0..8 {
        assert!(done.is_none());
        done = d.tick();
    }
    let done = done.expect("done after tRCD + tCL cycles");
    assert!(done.is_store());
    assert_eq!(done.store_data(), &vec![7]);
    let (_, load) = run_to_completion(&mut d, &make_load(0x40, 1));
    assert_eq!(load.load_data(), &vec![7]);
}

#[test]
fn bounds_are_known_before_a_request_is_registered() {
    let d = build_dram(256);
    assert!(!d.covers(&make_load(0xFFFF_0000, 4)));
    assert!(!d.covers(&make_load(0xFFFD, 4)));
    assert!(d.covers(&make_load(0xFFFC, 4)));
    assert!(d.covers(&make_load(0x1_0000, 0)));
    assert!(!d.covers(&make_load(0, usize::MAX)));
}

#[test]
fn idle_cycles_change_nothing() {
    let mut d = build_dram(256);
    run_to_completion(&mut d, &make_load(0x100, 4));
    let before = counters(&d);
    for _ in 0..20 {
        assert!(d.tick().is_none());
    }
    assert_eq!(counters(&d), before);
    // The row is still open.
    let (cycles, _) = run_to_completion(&mut d, &make_load(0x1FC, 4));
    assert_eq!(cycles, 4);
}

#[test]
fn latencies_follow_the_timing() {
    let timing = DramTiming { t_rcd: 12, t_cl: 7, t_rp: 9 };
    let mut d = SimpleDram::new(vec![0u8; 4096], timing).with_row_size(512);
    assert_eq!(run_to_completion(&mut d, &make_load(0, 1)).0, 19);
    assert_eq!(run_to_completion(&mut d, &make_load(511, 1)).0, 7);
    assert_eq!(run_to_completion(&mut d, &make_load(512, 1)).0, 28);
    assert_eq!(run_to_completion(&mut d, &make_store(1023, vec![1])).0, 7);
    assert_eq!(counters(&d), [2, 2, 1, 1, 19 + 7 + 28 + 7]);
    assert_eq!(d.dram_access_cnt(), 4);
}

#[test]
fn one_cycle_commands_take_one_cycle_each() {
    let timing = DramTiming { t_rcd: 1, t_cl: 1, t_rp: 1 };
    let mut d = SimpleDram::new(vec![0u8; 64], timing).with_row_size(16);
    assert_eq!(run_to_completion(&mut d, &make_load(0, 4)).0, 2);
    assert_eq!(run_to_completion(&mut d, &make_load(4, 4)).0, 1);
    assert_eq!(run_to_completion(&mut d, &make_load(16, 4)).0, 3);
}

#[test]
fn conflict_is_an_access_at_once_and_a_miss_when_its_row_is_opened() {
    let mut d = build_dram(256);
    run_to_completion(&mut d, &make_load(0x100, 4));
    d.try_register_req(&make_load(0x200, 4)).expect("register request");
    assert_eq!(d.dram_access_cnt(), 1);
    assert!(d.tick().is_none());
    assert_eq!(d.row_conflict_cnt, 1);
    assert_eq!(d.row_buffer_miss_cnt, 1);
    assert_eq!(d.dram_access_cnt(), 2);
    assert_eq!(average_access_time_cycles(&d), 10.0);
    for _ in 0..4 {
        assert!(d.tick().is_none());
    }
    assert_eq!(d.row_buffer_miss_cnt, 2);
    assert_eq!(d.dram_access_cnt(), 2);
}

#[test]
fn store_keeps_the_other_bytes() {
    let image: Vec<u8> = (0..64).collect();
    let mut d = SimpleDram::new(image, DramTiming::educational_default());
    run_to_completion(&mut d, &make_store(10, vec![0xAA, 0xBB]));
    let (_, all) = run_to_completion(&mut d, &make_load(0, 64));
    let mut expected: Vec<u8> = (0..64).collect();
    expected[10] = 0xAA;
    expected[11] = 0xBB;
    assert_eq!(all.load_data(), &expected);
}

#[test]
fn default_row_holds_1024_bytes() {
    assert_eq!(DEFAULT_ROW_SIZE_BYTES, 1024);
    let mut d = SimpleDram::new(vec![0u8; 4096], DramTiming::educational_default());
    assert_eq!(run_to_completion(&mut d, &make_load(0, 4)).0, 8);
    assert_eq!(run_to_completion(&mut d, &make_load(1020, 4)).0, 4);
    assert_eq!(run_to_completion(&mut d, &make_load(1024, 4)).0, 12);
}

#[test]
fn rows_larger_than_the_address_space_are_one_row() {
    let mut d = SimpleDram::new(vec![0u8; 4096], DramTiming::educational_default())
        .with_row_size(1usize << 40);
    assert_eq!(run_to_completion(&mut d, &make_load(0, 4)).0, 8);
    assert_eq!(run_to_completion(&mut d, &make_load(4092, 4)).0, 4);
}

#[test]
fn counters_that_would_overflow_are_announced() {
    let timing = DramTiming { t_rcd: usize::MAX, t_cl: 1, t_rp: 1 };
    let mut d = SimpleDram::new(vec![0u8; 64], timing);
    assert!(d.can_tick());
    d.try_register_req(&make_load(0, 4)).expect("register request");
    assert!(!d.can_tick());

    let mut d = build_dram(256);
    d.try_register_req(&make_load(0, 4)).expect("register request");
    assert!(d.can_tick());
}

#[test]
fn timing_needs_one_cycle_per_command() {
    assert_eq!(
        DramTiming::educational_default(),
        DramTiming { t_rcd: 4, t_cl: 4, t_rp: 4 }
    );
    assert!(DramTiming::educational_default().is_valid());
    assert!(!DramTiming { t_rcd: 0, t_cl: 1, t_rp: 1 }.is_valid());
    assert!(!DramTiming { t_rcd: 1, t_cl: 0, t_rp: 1 }.is_valid());
    assert!(!DramTiming { t_rcd: 1, t_cl: 1, t_rp: 0 }.is_valid());
}

#[test]
fn bank_commands_run_down_and_report() {
    let mut bank = Bank::new();
    assert_eq!(bank.state(), BankState::Idle);
    assert_eq!(bank.advance_one_cycle(), None);
    bank.issue_activate(3, 2);
    assert_eq!(bank.advance_one_cycle(), None);
    assert_eq!(bank.state(), BankState::Activating { row: 3, remaining: 1 });
    assert_eq!(bank.advance_one_cycle(), Some(BankEvent::ActivationFinished));
    assert_eq!(bank.state(), BankState::Active(3));
    bank.issue_read(3, 1);
    assert_eq!(bank.advance_one_cycle(), Some(BankEvent::ReadFinished));
    bank.issue_write(3, 1);
    assert_eq!(bank.state(), BankState::Writing { row: 3, remaining: 1 });
    assert_eq!(bank.advance_one_cycle(), Some(BankEvent::WriteFinished));
    bank.issue_precharge(1);
    assert_eq!(bank.advance_one_cycle(), Some(BankEvent::PrechargeFinished));
    assert_eq!(bank.state(), BankState::Idle);
}

#[test]
fn requests_know_what_they_touch() {
    let load = make_load(0x10, 3);
    assert_eq!(load.get_addr(), 0x10);
    assert_eq!(load.get_len(), 3);
    assert!(!load.is_store());
    assert!(!load.is_done());
    let store = make_store(0x20, vec![1, 2]);
    assert_eq!(store.get_addr(), 0x20);
    assert_eq!(store.get_len(), 2);
    assert!(store.is_store());
    assert_eq!(store.store_data(), &vec![1, 2]);
    assert_eq!(store.duplicate().store_data(), &vec![1, 2]);
}

#[test]
fn counters_never_fall_however_requests_are_offered() {
    let mut d = build_dram(16);
    let mut before = counters(&d);
    let mut handed_out = 0;
    for i in 0u32..200 {
        let req = if i % 3 == 0 {
            make_store((i * 7) % 64, vec![i as u8])
        } else {
            make_load((i * 5) % 64, 4)
        };
        let _ = d.try_register_req(&req);
        assert!(d.can_tick());
        if d.tick().is_some() {
            handed_out += 1;
        }
        let now = counters(&d);
        for (new, old) in now.iter().zip(before.iter()) {
            assert!(new >= old);
        }
        assert_eq!(
            d.total_access_time_cycles,
            d.row_buffer_hit_cnt * 4 + d.cold_open_cnt * 8 + d.row_conflict_cnt * 12
        );
        before = now;
    }
    assert!(handed_out >= 16);
    assert_eq!(d.cold_open_cnt, 1);
    assert!(d.dram_access_cnt() - handed_out <= 1);
}

#[test]
fn loads_see_the_latest_stores_whatever_the_timing_and_the_rows() {
    for (row_size, t) in [(1, 1), (4, 2), (16, 5), (1024, 3)] {
        let timing = DramTiming { t_rcd: t, t_cl: t + 1, t_rp: t + 2 };
        let image: Vec<u8> = (0..64).collect();
        let mut expected = image.clone();
        let mut d = SimpleDram::new(image, timing).with_row_size(row_size);
        let mut cycles = 0;
        for i in 0usize..40 {
            let addr = (i * 11) % 57;
            let bytes: Vec<u8> = (0..(i % 7)).map(|j| (i * 5 + j + 100) as u8).collect();
            expected[addr..addr + bytes.len()].copy_from_slice(&bytes);
            cycles += run_to_completion(&mut d, &make_store(addr as u32, bytes)).0;
            let from = (i * 3) % 50;
            let (took, done) = run_to_completion(&mut d, &make_load(from as u32, 14));
            cycles += took;
            assert_eq!(&done.load_data()[..], &expected[from..from + 14]);
        }
        assert_eq!(d.total_access_time_cycles, cycles);
        assert_eq!(d.dram_access_cnt(), 80);
    }
}

#[test]
fn rows_are_aligned_blocks() {
    // Within an aligned block of 16 bytes every access after the first is a hit;
    // the next block is a conflict.
    let mut d = build_dram(16);
    for (addr, row) in [(0, 0), (15, 0), (16, 1), (0x2F, 2), (0x30, 3), (u32::MAX, 0x0FFF_FFFF)] {
        assert_eq!(d.addr_to_row(addr), row);
    }
    run_to_completion(&mut d, &make_load(0x20, 1));
    for addr in 0x20..0x30 {
        assert_eq!(run_to_completion(&mut d, &make_load(addr, 1)).0, 4);
    }
    assert_eq!(run_to_completion(&mut d, &make_load(0x30, 1)).0, 12);
    assert_eq!(run_to_completion(&mut d, &make_load(0x2F, 1)).0, 12);
}

#[test]
fn stored_bytes_change_on_the_last_cycle_of_a_store() {
    let mut d = build_dram(256);
    d.try_register_req(&make_store(0x10, vec![1, 2])).expect("register request");
    for _ in 0..7 {
        assert!(d.tick().is_none());
    }
    let done = d.tick().expect("store done");
    assert!(done.is_done() && done.is_store());
    let (_, load) = run_to_completion(&mut d, &make_load(0x0F, 4));
    assert_eq!(load.load_data(), &vec![0, 1, 2, 0]);
}
