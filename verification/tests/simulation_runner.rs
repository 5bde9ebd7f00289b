use simulator::hardware::mem::abstract_mem::MemoryReqType;
use simulator::hardware::mem::general_cache::prefetcher::PrefetcherKind;
use simulator::hardware::mem::general_cache::write_policy::WritePolicy;
use simulator::hardware::mem::general_cache::{GeneralCacheConfig, GeneralCacheConfigError};
use simulator::hardware::mem::simple_dram::DramTiming;
use simulator::sim::elf::ProgramInfo;
use simulator::sim::runner::{
    BackingMemory, BackingMemoryKind, BackingMemoryReport, BranchPredictorKind, CacheLevelConfig,
    ReplacementPolicyKind, RunAction, RunClock, Simulation, SimulationConfig,
    SimulationConfigError,
};

const MEM_SIZE: usize = 0x40000;
const ECALL: u32 = 0x00000073;
const NOP: u32 = 0x00000013;

fn halt_program() -> ProgramInfo {
    let mut prog_body = vec![0u8; MEM_SIZE];
    for inst in prog_body.chunks_exact_mut(4) {
        inst.copy_from_slice(&NOP.to_le_bytes());
    }
    prog_body[0..4].copy_from_slice(&ECALL.to_le_bytes());
    ProgramInfo {
        entry_pc: 0,
        prog_body,
    }
}

#[test]
fn runner_rejects_invalid_cache_geometry_before_controller_construction() {
    let config = SimulationConfig {
        l1d: CacheLevelConfig::new(256, 24, 2, 2),
        ..SimulationConfig::default()
    };

    let err = match Simulation::new(halt_program(), config) {
        Ok(_) => panic!("invalid cache config should not run"),
        Err(err) => err,
    };

    assert_eq!(
        err.to_string(),
        "invalid L1-D$ cache config: block size must be a power of two, got 24"
    );
}

#[test]
fn default_machine_is_set_up() {
    let simulation =
        Simulation::new(halt_program(), SimulationConfig::default()).expect("set up simulation");
    assert_eq!(simulation.entry_pc, 0);
    assert_eq!(simulation.replacement_policy, ReplacementPolicyKind::Fifo);
    assert_eq!(simulation.branch_predictor, BranchPredictorKind::Bimodal);
    assert_eq!(simulation.l1i.name, "L1-I$");
    assert_eq!(simulation.l1d.name, "L1-D$");
    assert_eq!(simulation.l2.name, "L2$");
    assert_eq!(simulation.l1i.total_size, 2048);
    assert_eq!(simulation.l1i.block_size, 32);
    assert_eq!(simulation.l1i.num_of_way, 4);
    assert_eq!(simulation.l1i.miss_penalty, 2);
    assert_eq!(simulation.l1d.total_size, 256);
    assert_eq!(simulation.l1d.num_of_way, 2);
    assert_eq!(simulation.l2.total_size, 16384);
    assert_eq!(simulation.l2.block_size, 64);
    assert_eq!(simulation.l2.miss_penalty, 10);
    assert_eq!(
        simulation.l2.write_policy,
        WritePolicy::WriteBackWriteAllocate
    );
    assert_eq!(simulation.l2.prefetcher_kind, PrefetcherKind::Null);
    match &simulation.memory {
        BackingMemory::SimpleMem { image } => {
            assert_eq!(image.len(), MEM_SIZE);
            assert_eq!(&image[..8], &[0x73, 0, 0, 0, 0x13, 0, 0, 0]);
        }
        BackingMemory::SimpleDram { .. } => panic!("expected flat memory"),
    }
    let report = simulation.report("pipeline", 1, 2, 3, [7; 32]);
    assert_eq!(report.pipeline, "pipeline");
    assert_eq!((report.l1i, report.l1d, report.l2), (1, 2, 3));
    assert_eq!(report.backing_memory, BackingMemoryReport::SimpleMem);
    assert_eq!(report.final_registers, [7; 32]);
}

#[test]
fn dram_is_set_up_and_reported() {
    let config = SimulationConfig {
        backing_memory: BackingMemoryKind::SimpleDram {
            timing: DramTiming::educational_default(),
        },
        branch_predictor: BranchPredictorKind::Dummy,
        ..SimulationConfig::default()
    };
    assert!(config.backing_memory.is_valid());
    let mut simulation = Simulation::new(halt_program(), config).expect("set up simulation");
    assert_eq!(simulation.branch_predictor, BranchPredictorKind::Dummy);
    let mut clock = RunClock::new();
    let mut cycles = 0;
    let mut fetched = None;
    // A processor that fetches its first instruction and halts.
    loop {
        match clock.next_action(fetched.is_some()) {
            RunAction::TickProcessor => {
                if cycles == 0 {
                    match &mut simulation.memory {
                        BackingMemory::SimpleDram { dram } => {
                            dram.try_register_req(&MemoryReqType::load(0, 4)).expect("register")
                        }
                        BackingMemory::SimpleMem { .. } => panic!("expected DRAM"),
                    }
                }
                cycles += 1;
            }
            RunAction::TickMemory => match &mut simulation.memory {
                BackingMemory::SimpleDram { dram } => fetched = dram.tick(),
                BackingMemory::SimpleMem { .. } => panic!("expected DRAM"),
            },
            RunAction::Collect => break,
        }
    }
    assert_eq!(cycles, 8);
    assert_eq!(
        fetched.expect("instruction").load_data(),
        &ECALL.to_le_bytes().to_vec()
    );
    assert_eq!(
        simulation.report((), (), (), (), [0; 32]).backing_memory,
        BackingMemoryReport::SimpleDram {
            dram_access_cnt: 1,
            cold_open_cnt: 1,
            row_buffer_hit_cnt: 0,
            row_buffer_miss_cnt: 1,
            row_conflict_cnt: 0,
            total_access_time_cycles: 8,
        }
    );
}

#[test]
fn clock_alternates_and_looks_at_halt_between_cycles() {
    let mut clock = RunClock::new();
    assert_eq!(clock.next_action(false), RunAction::TickProcessor);
    assert_eq!(clock.next_action(true), RunAction::TickMemory);
    assert_eq!(clock.next_action(false), RunAction::TickProcessor);
    assert_eq!(clock.next_action(false), RunAction::TickMemory);
    assert_eq!(clock.next_action(true), RunAction::Collect);
    let mut clock = RunClock::new();
    assert_eq!(clock.next_action(true), RunAction::Collect);
}

#[test]
fn pseudo_lru_needs_power_of_two_ways() {
    let plru = SimulationConfig {
        replacement_policy: ReplacementPolicyKind::Plru,
        ..SimulationConfig::default()
    };
    assert!(plru.validate_replacement_policy().is_ok());
    assert!(plru.cache_configs().is_ok());
    let mut l1i = plru;
    l1i.l1i.num_of_way = 3;
    l1i.l2.num_of_way = 6;
    let mut l1d = plru;
    l1d.l1d.num_of_way = 0;
    let mut l2 = plru;
    l2.l2.num_of_way = 12;
    for (config, level, ways) in [(l1i, "L1-I$", "3"), (l1d, "L1-D$", "0"), (l2, "L2$", "12")] {
        let err = config.validate_replacement_policy().expect_err("refused");
        assert_eq!(
            err.to_string(),
            format!(
                "invalid {} replacement config: PLRU associativity must be a power of two, got {}",
                level, ways
            )
        );
        assert!(err.source().is_none());
        let fifo = SimulationConfig {
            replacement_policy: ReplacementPolicyKind::Fifo,
            ..config
        };
        assert!(fifo.validate_replacement_policy().is_ok());
        assert!(fifo.cache_configs().is_ok());
    }
}

#[test]
fn replacement_policy_is_checked_before_geometry() {
    let config = SimulationConfig {
        l1i: CacheLevelConfig::new(2048, 33, 4, 2),
        l2: CacheLevelConfig::new(16384, 64, 5, 10),
        replacement_policy: ReplacementPolicyKind::Plru,
        ..SimulationConfig::default()
    };
    assert!(matches!(
        config.cache_configs(),
        Err(SimulationConfigError::PseudoLruAssociativity { level: "L2$", num_of_way: 5 })
    ));
}

#[test]
fn geometry_errors_name_level_and_source() {
    for (level, bad) in [("L1-I$", 0), ("L1-D$", 48), ("L2$", 1000)] {
        let mut config = SimulationConfig::default();
        match level {
            "L1-I$" => config.l1i.block_size = bad,
            "L1-D$" => config.l1d.block_size = bad,
            _ => config.l2.block_size = bad,
        }
        let err = config.cache_configs().expect_err("refused");
        assert_eq!(
            err.to_string(),
            format!(
                "invalid {} cache config: block size must be a power of two, got {}",
                level, bad
            )
        );
        assert_eq!(
            err.source(),
            Some(&GeneralCacheConfigError::BlockSize { block_size: bad })
        );
    }
}

#[test]
fn cache_configs_carry_the_shared_policies() {
    let config = SimulationConfig {
        write_policy: WritePolicy::WriteThroughWriteAllocate,
        prefetcher_kind: PrefetcherKind::NextLine,
        ..SimulationConfig::default()
    };
    let (l1i, l1d, l2) = config.cache_configs().expect("accepted");
    for cache in [&l1i, &l1d, &l2] {
        assert_eq!(cache.write_policy, WritePolicy::WriteThroughWriteAllocate);
        assert_eq!(cache.prefetcher_kind, PrefetcherKind::NextLine);
    }
    let level = CacheLevelConfig::new(512, 16, 8, 5)
        .into_general_cache_config("L9", WritePolicy::default(), PrefetcherKind::default())
        .expect("accepted");
    assert_eq!(level.name, "L9");
    assert_eq!(level.miss_penalty, 5);
}

#[test]
fn cache_starts_with_default_policies() {
    let cache = GeneralCacheConfig::new("c", 64, 8, 1).expect("accepted");
    assert_eq!(cache.miss_penalty, 0);
    assert_eq!(cache.write_policy, WritePolicy::default());
    assert_eq!(cache.prefetcher_kind, PrefetcherKind::default());
    assert!(GeneralCacheConfig::new("c", 64, 12, 1).is_err());
}

#[test]
fn memory_kind_without_cycles_is_invalid() {
    assert!(BackingMemoryKind::SimpleMem.is_valid());
    let timing = DramTiming { t_rcd: 1, t_cl: 1, t_rp: 0 };
    assert!(!BackingMemoryKind::SimpleDram { timing }.is_valid());
}
