use simulator::hardware::mem::general_cache::prefetcher::PrefetcherKind;
use simulator::hardware::mem::general_cache::write_policy::WritePolicy;
use simulator::sim::cli::{
    parse_positive_usize, simulation_config, Args, BackingMemoryArg, BranchPredictorArg,
    PrefetcherArg, ReplacementPolicyArg, WritePolicyArg,
};
use simulator::sim::command_line::ArgsError;
use simulator::sim::options::OPTION_COUNT;
use simulator::sim::runner::{
    BackingMemoryKind, BranchPredictorKind, ReplacementPolicyKind, SimulationConfig,
};

fn parse(words: &[&str]) -> Result<Args, ArgsError> {
    let words: Vec<String> = words.iter().map(|word| word.to_string()).collect();
    Args::try_parse_from(&words)
}

#[test]
fn dram_timing_flags_reach_runner_config() {
    let args = parse(&[
        "simulator",
        "--prog",
        "qsort",
        "--memory",
        "dram",
        "--dram-trcd",
        "12",
        "--dram-tcl",
        "7",
        "--dram-trp",
        "9",
    ])
    .expect("parse CLI arguments");

    match args.backing_memory_kind() {
        BackingMemoryKind::SimpleDram { timing } => {
            assert_eq!(timing.t_rcd, 12);
            assert_eq!(timing.t_cl, 7);
            assert_eq!(timing.t_rp, 9);
        }
        BackingMemoryKind::SimpleMem => panic!("expected DRAM backing memory"),
    }
}

#[test]
fn dram_timing_defaults_match_educational_model() {
    let args = parse(&["simulator", "--prog", "qsort", "--memory", "dram"])
        .expect("parse CLI arguments");

    match args.backing_memory_kind() {
        BackingMemoryKind::SimpleDram { timing } => {
            assert_eq!(timing.t_rcd, 4);
            assert_eq!(timing.t_cl, 4);
            assert_eq!(timing.t_rp, 4);
        }
        BackingMemoryKind::SimpleMem => panic!("expected DRAM backing memory"),
    }
}

#[test]
fn zero_dram_timing_is_rejected_by_cli() {
    let parsed = parse(&[
        "simulator",
        "--prog",
        "qsort",
        "--memory",
        "dram",
        "--dram-trcd",
        "0",
    ]);

    assert!(parsed.is_err());
}

#[test]
fn program_alone_chooses_the_default_machine() {
    let args = parse(&["simulator", "--prog", "qsort"]).expect("parse CLI arguments");
    assert_eq!(args.prog, "qsort");
    assert_eq!(args.elf_dir, "../target/riscv32im-unknown-none-elf/debug");
    assert_eq!(args.stats_out, None);
    assert_eq!((args.dram_trcd, args.dram_tcl, args.dram_trp), (4, 4, 4));
    assert_eq!(simulation_config(&args), SimulationConfig::default());
}

#[test]
fn every_option_reaches_its_field() {
    let args = parse(&[
        "simulator",
        "--prog=matmul",
        "--elf-dir=/tmp/elf",
        "--l1i-size=1",
        "--l1i-block=2",
        "--l1i-ways=3",
        "--l1i-penalty=+4",
        "--l1d-size=5",
        "--l1d-block=6",
        "--l1d-ways=7",
        "--l1d-penalty=8",
        "--l2-size=9",
        "--l2-block=10",
        "--l2-ways=11",
        "--l2-penalty=0012",
        "--rp=plru",
        "--wp=wt-nwa",
        "--prefetcher=next-line",
        "--bp=dummy",
        "--memory=dram",
        "--dram-trcd=13",
        "--dram-tcl=14",
        "--dram-trp=15",
        "--stats-out=stats.json",
    ])
    .expect("parse CLI arguments");
    assert_eq!(args.prog, "matmul");
    assert_eq!(args.elf_dir, "/tmp/elf");
    assert_eq!(args.stats_out, Some("stats.json".to_string()));
    assert_eq!(args.rp, ReplacementPolicyArg::Plru);
    assert_eq!(args.wp, WritePolicyArg::WtNwa);
    assert_eq!(args.prefetcher, PrefetcherArg::NextLine);
    assert_eq!(args.bp, BranchPredictorArg::Dummy);
    assert_eq!(args.memory, BackingMemoryArg::Dram);
    let config = simulation_config(&args);
    assert_eq!(config.l1i.total_size, 1);
    assert_eq!(config.l1i.block_size, 2);
    assert_eq!(config.l1i.num_of_way, 3);
    assert_eq!(config.l1i.miss_penalty, 4);
    assert_eq!(config.l1d.total_size, 5);
    assert_eq!(config.l1d.block_size, 6);
    assert_eq!(config.l1d.num_of_way, 7);
    assert_eq!(config.l1d.miss_penalty, 8);
    assert_eq!(config.l2.total_size, 9);
    assert_eq!(config.l2.block_size, 10);
    assert_eq!(config.l2.num_of_way, 11);
    assert_eq!(config.l2.miss_penalty, 12);
    assert_eq!(config.replacement_policy, ReplacementPolicyKind::Plru);
    assert_eq!(config.write_policy, WritePolicy::WriteThroughNoWriteAllocate);
    assert_eq!(config.prefetcher_kind, PrefetcherKind::NextLine);
    assert_eq!(config.branch_predictor, BranchPredictorKind::Dummy);
    match config.backing_memory {
        BackingMemoryKind::SimpleDram { timing } => {
            assert_eq!((timing.t_rcd, timing.t_cl, timing.t_rp), (13, 14, 15));
        }
        BackingMemoryKind::SimpleMem => panic!("expected DRAM backing memory"),
    }
}

#[test]
fn timing_is_ignored_without_a_dram() {
    let args = parse(&["simulator", "--prog", "qsort", "--dram-tcl", "99"])
        .expect("parse CLI arguments");
    assert_eq!(args.dram_tcl, 99);
    assert_eq!(args.backing_memory_kind(), BackingMemoryKind::SimpleMem);
}

#[test]
fn each_choice_has_its_name() {
    for (name, arg) in [
        ("fifo", ReplacementPolicyArg::Fifo),
        ("random", ReplacementPolicyArg::Random),
        ("plru", ReplacementPolicyArg::Plru),
    ] {
        let args = parse(&["simulator", "--prog", "p", "--rp", name]).expect("parse");
        assert_eq!(args.rp, arg);
    }
    for (name, policy) in [
        ("wb-wa", WritePolicy::WriteBackWriteAllocate),
        ("wb-nwa", WritePolicy::WriteBackNoWriteAllocate),
        ("wt-wa", WritePolicy::WriteThroughWriteAllocate),
        ("wt-nwa", WritePolicy::WriteThroughNoWriteAllocate),
    ] {
        let args = parse(&["simulator", "--prog", "p", "--wp", name]).expect("parse");
        assert_eq!(WritePolicy::from(args.wp), policy);
    }
    for (name, kind) in [
        ("null", PrefetcherKind::Null),
        ("next-line", PrefetcherKind::NextLine),
    ] {
        let args = parse(&["simulator", "--prog", "p", "--prefetcher", name]).expect("parse");
        assert_eq!(PrefetcherKind::from(args.prefetcher), kind);
    }
    for (name, kind) in [
        ("dummy", BranchPredictorKind::Dummy),
        ("bimodal", BranchPredictorKind::Bimodal),
    ] {
        let args = parse(&["simulator", "--prog", "p", "--bp", name]).expect("parse");
        assert_eq!(BranchPredictorKind::from(args.bp), kind);
    }
    for (name, arg) in [
        ("simple-mem", BackingMemoryArg::SimpleMem),
        ("dram", BackingMemoryArg::Dram),
    ] {
        let args = parse(&["simulator", "--prog", "p", "--memory", name]).expect("parse");
        assert_eq!(args.memory, arg);
    }
}

/// Values that are refused, each with the line that says so.
const REFUSED: [(&str, &str, &str); 13] = [
    (
        "l1i-size",
        "x1",
        "error: invalid value 'x1' for '--l1i-size <L1I_SIZE>': invalid digit found in string",
    ),
    (
        "l1d-ways",
        "",
        "error: invalid value '' for '--l1d-ways <L1D_WAYS>': cannot parse integer from empty string",
    ),
    (
        "l2-penalty",
        "18446744073709551616",
        "error: invalid value '18446744073709551616' for '--l2-penalty <L2_PENALTY>': number too large to fit in target type",
    ),
    (
        "elf-dir",
        "",
        "error: a value is required for '--elf-dir <ELF_DIR>' but none was supplied",
    ),
    (
        "stats-out",
        "",
        "error: a value is required for '--stats-out <STATS_OUT>' but none was supplied",
    ),
    ("rp", "lru", "error: invalid value 'lru' for '--rp <RP>'"),
    ("rp", "lru", "  [possible values: fifo, random, plru]"),
    ("wp", "WB-WA", "  [possible values: wb-wa, wb-nwa, wt-wa, wt-nwa]"),
    ("prefetcher", "none", "  [possible values: null, next-line]"),
    ("bp", "taken", "  [possible values: dummy, bimodal]"),
    ("memory", "sram", "  [possible values: simple-mem, dram]"),
    (
        "dram-tcl",
        "0",
        "error: invalid value '0' for '--dram-tcl <DRAM_TCL>': DRAM timing must be at least 1 cycle",
    ),
    (
        "dram-trp",
        "four",
        "error: invalid value 'four' for '--dram-trp <DRAM_TRP>': expected a positive integer, got \"four\"",
    ),
];

const NAMES: [&str; OPTION_COUNT] = [
    "prog", "elf-dir", "l1i-size", "l1i-block", "l1i-ways", "l1i-penalty", "l1d-size",
    "l1d-block", "l1d-ways", "l1d-penalty", "l2-size", "l2-block", "l2-ways", "l2-penalty", "rp",
    "wp", "prefetcher", "bp", "memory", "dram-trcd", "dram-tcl", "dram-trp", "stats-out",
];

#[test]
fn refused_values_end_with_their_reason() {
    for (option, value, line) in REFUSED {
        let flag = format!("--{}={}", option, value);
        match parse(&["simulator", "--prog", "p", &flag]) {
            Err(ArgsError::CommandLine { exit_code, message }) => {
                assert_eq!(exit_code, 2);
                assert!(message.lines().any(|found| found == line), "{}", message);
            }
            other => panic!("expected a refusal, got {:?}", other),
        }
    }
}

#[test]
fn every_number_is_checked() {
    for option in NAMES[2..14].iter().chain(NAMES[19..22].iter()) {
        for value in ["x", "", "1.5", "0x10"] {
            let flag = format!("--{}={}", option, value);
            assert!(parse(&["simulator", "--prog", "p", &flag]).is_err(), "{}", flag);
        }
        let flag = format!("--{}=7", option);
        assert!(parse(&["simulator", "--prog", "p", &flag]).is_ok(), "{}", flag);
    }
}

#[test]
fn values_without_meaning_are_refused() {
    for (option, value, _) in REFUSED {
        let mut values: Vec<Option<String>> = vec![None; OPTION_COUNT];
        values[0] = Some("p".to_string());
        let position = NAMES.iter().position(|name| *name == option).expect("known option");
        values[position] = Some(value.to_string());
        match Args::from_values(&values) {
            Err(ArgsError::InvalidValue { option: named, value: given }) => {
                assert_eq!(named, option);
                assert_eq!(given, value);
            }
            other => panic!("expected a refusal, got {:?}", other),
        }
    }
}

#[test]
fn first_refused_option_in_table_order_is_reported() {
    let mut values: Vec<Option<String>> = vec![None; OPTION_COUNT];
    values[0] = Some("p".to_string());
    values[14] = Some("x".to_string());
    values[6] = Some("y".to_string());
    match Args::from_values(&values) {
        Err(ArgsError::InvalidValue { option, .. }) => assert_eq!(option, "l1d-size"),
        other => panic!("expected a refusal, got {:?}", other),
    }
}

#[test]
fn program_is_required() {
    for words in [vec!["simulator"], vec!["simulator", "--memory", "dram"], vec![]] {
        match parse(&words) {
            Err(ArgsError::CommandLine { exit_code, message }) => {
                assert_eq!(exit_code, 2);
                assert!(message.contains("--prog"), "{}", message);
            }
            other => panic!("expected an error for {:?}, got {:?}", words, other),
        }
    }
}

#[test]
fn unreadable_command_lines_end_with_a_message() {
    for words in [
        vec!["simulator", "--prog", "p", "--no-such-option", "1"],
        vec!["simulator", "--prog", "p", "--prog", "q"],
        vec!["simulator", "--prog"],
        vec!["simulator", "--prog", "p", "stray"],
        vec!["simulator", "--prog", "p", "--l1i-size", "-5"],
    ] {
        match parse(&words) {
            Err(ArgsError::CommandLine { exit_code, message }) => {
                assert_eq!(exit_code, 2);
                assert!(message.starts_with("error: "));
            }
            other => panic!("expected an error for {:?}, got {:?}", words, other),
        }
    }
}

fn help(flag: &str) -> String {
    match parse(&["simulator", flag]) {
        Err(ArgsError::CommandLine { exit_code: 0, message }) => message,
        other => panic!("expected the help text, got {:?}", other),
    }
}

#[test]
fn help_ends_without_an_error_status() {
    let message = help("--help");
    assert!(message.starts_with("SimplePipeSim — a teaching RISC-V pipeline simulator"));
    for line in [
        "Usage: simulator [OPTIONS] --prog <PROG>",
        "      --prog <PROG>",
        "          Name of the runtime binary to run (e.g. \"matmul\", \"qsort\", \"hello\"). Looked up relative to `--elf-dir`",
        "          [default: ../target/riscv32im-unknown-none-elf/debug]",
        "      --l1i-size <L1I_SIZE>",
        "          [default: 16384]",
        "          - plru:   Tree-based pseudo-LRU. Requires power-of-two associativity",
        "          - wt-nwa: Write-through + no-write-allocate",
        "          - next-line: Stride-1 next-line prefetcher: fetch `addr + block_size` after every demand access",
        "          - bimodal: Branch target table plus the historical bimodal direction counter",
        "          [default: simple-mem]",
        "          DRAM precharge time in cycles. Only used with `--memory dram`",
        "          Write per-cache statistics to this JSON file. Schema: { \"pipeline\": StatisticInfo, \"l1i\": StatisticInfo, \"l1d\": StatisticInfo, \"l2\": StatisticInfo, \"backing_memory\": ..., \"final_registers\": [...], \"config\": { mirror of CLI args } }",
    ] {
        assert!(message.lines().any(|found| found == line), "{}", line);
    }
}

#[test]
fn short_help_has_one_entry_per_option() {
    let message = help("-h");
    let entry = |option: &str| -> String {
        let start = format!("      --{} <", option);
        let found: Vec<&str> = message.lines().filter(|line| line.starts_with(&start)).collect();
        assert_eq!(found.len(), 1, "{}", option);
        found[0].to_string()
    };
    for name in NAMES {
        assert!(entry(name).contains(&name.to_uppercase().replace("-", "_")));
    }
    assert!(entry("l1i-size").trim_end().ends_with("<L1I_SIZE>        [default: 2048]"));
    assert!(entry("rp").ends_with(
        "Replacement policy for all caches [default: fifo] [possible values: fifo, random, plru]"
    ));
}

#[test]
fn both_spellings_choose_the_same() {
    let apart = parse(&["simulator", "--prog", "p", "--memory", "dram", "--dram-tcl", "7"]);
    let joined = parse(&["simulator", "--dram-tcl=7", "--memory=dram", "--prog=p"]);
    let apart = apart.expect("apart");
    let joined = joined.expect("joined");
    assert_eq!(apart.prog, joined.prog);
    assert_eq!(simulation_config(&apart), simulation_config(&joined));
    // A joined value may look like an option, be empty or hold a `=`.
    let args = parse(&["simulator", "--prog=", "--elf-dir=-a=b", "--stats-out=--prog"]);
    let args = args.expect("joined values");
    assert_eq!(args.prog, "");
    assert_eq!(args.elf_dir, "-a=b");
    assert_eq!(args.stats_out, Some("--prog".to_string()));
}

#[test]
fn values_choose_arguments_without_a_command_line() {
    let mut values: Vec<Option<String>> = vec![None; OPTION_COUNT];
    assert!(matches!(
        Args::from_values(&values),
        Err(ArgsError::MissingProgram)
    ));
    values[0] = Some(String::new());
    let args = Args::from_values(&values).expect("defaults");
    assert_eq!(args.prog, "");
    assert_eq!(simulation_config(&args), SimulationConfig::default());
}

#[test]
fn positive_numbers_are_read() {
    assert_eq!(parse_positive_usize("1"), Ok(1));
    assert_eq!(parse_positive_usize("+12"), Ok(12));
    assert_eq!(parse_positive_usize("007"), Ok(7));
    assert_eq!(
        parse_positive_usize("0"),
        Err("DRAM timing must be at least 1 cycle".to_string())
    );
    assert_eq!(
        parse_positive_usize("-1"),
        Err("expected a positive integer, got \"-1\"".to_string())
    );
    let plain: String = (' '..='~').filter(|c| *c != '"' && *c != '\\').collect();
    assert_eq!(
        parse_positive_usize(&plain),
        Err(format!("expected a positive integer, got \"{}\"", plain))
    );
    assert_eq!(
        parse_positive_usize("a\"b\n"),
        Err("expected a positive integer, got \"a\\\"b\\n\"".to_string())
    );
    assert_eq!(
        parse_positive_usize(""),
        Err("expected a positive integer, got \"\"".to_string())
    );
}
