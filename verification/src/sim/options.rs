//! The options of the command line: names, explanations, defaults and values.

use vstd::prelude::*;

use crate::number::{parse_usize, read_usize};
use crate::sim::cli::parse_positive_usize;

verus! {

/// Number of options.
pub const OPTION_COUNT: usize = 23;

// Positions of the options in the table of options.

pub const PROG: usize = 0;

pub const ELF_DIR: usize = 1;

pub const L1I_SIZE: usize = 2;

pub const L1I_BLOCK: usize = 3;

pub const L1I_WAYS: usize = 4;

pub const L1I_PENALTY: usize = 5;

pub const L1D_SIZE: usize = 6;

pub const L1D_BLOCK: usize = 7;

pub const L1D_WAYS: usize = 8;

pub const L1D_PENALTY: usize = 9;

pub const L2_SIZE: usize = 10;

pub const L2_BLOCK: usize = 11;

pub const L2_WAYS: usize = 12;

pub const L2_PENALTY: usize = 13;

pub const RP: usize = 14;

pub const WP: usize = 15;

pub const PREFETCHER: usize = 16;

pub const BP: usize = 17;

pub const MEMORY: usize = 18;

pub const DRAM_TRCD: usize = 19;

pub const DRAM_TCL: usize = 20;

pub const DRAM_TRP: usize = 21;

pub const STATS_OUT: usize = 22;

/// What the value of an option is.
#[derive(Clone, Copy, Debug, PartialEq, Eq, Structural)]
pub enum ValueKind {
    /// Any text.
    Text,
    /// A path, which is not empty.
    Path,
    /// An unsigned number.
    Number,
    /// A number of cycles, which is at least 1.
    Cycles,
    /// One of a few names.
    Choice,
}

/// One option.
#[derive(Debug)]
pub struct CliOption {
    /// The name, which follows `--`.
    pub name: &'static str,
    /// What stands for the value in usage lines.
    pub value_name: &'static str,
    pub help: Option<&'static str>,
    /// Whether it has to be given.
    pub required: bool,
    /// The value without which it counts as given.
    pub default: Option<&'static str>,
    pub kind: ValueKind,
    /// The names that can be chosen, each with its explanation.
    pub choices: Vec<(&'static str, Option<&'static str>)>,
}

/// The same with texts as sequences of characters.
#[verifier::ext_equal]
pub struct CliOptionView {
    pub name: Seq<char>,
    pub value_name: Seq<char>,
    pub help: Option<Seq<char>>,
    pub required: bool,
    pub default: Option<Seq<char>>,
    pub kind: ValueKind,
    pub choices: Seq<(Seq<char>, Option<Seq<char>>)>,
}

/// The view of an optional literal.
pub open spec fn str_view(text: Option<&'static str>) -> Option<Seq<char>> {
    match text {
        Some(text) => Some(text@),
        None => None,
    }
}

/// The views of names with their explanations.
pub open spec fn choices_view(choices: Seq<(&'static str, Option<&'static str>)>) -> Seq<
    (Seq<char>, Option<Seq<char>>),
> {
    choices.map_values(
        |choice: (&'static str, Option<&'static str>)| (choice.0@, str_view(choice.1)),
    )
}

impl View for CliOption {
    type V = CliOptionView;

    open spec fn view(&self) -> CliOptionView {
        CliOptionView {
            name: self.name@,
            value_name: self.value_name@,
            help: str_view(self.help),
            required: self.required,
            default: str_view(self.default),
            kind: self.kind,
            choices: choices_view(self.choices@),
        }
    }
}

/// The views of options.
pub open spec fn options_view(options: Seq<CliOption>) -> Seq<CliOptionView> {
    options.map_values(|option: CliOption| option@)
}

impl CliOptionView {
    /// A text that has to be given.
    pub open spec fn text(name: Seq<char>, value_name: Seq<char>, help: Seq<char>) -> Self {
        CliOptionView {
            name,
            value_name,
            help: Some(help),
            required: true,
            default: None,
            kind: ValueKind::Text,
            choices: Seq::empty(),
        }
    }

    /// A path.
    pub open spec fn path(
        name: Seq<char>,
        value_name: Seq<char>,
        help: Seq<char>,
        default: Option<Seq<char>>,
    ) -> Self {
        CliOptionView {
            name,
            value_name,
            help: Some(help),
            required: false,
            default,
            kind: ValueKind::Path,
            choices: Seq::empty(),
        }
    }

    /// An unsigned number, without an explanation.
    pub open spec fn number(name: Seq<char>, value_name: Seq<char>, default: Seq<char>) -> Self {
        CliOptionView {
            name,
            value_name,
            help: None,
            required: false,
            default: Some(default),
            kind: ValueKind::Number,
            choices: Seq::empty(),
        }
    }

    /// A number of cycles.
    pub open spec fn cycles(
        name: Seq<char>,
        value_name: Seq<char>,
        help: Seq<char>,
        default: Seq<char>,
    ) -> Self {
        CliOptionView {
            name,
            value_name,
            help: Some(help),
            required: false,
            default: Some(default),
            kind: ValueKind::Cycles,
            choices: Seq::empty(),
        }
    }

    /// One of the names in `choices`.
    pub open spec fn choice(
        name: Seq<char>,
        value_name: Seq<char>,
        help: Seq<char>,
        default: Seq<char>,
        choices: Seq<(Seq<char>, Option<Seq<char>>)>,
    ) -> Self {
        CliOptionView {
            name,
            value_name,
            help: Some(help),
            required: false,
            default: Some(default),
            kind: ValueKind::Choice,
            choices,
        }
    }

    /// Whether `text` can be the value of the option.
    pub open spec fn accepts(self, text: Seq<char>) -> bool {
        match self.kind {
            ValueKind::Text => true,
            ValueKind::Path => text.len() > 0,
            ValueKind::Number => crate::number::usize_value(text) is Some,
            ValueKind::Cycles => crate::sim::cli::positive_value(text) is Ok,
            ValueKind::Choice => exists|k: int|
                0 <= k < self.choices.len() && (#[trigger] self.choices[k]).0 == text,
        }
    }
}

impl CliOption {
    /// A text that has to be given.
    fn text(name: &'static str, value_name: &'static str, help: &'static str) -> (option: Self)
        ensures
            option@ == CliOptionView::text(name@, value_name@, help@),
    {
        CliOption {
            name,
            value_name,
            help: Some(help),
            required: true,
            default: None,
            kind: ValueKind::Text,
            choices: Vec::new(),
        }
    }

    /// A path.
    fn path(
        name: &'static str,
        value_name: &'static str,
        help: &'static str,
        default: Option<&'static str>,
    ) -> (option: Self)
        ensures
            option@ == CliOptionView::path(name@, value_name@, help@, str_view(default)),
    {
        CliOption {
            name,
            value_name,
            help: Some(help),
            required: false,
            default,
            kind: ValueKind::Path,
            choices: Vec::new(),
        }
    }

    /// An unsigned number, without an explanation.
    fn number(name: &'static str, value_name: &'static str, default: &'static str) -> (option: Self)
        ensures
            option@ == CliOptionView::number(name@, value_name@, default@),
    {
        CliOption {
            name,
            value_name,
            help: None,
            required: false,
            default: Some(default),
            kind: ValueKind::Number,
            choices: Vec::new(),
        }
    }

    /// A number of cycles.
    fn cycles(
        name: &'static str,
        value_name: &'static str,
        help: &'static str,
        default: &'static str,
    ) -> (option: Self)
        ensures
            option@ == CliOptionView::cycles(name@, value_name@, help@, default@),
    {
        CliOption {
            name,
            value_name,
            help: Some(help),
            required: false,
            default: Some(default),
            kind: ValueKind::Cycles,
            choices: Vec::new(),
        }
    }

    /// One of the names in `choices`.
    fn choice(
        name: &'static str,
        value_name: &'static str,
        help: &'static str,
        default: &'static str,
        choices: Vec<(&'static str, Option<&'static str>)>,
    ) -> (option: Self)
        ensures
            option@ == CliOptionView::choice(
                name@,
                value_name@,
                help@,
                default@,
                choices_view(choices@),
            ),
    {
        CliOption {
            name,
            value_name,
            help: Some(help),
            required: false,
            default: Some(default),
            kind: ValueKind::Choice,
            choices,
        }
    }

    /// Whether `text` can be the value of the option.
    pub fn accepts(&self, text: &str) -> (yes: bool)
        ensures
            yes == self@.accepts(text@),
    {
        match self.kind {
            ValueKind::Text => true,
            ValueKind::Path => !text.is_empty(),
            ValueKind::Number => parse_usize(text).is_some(),
            ValueKind::Cycles => parse_positive_usize(text).is_ok(),
            ValueKind::Choice => {
                let wanted: String = text.to_owned();
                let mut k: usize = 0;
                while k < self.choices.len()
                    invariant
                        self.kind is Choice,
                        k <= self.choices@.len(),
                        wanted@ == text@,
                        forall|l: int| 0 <= l < k ==> (#[trigger] self@.choices[l]).0 != text@,
                    decreases self.choices@.len() - k,
                {
                    assert(self@.choices[k as int].0 == self.choices@[k as int].0@);
                    if wanted == self.choices[k].0.to_owned() {
                        return true;
                    }
                    k += 1;
                }
                false
            },
        }
    }
}

/// Reads `text` as a value of the kind `kind`, and gives it back or says what is
/// wrong with it.
pub(crate) fn check_text(kind: ValueKind, text: &str) -> (res: Result<String, String>)
    requires
        kind is Text || kind is Number || kind is Cycles,
    ensures
        match res {
            Ok(value) => value@ == text@ && match kind {
                ValueKind::Number => crate::number::usize_value(text@) is Some,
                ValueKind::Cycles => crate::sim::cli::positive_value(text@) is Ok,
                _ => true,
            },
            Err(reason) => match kind {
                ValueKind::Number => crate::number::usize_value(text@) is None && reason@
                    == crate::number::number_error(text@).message(),
                ValueKind::Cycles => crate::sim::cli::positive_value(text@) == Err::<
                    usize,
                    Seq<char>,
                >(reason@),
                _ => false,
            },
        },
{
    match kind {
        ValueKind::Number => match read_usize(text) {
            Ok(_) => Ok(text.to_owned()),
            Err(error) => Err(error.text().to_owned()),
        },
        ValueKind::Cycles => match parse_positive_usize(text) {
            Ok(_) => Ok(text.to_owned()),
            Err(reason) => Err(reason),
        },
        _ => Ok(text.to_owned()),
    }
}

/// The options of the simulator.
pub open spec fn option_table() -> Seq<CliOptionView> {
    seq![
        CliOptionView::text(
            "prog"@,
            "PROG"@,
            "Name of the runtime binary to run (e.g. \"matmul\", \"qsort\", \"hello\"). Looked up relative to `--elf-dir`"@,
        ),
        CliOptionView::path(
            "elf-dir"@,
            "ELF_DIR"@,
            "Directory containing pre-built RISC-V ELF binaries"@,
            Some("../target/riscv32im-unknown-none-elf/debug"@),
        ),
        CliOptionView::number("l1i-size"@, "L1I_SIZE"@, "2048"@),
        CliOptionView::number("l1i-block"@, "L1I_BLOCK"@, "32"@),
        CliOptionView::number("l1i-ways"@, "L1I_WAYS"@, "4"@),
        CliOptionView::number("l1i-penalty"@, "L1I_PENALTY"@, "2"@),
        CliOptionView::number("l1d-size"@, "L1D_SIZE"@, "256"@),
        CliOptionView::number("l1d-block"@, "L1D_BLOCK"@, "32"@),
        CliOptionView::number("l1d-ways"@, "L1D_WAYS"@, "2"@),
        CliOptionView::number("l1d-penalty"@, "L1D_PENALTY"@, "2"@),
        CliOptionView::number("l2-size"@, "L2_SIZE"@, "16384"@),
        CliOptionView::number("l2-block"@, "L2_BLOCK"@, "64"@),
        CliOptionView::number("l2-ways"@, "L2_WAYS"@, "4"@),
        CliOptionView::number("l2-penalty"@, "L2_PENALTY"@, "10"@),
        CliOptionView::choice(
            "rp"@,
            "RP"@,
            "Replacement policy for all caches"@,
            "fifo"@,
            seq![
                ("fifo"@, None),
                ("random"@, None),
                ("plru"@, Some("Tree-based pseudo-LRU. Requires power-of-two associativity"@)),
            ],
        ),
        CliOptionView::choice(
            "wp"@,
            "WP"@,
            "Write policy for all caches"@,
            "wb-wa"@,
            seq![
                ("wb-wa"@, Some("Write-back + write-allocate (default)"@)),
                ("wb-nwa"@, Some("Write-back + no-write-allocate"@)),
                ("wt-wa"@, Some("Write-through + write-allocate"@)),
                ("wt-nwa"@, Some("Write-through + no-write-allocate"@)),
            ],
        ),
        CliOptionView::choice(
            "prefetcher"@,
            "PREFETCHER"@,
            "Hardware prefetcher for all caches"@,
            "null"@,
            seq![
                ("null"@, Some("No prefetching (default)"@)),
                ("next-line"@, Some("Stride-1 next-line prefetcher: fetch `addr + block_size` after every demand access"@)),
            ],
        ),
        CliOptionView::choice(
            "bp"@,
            "BP"@,
            "Branch predictor selected for control-flow instructions"@,
            "bimodal"@,
            seq![
                ("dummy"@, Some("Always predicts not-taken"@)),
                ("bimodal"@, Some("Branch target table plus the historical bimodal direction counter"@)),
            ],
        ),
        CliOptionView::choice(
            "memory"@,
            "MEMORY"@,
            "Backing memory behind the unified L2 cache"@,
            "simple-mem"@,
            seq![
                ("simple-mem"@, Some("Flat-latency main memory"@)),
                ("dram"@, Some("Single-bank row-buffer-aware DRAM configured by the `--dram-*` flags"@)),
            ],
        ),
        CliOptionView::cycles(
            "dram-trcd"@,
            "DRAM_TRCD"@,
            "DRAM row-to-column delay in cycles. Only used with `--memory dram`"@,
            "4"@,
        ),
        CliOptionView::cycles(
            "dram-tcl"@,
            "DRAM_TCL"@,
            "DRAM CAS latency in cycles. Only used with `--memory dram`"@,
            "4"@,
        ),
        CliOptionView::cycles(
            "dram-trp"@,
            "DRAM_TRP"@,
            "DRAM precharge time in cycles. Only used with `--memory dram`"@,
            "4"@,
        ),
        CliOptionView::path(
            "stats-out"@,
            "STATS_OUT"@,
            "Write per-cache statistics to this JSON file. Schema: { \"pipeline\": StatisticInfo, \"l1i\": StatisticInfo, \"l1d\": StatisticInfo, \"l2\": StatisticInfo, \"backing_memory\": ..., \"final_registers\": [...], \"config\": { mirror of CLI args } }"@,
            None,
        ),
    ]
}

/// The options of the simulator.
pub(crate) fn option_list() -> (options: Vec<CliOption>)
    ensures
        options_view(options@) == option_table(),
        options@.len() == OPTION_COUNT,
{
    let options: Vec<CliOption> = vec![
        CliOption::text(
            "prog",
            "PROG",
            "Name of the runtime binary to run (e.g. \"matmul\", \"qsort\", \"hello\"). Looked up relative to `--elf-dir`",
        ),
        CliOption::path(
            "elf-dir",
            "ELF_DIR",
            "Directory containing pre-built RISC-V ELF binaries",
            Some("../target/riscv32im-unknown-none-elf/debug"),
        ),
        CliOption::number("l1i-size", "L1I_SIZE", "2048"),
        CliOption::number("l1i-block", "L1I_BLOCK", "32"),
        CliOption::number("l1i-ways", "L1I_WAYS", "4"),
        CliOption::number("l1i-penalty", "L1I_PENALTY", "2"),
        CliOption::number("l1d-size", "L1D_SIZE", "256"),
        CliOption::number("l1d-block", "L1D_BLOCK", "32"),
        CliOption::number("l1d-ways", "L1D_WAYS", "2"),
        CliOption::number("l1d-penalty", "L1D_PENALTY", "2"),
        CliOption::number("l2-size", "L2_SIZE", "16384"),
        CliOption::number("l2-block", "L2_BLOCK", "64"),
        CliOption::number("l2-ways", "L2_WAYS", "4"),
        CliOption::number("l2-penalty", "L2_PENALTY", "10"),
        CliOption::choice(
            "rp",
            "RP",
            "Replacement policy for all caches",
            "fifo",
            vec![
                ("fifo", None),
                ("random", None),
                ("plru", Some("Tree-based pseudo-LRU. Requires power-of-two associativity")),
            ],
        ),
        CliOption::choice(
            "wp",
            "WP",
            "Write policy for all caches",
            "wb-wa",
            vec![
                ("wb-wa", Some("Write-back + write-allocate (default)")),
                ("wb-nwa", Some("Write-back + no-write-allocate")),
                ("wt-wa", Some("Write-through + write-allocate")),
                ("wt-nwa", Some("Write-through + no-write-allocate")),
            ],
        ),
        CliOption::choice(
            "prefetcher",
            "PREFETCHER",
            "Hardware prefetcher for all caches",
            "null",
            vec![
                ("null", Some("No prefetching (default)")),
                ("next-line", Some("Stride-1 next-line prefetcher: fetch `addr + block_size` after every demand access")),
            ],
        ),
        CliOption::choice(
            "bp",
            "BP",
            "Branch predictor selected for control-flow instructions",
            "bimodal",
            vec![
                ("dummy", Some("Always predicts not-taken")),
                ("bimodal", Some("Branch target table plus the historical bimodal direction counter")),
            ],
        ),
        CliOption::choice(
            "memory",
            "MEMORY",
            "Backing memory behind the unified L2 cache",
            "simple-mem",
            vec![
                ("simple-mem", Some("Flat-latency main memory")),
                ("dram", Some("Single-bank row-buffer-aware DRAM configured by the `--dram-*` flags")),
            ],
        ),
        CliOption::cycles(
            "dram-trcd",
            "DRAM_TRCD",
            "DRAM row-to-column delay in cycles. Only used with `--memory dram`",
            "4",
        ),
        CliOption::cycles(
            "dram-tcl",
            "DRAM_TCL",
            "DRAM CAS latency in cycles. Only used with `--memory dram`",
            "4",
        ),
        CliOption::cycles(
            "dram-trp",
            "DRAM_TRP",
            "DRAM precharge time in cycles. Only used with `--memory dram`",
            "4",
        ),
        CliOption::path(
            "stats-out",
            "STATS_OUT",
            "Write per-cache statistics to this JSON file. Schema: { \"pipeline\": StatisticInfo, \"l1i\": StatisticInfo, \"l1d\": StatisticInfo, \"l2\": StatisticInfo, \"backing_memory\": ..., \"final_registers\": [...], \"config\": { mirror of CLI args } }",
            None,
        ),
    ];
    let ghost table = option_table();
    assert(options@[RP as int]@.choices =~= table[RP as int].choices);
    assert(options@[WP as int]@.choices =~= table[WP as int].choices);
    assert(options@[PREFETCHER as int]@.choices =~= table[PREFETCHER as int].choices);
    assert(options@[BP as int]@.choices =~= table[BP as int].choices);
    assert(options@[MEMORY as int]@.choices =~= table[MEMORY as int].choices);
    assert(options_view(options@) =~= option_table());
    options
}

/// Only an option that is a choice has names to choose from.
pub(crate) proof fn lemma_only_choices_have_choices(i: int)
    requires
        0 <= i < OPTION_COUNT,
    ensures
        option_table()[i].kind is Choice || option_table()[i].choices.len() == 0,
{
}

/// The position of the option with the name `name`.
spec fn position(name: Seq<char>) -> int {
    if name == "prog"@ {
        PROG as int
    } else if name == "elf-dir"@ {
        ELF_DIR as int
    } else if name == "l1i-size"@ {
        L1I_SIZE as int
    } else if name == "l1i-block"@ {
        L1I_BLOCK as int
    } else if name == "l1i-ways"@ {
        L1I_WAYS as int
    } else if name == "l1i-penalty"@ {
        L1I_PENALTY as int
    } else if name == "l1d-size"@ {
        L1D_SIZE as int
    } else if name == "l1d-block"@ {
        L1D_BLOCK as int
    } else if name == "l1d-ways"@ {
        L1D_WAYS as int
    } else if name == "l1d-penalty"@ {
        L1D_PENALTY as int
    } else if name == "l2-size"@ {
        L2_SIZE as int
    } else if name == "l2-block"@ {
        L2_BLOCK as int
    } else if name == "l2-ways"@ {
        L2_WAYS as int
    } else if name == "l2-penalty"@ {
        L2_PENALTY as int
    } else if name == "rp"@ {
        RP as int
    } else if name == "wp"@ {
        WP as int
    } else if name == "prefetcher"@ {
        PREFETCHER as int
    } else if name == "bp"@ {
        BP as int
    } else if name == "memory"@ {
        MEMORY as int
    } else if name == "dram-trcd"@ {
        DRAM_TRCD as int
    } else if name == "dram-tcl"@ {
        DRAM_TCL as int
    } else if name == "dram-trp"@ {
        DRAM_TRP as int
    } else if name == "stats-out"@ {
        STATS_OUT as int
    } else {
        OPTION_COUNT as int
    }
}

/// Names. No two options have the same name, and no name holds a `=`.
pub proof fn law_option_names_are_distinct(a: int, b: int)
    requires
        0 <= a < OPTION_COUNT,
        0 <= b < OPTION_COUNT,
    ensures
        option_table()[a].name == option_table()[b].name ==> a == b,
        !option_table()[a].name.contains('='),
{
    let table = option_table();
    reveal_strlit("prog");
    reveal_strlit("elf-dir");
    reveal_strlit("l1i-size");
    reveal_strlit("l1i-block");
    reveal_strlit("l1i-ways");
    reveal_strlit("l1i-penalty");
    reveal_strlit("l1d-size");
    reveal_strlit("l1d-block");
    reveal_strlit("l1d-ways");
    reveal_strlit("l1d-penalty");
    reveal_strlit("l2-size");
    reveal_strlit("l2-block");
    reveal_strlit("l2-ways");
    reveal_strlit("l2-penalty");
    reveal_strlit("rp");
    reveal_strlit("wp");
    reveal_strlit("prefetcher");
    reveal_strlit("bp");
    reveal_strlit("memory");
    reveal_strlit("dram-trcd");
    reveal_strlit("dram-tcl");
    reveal_strlit("dram-trp");
    reveal_strlit("stats-out");
    assert("prog"@.len() == 4);
    assert("elf-dir"@.len() == 7 && "elf-dir"@[0] == 'e' && "elf-dir"@[3] == '-');
    assert("l1i-size"@.len() == 8 && "l1i-size"@[0] == 'l' && "l1i-size"@[2] == 'i' && "l1i-size"@[4] == 's' && "l1i-size"@[6] == 'z');
    assert("l1i-block"@.len() == 9 && "l1i-block"@[0] == 'l' && "l1i-block"@[2] == 'i');
    assert("l1i-ways"@.len() == 8 && "l1i-ways"@[0] == 'l' && "l1i-ways"@[2] == 'i' && "l1i-ways"@[4] == 'w' && "l1i-ways"@[6] == 'y');
    assert("l1i-penalty"@.len() == 11 && "l1i-penalty"@[2] == 'i');
    assert("l1d-size"@.len() == 8 && "l1d-size"@[0] == 'l' && "l1d-size"@[2] == 'd' && "l1d-size"@[4] == 's' && "l1d-size"@[6] == 'z');
    assert("l1d-block"@.len() == 9 && "l1d-block"@[0] == 'l' && "l1d-block"@[2] == 'd');
    assert("l1d-ways"@.len() == 8 && "l1d-ways"@[0] == 'l' && "l1d-ways"@[2] == 'd' && "l1d-ways"@[4] == 'w' && "l1d-ways"@[6] == 'y');
    assert("l1d-penalty"@.len() == 11 && "l1d-penalty"@[2] == 'd');
    assert("l2-size"@.len() == 7 && "l2-size"@[0] == 'l' && "l2-size"@[3] == 's');
    assert("l2-block"@.len() == 8 && "l2-block"@[0] == 'l' && "l2-block"@[2] == '-' && "l2-block"@[4] == 'l' && "l2-block"@[6] == 'c');
    assert("l2-ways"@.len() == 7 && "l2-ways"@[0] == 'l' && "l2-ways"@[3] == 'w');
    assert("l2-penalty"@.len() == 10 && "l2-penalty"@[0] == 'l');
    assert("rp"@.len() == 2 && "rp"@[0] == 'r');
    assert("wp"@.len() == 2 && "wp"@[0] == 'w');
    assert("prefetcher"@.len() == 10 && "prefetcher"@[0] == 'p');
    assert("bp"@.len() == 2 && "bp"@[0] == 'b');
    assert("memory"@.len() == 6);
    assert("dram-trcd"@.len() == 9 && "dram-trcd"@[0] == 'd' && "dram-trcd"@[2] == 'a');
    assert("dram-tcl"@.len() == 8 && "dram-tcl"@[0] == 'd' && "dram-tcl"@[2] == 'a' && "dram-tcl"@[4] == '-' && "dram-tcl"@[6] == 'c');
    assert("dram-trp"@.len() == 8 && "dram-trp"@[0] == 'd' && "dram-trp"@[2] == 'a' && "dram-trp"@[4] == '-' && "dram-trp"@[6] == 'r');
    assert("stats-out"@.len() == 9 && "stats-out"@[0] == 's' && "stats-out"@[2] == 'a');
    assert(position(table[a].name) == a);
    assert(position(table[b].name) == b);
}

/// Table. Each option has its name, is shown with that name in capitals for its
/// value, takes its kind of value, and has its default; the program alone has to
/// be given.
pub proof fn law_options_are_these(i: int)
    requires
        0 <= i < OPTION_COUNT,
    ensures
        option_table().len() == 23,
        OPTION_COUNT == 23,
        PROG == 0,
        ELF_DIR == 1,
        L1I_SIZE == 2,
        L1I_BLOCK == 3,
        L1I_WAYS == 4,
        L1I_PENALTY == 5,
        L1D_SIZE == 6,
        L1D_BLOCK == 7,
        L1D_WAYS == 8,
        L1D_PENALTY == 9,
        L2_SIZE == 10,
        L2_BLOCK == 11,
        L2_WAYS == 12,
        L2_PENALTY == 13,
        RP == 14,
        WP == 15,
        PREFETCHER == 16,
        BP == 17,
        MEMORY == 18,
        DRAM_TRCD == 19,
        DRAM_TCL == 20,
        DRAM_TRP == 21,
        STATS_OUT == 22,
        option_table()[i].required <==> i == 0,
        option_table()[PROG as int].name == "prog"@,
        option_table()[PROG as int].value_name == "PROG"@,
        option_table()[PROG as int].kind == ValueKind::Text,
        option_table()[PROG as int].default == None::<Seq<char>>,
        option_table()[ELF_DIR as int].name == "elf-dir"@,
        option_table()[ELF_DIR as int].value_name == "ELF_DIR"@,
        option_table()[ELF_DIR as int].kind == ValueKind::Path,
        option_table()[ELF_DIR as int].default == Some("../target/riscv32im-unknown-none-elf/debug"@),
        option_table()[L1I_SIZE as int].name == "l1i-size"@,
        option_table()[L1I_SIZE as int].value_name == "L1I_SIZE"@,
        option_table()[L1I_SIZE as int].kind == ValueKind::Number,
        option_table()[L1I_SIZE as int].default == Some("2048"@),
        option_table()[L1I_BLOCK as int].name == "l1i-block"@,
        option_table()[L1I_BLOCK as int].value_name == "L1I_BLOCK"@,
        option_table()[L1I_BLOCK as int].kind == ValueKind::Number,
        option_table()[L1I_BLOCK as int].default == Some("32"@),
        option_table()[L1I_WAYS as int].name == "l1i-ways"@,
        option_table()[L1I_WAYS as int].value_name == "L1I_WAYS"@,
        option_table()[L1I_WAYS as int].kind == ValueKind::Number,
        option_table()[L1I_WAYS as int].default == Some("4"@),
        option_table()[L1I_PENALTY as int].name == "l1i-penalty"@,
        option_table()[L1I_PENALTY as int].value_name == "L1I_PENALTY"@,
        option_table()[L1I_PENALTY as int].kind == ValueKind::Number,
        option_table()[L1I_PENALTY as int].default == Some("2"@),
        option_table()[L1D_SIZE as int].name == "l1d-size"@,
        option_table()[L1D_SIZE as int].value_name == "L1D_SIZE"@,
        option_table()[L1D_SIZE as int].kind == ValueKind::Number,
        option_table()[L1D_SIZE as int].default == Some("256"@),
        option_table()[L1D_BLOCK as int].name == "l1d-block"@,
        option_table()[L1D_BLOCK as int].value_name == "L1D_BLOCK"@,
        option_table()[L1D_BLOCK as int].kind == ValueKind::Number,
        option_table()[L1D_BLOCK as int].default == Some("32"@),
        option_table()[L1D_WAYS as int].name == "l1d-ways"@,
        option_table()[L1D_WAYS as int].value_name == "L1D_WAYS"@,
        option_table()[L1D_WAYS as int].kind == ValueKind::Number,
        option_table()[L1D_WAYS as int].default == Some("2"@),
        option_table()[L1D_PENALTY as int].name == "l1d-penalty"@,
        option_table()[L1D_PENALTY as int].value_name == "L1D_PENALTY"@,
        option_table()[L1D_PENALTY as int].kind == ValueKind::Number,
        option_table()[L1D_PENALTY as int].default == Some("2"@),
        option_table()[L2_SIZE as int].name == "l2-size"@,
        option_table()[L2_SIZE as int].value_name == "L2_SIZE"@,
        option_table()[L2_SIZE as int].kind == ValueKind::Number,
        option_table()[L2_SIZE as int].default == Some("16384"@),
        option_table()[L2_BLOCK as int].name == "l2-block"@,
        option_table()[L2_BLOCK as int].value_name == "L2_BLOCK"@,
        option_table()[L2_BLOCK as int].kind == ValueKind::Number,
        option_table()[L2_BLOCK as int].default == Some("64"@),
        option_table()[L2_WAYS as int].name == "l2-ways"@,
        option_table()[L2_WAYS as int].value_name == "L2_WAYS"@,
        option_table()[L2_WAYS as int].kind == ValueKind::Number,
        option_table()[L2_WAYS as int].default == Some("4"@),
        option_table()[L2_PENALTY as int].name == "l2-penalty"@,
        option_table()[L2_PENALTY as int].value_name == "L2_PENALTY"@,
        option_table()[L2_PENALTY as int].kind == ValueKind::Number,
        option_table()[L2_PENALTY as int].default == Some("10"@),
        option_table()[RP as int].name == "rp"@,
        option_table()[RP as int].value_name == "RP"@,
        option_table()[RP as int].kind == ValueKind::Choice,
        option_table()[RP as int].default == Some("fifo"@),
        option_table()[WP as int].name == "wp"@,
        option_table()[WP as int].value_name == "WP"@,
        option_table()[WP as int].kind == ValueKind::Choice,
        option_table()[WP as int].default == Some("wb-wa"@),
        option_table()[PREFETCHER as int].name == "prefetcher"@,
        option_table()[PREFETCHER as int].value_name == "PREFETCHER"@,
        option_table()[PREFETCHER as int].kind == ValueKind::Choice,
        option_table()[PREFETCHER as int].default == Some("null"@),
        option_table()[BP as int].name == "bp"@,
        option_table()[BP as int].value_name == "BP"@,
        option_table()[BP as int].kind == ValueKind::Choice,
        option_table()[BP as int].default == Some("bimodal"@),
        option_table()[MEMORY as int].name == "memory"@,
        option_table()[MEMORY as int].value_name == "MEMORY"@,
        option_table()[MEMORY as int].kind == ValueKind::Choice,
        option_table()[MEMORY as int].default == Some("simple-mem"@),
        option_table()[DRAM_TRCD as int].name == "dram-trcd"@,
        option_table()[DRAM_TRCD as int].value_name == "DRAM_TRCD"@,
        option_table()[DRAM_TRCD as int].kind == ValueKind::Cycles,
        option_table()[DRAM_TRCD as int].default == Some("4"@),
        option_table()[DRAM_TCL as int].name == "dram-tcl"@,
        option_table()[DRAM_TCL as int].value_name == "DRAM_TCL"@,
        option_table()[DRAM_TCL as int].kind == ValueKind::Cycles,
        option_table()[DRAM_TCL as int].default == Some("4"@),
        option_table()[DRAM_TRP as int].name == "dram-trp"@,
        option_table()[DRAM_TRP as int].value_name == "DRAM_TRP"@,
        option_table()[DRAM_TRP as int].kind == ValueKind::Cycles,
        option_table()[DRAM_TRP as int].default == Some("4"@),
        option_table()[STATS_OUT as int].name == "stats-out"@,
        option_table()[STATS_OUT as int].value_name == "STATS_OUT"@,
        option_table()[STATS_OUT as int].kind == ValueKind::Path,
        option_table()[STATS_OUT as int].default == None::<Seq<char>>,
{
}

/// Explanations. Each option and each name to choose from is explained in these
/// words; the numbers of the caches, and the names fifo and random, are not.
pub proof fn law_options_are_explained(i: int)
    ensures
        L1I_SIZE <= i <= L2_PENALTY ==> option_table()[i].help is None,
        option_table()[PROG as int].help == Some(
            "Name of the runtime binary to run (e.g. \"matmul\", \"qsort\", \"hello\"). Looked up relative to `--elf-dir`"@,
        ),
        option_table()[ELF_DIR as int].help == Some(
            "Directory containing pre-built RISC-V ELF binaries"@,
        ),
        option_table()[RP as int].help == Some(
            "Replacement policy for all caches"@,
        ),
        option_table()[RP as int].choices[0] == ("fifo"@, None::<Seq<char>>),
        option_table()[RP as int].choices[1] == ("random"@, None::<Seq<char>>),
        option_table()[RP as int].choices[2] == ("plru"@, Some("Tree-based pseudo-LRU. Requires power-of-two associativity"@)),
        option_table()[WP as int].help == Some(
            "Write policy for all caches"@,
        ),
        option_table()[WP as int].choices[0] == ("wb-wa"@, Some("Write-back + write-allocate (default)"@)),
        option_table()[WP as int].choices[1] == ("wb-nwa"@, Some("Write-back + no-write-allocate"@)),
        option_table()[WP as int].choices[2] == ("wt-wa"@, Some("Write-through + write-allocate"@)),
        option_table()[WP as int].choices[3] == ("wt-nwa"@, Some("Write-through + no-write-allocate"@)),
        option_table()[PREFETCHER as int].help == Some(
            "Hardware prefetcher for all caches"@,
        ),
        option_table()[PREFETCHER as int].choices[0] == ("null"@, Some("No prefetching (default)"@)),
        option_table()[PREFETCHER as int].choices[1] == ("next-line"@, Some("Stride-1 next-line prefetcher: fetch `addr + block_size` after every demand access"@)),
        option_table()[BP as int].help == Some(
            "Branch predictor selected for control-flow instructions"@,
        ),
        option_table()[BP as int].choices[0] == ("dummy"@, Some("Always predicts not-taken"@)),
        option_table()[BP as int].choices[1] == ("bimodal"@, Some("Branch target table plus the historical bimodal direction counter"@)),
        option_table()[MEMORY as int].help == Some(
            "Backing memory behind the unified L2 cache"@,
        ),
        option_table()[MEMORY as int].choices[0] == ("simple-mem"@, Some("Flat-latency main memory"@)),
        option_table()[MEMORY as int].choices[1] == ("dram"@, Some("Single-bank row-buffer-aware DRAM configured by the `--dram-*` flags"@)),
        option_table()[DRAM_TRCD as int].help == Some(
            "DRAM row-to-column delay in cycles. Only used with `--memory dram`"@,
        ),
        option_table()[DRAM_TCL as int].help == Some(
            "DRAM CAS latency in cycles. Only used with `--memory dram`"@,
        ),
        option_table()[DRAM_TRP as int].help == Some(
            "DRAM precharge time in cycles. Only used with `--memory dram`"@,
        ),
        option_table()[STATS_OUT as int].help == Some(
            "Write per-cache statistics to this JSON file. Schema: { \"pipeline\": StatisticInfo, \"l1i\": StatisticInfo, \"l1d\": StatisticInfo, \"l2\": StatisticInfo, \"backing_memory\": ..., \"final_registers\": [...], \"config\": { mirror of CLI args } }"@,
        ),
{
}

/// Acceptance. A text is accepted according to the kind of the option: any text,
/// a text that is not empty, one that denotes a number, one that denotes a number
/// other than zero, or one of the names to choose from.
pub proof fn law_option_accepts_its_kind(option: CliOptionView, text: Seq<char>)
    ensures
        option.kind == ValueKind::Text ==> option.accepts(text),
        option.kind == ValueKind::Path ==> (option.accepts(text) <==> text.len() > 0),
        option.kind == ValueKind::Number ==> (option.accepts(text) <==> crate::number::usize_value(
            text,
        ) is Some),
        option.kind == ValueKind::Cycles ==> (option.accepts(text) <==> (crate::number::usize_value(
            text,
        ) matches Some(n) && n > 0)),
        option.kind == ValueKind::Choice ==> (option.accepts(text) <==> exists|k: int|
            0 <= k < option.choices.len() && (#[trigger] option.choices[k]).0 == text),
{
}

/// Choices. What the five choices accept are these names and no other text.
pub proof fn law_choices_are_these(text: Seq<char>)
    ensures
        option_table()[RP as int].accepts(text) <==> text == "fifo"@ || text == "random"@ || text == "plru"@,
        option_table()[RP as int].choices.len() == 3,
        option_table()[WP as int].accepts(text) <==> text == "wb-wa"@ || text == "wb-nwa"@ || text == "wt-wa"@ || text == "wt-nwa"@,
        option_table()[WP as int].choices.len() == 4,
        option_table()[PREFETCHER as int].accepts(text) <==> text == "null"@ || text == "next-line"@,
        option_table()[PREFETCHER as int].choices.len() == 2,
        option_table()[BP as int].accepts(text) <==> text == "dummy"@ || text == "bimodal"@,
        option_table()[BP as int].choices.len() == 2,
        option_table()[MEMORY as int].accepts(text) <==> text == "simple-mem"@ || text == "dram"@,
        option_table()[MEMORY as int].choices.len() == 2,
{
    let table = option_table();
    assert(table[RP as int].choices[0].0 == "fifo"@);
    assert(table[RP as int].choices[1].0 == "random"@);
    assert(table[RP as int].choices[2].0 == "plru"@);
    assert(table[WP as int].choices[0].0 == "wb-wa"@);
    assert(table[WP as int].choices[1].0 == "wb-nwa"@);
    assert(table[WP as int].choices[2].0 == "wt-wa"@);
    assert(table[WP as int].choices[3].0 == "wt-nwa"@);
    assert(table[PREFETCHER as int].choices[0].0 == "null"@);
    assert(table[PREFETCHER as int].choices[1].0 == "next-line"@);
    assert(table[BP as int].choices[0].0 == "dummy"@);
    assert(table[BP as int].choices[1].0 == "bimodal"@);
    assert(table[MEMORY as int].choices[0].0 == "simple-mem"@);
    assert(table[MEMORY as int].choices[1].0 == "dram"@);
}

/// The view of an option has each of its fields, and the view of a list each of
/// its options.
pub proof fn law_option_view_shows_every_field(options: Seq<CliOption>, i: int, k: int)
    requires
        0 <= i < options.len(),
    ensures
        options_view(options).len() == options.len(),
        options_view(options)[i] == options[i]@,
        options[i]@.name == options[i].name@,
        options[i]@.value_name == options[i].value_name@,
        options[i]@.required == options[i].required,
        options[i]@.kind == options[i].kind,
        options[i].help is None <==> options[i]@.help is None,
        options[i].help matches Some(help) ==> options[i]@.help == Some(help@),
        options[i].default is None <==> options[i]@.default is None,
        options[i].default matches Some(default) ==> options[i]@.default == Some(default@),
        options[i]@.choices.len() == options[i].choices@.len(),
        0 <= k < options[i].choices@.len() ==> options[i]@.choices[k].0
            == options[i].choices@[k].0@,
{
}

} // verus!
