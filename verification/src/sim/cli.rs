//! Command line of the simulator.

use vstd::prelude::*;
use vstd::string::StringExecFns;

use crate::hardware::mem::general_cache::prefetcher::PrefetcherKind;
use crate::hardware::mem::general_cache::write_policy::WritePolicy;
use crate::hardware::mem::simple_dram::DramTiming;
use crate::number::parse_usize;
use crate::sim::runner::{
    BackingMemoryKind, BranchPredictorKind, CacheLevelConfig, ReplacementPolicyKind,
    SimulationConfig,
};

verus! {

/// Replacement policy, as chosen on the command line.
#[derive(Clone, Copy, Debug, PartialEq, Eq, Structural)]
pub enum ReplacementPolicyArg {
    Fifo,
    Random,
    /// Tree-based pseudo-LRU. Requires power-of-two associativity.
    Plru,
}

/// Write policy, as chosen on the command line.
#[derive(Clone, Copy, Debug, PartialEq, Eq, Structural)]
pub enum WritePolicyArg {
    /// Write-back + write-allocate (default).
    WbWa,
    /// Write-back + no-write-allocate.
    WbNwa,
    /// Write-through + write-allocate.
    WtWa,
    /// Write-through + no-write-allocate.
    WtNwa,
}

/// Prefetcher, as chosen on the command line.
#[derive(Clone, Copy, Debug, PartialEq, Eq, Structural)]
pub enum PrefetcherArg {
    /// No prefetching (default).
    Null,
    /// Fetch the block after the one accessed, on every demand access.
    NextLine,
}

/// Branch predictor, as chosen on the command line.
#[derive(Clone, Copy, Debug, PartialEq, Eq, Structural)]
pub enum BranchPredictorArg {
    /// Always predicts not-taken.
    Dummy,
    /// Branch target table plus a bimodal direction counter.
    Bimodal,
}

/// Backing memory, as chosen on the command line.
#[derive(Clone, Copy, Debug, PartialEq, Eq, Structural)]
pub enum BackingMemoryArg {
    /// Flat-latency main memory.
    SimpleMem,
    /// Single-bank row-buffer-aware DRAM configured by the `--dram-*` options.
    Dram,
}

impl ReplacementPolicyArg {
    /// The policy that is meant.
    pub open spec fn kind(self) -> ReplacementPolicyKind {
        match self {
            ReplacementPolicyArg::Fifo => ReplacementPolicyKind::Fifo,
            ReplacementPolicyArg::Random => ReplacementPolicyKind::Random,
            ReplacementPolicyArg::Plru => ReplacementPolicyKind::Plru,
        }
    }

    /// The policy with the given name.
    pub open spec fn named(name: Seq<char>) -> Option<Self> {
        if name == "fifo"@ {
            Some(ReplacementPolicyArg::Fifo)
        } else if name == "random"@ {
            Some(ReplacementPolicyArg::Random)
        } else if name == "plru"@ {
            Some(ReplacementPolicyArg::Plru)
        } else {
            None
        }
    }

    /// The policy with the given name.
    pub(crate) fn from_name(name: &String) -> (arg: Option<Self>)
        ensures
            arg == Self::named(name@),
    {
        if *name == "fifo".to_owned() {
            Some(ReplacementPolicyArg::Fifo)
        } else if *name == "random".to_owned() {
            Some(ReplacementPolicyArg::Random)
        } else if *name == "plru".to_owned() {
            Some(ReplacementPolicyArg::Plru)
        } else {
            None
        }
    }
}

impl From<ReplacementPolicyArg> for ReplacementPolicyKind {
    fn from(arg: ReplacementPolicyArg) -> (kind: Self)
        ensures
            arg == ReplacementPolicyArg::Fifo <==> kind == ReplacementPolicyKind::Fifo,
            arg == ReplacementPolicyArg::Random <==> kind == ReplacementPolicyKind::Random,
            arg == ReplacementPolicyArg::Plru <==> kind == ReplacementPolicyKind::Plru,
    {
        match arg {
            ReplacementPolicyArg::Fifo => ReplacementPolicyKind::Fifo,
            ReplacementPolicyArg::Random => ReplacementPolicyKind::Random,
            ReplacementPolicyArg::Plru => ReplacementPolicyKind::Plru,
        }
    }
}

impl vstd::std_specs::convert::FromSpecImpl<ReplacementPolicyArg> for ReplacementPolicyKind {
    open spec fn obeys_from_spec() -> bool {
        true
    }

    open spec fn from_spec(arg: ReplacementPolicyArg) -> Self {
        arg.kind()
    }
}

impl WritePolicyArg {
    /// The policy that is meant.
    pub open spec fn kind(self) -> WritePolicy {
        match self {
            WritePolicyArg::WbWa => WritePolicy::WriteBackWriteAllocate,
            WritePolicyArg::WbNwa => WritePolicy::WriteBackNoWriteAllocate,
            WritePolicyArg::WtWa => WritePolicy::WriteThroughWriteAllocate,
            WritePolicyArg::WtNwa => WritePolicy::WriteThroughNoWriteAllocate,
        }
    }

    /// The policy with the given name.
    pub open spec fn named(name: Seq<char>) -> Option<Self> {
        if name == "wb-wa"@ {
            Some(WritePolicyArg::WbWa)
        } else if name == "wb-nwa"@ {
            Some(WritePolicyArg::WbNwa)
        } else if name == "wt-wa"@ {
            Some(WritePolicyArg::WtWa)
        } else if name == "wt-nwa"@ {
            Some(WritePolicyArg::WtNwa)
        } else {
            None
        }
    }

    /// The policy with the given name.
    pub(crate) fn from_name(name: &String) -> (arg: Option<Self>)
        ensures
            arg == Self::named(name@),
    {
        if *name == "wb-wa".to_owned() {
            Some(WritePolicyArg::WbWa)
        } else if *name == "wb-nwa".to_owned() {
            Some(WritePolicyArg::WbNwa)
        } else if *name == "wt-wa".to_owned() {
            Some(WritePolicyArg::WtWa)
        } else if *name == "wt-nwa".to_owned() {
            Some(WritePolicyArg::WtNwa)
        } else {
            None
        }
    }
}

impl From<WritePolicyArg> for WritePolicy {
    fn from(arg: WritePolicyArg) -> (policy: Self)
        ensures
            arg == WritePolicyArg::WbWa <==> policy == WritePolicy::WriteBackWriteAllocate,
            arg == WritePolicyArg::WbNwa <==> policy == WritePolicy::WriteBackNoWriteAllocate,
            arg == WritePolicyArg::WtWa <==> policy == WritePolicy::WriteThroughWriteAllocate,
            arg == WritePolicyArg::WtNwa <==> policy == WritePolicy::WriteThroughNoWriteAllocate,
    {
        match arg {
            WritePolicyArg::WbWa => WritePolicy::WriteBackWriteAllocate,
            WritePolicyArg::WbNwa => WritePolicy::WriteBackNoWriteAllocate,
            WritePolicyArg::WtWa => WritePolicy::WriteThroughWriteAllocate,
            WritePolicyArg::WtNwa => WritePolicy::WriteThroughNoWriteAllocate,
        }
    }
}

impl vstd::std_specs::convert::FromSpecImpl<WritePolicyArg> for WritePolicy {
    open spec fn obeys_from_spec() -> bool {
        true
    }

    open spec fn from_spec(arg: WritePolicyArg) -> Self {
        arg.kind()
    }
}

impl PrefetcherArg {
    /// The prefetcher that is meant.
    pub open spec fn kind(self) -> PrefetcherKind {
        match self {
            PrefetcherArg::Null => PrefetcherKind::Null,
            PrefetcherArg::NextLine => PrefetcherKind::NextLine,
        }
    }

    /// The prefetcher with the given name.
    pub open spec fn named(name: Seq<char>) -> Option<Self> {
        if name == "null"@ {
            Some(PrefetcherArg::Null)
        } else if name == "next-line"@ {
            Some(PrefetcherArg::NextLine)
        } else {
            None
        }
    }

    /// The prefetcher with the given name.
    pub(crate) fn from_name(name: &String) -> (arg: Option<Self>)
        ensures
            arg == Self::named(name@),
    {
        if *name == "null".to_owned() {
            Some(PrefetcherArg::Null)
        } else if *name == "next-line".to_owned() {
            Some(PrefetcherArg::NextLine)
        } else {
            None
        }
    }
}

impl From<PrefetcherArg> for PrefetcherKind {
    fn from(arg: PrefetcherArg) -> (kind: Self)
        ensures
            arg == PrefetcherArg::Null <==> kind == PrefetcherKind::Null,
            arg == PrefetcherArg::NextLine <==> kind == PrefetcherKind::NextLine,
    {
        match arg {
            PrefetcherArg::Null => PrefetcherKind::Null,
            PrefetcherArg::NextLine => PrefetcherKind::NextLine,
        }
    }
}

impl vstd::std_specs::convert::FromSpecImpl<PrefetcherArg> for PrefetcherKind {
    open spec fn obeys_from_spec() -> bool {
        true
    }

    open spec fn from_spec(arg: PrefetcherArg) -> Self {
        arg.kind()
    }
}

impl BranchPredictorArg {
    /// The predictor that is meant.
    pub open spec fn kind(self) -> BranchPredictorKind {
        match self {
            BranchPredictorArg::Dummy => BranchPredictorKind::Dummy,
            BranchPredictorArg::Bimodal => BranchPredictorKind::Bimodal,
        }
    }

    /// The predictor with the given name.
    pub open spec fn named(name: Seq<char>) -> Option<Self> {
        if name == "dummy"@ {
            Some(BranchPredictorArg::Dummy)
        } else if name == "bimodal"@ {
            Some(BranchPredictorArg::Bimodal)
        } else {
            None
        }
    }

    /// The predictor with the given name.
    pub(crate) fn from_name(name: &String) -> (arg: Option<Self>)
        ensures
            arg == Self::named(name@),
    {
        if *name == "dummy".to_owned() {
            Some(BranchPredictorArg::Dummy)
        } else if *name == "bimodal".to_owned() {
            Some(BranchPredictorArg::Bimodal)
        } else {
            None
        }
    }
}

impl From<BranchPredictorArg> for BranchPredictorKind {
    fn from(arg: BranchPredictorArg) -> (kind: Self)
        ensures
            arg == BranchPredictorArg::Dummy <==> kind == BranchPredictorKind::Dummy,
            arg == BranchPredictorArg::Bimodal <==> kind == BranchPredictorKind::Bimodal,
    {
        match arg {
            BranchPredictorArg::Dummy => BranchPredictorKind::Dummy,
            BranchPredictorArg::Bimodal => BranchPredictorKind::Bimodal,
        }
    }
}

impl vstd::std_specs::convert::FromSpecImpl<BranchPredictorArg> for BranchPredictorKind {
    open spec fn obeys_from_spec() -> bool {
        true
    }

    open spec fn from_spec(arg: BranchPredictorArg) -> Self {
        arg.kind()
    }
}

impl BackingMemoryArg {
    /// The memory with the given name.
    pub open spec fn named(name: Seq<char>) -> Option<Self> {
        if name == "simple-mem"@ {
            Some(BackingMemoryArg::SimpleMem)
        } else if name == "dram"@ {
            Some(BackingMemoryArg::Dram)
        } else {
            None
        }
    }

    /// The memory with the given name.
    pub(crate) fn from_name(name: &String) -> (arg: Option<Self>)
        ensures
            arg == Self::named(name@),
    {
        if *name == "simple-mem".to_owned() {
            Some(BackingMemoryArg::SimpleMem)
        } else if *name == "dram".to_owned() {
            Some(BackingMemoryArg::Dram)
        } else {
            None
        }
    }
}

/// What the command line chooses. Paths are kept as text.
#[derive(Clone, Debug)]
pub struct Args {
    /// Name of the program to run, looked up in `elf_dir`.
    pub prog: String,
    /// Directory with the program files.
    pub elf_dir: String,
    pub l1i_size: usize,
    pub l1i_block: usize,
    pub l1i_ways: usize,
    pub l1i_penalty: usize,
    pub l1d_size: usize,
    pub l1d_block: usize,
    pub l1d_ways: usize,
    pub l1d_penalty: usize,
    pub l2_size: usize,
    pub l2_block: usize,
    pub l2_ways: usize,
    pub l2_penalty: usize,
    /// Replacement policy for all caches.
    pub rp: ReplacementPolicyArg,
    /// Write policy for all caches.
    pub wp: WritePolicyArg,
    /// Hardware prefetcher for all caches.
    pub prefetcher: PrefetcherArg,
    /// Branch predictor for control-flow instructions.
    pub bp: BranchPredictorArg,
    /// Backing memory behind the unified L2 cache.
    pub memory: BackingMemoryArg,
    /// DRAM row-to-column delay in cycles. Only used with a DRAM.
    pub dram_trcd: usize,
    /// DRAM CAS latency in cycles. Only used with a DRAM.
    pub dram_tcl: usize,
    /// DRAM precharge time in cycles. Only used with a DRAM.
    pub dram_trp: usize,
    /// File for the statistics, in JSON.
    pub stats_out: Option<String>,
}

impl Args {
    /// The backing memory that is chosen. The DRAM timing plays no part for
    /// any other memory.
    pub open spec fn memory_kind(self) -> BackingMemoryKind {
        match self.memory {
            BackingMemoryArg::SimpleMem => BackingMemoryKind::SimpleMem,
            BackingMemoryArg::Dram => BackingMemoryKind::SimpleDram {
                timing: DramTiming {
                    t_rcd: self.dram_trcd,
                    t_cl: self.dram_tcl,
                    t_rp: self.dram_trp,
                },
            },
        }
    }

    /// The machine that is chosen.
    pub open spec fn config(self) -> SimulationConfig {
        SimulationConfig {
            l1i: CacheLevelConfig {
                total_size: self.l1i_size,
                block_size: self.l1i_block,
                num_of_way: self.l1i_ways,
                miss_penalty: self.l1i_penalty,
            },
            l1d: CacheLevelConfig {
                total_size: self.l1d_size,
                block_size: self.l1d_block,
                num_of_way: self.l1d_ways,
                miss_penalty: self.l1d_penalty,
            },
            l2: CacheLevelConfig {
                total_size: self.l2_size,
                block_size: self.l2_block,
                num_of_way: self.l2_ways,
                miss_penalty: self.l2_penalty,
            },
            replacement_policy: self.rp.kind(),
            write_policy: self.wp.kind(),
            prefetcher_kind: self.prefetcher.kind(),
            backing_memory: self.memory_kind(),
            branch_predictor: self.bp.kind(),
        }
    }

    /// Builds the backing-memory configuration. The DRAM timing options are
    /// ignored for `simple-mem`.
    pub fn backing_memory_kind(&self) -> (kind: BackingMemoryKind)
        ensures
            kind == self.memory_kind(),
            match (self.memory, kind) {
                (BackingMemoryArg::SimpleMem, BackingMemoryKind::SimpleMem) => true,
                (BackingMemoryArg::Dram, BackingMemoryKind::SimpleDram { timing }) => {
                    &&& timing.t_rcd == self.dram_trcd
                    &&& timing.t_cl == self.dram_tcl
                    &&& timing.t_rp == self.dram_trp
                },
                _ => false,
            },
    {
        match self.memory {
            BackingMemoryArg::SimpleMem => BackingMemoryKind::SimpleMem,
            BackingMemoryArg::Dram => BackingMemoryKind::SimpleDram {
                timing: DramTiming {
                    t_rcd: self.dram_trcd,
                    t_cl: self.dram_tcl,
                    t_rp: self.dram_trp,
                },
            },
        }
    }
}

/// The machine that the arguments choose.
pub fn simulation_config(args: &Args) -> (config: SimulationConfig)
    ensures
        config == args.config(),
{
    SimulationConfig {
        l1i: CacheLevelConfig::new(args.l1i_size, args.l1i_block, args.l1i_ways, args.l1i_penalty),
        l1d: CacheLevelConfig::new(args.l1d_size, args.l1d_block, args.l1d_ways, args.l1d_penalty),
        l2: CacheLevelConfig::new(args.l2_size, args.l2_block, args.l2_ways, args.l2_penalty),
        replacement_policy: ReplacementPolicyKind::from(args.rp),
        write_policy: WritePolicy::from(args.wp),
        prefetcher_kind: PrefetcherKind::from(args.prefetcher),
        backing_memory: args.backing_memory_kind(),
        branch_predictor: BranchPredictorKind::from(args.bp),
    }
}

/// `text` in quotes, with escapes, as `{:?}` writes it.
pub uninterp spec fn quoted(text: Seq<char>) -> Seq<char>;

/// Whether `text` is made of printable ASCII characters other than the double
/// quote and the backslash.
pub open spec fn needs_no_escape(text: Seq<char>) -> bool {
    forall|i: int|
        0 <= i < text.len() ==> ' ' <= #[trigger] text[i] <= '~' && text[i] != '"' && text[i]
            != '\\'
}

/// The `{:?}` form of a string slice. The contract names the result of the
/// `Debug` implementation of `str`, a function of the text alone, and says that
/// a text which needs no escape stands between two double quotes as it is. How
/// other characters are escaped is left unsaid.
#[verifier::external_body]
fn quote(text: &str) -> (res: String)
    ensures
        res@ == quoted(text@),
        needs_no_escape(text@) ==> res@ == "\""@ + text@ + "\""@,
{
    format!("{:?}", text)
}

/// A positive number of cycles, or why `text` is none.
pub open spec fn positive_value(text: Seq<char>) -> Result<usize, Seq<char>> {
    match crate::number::usize_value(text) {
        None => Err("expected a positive integer, got "@ + quoted(text)),
        Some(n) => if n == 0 {
            Err("DRAM timing must be at least 1 cycle"@)
        } else {
            Ok(n)
        },
    }
}

/// Reads a number of cycles, which is at least 1.
pub fn parse_positive_usize(value: &str) -> (res: Result<usize, String>)
    ensures
        match res {
            Ok(n) => positive_value(value@) == Ok::<usize, Seq<char>>(n),
            Err(message) => positive_value(value@) == Err::<usize, Seq<char>>(message@),
        },
        match crate::number::usize_value(value@) {
            Some(n) => if n >= 1 {
                res == Ok::<usize, String>(n)
            } else {
                res matches Err(message) && message@ == "DRAM timing must be at least 1 cycle"@
            },
            None => res matches Err(message) && message@ == "expected a positive integer, got "@
                + quoted(value@),
        },
        crate::number::usize_value(value@) is None && needs_no_escape(value@) ==> (res matches Err(
            message,
        ) && message@ == "expected a positive integer, got "@ + ("\""@ + value@ + "\""@)),
{
    match parse_usize(value) {
        None => {
            let mut message = "expected a positive integer, got ".to_owned();
            message.append(quote(value).as_str());
            Err(message)
        },
        Some(parsed) => if parsed == 0 {
            Err("DRAM timing must be at least 1 cycle".to_owned())
        } else {
            Ok(parsed)
        },
    }
}

/// Replacement policies. Each has its own name and no other text names one; each stands for the
/// one of that name.
pub proof fn law_replacement_policy_names(name: Seq<char>)
    ensures
        ReplacementPolicyArg::named("fifo"@) == Some(ReplacementPolicyArg::Fifo),
        ReplacementPolicyArg::named("random"@) == Some(ReplacementPolicyArg::Random),
        ReplacementPolicyArg::named("plru"@) == Some(ReplacementPolicyArg::Plru),
        ReplacementPolicyArg::named(name) == Some(ReplacementPolicyArg::Fifo) <==> name == "fifo"@,
        ReplacementPolicyArg::named(name) == Some(ReplacementPolicyArg::Random) <==> name == "random"@,
        ReplacementPolicyArg::named(name) == Some(ReplacementPolicyArg::Plru) <==> name == "plru"@,
        ReplacementPolicyArg::Fifo.kind() == ReplacementPolicyKind::Fifo,
        ReplacementPolicyArg::Random.kind() == ReplacementPolicyKind::Random,
        ReplacementPolicyArg::Plru.kind() == ReplacementPolicyKind::Plru,
{
    reveal_strlit("fifo");
    reveal_strlit("random");
    reveal_strlit("plru");
    assert("fifo"@.len() == 4 && "fifo"@[0] == 'f');
    assert("random"@.len() == 6 && "random"@[0] == 'r');
    assert("plru"@.len() == 4 && "plru"@[0] == 'p');
}

/// Write policies. Each has its own name and no other text names one; each stands for the
/// one of that name.
pub proof fn law_write_policy_names(name: Seq<char>)
    ensures
        WritePolicyArg::named("wb-wa"@) == Some(WritePolicyArg::WbWa),
        WritePolicyArg::named("wb-nwa"@) == Some(WritePolicyArg::WbNwa),
        WritePolicyArg::named("wt-wa"@) == Some(WritePolicyArg::WtWa),
        WritePolicyArg::named("wt-nwa"@) == Some(WritePolicyArg::WtNwa),
        WritePolicyArg::named(name) == Some(WritePolicyArg::WbWa) <==> name == "wb-wa"@,
        WritePolicyArg::named(name) == Some(WritePolicyArg::WbNwa) <==> name == "wb-nwa"@,
        WritePolicyArg::named(name) == Some(WritePolicyArg::WtWa) <==> name == "wt-wa"@,
        WritePolicyArg::named(name) == Some(WritePolicyArg::WtNwa) <==> name == "wt-nwa"@,
        WritePolicyArg::WbWa.kind() == WritePolicy::WriteBackWriteAllocate,
        WritePolicyArg::WbNwa.kind() == WritePolicy::WriteBackNoWriteAllocate,
        WritePolicyArg::WtWa.kind() == WritePolicy::WriteThroughWriteAllocate,
        WritePolicyArg::WtNwa.kind() == WritePolicy::WriteThroughNoWriteAllocate,
{
    reveal_strlit("wb-wa");
    reveal_strlit("wb-nwa");
    reveal_strlit("wt-wa");
    reveal_strlit("wt-nwa");
    assert("wb-wa"@.len() == 5 && "wb-wa"@[1] == 'b');
    assert("wb-nwa"@.len() == 6 && "wb-nwa"@[1] == 'b');
    assert("wt-wa"@.len() == 5 && "wt-wa"@[1] == 't');
    assert("wt-nwa"@.len() == 6 && "wt-nwa"@[1] == 't');
}

/// Prefetchers. Each has its own name and no other text names one; each stands for the
/// one of that name.
pub proof fn law_prefetcher_names(name: Seq<char>)
    ensures
        PrefetcherArg::named("null"@) == Some(PrefetcherArg::Null),
        PrefetcherArg::named("next-line"@) == Some(PrefetcherArg::NextLine),
        PrefetcherArg::named(name) == Some(PrefetcherArg::Null) <==> name == "null"@,
        PrefetcherArg::named(name) == Some(PrefetcherArg::NextLine) <==> name == "next-line"@,
        PrefetcherArg::Null.kind() == PrefetcherKind::Null,
        PrefetcherArg::NextLine.kind() == PrefetcherKind::NextLine,
{
    reveal_strlit("null");
    reveal_strlit("next-line");
    assert("null"@.len() == 4);
    assert("next-line"@.len() == 9);
}

/// Branch predictors. Each has its own name and no other text names one; each stands for the
/// one of that name.
pub proof fn law_branch_predictor_names(name: Seq<char>)
    ensures
        BranchPredictorArg::named("dummy"@) == Some(BranchPredictorArg::Dummy),
        BranchPredictorArg::named("bimodal"@) == Some(BranchPredictorArg::Bimodal),
        BranchPredictorArg::named(name) == Some(BranchPredictorArg::Dummy) <==> name == "dummy"@,
        BranchPredictorArg::named(name) == Some(BranchPredictorArg::Bimodal) <==> name == "bimodal"@,
        BranchPredictorArg::Dummy.kind() == BranchPredictorKind::Dummy,
        BranchPredictorArg::Bimodal.kind() == BranchPredictorKind::Bimodal,
{
    reveal_strlit("dummy");
    reveal_strlit("bimodal");
    assert("dummy"@.len() == 5);
    assert("bimodal"@.len() == 7);
}

/// Backing memories. Each has its own name and no other text names one.
pub proof fn law_backing_memory_names(name: Seq<char>)
    ensures
        BackingMemoryArg::named("simple-mem"@) == Some(BackingMemoryArg::SimpleMem),
        BackingMemoryArg::named("dram"@) == Some(BackingMemoryArg::Dram),
        BackingMemoryArg::named(name) == Some(BackingMemoryArg::SimpleMem) <==> name == "simple-mem"@,
        BackingMemoryArg::named(name) == Some(BackingMemoryArg::Dram) <==> name == "dram"@,
{
    reveal_strlit("simple-mem");
    reveal_strlit("dram");
    assert("simple-mem"@.len() == 10);
    assert("dram"@.len() == 4);
}

/// Machine. The configuration of some arguments has, level by level, the numbers
/// of the arguments, and the policies, the predictor and the memory that they
/// name.
pub proof fn law_arguments_describe_the_machine(args: Args)
    ensures
        args.config().l1i == (CacheLevelConfig {
            total_size: args.l1i_size,
            block_size: args.l1i_block,
            num_of_way: args.l1i_ways,
            miss_penalty: args.l1i_penalty,
        }),
        args.config().l1d == (CacheLevelConfig {
            total_size: args.l1d_size,
            block_size: args.l1d_block,
            num_of_way: args.l1d_ways,
            miss_penalty: args.l1d_penalty,
        }),
        args.config().l2 == (CacheLevelConfig {
            total_size: args.l2_size,
            block_size: args.l2_block,
            num_of_way: args.l2_ways,
            miss_penalty: args.l2_penalty,
        }),
        args.rp == ReplacementPolicyArg::Fifo <==> args.config().replacement_policy == ReplacementPolicyKind::Fifo,
        args.rp == ReplacementPolicyArg::Random <==> args.config().replacement_policy == ReplacementPolicyKind::Random,
        args.rp == ReplacementPolicyArg::Plru <==> args.config().replacement_policy == ReplacementPolicyKind::Plru,
        args.wp == WritePolicyArg::WbWa <==> args.config().write_policy == WritePolicy::WriteBackWriteAllocate,
        args.wp == WritePolicyArg::WbNwa <==> args.config().write_policy == WritePolicy::WriteBackNoWriteAllocate,
        args.wp == WritePolicyArg::WtWa <==> args.config().write_policy == WritePolicy::WriteThroughWriteAllocate,
        args.wp == WritePolicyArg::WtNwa <==> args.config().write_policy == WritePolicy::WriteThroughNoWriteAllocate,
        args.prefetcher == PrefetcherArg::Null <==> args.config().prefetcher_kind == PrefetcherKind::Null,
        args.prefetcher == PrefetcherArg::NextLine <==> args.config().prefetcher_kind == PrefetcherKind::NextLine,
        args.bp == BranchPredictorArg::Dummy <==> args.config().branch_predictor == BranchPredictorKind::Dummy,
        args.bp == BranchPredictorArg::Bimodal <==> args.config().branch_predictor == BranchPredictorKind::Bimodal,
        args.memory == BackingMemoryArg::SimpleMem ==> args.config().backing_memory
            == BackingMemoryKind::SimpleMem,
        args.memory == BackingMemoryArg::Dram ==> args.config().backing_memory == (
        BackingMemoryKind::SimpleDram {
            timing: DramTiming {
                t_rcd: args.dram_trcd,
                t_cl: args.dram_tcl,
                t_rp: args.dram_trp,
            },
        }),
        args.memory_kind() == args.config().backing_memory,
{
}

/// Cycles. A text is a number of cycles exactly when it denotes a number other
/// than zero; zero and a text that denotes no number are refused with different
/// messages, the latter with the text in quotes.
pub proof fn law_cycles_are_positive(text: Seq<char>, n: usize)
    ensures
        positive_value(text) == Ok::<usize, Seq<char>>(n) <==> crate::number::usize_value(text)
            == Some(n) && n > 0,
        crate::number::usize_value(text) == Some(0usize) ==> positive_value(text) == Err::<
            usize,
            Seq<char>,
        >("DRAM timing must be at least 1 cycle"@),
        crate::number::usize_value(text) is None ==> positive_value(text) == Err::<usize, Seq<char>>(
            "expected a positive integer, got "@ + quoted(text),
        ),
{
}

/// Escapes. A text needs none exactly when each of its characters is printable
/// ASCII other than the double quote and the backslash.
pub proof fn law_plain_text_needs_no_escape(text: Seq<char>)
    ensures
        needs_no_escape(text) <==> forall|i: int|
            0 <= i < text.len() ==> {
                &&& ' ' <= #[trigger] text[i] <= '~'
                &&& text[i] != '"'
                &&& text[i] != '\\'
            },
{
}

} // verus!
