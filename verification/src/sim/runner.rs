//! Configuration of a simulation, its set-up, its clock and its report.

use vstd::prelude::*;
use vstd::string::StringExecFns;

use crate::hardware::mem::abstract_mem::RequestView;
use crate::hardware::mem::general_cache::prefetcher::PrefetcherKind;
use crate::hardware::mem::general_cache::write_policy::WritePolicy;
use crate::hardware::mem::general_cache::{
    GeneralCacheConfig, GeneralCacheConfigError, GeneralCacheConfigView,
};
use crate::hardware::mem::simple_dram::model::DramView;
use crate::hardware::mem::simple_dram::{DramTiming, SimpleDram, DEFAULT_ROW_SIZE_BYTES};
use crate::number::{format_usize, is_power_of_two};
use crate::sim::elf::ProgramInfo;

verus! {

/// Replacement policy of the caches.
#[derive(Clone, Copy, Debug, PartialEq, Eq, Structural)]
pub enum ReplacementPolicyKind {
    Fifo,
    Random,
    /// Tree-based pseudo-LRU. Requires power-of-two associativity.
    Plru,
}

/// Branch predictor of the pipeline.
#[derive(Clone, Copy, Debug, PartialEq, Eq, Structural)]
pub enum BranchPredictorKind {
    /// Always predicts not-taken.
    Dummy,
    /// Branch target table plus a bimodal direction counter.
    Bimodal,
}

/// The memory behind the last cache level.
#[derive(Clone, Copy, Debug, PartialEq, Eq, Structural)]
pub enum BackingMemoryKind {
    /// Flat-latency memory.
    SimpleMem,
    /// Single-bank DRAM.
    SimpleDram { timing: DramTiming },
}

impl BackingMemoryKind {
    /// A DRAM needs at least one cycle for each command.
    pub open spec fn valid(self) -> bool {
        match self {
            BackingMemoryKind::SimpleMem => true,
            BackingMemoryKind::SimpleDram { timing } => timing.valid(),
        }
    }

    /// Whether a memory of this kind can be built.
    pub fn is_valid(&self) -> (ok: bool)
        ensures
            ok == self.valid(),
            match self {
                BackingMemoryKind::SimpleMem => ok,
                BackingMemoryKind::SimpleDram { timing } => ok == (timing.t_rcd >= 1 && timing.t_cl
                    >= 1 && timing.t_rp >= 1),
            },
    {
        match self {
            BackingMemoryKind::SimpleMem => true,
            BackingMemoryKind::SimpleDram { timing } => timing.is_valid(),
        }
    }
}

/// Geometry and miss penalty of one cache level.
#[derive(Clone, Copy, Debug, PartialEq, Eq, Structural)]
pub struct CacheLevelConfig {
    pub total_size: usize,
    pub block_size: usize,
    pub num_of_way: usize,
    pub miss_penalty: usize,
}

impl CacheLevelConfig {
    /// A level with the given geometry and miss penalty.
    pub fn new(
        total_size: usize,
        block_size: usize,
        num_of_way: usize,
        miss_penalty: usize,
    ) -> (level: Self)
        ensures
            level == (CacheLevelConfig { total_size, block_size, num_of_way, miss_penalty }),
    {
        CacheLevelConfig { total_size, block_size, num_of_way, miss_penalty }
    }

    /// Whether a block of this level has a size that a cache can have.
    pub open spec fn geometry_ok(self) -> bool {
        vstd::arithmetic::power2::is_pow2(self.block_size as int)
    }

    /// Whether a pseudo-LRU tree covers the ways of this level.
    pub open spec fn tree_ok(self) -> bool {
        vstd::arithmetic::power2::is_pow2(self.num_of_way as int)
    }

    /// The cache of this level.
    pub open spec fn cache(
        self,
        name: Seq<char>,
        write_policy: WritePolicy,
        prefetcher_kind: PrefetcherKind,
    ) -> GeneralCacheConfigView {
        GeneralCacheConfigView {
            name,
            total_size: self.total_size,
            block_size: self.block_size,
            num_of_way: self.num_of_way,
            miss_penalty: self.miss_penalty,
            write_policy,
            prefetcher_kind,
        }
    }

    /// The cache of this level, under the label `name`.
    pub fn into_general_cache_config(
        self,
        name: &str,
        write_policy: WritePolicy,
        prefetcher_kind: PrefetcherKind,
    ) -> (res: Result<GeneralCacheConfig, GeneralCacheConfigError>)
        ensures
            match res {
                Ok(config) => self.geometry_ok() && config@ == self.cache(
                    name@,
                    write_policy,
                    prefetcher_kind,
                ),
                Err(error) => !self.geometry_ok() && error == (GeneralCacheConfigError::BlockSize {
                    block_size: self.block_size,
                }),
            },
            res is Ok <==> vstd::arithmetic::power2::is_pow2(self.block_size as int),
            res matches Ok(config) ==> {
                &&& config.name@ == name@
                &&& config.total_size == self.total_size
                &&& config.block_size == self.block_size
                &&& config.num_of_way == self.num_of_way
                &&& config.miss_penalty == self.miss_penalty
                &&& config.write_policy == write_policy
                &&& config.prefetcher_kind == prefetcher_kind
            },
    {
        match GeneralCacheConfig::new(name, self.total_size, self.block_size, self.num_of_way) {
            Ok(config) => Ok(
                config.with_miss_penalty(self.miss_penalty).with_write_policy(
                    write_policy,
                ).with_prefetcher_kind(prefetcher_kind),
            ),
            Err(error) => Err(error),
        }
    }
}

/// Everything that can be chosen about the modelled machine.
#[derive(Clone, Copy, Debug, PartialEq, Eq, Structural)]
pub struct SimulationConfig {
    pub l1i: CacheLevelConfig,
    pub l1d: CacheLevelConfig,
    pub l2: CacheLevelConfig,
    pub replacement_policy: ReplacementPolicyKind,
    pub write_policy: WritePolicy,
    pub prefetcher_kind: PrefetcherKind,
    pub backing_memory: BackingMemoryKind,
    pub branch_predictor: BranchPredictorKind,
}

/// Why a configuration describes no machine.
#[derive(Debug)]
pub enum SimulationConfigError {
    /// A cache level has an impossible geometry.
    Cache { level: &'static str, source: GeneralCacheConfigError },
    /// Pseudo-LRU needs a power-of-two number of ways.
    PseudoLruAssociativity { level: &'static str, num_of_way: usize },
}

/// The same with the level as a sequence of characters.
pub enum SimulationConfigErrorView {
    Cache { level: Seq<char>, source: GeneralCacheConfigError },
    PseudoLruAssociativity { level: Seq<char>, num_of_way: usize },
}

impl View for SimulationConfigError {
    type V = SimulationConfigErrorView;

    open spec fn view(&self) -> SimulationConfigErrorView {
        match self {
            SimulationConfigError::Cache { level, source } => SimulationConfigErrorView::Cache {
                level: level@,
                source: *source,
            },
            SimulationConfigError::PseudoLruAssociativity {
                level,
                num_of_way,
            } => SimulationConfigErrorView::PseudoLruAssociativity {
                level: level@,
                num_of_way: *num_of_way,
            },
        }
    }
}

impl SimulationConfigErrorView {
    /// The error in words.
    pub open spec fn message(self) -> Seq<char> {
        match self {
            SimulationConfigErrorView::Cache { level, source } => "invalid "@ + level
                + " cache config: "@ + source.message(),
            SimulationConfigErrorView::PseudoLruAssociativity { level, num_of_way } => "invalid "@
                + level
                + " replacement config: PLRU associativity must be a power of two, got "@
                + crate::number::decimal(num_of_way as nat),
        }
    }
}

impl SimulationConfigError {
    /// The error in words.
    pub fn to_string(&self) -> (text: String)
        ensures
            text@ == self@.message(),
    {
        let mut text = "invalid ".to_owned();
        match self {
            SimulationConfigError::Cache { level, source } => {
                text.append(level);
                text.append(" cache config: ");
                text.append(source.to_string().as_str());
            },
            SimulationConfigError::PseudoLruAssociativity { level, num_of_way } => {
                text.append(level);
                text.append(
                    " replacement config: PLRU associativity must be a power of two, got ",
                );
                text.append(format_usize(*num_of_way).as_str());
            },
        }
        text
    }

    /// The error of the cache configuration underneath, if there is one.
    pub fn source(&self) -> (source: Option<&GeneralCacheConfigError>)
        ensures
            match self@ {
                SimulationConfigErrorView::Cache { source: inner, .. } => source == Some(&inner),
                SimulationConfigErrorView::PseudoLruAssociativity { .. } => source is None,
            },
            match self {
                SimulationConfigError::Cache { source: inner, .. } => source == Some(inner),
                SimulationConfigError::PseudoLruAssociativity { .. } => source is None,
            },
    {
        match self {
            SimulationConfigError::Cache { source, .. } => Some(source),
            SimulationConfigError::PseudoLruAssociativity { .. } => None,
        }
    }
}

impl SimulationConfig {
    /// The first level, in the order L1-I, L1-D, L2, that pseudo-LRU cannot
    /// serve, if pseudo-LRU is chosen.
    pub open spec fn policy_error(self) -> Option<SimulationConfigErrorView> {
        if !(self.replacement_policy is Plru) {
            None
        } else if !self.l1i.tree_ok() {
            Some(
                SimulationConfigErrorView::PseudoLruAssociativity {
                    level: "L1-I$"@,
                    num_of_way: self.l1i.num_of_way,
                },
            )
        } else if !self.l1d.tree_ok() {
            Some(
                SimulationConfigErrorView::PseudoLruAssociativity {
                    level: "L1-D$"@,
                    num_of_way: self.l1d.num_of_way,
                },
            )
        } else if !self.l2.tree_ok() {
            Some(
                SimulationConfigErrorView::PseudoLruAssociativity {
                    level: "L2$"@,
                    num_of_way: self.l2.num_of_way,
                },
            )
        } else {
            None
        }
    }

    /// The first level, in the same order, with an impossible geometry.
    pub open spec fn geometry_error(self) -> Option<SimulationConfigErrorView> {
        if !self.l1i.geometry_ok() {
            Some(
                SimulationConfigErrorView::Cache {
                    level: "L1-I$"@,
                    source: GeneralCacheConfigError::BlockSize { block_size: self.l1i.block_size },
                },
            )
        } else if !self.l1d.geometry_ok() {
            Some(
                SimulationConfigErrorView::Cache {
                    level: "L1-D$"@,
                    source: GeneralCacheConfigError::BlockSize { block_size: self.l1d.block_size },
                },
            )
        } else if !self.l2.geometry_ok() {
            Some(
                SimulationConfigErrorView::Cache {
                    level: "L2$"@,
                    source: GeneralCacheConfigError::BlockSize { block_size: self.l2.block_size },
                },
            )
        } else {
            None
        }
    }

    /// The error with which the configuration is refused. The replacement
    /// policy is looked at first.
    pub open spec fn error(self) -> Option<SimulationConfigErrorView> {
        if self.policy_error() is Some {
            self.policy_error()
        } else {
            self.geometry_error()
        }
    }

    /// The cache of one level, with the policies that all levels share.
    pub open spec fn cache(self, name: Seq<char>, level: CacheLevelConfig) -> GeneralCacheConfigView {
        level.cache(name, self.write_policy, self.prefetcher_kind)
    }

    /// The configurations of the L1-I, L1-D and L2 caches.
    pub fn cache_configs(self) -> (res: Result<
        (GeneralCacheConfig, GeneralCacheConfig, GeneralCacheConfig),
        SimulationConfigError,
    >)
        ensures
            match res {
                Ok((l1i, l1d, l2)) => {
                    &&& self.error() is None
                    &&& l1i@ == self.cache("L1-I$"@, self.l1i)
                    &&& l1d@ == self.cache("L1-D$"@, self.l1d)
                    &&& l2@ == self.cache("L2$"@, self.l2)
                    &&& l1i.name@ == "L1-I$"@
                    &&& l1i.total_size == self.l1i.total_size
                    &&& l1i.block_size == self.l1i.block_size
                    &&& l1i.num_of_way == self.l1i.num_of_way
                    &&& l1i.miss_penalty == self.l1i.miss_penalty
                    &&& l1i.write_policy == self.write_policy
                    &&& l1i.prefetcher_kind == self.prefetcher_kind
                    &&& l1d.name@ == "L1-D$"@
                    &&& l1d.total_size == self.l1d.total_size
                    &&& l1d.block_size == self.l1d.block_size
                    &&& l1d.num_of_way == self.l1d.num_of_way
                    &&& l1d.miss_penalty == self.l1d.miss_penalty
                    &&& l1d.write_policy == self.write_policy
                    &&& l1d.prefetcher_kind == self.prefetcher_kind
                    &&& l2.name@ == "L2$"@
                    &&& l2.total_size == self.l2.total_size
                    &&& l2.block_size == self.l2.block_size
                    &&& l2.num_of_way == self.l2.num_of_way
                    &&& l2.miss_penalty == self.l2.miss_penalty
                    &&& l2.write_policy == self.write_policy
                    &&& l2.prefetcher_kind == self.prefetcher_kind
                },
                Err(error) => self.error() == Some(error@),
            },
    {
        if let Err(error) = self.validate_replacement_policy() {
            return Err(error);
        }
        let l1i = match self.level_config(self.l1i, "L1-I$") {
            Ok(config) => config,
            Err(error) => {
                return Err(error);
            },
        };
        let l1d = match self.level_config(self.l1d, "L1-D$") {
            Ok(config) => config,
            Err(error) => {
                return Err(error);
            },
        };
        let l2 = match self.level_config(self.l2, "L2$") {
            Ok(config) => config,
            Err(error) => {
                return Err(error);
            },
        };
        Ok((l1i, l1d, l2))
    }

    /// The configuration of one cache, or its error with the level named.
    fn level_config(self, config: CacheLevelConfig, level: &'static str) -> (res: Result<
        GeneralCacheConfig,
        SimulationConfigError,
    >)
        ensures
            match res {
                Ok(cache) => config.geometry_ok() && cache@ == self.cache(level@, config),
                Err(error) => !config.geometry_ok() && error@ == (SimulationConfigErrorView::Cache {
                    level: level@,
                    source: GeneralCacheConfigError::BlockSize { block_size: config.block_size },
                }),
            },
    {
        match config.into_general_cache_config(level, self.write_policy, self.prefetcher_kind) {
            Ok(cache) => Ok(cache),
            Err(source) => Err(SimulationConfigError::Cache { level, source }),
        }
    }

    /// Checks that the replacement policy fits the associativity of every
    /// level.
    pub fn validate_replacement_policy(self) -> (res: Result<(), SimulationConfigError>)
        ensures
            match res {
                Ok(_) => self.policy_error() is None,
                Err(error) => self.policy_error() == Some(error@),
            },
            res is Ok <==> (self.replacement_policy == ReplacementPolicyKind::Plru ==> {
                &&& vstd::arithmetic::power2::is_pow2(self.l1i.num_of_way as int)
                &&& vstd::arithmetic::power2::is_pow2(self.l1d.num_of_way as int)
                &&& vstd::arithmetic::power2::is_pow2(self.l2.num_of_way as int)
            }),
    {
        if self.replacement_policy != ReplacementPolicyKind::Plru {
            return Ok(());
        }
        let levels: [(&'static str, usize); 3] = [
            ("L1-I$", self.l1i.num_of_way),
            ("L1-D$", self.l1d.num_of_way),
            ("L2$", self.l2.num_of_way),
        ];
        let mut i: usize = 0;
        while i < 3
            invariant
                i <= 3,
                self.replacement_policy is Plru,
                levels@[0] == ("L1-I$", self.l1i.num_of_way),
                levels@[1] == ("L1-D$", self.l1d.num_of_way),
                levels@[2] == ("L2$", self.l2.num_of_way),
                i > 0 ==> self.l1i.tree_ok(),
                i > 1 ==> self.l1d.tree_ok(),
                i > 2 ==> self.l2.tree_ok(),
            decreases 3 - i,
        {
            let (level, num_of_way) = levels[i];
            if !is_power_of_two(num_of_way) {
                return Err(SimulationConfigError::PseudoLruAssociativity { level, num_of_way });
            }
            i += 1;
        }
        Ok(())
    }

    /// The machine that is simulated when nothing is chosen.
    pub open spec fn standard() -> SimulationConfig {
        SimulationConfig {
            l1i: CacheLevelConfig {
                total_size: 2048,
                block_size: 32,
                num_of_way: 4,
                miss_penalty: 2,
            },
            l1d: CacheLevelConfig {
                total_size: 256,
                block_size: 32,
                num_of_way: 2,
                miss_penalty: 2,
            },
            l2: CacheLevelConfig {
                total_size: 16384,
                block_size: 64,
                num_of_way: 4,
                miss_penalty: 10,
            },
            replacement_policy: ReplacementPolicyKind::Fifo,
            write_policy: WritePolicy::WriteBackWriteAllocate,
            prefetcher_kind: PrefetcherKind::Null,
            backing_memory: BackingMemoryKind::SimpleMem,
            branch_predictor: BranchPredictorKind::Bimodal,
        }
    }
}

impl Default for SimulationConfig {
    fn default() -> (config: Self)
        ensures
            config == SimulationConfig::standard(),
            config.l1i == (CacheLevelConfig {
                total_size: 2048,
                block_size: 32,
                num_of_way: 4,
                miss_penalty: 2,
            }),
            config.l1d == (CacheLevelConfig {
                total_size: 256,
                block_size: 32,
                num_of_way: 2,
                miss_penalty: 2,
            }),
            config.l2 == (CacheLevelConfig {
                total_size: 16384,
                block_size: 64,
                num_of_way: 4,
                miss_penalty: 10,
            }),
            config.replacement_policy == ReplacementPolicyKind::Fifo,
            config.write_policy == WritePolicy::WriteBackWriteAllocate,
            config.prefetcher_kind == PrefetcherKind::Null,
            config.backing_memory == BackingMemoryKind::SimpleMem,
            config.branch_predictor == BranchPredictorKind::Bimodal,
    {
        SimulationConfig {
            l1i: CacheLevelConfig::new(2048, 32, 4, 2),
            l1d: CacheLevelConfig::new(256, 32, 2, 2),
            l2: CacheLevelConfig::new(16384, 64, 4, 10),
            replacement_policy: ReplacementPolicyKind::Fifo,
            write_policy: WritePolicy::default(),
            prefetcher_kind: PrefetcherKind::default(),
            backing_memory: BackingMemoryKind::SimpleMem,
            branch_predictor: BranchPredictorKind::Bimodal,
        }
    }
}

/// Acceptance. A configuration is refused exactly when a block size is not a
/// power of two, or pseudo-LRU meets an associativity that is not one.
pub proof fn law_configuration_accepted(config: SimulationConfig)
    ensures
        config.error() is None <==> {
            &&& vstd::arithmetic::power2::is_pow2(config.l1i.block_size as int)
            &&& vstd::arithmetic::power2::is_pow2(config.l1d.block_size as int)
            &&& vstd::arithmetic::power2::is_pow2(config.l2.block_size as int)
            &&& config.replacement_policy == ReplacementPolicyKind::Plru ==> {
                &&& vstd::arithmetic::power2::is_pow2(config.l1i.num_of_way as int)
                &&& vstd::arithmetic::power2::is_pow2(config.l1d.num_of_way as int)
                &&& vstd::arithmetic::power2::is_pow2(config.l2.num_of_way as int)
            }
        },
        config.error() is None <==> {
            &&& config.l1i.geometry_ok() && config.l1d.geometry_ok() && config.l2.geometry_ok()
            &&& config.replacement_policy is Plru ==> config.l1i.tree_ok() && config.l1d.tree_ok()
                && config.l2.tree_ok()
        },
{
}

/// Associativity. Under pseudo-LRU the policy check passes exactly when the
/// number of ways of each level is a power of two, whatever else is chosen; under
/// any other policy it always passes. A refusal names the first level in the
/// order L1-I, L1-D, L2 whose number of ways is not one, and that number.
pub proof fn law_policy_check(config: SimulationConfig)
    ensures
        ({
            let l1i = vstd::arithmetic::power2::is_pow2(config.l1i.num_of_way as int);
            let l1d = vstd::arithmetic::power2::is_pow2(config.l1d.num_of_way as int);
            let l2 = vstd::arithmetic::power2::is_pow2(config.l2.num_of_way as int);
            let plru = config.replacement_policy == ReplacementPolicyKind::Plru;
            &&& config.policy_error() is None <==> !plru || (l1i && l1d && l2)
            &&& plru && !l1i ==> config.policy_error() == Some(
                SimulationConfigErrorView::PseudoLruAssociativity {
                    level: "L1-I$"@,
                    num_of_way: config.l1i.num_of_way,
                },
            )
            &&& plru && l1i && !l1d ==> config.policy_error() == Some(
                SimulationConfigErrorView::PseudoLruAssociativity {
                    level: "L1-D$"@,
                    num_of_way: config.l1d.num_of_way,
                },
            )
            &&& plru && l1i && l1d && !l2 ==> config.policy_error() == Some(
                SimulationConfigErrorView::PseudoLruAssociativity {
                    level: "L2$"@,
                    num_of_way: config.l2.num_of_way,
                },
            )
        }),
{
}

/// Geometry. Where the policy check passes, a refusal names the first level in
/// the same order whose block size is not a power of two, and that size; where
/// it does not pass, its error is the error.
pub proof fn law_geometry_check(config: SimulationConfig)
    ensures
        ({
            let l1i = vstd::arithmetic::power2::is_pow2(config.l1i.block_size as int);
            let l1d = vstd::arithmetic::power2::is_pow2(config.l1d.block_size as int);
            let l2 = vstd::arithmetic::power2::is_pow2(config.l2.block_size as int);
            let passed = config.policy_error() is None;
            &&& !passed ==> config.error() == config.policy_error()
            &&& passed && l1i && l1d && l2 ==> config.error() is None
            &&& passed && !l1i ==> config.error() == Some(
                SimulationConfigErrorView::Cache {
                    level: "L1-I$"@,
                    source: GeneralCacheConfigError::BlockSize {
                        block_size: config.l1i.block_size,
                    },
                },
            )
            &&& passed && l1i && !l1d ==> config.error() == Some(
                SimulationConfigErrorView::Cache {
                    level: "L1-D$"@,
                    source: GeneralCacheConfigError::BlockSize {
                        block_size: config.l1d.block_size,
                    },
                },
            )
            &&& passed && l1i && l1d && !l2 ==> config.error() == Some(
                SimulationConfigErrorView::Cache {
                    level: "L2$"@,
                    source: GeneralCacheConfigError::BlockSize { block_size: config.l2.block_size },
                },
            )
        }),
{
}

/// Messages. An error says which level it is about and what number it found, the
/// latter in decimal notation.
pub proof fn law_error_messages(level: &'static str, number: usize)
    ensures
        (SimulationConfigError::PseudoLruAssociativity { level, num_of_way: number })@
            == (SimulationConfigErrorView::PseudoLruAssociativity {
            level: level@,
            num_of_way: number,
        }),
        (SimulationConfigError::Cache {
            level,
            source: GeneralCacheConfigError::BlockSize { block_size: number },
        })@ == (SimulationConfigErrorView::Cache {
            level: level@,
            source: GeneralCacheConfigError::BlockSize { block_size: number },
        }),
        (SimulationConfigErrorView::PseudoLruAssociativity {
            level: level@,
            num_of_way: number,
        }).message() == "invalid "@ + level@
            + " replacement config: PLRU associativity must be a power of two, got "@
            + crate::number::decimal(number as nat),
        (SimulationConfigErrorView::Cache {
            level: level@,
            source: GeneralCacheConfigError::BlockSize { block_size: number },
        }).message() == "invalid "@ + level@ + " cache config: "@ + (
        "block size must be a power of two, got "@ + crate::number::decimal(number as nat)),
{
}

/// Levels. The cache of a level has its label, the geometry and the miss penalty
/// of the level, and the policies that all levels share.
pub proof fn law_cache_of_a_level(config: SimulationConfig, level: CacheLevelConfig, name: Seq<char>)
    ensures
        config.cache(name, level).name == name,
        config.cache(name, level).total_size == level.total_size,
        config.cache(name, level).block_size == level.block_size,
        config.cache(name, level).num_of_way == level.num_of_way,
        config.cache(name, level).miss_penalty == level.miss_penalty,
        config.cache(name, level).write_policy == config.write_policy,
        config.cache(name, level).prefetcher_kind == config.prefetcher_kind,
{
}

/// Memories. A flat memory can always be built, and a DRAM exactly when each of
/// its commands takes a cycle or more.
pub proof fn law_memory_can_be_built(timing: DramTiming)
    ensures
        BackingMemoryKind::SimpleMem.valid(),
        (BackingMemoryKind::SimpleDram { timing }).valid() <==> timing.t_rcd > 0 && timing.t_cl > 0
            && timing.t_rp > 0,
{
}

/// The standard machine is accepted under every replacement policy.
pub proof fn law_standard_configuration_runs(policy: ReplacementPolicyKind)
    ensures
        (SimulationConfig { replacement_policy: policy, ..SimulationConfig::standard() }).error()
            is None,
        SimulationConfig::standard().backing_memory.valid(),
{
    reveal_with_fuel(vstd::arithmetic::power2::is_pow2, 8);
}

/// A memory that holds the program, of the kind that was chosen.
#[derive(Debug)]
pub enum BackingMemory {
    /// The image that the flat-latency memory starts with.
    SimpleMem { image: Vec<u8> },
    /// The DRAM controller.
    SimpleDram { dram: SimpleDram },
}

impl BackingMemory {
    /// A DRAM controller is in a state with its invariant.
    pub open spec fn wf(&self) -> bool {
        match self {
            BackingMemory::SimpleMem { .. } => true,
            BackingMemory::SimpleDram { dram } => dram.wf(),
        }
    }

    /// The memory of the kind `kind`, holding `image`, before the first cycle.
    pub open spec fn holds_fresh(&self, kind: BackingMemoryKind, image: Seq<u8>) -> bool {
        match (self, kind) {
            (
                BackingMemory::SimpleMem { image: stored },
                BackingMemoryKind::SimpleMem,
            ) => stored@ == image,
            (
                BackingMemory::SimpleDram { dram },
                BackingMemoryKind::SimpleDram { timing },
            ) => dram@ == DramView::fresh(image, timing, DEFAULT_ROW_SIZE_BYTES as nat),
            _ => false,
        }
    }

    /// Builds the memory of the kind `kind` that holds `image`.
    pub fn new(kind: BackingMemoryKind, image: Vec<u8>) -> (memory: Self)
        requires
            kind.valid(),
        ensures
            memory.wf(),
            memory.holds_fresh(kind, image@),
            match (kind, memory) {
                (
                    BackingMemoryKind::SimpleMem,
                    BackingMemory::SimpleMem { image: stored },
                ) => stored@ == image@,
                (
                    BackingMemoryKind::SimpleDram { timing },
                    BackingMemory::SimpleDram { dram },
                ) => {
                    &&& dram.core@.data == image@
                    &&& dram.core@.timing.t_rcd == timing.t_rcd
                    &&& dram.core@.timing.t_cl == timing.t_cl
                    &&& dram.core@.timing.t_rp == timing.t_rp
                    &&& dram.core@.row_size == 1024
                    &&& dram.core@.pending is None
                    &&& dram.row_buffer_hit_cnt == 0
                    &&& dram.row_buffer_miss_cnt == 0
                    &&& dram.cold_open_cnt == 0
                    &&& dram.row_conflict_cnt == 0
                    &&& dram.total_access_time_cycles == 0
                },
                _ => false,
            },
    {
        match kind {
            BackingMemoryKind::SimpleMem => BackingMemory::SimpleMem { image },
            BackingMemoryKind::SimpleDram { timing } => BackingMemory::SimpleDram {
                dram: SimpleDram::new(image, timing),
            },
        }
    }

    /// What is reported of the memory.
    pub fn report(&self) -> (report: BackingMemoryReport)
        requires
            self.wf(),
        ensures
            report.describes(self),
            match (self, report) {
                (BackingMemory::SimpleMem { .. }, BackingMemoryReport::SimpleMem) => true,
                (
                    BackingMemory::SimpleDram { dram },
                    BackingMemoryReport::SimpleDram {
                        dram_access_cnt,
                        cold_open_cnt,
                        row_buffer_hit_cnt,
                        row_buffer_miss_cnt,
                        row_conflict_cnt,
                        total_access_time_cycles,
                    },
                ) => {
                    &&& dram_access_cnt == dram.row_buffer_hit_cnt + dram.cold_open_cnt
                        + dram.row_conflict_cnt
                    &&& cold_open_cnt == dram.cold_open_cnt
                    &&& row_buffer_hit_cnt == dram.row_buffer_hit_cnt
                    &&& row_buffer_miss_cnt == dram.row_buffer_miss_cnt
                    &&& row_conflict_cnt == dram.row_conflict_cnt
                    &&& total_access_time_cycles == dram.total_access_time_cycles
                },
                _ => false,
            },
    {
        match self {
            BackingMemory::SimpleMem { .. } => BackingMemoryReport::SimpleMem,
            BackingMemory::SimpleDram { dram } => BackingMemoryReport::SimpleDram {
                dram_access_cnt: dram.dram_access_cnt(),
                cold_open_cnt: dram.cold_open_cnt,
                row_buffer_hit_cnt: dram.row_buffer_hit_cnt,
                row_buffer_miss_cnt: dram.row_buffer_miss_cnt,
                row_conflict_cnt: dram.row_conflict_cnt,
                total_access_time_cycles: dram.total_access_time_cycles,
            },
        }
    }
}

/// What is reported of the backing memory. The mean access time is the total
/// access time over the access count.
#[derive(Clone, Copy, Debug, PartialEq, Eq, Structural)]
pub enum BackingMemoryReport {
    SimpleMem,
    SimpleDram {
        dram_access_cnt: usize,
        cold_open_cnt: usize,
        row_buffer_hit_cnt: usize,
        row_buffer_miss_cnt: usize,
        row_conflict_cnt: usize,
        total_access_time_cycles: usize,
    },
}

impl BackingMemoryReport {
    /// The report holds the counters of `memory`.
    pub open spec fn describes(self, memory: &BackingMemory) -> bool {
        match memory {
            BackingMemory::SimpleMem { .. } => self is SimpleMem,
            BackingMemory::SimpleDram { dram } => self matches BackingMemoryReport::SimpleDram {
                dram_access_cnt,
                cold_open_cnt,
                row_buffer_hit_cnt,
                row_buffer_miss_cnt,
                row_conflict_cnt,
                total_access_time_cycles,
            } && {
                &&& dram_access_cnt == dram@.access_cnt()
                &&& cold_open_cnt == dram.cold_open_cnt
                &&& row_buffer_hit_cnt == dram.row_buffer_hit_cnt
                &&& row_buffer_miss_cnt == dram.row_buffer_miss_cnt
                &&& row_conflict_cnt == dram.row_conflict_cnt
                &&& total_access_time_cycles == dram.total_access_time_cycles
            },
        }
    }
}

/// Reported accounting. In the report of a DRAM, the accesses are the hits, the
/// cold opens and the row conflicts; when no request is in flight, they are the
/// hits and the misses, and the misses are the cold opens and the row conflicts.
pub proof fn law_report_accounting(report: BackingMemoryReport, dram: SimpleDram)
    requires
        dram.wf(),
        report.describes(&BackingMemory::SimpleDram { dram }),
    ensures
        report matches BackingMemoryReport::SimpleDram {
            dram_access_cnt,
            cold_open_cnt,
            row_buffer_hit_cnt,
            row_buffer_miss_cnt,
            row_conflict_cnt,
            ..
        } && {
            &&& dram_access_cnt == row_buffer_hit_cnt + cold_open_cnt + row_conflict_cnt
            &&& dram@.pending is None ==> dram_access_cnt == row_buffer_hit_cnt
                + row_buffer_miss_cnt
            &&& dram@.pending is None ==> row_buffer_miss_cnt == cold_open_cnt + row_conflict_cnt
        },
{
}

/// Reported counters. A report of a DRAM holds the counters of the controller,
/// and as accesses its hits, cold opens and row conflicts together. A report of a
/// flat memory holds none.
pub proof fn law_report_is_the_counters(
    report: BackingMemoryReport,
    dram: SimpleDram,
    image: Vec<u8>,
)
    ensures
        report.describes(&BackingMemory::SimpleMem { image }) <==> report
            == BackingMemoryReport::SimpleMem,
        report.describes(&BackingMemory::SimpleDram { dram }) ==> (report
            matches BackingMemoryReport::SimpleDram {
            dram_access_cnt,
            cold_open_cnt,
            row_buffer_hit_cnt,
            row_buffer_miss_cnt,
            row_conflict_cnt,
            total_access_time_cycles,
        } && {
            &&& row_buffer_hit_cnt == dram@.row_buffer_hit_cnt
            &&& row_buffer_miss_cnt == dram@.row_buffer_miss_cnt
            &&& cold_open_cnt == dram@.cold_open_cnt
            &&& row_conflict_cnt == dram@.row_conflict_cnt
            &&& total_access_time_cycles == dram@.total_access_time_cycles
            &&& dram_access_cnt == dram@.row_buffer_hit_cnt + dram@.cold_open_cnt
                + dram@.row_conflict_cnt
        }),
{
}

/// Reported requests. Of a DRAM that has served nothing, every number reported is
/// zero. One request more, whatever was served before, is reported as one access
/// more: the first as a cold open, one to the row of the request before it as a
/// hit, any other as a row conflict. All but a hit are misses, and the total grows
/// by the cycles of its kind.
pub proof fn law_report_counts_each_request(
    data: Seq<u8>,
    timing: DramTiming,
    row_size: nat,
    reqs: Seq<RequestView>,
    req: RequestView,
    before: SimpleDram,
    after: SimpleDram,
    earlier: BackingMemoryReport,
    later: BackingMemoryReport,
)
    requires
        timing.t_rcd >= 1,
        timing.t_cl >= 1,
        timing.t_rp >= 1,
        vstd::arithmetic::power2::is_pow2(row_size as int),
        forall|k: int| 0 <= k < reqs.len() ==> (#[trigger] reqs[k]).within(data.len()),
        req.within(data.len()),
        before@ == DramView::fresh(data, timing, row_size).ran(reqs),
        after@ == DramView::fresh(data, timing, row_size).ran(reqs.push(req)),
        earlier.describes(&BackingMemory::SimpleDram { dram: before }),
        later.describes(&BackingMemory::SimpleDram { dram: after }),
    ensures
        ({
            let first = reqs.len() == 0;
            let hit = !first && reqs.last().addr() as int / row_size as int == req.addr() as int
                / row_size as int;
            let conflict = !first && !hit;
            &&& first ==> earlier == (BackingMemoryReport::SimpleDram {
                dram_access_cnt: 0,
                cold_open_cnt: 0,
                row_buffer_hit_cnt: 0,
                row_buffer_miss_cnt: 0,
                row_conflict_cnt: 0,
                total_access_time_cycles: 0,
            })
            &&& earlier->dram_access_cnt == reqs.len()
            &&& later->dram_access_cnt == earlier->dram_access_cnt + 1
            &&& later->row_buffer_hit_cnt == earlier->row_buffer_hit_cnt + (if hit {
                1int
            } else {
                0int
            })
            &&& later->row_buffer_miss_cnt == earlier->row_buffer_miss_cnt + (if hit {
                0int
            } else {
                1int
            })
            &&& later->cold_open_cnt == earlier->cold_open_cnt + (if first {
                1int
            } else {
                0int
            })
            &&& later->row_conflict_cnt == earlier->row_conflict_cnt + (if conflict {
                1int
            } else {
                0int
            })
            &&& later->total_access_time_cycles == earlier->total_access_time_cycles + (if first {
                timing.t_rcd + timing.t_cl
            } else if hit {
                timing.t_cl as int
            } else {
                timing.t_rp + timing.t_rcd + timing.t_cl
            })
        }),
{
    let fresh = DramView::fresh(data, timing, row_size);
    crate::hardware::mem::simple_dram::laws::law_fresh_controller_is_as_given(
        data,
        timing.t_rcd,
        timing.t_cl,
        timing.t_rp,
        row_size,
    );
    crate::hardware::mem::simple_dram::laws::law_next_request_takes_the_cycles_chosen(
        data,
        timing.t_rcd,
        timing.t_cl,
        timing.t_rp,
        row_size,
        reqs,
        req,
    );
    crate::hardware::mem::simple_dram::laws::law_total_is_sum_of_service_times(fresh, reqs);
}

/// What is reported of a run. `P` is what the pipeline reports of itself and
/// `C` what a cache does.
#[derive(Debug)]
pub struct SimulationReport<P, C> {
    pub pipeline: P,
    pub l1i: C,
    pub l1d: C,
    pub l2: C,
    pub backing_memory: BackingMemoryReport,
    pub final_registers: [u32; 32],
}

/// A simulation that is set up: what the processor is built from, and the
/// memory that holds the program.
#[derive(Debug)]
pub struct Simulation {
    pub entry_pc: u32,
    pub replacement_policy: ReplacementPolicyKind,
    pub branch_predictor: BranchPredictorKind,
    pub l1i: GeneralCacheConfig,
    pub l1d: GeneralCacheConfig,
    pub l2: GeneralCacheConfig,
    pub memory: BackingMemory,
}

impl Simulation {
    /// Sets up a run of `program` on the machine that `config` describes, or
    /// refuses the configuration before anything is built from it.
    pub fn new(program: ProgramInfo, config: SimulationConfig) -> (res: Result<
        Self,
        SimulationConfigError,
    >)
        requires
            config.backing_memory.valid(),
        ensures
            match res {
                Ok(simulation) => {
                    &&& config.error() is None
                    &&& simulation.entry_pc == program.entry_pc
                    &&& simulation.replacement_policy == config.replacement_policy
                    &&& simulation.branch_predictor == config.branch_predictor
                    &&& simulation.l1i@ == config.cache("L1-I$"@, config.l1i)
                    &&& simulation.l1d@ == config.cache("L1-D$"@, config.l1d)
                    &&& simulation.l2@ == config.cache("L2$"@, config.l2)
                    &&& simulation.memory.wf()
                    &&& simulation.memory.holds_fresh(
                        config.backing_memory,
                        program.prog_body@,
                    )
                    &&& simulation.l1i.name@ == "L1-I$"@
                    &&& simulation.l1i.total_size == config.l1i.total_size
                    &&& simulation.l1i.block_size == config.l1i.block_size
                    &&& simulation.l1i.num_of_way == config.l1i.num_of_way
                    &&& simulation.l1i.miss_penalty == config.l1i.miss_penalty
                    &&& simulation.l1i.write_policy == config.write_policy
                    &&& simulation.l1i.prefetcher_kind == config.prefetcher_kind
                    &&& simulation.l1d.name@ == "L1-D$"@
                    &&& simulation.l1d.total_size == config.l1d.total_size
                    &&& simulation.l1d.block_size == config.l1d.block_size
                    &&& simulation.l1d.num_of_way == config.l1d.num_of_way
                    &&& simulation.l1d.miss_penalty == config.l1d.miss_penalty
                    &&& simulation.l1d.write_policy == config.write_policy
                    &&& simulation.l1d.prefetcher_kind == config.prefetcher_kind
                    &&& simulation.l2.name@ == "L2$"@
                    &&& simulation.l2.total_size == config.l2.total_size
                    &&& simulation.l2.block_size == config.l2.block_size
                    &&& simulation.l2.num_of_way == config.l2.num_of_way
                    &&& simulation.l2.miss_penalty == config.l2.miss_penalty
                    &&& simulation.l2.write_policy == config.write_policy
                    &&& simulation.l2.prefetcher_kind == config.prefetcher_kind
                    &&& match (config.backing_memory, simulation.memory) {
                        (
                            BackingMemoryKind::SimpleMem,
                            BackingMemory::SimpleMem { image: stored },
                        ) => stored@ == program.prog_body@,
                        (
                            BackingMemoryKind::SimpleDram { timing },
                            BackingMemory::SimpleDram { dram },
                        ) => {
                            &&& dram.core@.data == program.prog_body@
                            &&& dram.core@.timing.t_rcd == timing.t_rcd
                            &&& dram.core@.timing.t_cl == timing.t_cl
                            &&& dram.core@.timing.t_rp == timing.t_rp
                            &&& dram.core@.row_size == 1024
                            &&& dram.core@.pending is None
                            &&& dram.row_buffer_hit_cnt == 0
                            &&& dram.row_buffer_miss_cnt == 0
                            &&& dram.cold_open_cnt == 0
                            &&& dram.row_conflict_cnt == 0
                            &&& dram.total_access_time_cycles == 0
                        },
                        _ => false,
                    }
                },
                Err(error) => config.error() == Some(error@),
            },
    {
        match config.cache_configs() {
            Ok((l1i, l1d, l2)) => Ok(
                Simulation {
                    entry_pc: program.entry_pc,
                    replacement_policy: config.replacement_policy,
                    branch_predictor: config.branch_predictor,
                    l1i,
                    l1d,
                    l2,
                    memory: BackingMemory::new(config.backing_memory, program.prog_body),
                },
            ),
            Err(error) => Err(error),
        }
    }

    /// The report of a run that has come to its end, from what the pipeline
    /// and the caches report of themselves.
    pub fn report<P, C>(
        &self,
        pipeline: P,
        l1i: C,
        l1d: C,
        l2: C,
        final_registers: [u32; 32],
    ) -> (report: SimulationReport<P, C>)
        requires
            self.memory.wf(),
        ensures
            report.pipeline == pipeline,
            report.l1i == l1i,
            report.l1d == l1d,
            report.l2 == l2,
            report.final_registers == final_registers,
            report.backing_memory.describes(&self.memory),
    {
        SimulationReport {
            pipeline,
            l1i,
            l1d,
            l2,
            backing_memory: self.memory.report(),
            final_registers,
        }
    }
}

/// What a run does next.
#[derive(Clone, Copy, Debug, PartialEq, Eq, Structural)]
pub enum RunAction {
    /// Let the processor pass one cycle.
    TickProcessor,
    /// Let the backing memory pass one cycle.
    TickMemory,
    /// The run is over: collect the report.
    Collect,
}

/// The clock of a run: where in a cycle it stands.
#[derive(Clone, Copy, Debug, PartialEq, Eq, Structural)]
pub enum RunClock {
    /// Between two cycles.
    Boundary,
    /// The processor has passed the cycle and the memory has not.
    MidCycle,
}

impl RunClock {
    /// What comes next, and where the clock stands after it, when the
    /// processor has halted or not.
    pub open spec fn after(self, halted: bool) -> (RunAction, RunClock) {
        match self {
            RunClock::Boundary => if halted {
                (RunAction::Collect, RunClock::Boundary)
            } else {
                (RunAction::TickProcessor, RunClock::MidCycle)
            },
            RunClock::MidCycle => (RunAction::TickMemory, RunClock::Boundary),
        }
    }

    /// A clock before the first cycle.
    pub fn new() -> (clock: Self)
        ensures
            clock == RunClock::Boundary,
    {
        RunClock::Boundary
    }

    /// What comes next. A cycle ticks the processor and the memory, in this
    /// order; whether the processor has halted counts between cycles only.
    pub fn next_action(&mut self, halted: bool) -> (action: RunAction)
        ensures
            (action, *final(self)) == old(self).after(halted),
            *old(self) == RunClock::MidCycle ==> action == RunAction::TickMemory && *final(self)
                == RunClock::Boundary,
            *old(self) == RunClock::Boundary && halted ==> action == RunAction::Collect
                && *final(self) == RunClock::Boundary,
            *old(self) == RunClock::Boundary && !halted ==> action == RunAction::TickProcessor
                && *final(self) == RunClock::MidCycle,
    {
        match *self {
            RunClock::Boundary => if halted {
                RunAction::Collect
            } else {
                *self = RunClock::MidCycle;
                RunAction::TickProcessor
            },
            RunClock::MidCycle => {
                *self = RunClock::Boundary;
                RunAction::TickMemory
            },
        }
    }

    /// Where the clock stands after the answers `halted`, one for each action.
    pub open spec fn after_all(self, halted: Seq<bool>) -> RunClock
        decreases halted.len(),
    {
        if halted.len() == 0 {
            self
        } else {
            self.after_all(halted.drop_last()).after(halted.last()).1
        }
    }

    /// The action that answers the last of `halted`.
    pub open spec fn last_action(self, halted: Seq<bool>) -> RunAction {
        self.after_all(halted.drop_last()).after(halted.last()).0
    }
}

/// Clock. Between cycles a run goes on exactly when the processor has not halted;
/// within a cycle it goes on in any case. The processor's tick is followed by the
/// memory's, and this by the next boundary.
pub proof fn law_clock_alternates(halted: bool, later: bool)
    ensures
        RunClock::Boundary.after(false) == (RunAction::TickProcessor, RunClock::MidCycle),
        RunClock::Boundary.after(true) == (RunAction::Collect, RunClock::Boundary),
        RunClock::MidCycle.after(halted) == (RunAction::TickMemory, RunClock::Boundary),
        RunClock::Boundary.after(halted).0 == RunAction::Collect <==> halted,
        RunClock::Boundary.after(false).1.after(later).1 == RunClock::Boundary,
{
}

/// Lockstep. As long as the processor has not halted at a cycle boundary, the
/// actions of a run alternate between processor and memory, starting with the
/// processor.
pub proof fn law_run_ticks_in_lockstep(halted: Seq<bool>, i: int)
    requires
        0 <= i < halted.len(),
        forall|j: int| 0 <= j <= i && j % 2 == 0 ==> !#[trigger] halted[j],
    ensures
        RunClock::Boundary.last_action(halted.take(i + 1)) == (if i % 2 == 0 {
            RunAction::TickProcessor
        } else {
            RunAction::TickMemory
        }),
{
    lemma_clock_position(halted, i);
    assert(halted.take(i + 1).drop_last() =~= halted.take(i));
    assert(halted.take(i + 1).last() == halted[i]);
}

/// End. A run that finds the processor halted for the first time at the
/// boundary after `n` cycles collects the report there, with processor and
/// memory ticked `n` times each.
pub proof fn law_run_ends_at_boundary(halted: Seq<bool>, n: nat)
    requires
        halted.len() == 2 * n + 1,
        forall|j: int| 0 <= j < 2 * n && j % 2 == 0 ==> !#[trigger] halted[j],
        halted[2 * n as int],
    ensures
        RunClock::Boundary.last_action(halted) == RunAction::Collect,
        forall|k: int|
            0 <= k < n ==> RunClock::Boundary.last_action(#[trigger] halted.take(2 * k + 1))
                == RunAction::TickProcessor,
        forall|k: int|
            0 <= k < n ==> RunClock::Boundary.last_action(#[trigger] halted.take(2 * k + 2))
                == RunAction::TickMemory,
{
    lemma_clock_position(halted, 2 * n as int);
    assert(halted.drop_last() =~= halted.take(2 * n as int));
    assert forall|k: int| 0 <= k < n implies RunClock::Boundary.last_action(
        #[trigger] halted.take(2 * k + 1),
    ) == RunAction::TickProcessor by {
        law_run_ticks_in_lockstep(halted, 2 * k);
    }
    assert forall|k: int| 0 <= k < n implies RunClock::Boundary.last_action(
        #[trigger] halted.take(2 * k + 2),
    ) == RunAction::TickMemory by {
        law_run_ticks_in_lockstep(halted, 2 * k + 1);
    }
}

/// The clock stands between cycles after an even number of actions.
proof fn lemma_clock_position(halted: Seq<bool>, i: int)
    requires
        0 <= i <= halted.len(),
        forall|j: int| 0 <= j < i && j % 2 == 0 ==> !#[trigger] halted[j],
    ensures
        RunClock::Boundary.after_all(halted.take(i)) == (if i % 2 == 0 {
            RunClock::Boundary
        } else {
            RunClock::MidCycle
        }),
    decreases i,
{
    if i > 0 {
        lemma_clock_position(halted, i - 1);
        assert(halted.take(i).drop_last() =~= halted.take(i - 1));
        assert(halted.take(i).last() == halted[i - 1]);
    }
}

} // verus!
