//! Configuration of one set-associative cache.

pub mod prefetcher;
pub mod write_policy;

use vstd::prelude::*;
use vstd::string::StringExecFns;

use crate::number::{format_usize, is_power_of_two};
use prefetcher::PrefetcherKind;
use write_policy::WritePolicy;

verus! {

/// Geometry and policies of one cache.
#[derive(Debug)]
pub struct GeneralCacheConfig {
    /// Label in reports.
    pub name: String,
    /// Capacity in bytes.
    pub total_size: usize,
    /// Bytes per block, a power of two.
    pub block_size: usize,
    /// Associativity.
    pub num_of_way: usize,
    /// Extra cycles on a miss.
    pub miss_penalty: usize,
    pub write_policy: WritePolicy,
    pub prefetcher_kind: PrefetcherKind,
}

/// The same with the label as a sequence of characters.
pub struct GeneralCacheConfigView {
    pub name: Seq<char>,
    pub total_size: usize,
    pub block_size: usize,
    pub num_of_way: usize,
    pub miss_penalty: usize,
    pub write_policy: WritePolicy,
    pub prefetcher_kind: PrefetcherKind,
}

impl View for GeneralCacheConfig {
    type V = GeneralCacheConfigView;

    open spec fn view(&self) -> GeneralCacheConfigView {
        GeneralCacheConfigView {
            name: self.name@,
            total_size: self.total_size,
            block_size: self.block_size,
            num_of_way: self.num_of_way,
            miss_penalty: self.miss_penalty,
            write_policy: self.write_policy,
            prefetcher_kind: self.prefetcher_kind,
        }
    }
}

/// Why a cache cannot have a geometry.
#[derive(Clone, Copy, Debug, PartialEq, Eq, Structural)]
pub enum GeneralCacheConfigError {
    /// The block size is not a power of two.
    BlockSize { block_size: usize },
}

impl GeneralCacheConfigError {
    /// The error in words.
    pub open spec fn message(self) -> Seq<char> {
        match self {
            GeneralCacheConfigError::BlockSize { block_size } =>
                "block size must be a power of two, got "@ + crate::number::decimal(
                block_size as nat,
            ),
        }
    }

    /// The error in words.
    pub fn to_string(&self) -> (text: String)
        ensures
            text@ == self.message(),
    {
        match self {
            GeneralCacheConfigError::BlockSize { block_size } => {
                let mut text = "block size must be a power of two, got ".to_owned();
                text.append(format_usize(*block_size).as_str());
                text
            },
        }
    }
}

impl GeneralCacheConfig {
    /// A cache of the given geometry, without a miss penalty and with the
    /// default policies.
    pub fn new(name: &str, total_size: usize, block_size: usize, num_of_way: usize) -> (res: Result<
        Self,
        GeneralCacheConfigError,
    >)
        ensures
            match res {
                Ok(config) => {
                    &&& vstd::arithmetic::power2::is_pow2(block_size as int)
                    &&& config@ == (GeneralCacheConfigView {
                        name: name@,
                        total_size,
                        block_size,
                        num_of_way,
                        miss_penalty: 0,
                        write_policy: WritePolicy::WriteBackWriteAllocate,
                        prefetcher_kind: PrefetcherKind::Null,
                    })
                    &&& config.name@ == name@
                    &&& config.total_size == total_size
                    &&& config.block_size == block_size
                    &&& config.num_of_way == num_of_way
                    &&& config.miss_penalty == 0
                    &&& config.write_policy == WritePolicy::WriteBackWriteAllocate
                    &&& config.prefetcher_kind == PrefetcherKind::Null
                },
                Err(error) => {
                    &&& !vstd::arithmetic::power2::is_pow2(block_size as int)
                    &&& error == GeneralCacheConfigError::BlockSize { block_size }
                },
            },
    {
        if !is_power_of_two(block_size) {
            return Err(GeneralCacheConfigError::BlockSize { block_size });
        }
        Ok(
            GeneralCacheConfig {
                name: name.to_owned(),
                total_size,
                block_size,
                num_of_way,
                miss_penalty: 0,
                write_policy: WritePolicy::WriteBackWriteAllocate,
                prefetcher_kind: PrefetcherKind::Null,
            },
        )
    }

    /// Changes the miss penalty.
    pub fn with_miss_penalty(self, miss_penalty: usize) -> (config: Self)
        ensures
            config@ == (GeneralCacheConfigView { miss_penalty, ..self@ }),
            config.miss_penalty == miss_penalty,
            config.name@ == self.name@,
            config.total_size == self.total_size,
            config.block_size == self.block_size,
            config.num_of_way == self.num_of_way,
            config.write_policy == self.write_policy,
            config.prefetcher_kind == self.prefetcher_kind,
    {
        GeneralCacheConfig { miss_penalty, ..self }
    }

    /// Changes the write policy.
    pub fn with_write_policy(self, write_policy: WritePolicy) -> (config: Self)
        ensures
            config@ == (GeneralCacheConfigView { write_policy, ..self@ }),
            config.write_policy == write_policy,
            config.name@ == self.name@,
            config.total_size == self.total_size,
            config.block_size == self.block_size,
            config.num_of_way == self.num_of_way,
            config.miss_penalty == self.miss_penalty,
            config.prefetcher_kind == self.prefetcher_kind,
    {
        GeneralCacheConfig { write_policy, ..self }
    }

    /// Changes the prefetcher.
    pub fn with_prefetcher_kind(self, prefetcher_kind: PrefetcherKind) -> (config: Self)
        ensures
            config@ == (GeneralCacheConfigView { prefetcher_kind, ..self@ }),
            config.prefetcher_kind == prefetcher_kind,
            config.name@ == self.name@,
            config.total_size == self.total_size,
            config.block_size == self.block_size,
            config.num_of_way == self.num_of_way,
            config.miss_penalty == self.miss_penalty,
            config.write_policy == self.write_policy,
    {
        GeneralCacheConfig { prefetcher_kind, ..self }
    }
}

/// The view of a configuration has each of its fields.
pub proof fn law_cache_view_shows_every_field(config: GeneralCacheConfig)
    ensures
        config@.name == config.name@,
        config@.total_size == config.total_size,
        config@.block_size == config.block_size,
        config@.num_of_way == config.num_of_way,
        config@.miss_penalty == config.miss_penalty,
        config@.write_policy == config.write_policy,
        config@.prefetcher_kind == config.prefetcher_kind,
{
}

/// Message. A refused block size is named at the end of the message, in decimal
/// notation, so different sizes have different messages.
pub proof fn law_block_size_is_named(block_size: usize, other: usize)
    ensures
        (GeneralCacheConfigError::BlockSize { block_size }).message()
            == "block size must be a power of two, got "@ + crate::number::decimal(
            block_size as nat,
        ),
        (GeneralCacheConfigError::BlockSize { block_size }).message() == (
        GeneralCacheConfigError::BlockSize { block_size: other }).message() ==> block_size == other,
{
    let prefix = "block size must be a power of two, got "@;
    let a = crate::number::decimal(block_size as nat);
    let b = crate::number::decimal(other as nat);
    crate::number::law_decimal_reads_back(block_size as nat);
    crate::number::law_decimal_reads_back(other as nat);
    assert((prefix + a).skip(prefix.len() as int) =~= a);
    assert((prefix + b).skip(prefix.len() as int) =~= b);
}

} // verus!
