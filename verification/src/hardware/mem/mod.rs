//! The memory hierarchy below the pipeline.

pub mod abstract_mem;
pub mod general_cache;
pub mod simple_dram;
