//! Benchmarking drivers: commands, configurations, result records and the
//! decisions taken while measuring and plotting them.

pub mod text;
pub mod command;
pub mod number;
pub mod process;
pub mod commit_hash;
pub mod measurement;
pub mod flame_graph;
pub mod config;
pub mod database;
pub mod benchmarking;
pub mod plotting;
pub mod parsing;
pub mod perf_stat;

use vstd::prelude::*;

verus! {

} // verus!
