//! The `run` subcommand: how runs are measured, whether stored results are
//! kept, and which driver is under test.

use vstd::prelude::*;

use crate::benchmarking::{BenchMeasure, BenchmarkMode};
use crate::command::Command;
use crate::config::driver::DriverSpec;
use crate::flame_graph::FlameFrequency;
use crate::parsing::ParsingError;

verus! {

/// `--benchmark-mode`.
#[derive(Debug, Clone, Copy, PartialEq, Eq, Structural)]
pub enum InputBenchmarkMode {
    UseCached,
    ForceRerun,
}

impl InputBenchmarkMode {
    /// The mode named.
    pub fn finalize(self) -> (r: BenchmarkMode)
        ensures
            self == InputBenchmarkMode::UseCached ==> r == BenchmarkMode::UseCached,
            self == InputBenchmarkMode::ForceRerun ==> r == BenchmarkMode::ForceRerun,
    {
        match self {
            InputBenchmarkMode::UseCached => BenchmarkMode::UseCached,
            InputBenchmarkMode::ForceRerun => BenchmarkMode::ForceRerun,
        }
    }
}

/// The options of flame-graph measurements.
#[derive(Debug, Clone)]
pub struct FlameOptions {
    pub flame_repo: String,
    pub frequency: FlameFrequency,
    /// Directory in which to store the results.
    pub store_dir: String,
}

/// What the store directory turned out to be on disk.
#[derive(Debug, Clone)]
pub enum StoreDirState {
    /// A directory, at this absolute path.
    Directory(String),
    /// Something else than a directory.
    NotADirectory,
    /// Its absolute path could not be obtained, for this reason.
    Unresolvable(String),
}

impl FlameOptions {
    /// The flame-graph measurement, given what the store directory is on disk:
    /// it must be a directory, and its absolute path is kept.
    pub fn finalize(self, store_dir: StoreDirState) -> (r: Result<BenchMeasure, ParsingError>)
        ensures
            match store_dir {
                StoreDirState::Directory(d) => r matches Ok(BenchMeasure::FlameGraph { flame_repo, frequency, store_dir: s })
                    && flame_repo == self.flame_repo && frequency == self.frequency && s == d,
                StoreDirState::NotADirectory => r matches Err(ParsingError::StoreDirNotADir),
                StoreDirState::Unresolvable(m) => r matches Err(ParsingError::FailedCanonicalizing(x)) && x == m,
            },
    {
        match store_dir {
            StoreDirState::Directory(d) => Ok(BenchMeasure::FlameGraph {
                flame_repo: self.flame_repo,
                frequency: self.frequency,
                store_dir: d,
            }),
            StoreDirState::NotADirectory => Err(ParsingError::StoreDirNotADir),
            StoreDirState::Unresolvable(m) => Err(ParsingError::FailedCanonicalizing(m)),
        }
    }
}

/// How runs are measured, as asked for.
#[derive(Debug)]
pub enum MeasureSubcommand {
    Time,
    PerfStat,
    FlameGraph(FlameOptions),
    Command { command: Command },
}

impl MeasureSubcommand {
    /// The measurement asked for; for flame graphs, `store_dir` is what the
    /// store directory is on disk (unused otherwise).
    pub fn finalize(self, store_dir: StoreDirState) -> (r: Result<BenchMeasure, ParsingError>)
        ensures
            self is Time ==> r matches Ok(BenchMeasure::Time),
            self is PerfStat ==> r matches Ok(BenchMeasure::PerfStat),
            self matches MeasureSubcommand::Command { command } ==> r matches Ok(BenchMeasure::Command(c)) && c == command,
            self matches MeasureSubcommand::FlameGraph(o) ==> match store_dir {
                StoreDirState::Directory(d) => r matches Ok(BenchMeasure::FlameGraph { flame_repo, frequency, store_dir: s })
                    && flame_repo == o.flame_repo && frequency == o.frequency && s == d,
                StoreDirState::NotADirectory => r matches Err(ParsingError::StoreDirNotADir),
                StoreDirState::Unresolvable(m) => r matches Err(ParsingError::FailedCanonicalizing(x)) && x == m,
            },
    {
        match self {
            MeasureSubcommand::Time => Ok(BenchMeasure::Time),
            MeasureSubcommand::PerfStat => Ok(BenchMeasure::PerfStat),
            MeasureSubcommand::FlameGraph(options) => options.finalize(store_dir),
            MeasureSubcommand::Command { command } => Ok(BenchMeasure::Command(command)),
        }
    }
}

/// The driver under test, recorded under `name` when one is given.
pub fn with_driver_name(driver: DriverSpec, name: Option<String>) -> (r: DriverSpec)
    ensures
        name matches Some(n) ==> r == (DriverSpec { name: n, ..driver }),
        name is None ==> r == driver,
{
    match name {
        Some(n) => DriverSpec { name: n, ..driver },
        None => driver,
    }
}

} // verus!
