//! The keys, values and filters of the results database.

use vstd::prelude::*;

use crate::command::copy_strings;
use crate::commit_hash::CommitHash;
use crate::config::benchmark::BenchmarkPoint;

verus! {

/// The key of one stored result.
#[derive(Debug, PartialEq, Eq)]
pub struct BenchmarkParams {
    pub commit_hash: CommitHash,
    pub benchmark_name: String,
    pub driver_name: String,
    pub benchmark_point: BenchmarkPoint,
    pub measurement_method: String,
}

/// The abstract value of a result key.
pub struct BenchmarkParamsView {
    pub commit_hash: Seq<char>,
    pub benchmark_name: Seq<char>,
    pub driver_name: Seq<char>,
    pub benchmark_point: BenchmarkPoint,
    pub measurement_method: Seq<char>,
}

impl View for BenchmarkParams {
    type V = BenchmarkParamsView;

    open spec fn view(&self) -> BenchmarkParamsView {
        BenchmarkParamsView {
            commit_hash: self.commit_hash@,
            benchmark_name: self.benchmark_name@,
            driver_name: self.driver_name@,
            benchmark_point: self.benchmark_point,
            measurement_method: self.measurement_method@,
        }
    }
}

impl Clone for BenchmarkParams {
    fn clone(&self) -> (r: Self)
        ensures
            r@ == self@,
    {
        BenchmarkParams {
            commit_hash: self.commit_hash.clone(),
            benchmark_name: self.benchmark_name.clone(),
            driver_name: self.driver_name.clone(),
            benchmark_point: self.benchmark_point,
            measurement_method: self.measurement_method.clone(),
        }
    }
}

impl BenchmarkParams {
    /// The key made of its five parts.
    pub fn new(
        commit_hash: CommitHash,
        benchmark_name: String,
        driver_name: String,
        benchmark_point: BenchmarkPoint,
        measurement_method: String,
    ) -> (r: BenchmarkParams)
        ensures
            r@ == (BenchmarkParamsView {
                commit_hash: commit_hash@,
                benchmark_name: benchmark_name@,
                driver_name: driver_name@,
                benchmark_point,
                measurement_method: measurement_method@,
            }),
    {
        BenchmarkParams { commit_hash, benchmark_name, driver_name, benchmark_point, measurement_method }
    }
}

/// The parts of a key shared by all points of one scenario run.
#[derive(Debug)]
pub struct BenchmarkParamsBuilder {
    pub commit_hash: CommitHash,
    pub benchmark_name: String,
    pub driver_name: String,
    pub measurement_method: String,
}

impl BenchmarkParamsBuilder {
    /// The shared parts of the keys of a scenario run.
    pub fn new(commit_hash: CommitHash, benchmark_name: String, driver_name: String, measurement_method: String) -> (r: BenchmarkParamsBuilder)
        ensures
            r.commit_hash@ == commit_hash@,
            r.benchmark_name@ == benchmark_name@,
            r.driver_name@ == driver_name@,
            r.measurement_method@ == measurement_method@,
    {
        BenchmarkParamsBuilder { commit_hash, benchmark_name, driver_name, measurement_method }
    }

    /// The key of one point.
    pub fn finalize(&self, point: BenchmarkPoint) -> (r: BenchmarkParams)
        ensures
            r@ == (BenchmarkParamsView {
                commit_hash: self.commit_hash@,
                benchmark_name: self.benchmark_name@,
                driver_name: self.driver_name@,
                benchmark_point: point,
                measurement_method: self.measurement_method@,
            }),
    {
        BenchmarkParams::new(
            self.commit_hash.clone(),
            self.benchmark_name.clone(),
            self.driver_name.clone(),
            point,
            self.measurement_method.clone(),
        )
    }
}

/// One stored result.
#[derive(Debug, Clone, PartialEq, Eq)]
pub enum BenchmarkRecord {
    /// What the measurement printed.
    Data(String),
    /// A file the measurement wrote.
    FilePath(String),
    /// The run did not finish in time.
    Timeout,
    /// Mean and standard deviation of repeated timings, in seconds, each kept
    /// as the bit pattern of a 64-bit float.
    TimedData { mean_bits: u64, stddev_bits: u64 },
}

impl BenchmarkRecord {
    /// Whether the run did not finish in time.
    pub fn is_timeout(&self) -> (r: bool)
        ensures
            r == (*self is Timeout),
    {
        match self {
            BenchmarkRecord::Timeout => true,
            _ => false,
        }
    }
}

/// Where a result came from: the api and the benchmarks repository version.
#[derive(Debug, Clone, PartialEq, Eq)]
pub struct Provenance {
    pub api: String,
    pub benchmarks_commit: String,
}

/// Selects results: each non-empty list restricts its column to its values.
#[derive(Debug)]
pub struct BenchmarkFilters {
    pub commit_hashes: Vec<String>,
    pub benchmark_names: Vec<String>,
    pub driver_names: Vec<String>,
    pub benchmark_points: Vec<BenchmarkPoint>,
    pub measurement_methods: Vec<String>,
}

impl BenchmarkFilters {
    /// Selects every result.
    pub fn all() -> (r: BenchmarkFilters)
        ensures
            r.commit_hashes@.len() == 0,
            r.benchmark_names@.len() == 0,
            r.driver_names@.len() == 0,
            r.benchmark_points@.len() == 0,
            r.measurement_methods@.len() == 0,
    {
        BenchmarkFilters {
            commit_hashes: Vec::new(),
            benchmark_names: Vec::new(),
            driver_names: Vec::new(),
            benchmark_points: Vec::new(),
            measurement_methods: Vec::new(),
        }
    }

    /// Selects exactly the result stored under `params`.
    pub fn filter_exact_param(params: &BenchmarkParams) -> (r: BenchmarkFilters)
        ensures
            r.commit_hashes@.len() == 1 && r.commit_hashes@[0]@ == params@.commit_hash,
            r.benchmark_names@.len() == 1 && r.benchmark_names@[0]@ == params@.benchmark_name,
            r.driver_names@.len() == 1 && r.driver_names@[0]@ == params@.driver_name,
            r.benchmark_points@ == seq![params.benchmark_point],
            r.measurement_methods@.len() == 1 && r.measurement_methods@[0]@ == params@.measurement_method,
    {
        let mut commit_hashes: Vec<String> = Vec::new();
        commit_hashes.push(params.commit_hash.to_string());
        let mut benchmark_names: Vec<String> = Vec::new();
        benchmark_names.push(params.benchmark_name.clone());
        let mut driver_names: Vec<String> = Vec::new();
        driver_names.push(params.driver_name.clone());
        let mut benchmark_points: Vec<BenchmarkPoint> = Vec::new();
        benchmark_points.push(params.benchmark_point);
        let mut measurement_methods: Vec<String> = Vec::new();
        measurement_methods.push(params.measurement_method.clone());
        assert(benchmark_points@ =~= seq![params.benchmark_point]);
        BenchmarkFilters { commit_hashes, benchmark_names, driver_names, benchmark_points, measurement_methods }
    }

    /// Selects the results of one scenario, version and method, of every driver.
    pub fn for_driver_names(commit_hash: &CommitHash, benchmark_name: &str, measurement_method: &str) -> (r: BenchmarkFilters)
        ensures
            r.commit_hashes@.len() == 1 && r.commit_hashes@[0]@ == commit_hash@,
            r.benchmark_names@.len() == 1 && r.benchmark_names@[0]@ == benchmark_name@,
            r.driver_names@.len() == 0,
            r.benchmark_points@.len() == 0,
            r.measurement_methods@.len() == 1 && r.measurement_methods@[0]@ == measurement_method@,
    {
        let mut commit_hashes: Vec<String> = Vec::new();
        commit_hashes.push(commit_hash.to_string());
        let mut benchmark_names: Vec<String> = Vec::new();
        benchmark_names.push(benchmark_name.to_owned());
        let mut measurement_methods: Vec<String> = Vec::new();
        measurement_methods.push(measurement_method.to_owned());
        BenchmarkFilters {
            commit_hashes,
            benchmark_names,
            driver_names: Vec::new(),
            benchmark_points: Vec::new(),
            measurement_methods,
        }
    }
}

} // verus!
