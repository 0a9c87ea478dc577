//! What the command line asks for: the values given to each subcommand, and
//! the decisions that turn them into a benchmarking session, a plot request
//! or a database query.

pub mod benchmark;
pub mod benchmark_setup;
pub mod database;
pub mod plot;

use vstd::prelude::*;

use crate::benchmarking::{BenchMeasure, BenchmarkMode, Session};
use crate::config::api::ApiConfigError;
use crate::config::benchmark::{BenchmarkData, BenchmarkDataView};
use crate::config::driver::DriverSpecError;
use crate::config::ConfigError;
use crate::database::utilities::BenchmarkFilters;
use crate::parsing::database::DbPathError;
use crate::parsing::plot::DriverWithCommitParsingError;
use crate::plotting::{DriverWithCommit, PlotSettings};
use crate::text::{owned, path_join, path_join_spec, str_eq};

verus! {

/// Why the command line could not be turned into a request.
#[derive(Debug)]
pub enum ParsingError {
    DatabasePathAccess(DbPathError),
    DatabaseInitialization(String),
    SeriesError(DriverWithCommitParsingError),
    BenchmarkConfigError(ConfigError),
    DriverSpec(DriverSpecError),
    ApiConfig(ApiConfigError),
    /// A requested scenario is not in the scenarios configuration.
    UnknownScenario { name: String, config_path: String },
    FailedCanonicalizing(String),
    /// The directory to store flame graphs in is not a directory.
    StoreDirNotADir,
    /// No scenario configuration was given.
    NoBenchmarkConfiguration,
}

/// A benchmarking session to run.
#[derive(Debug)]
pub struct BenchmarkParams {
    pub bench_measure: BenchMeasure,
    pub session: Session,
    pub benchmarks: Vec<BenchmarkData>,
    pub benchmark_mode: BenchmarkMode,
    pub keep_going: bool,
}

/// A plot to make.
#[derive(Debug)]
pub struct PlotParams {
    pub benchmarks: Vec<BenchmarkData>,
    pub series: Vec<DriverWithCommit>,
    pub plot_settings: PlotSettings,
}

/// Stored results to print.
#[derive(Debug)]
pub struct PrintDatabaseParams {
    pub filters: BenchmarkFilters,
}

/// Stored results to drop.
#[derive(Debug)]
pub struct DropDatabaseParams {
    pub filters: BenchmarkFilters,
}

/// The request made on the command line.
#[derive(Debug)]
pub enum Subcommands {
    Benchmark(BenchmarkParams),
    Plot(PlotParams),
    PrintDatabase(PrintDatabaseParams),
    DropDatabase(DropDatabaseParams),
}

/// The position of the first scenario named `name`.
pub open spec fn scenario_index(all: Seq<BenchmarkDataView>, name: Seq<char>) -> Option<int>
    decreases all.len(),
{
    if all.len() == 0 {
        None
    } else if all[0].name == name {
        Some(0)
    } else {
        match scenario_index(all.drop_first(), name) {
            Some(i) => Some(i + 1),
            None => None,
        }
    }
}

/// The scenarios named by `names`, in that order, each the first one of its
/// name; or the first name that no scenario has.
pub open spec fn selected_scenarios(all: Seq<BenchmarkDataView>, names: Seq<Seq<char>>) -> Result<Seq<BenchmarkDataView>, Seq<char>>
    decreases names.len(),
{
    if names.len() == 0 {
        Ok(Seq::empty())
    } else {
        match selected_scenarios(all, names.drop_last()) {
            Err(n) => Err(n),
            Ok(s) => match scenario_index(all, names.last()) {
                Some(i) => Ok(s.push(all[i])),
                None => Err(names.last()),
            },
        }
    }
}

/// `scenario_index` finds the first scenario with the name.
pub proof fn lemma_scenario_index(all: Seq<BenchmarkDataView>, name: Seq<char>)
    ensures
        match scenario_index(all, name) {
            Some(i) => 0 <= i < all.len() && all[i].name == name && forall|j: int| 0 <= j < i ==> all[j].name != name,
            None => forall|j: int| 0 <= j < all.len() ==> all[j].name != name,
        },
    decreases all.len(),
{
    if all.len() > 0 && all[0].name != name {
        lemma_scenario_index(all.drop_first(), name);
        assert forall|j: int| 0 < j < all.len() implies all[j] == all.drop_first()[j - 1] by {}
    }
}

/// The position of the first scenario named `name` in `all`.
fn find_scenario(all: &Vec<BenchmarkData>, name: &str) -> (r: Option<usize>)
    ensures
        match r {
            Some(i) => scenario_index(all@.map_values(|b: BenchmarkData| b@), name@) == Some(i as int),
            None => scenario_index(all@.map_values(|b: BenchmarkData| b@), name@) is None,
        },
{
    let ghost views = all@.map_values(|b: BenchmarkData| b@);
    proof {
        lemma_scenario_index(views, name@);
    }
    let mut i: usize = 0;
    while i < all.len()
        invariant
            i <= all.len(),
            views == all@.map_values(|b: BenchmarkData| b@),
            forall|j: int| 0 <= j < i ==> views[j].name != name@,
            match scenario_index(views, name@) {
                Some(k) => 0 <= k < views.len() && views[k].name == name@ && forall|j: int| 0 <= j < k ==> views[j].name != name@,
                None => forall|j: int| 0 <= j < views.len() ==> views[j].name != name@,
            },
        decreases all.len() - i,
    {
        assert(views[i as int] == all@[i as int]@);
        if str_eq(all[i].name.as_str(), name) {
            return Some(i);
        }
        i = i + 1;
    }
    None
}

/// The scenarios to run: all of them when none is named; otherwise those
/// named, in the order given, or `UnknownScenario` for the first name that no
/// scenario of the configuration read from `config_path` has.
pub fn select_scenarios(all: &Vec<BenchmarkData>, names: &Vec<String>, config_path: &str) -> (r: Result<Vec<BenchmarkData>, ParsingError>)
    ensures
        names.len() == 0 ==> (r matches Ok(v) && v@.map_values(|b: BenchmarkData| b@) == all@.map_values(
            |b: BenchmarkData| b@,
        )),
        names.len() > 0 ==> match selected_scenarios(
            all@.map_values(|b: BenchmarkData| b@),
            names@.map_values(|n: String| n@),
        ) {
            Ok(s) => r matches Ok(v) && v@.map_values(|b: BenchmarkData| b@) == s,
            Err(missing) => r matches Err(ParsingError::UnknownScenario { name, config_path: p })
                && name@ == missing && p@ == config_path@,
        },
{
    let ghost views = all@.map_values(|b: BenchmarkData| b@);
    let ghost wanted = names@.map_values(|n: String| n@);
    let mut selected: Vec<BenchmarkData> = Vec::new();
    if names.len() == 0 {
        let mut i: usize = 0;
        while i < all.len()
            invariant
                i <= all.len(),
                views == all@.map_values(|b: BenchmarkData| b@),
                selected@.map_values(|b: BenchmarkData| b@) == views.take(i as int),
            decreases all.len() - i,
        {
            let ghost before = selected@.map_values(|b: BenchmarkData| b@);
            let c = all[i].clone();
            assert(views[i as int] == all@[i as int]@);
            selected.push(c);
            assert(selected@.map_values(|b: BenchmarkData| b@) =~= before.push(c@));
            assert(before.push(views[i as int]) =~= views.take(i + 1));
            i = i + 1;
        }
        assert(views.take(all.len() as int) =~= views);
        return Ok(selected);
    }
    let mut k: usize = 0;
    assert(wanted.take(0) =~= Seq::<Seq<char>>::empty());
    assert(selected@.map_values(|b: BenchmarkData| b@) =~= Seq::<BenchmarkDataView>::empty());
    while k < names.len()
        invariant
            k <= names.len(),
            views == all@.map_values(|b: BenchmarkData| b@),
            wanted == names@.map_values(|n: String| n@),
            selected_scenarios(views, wanted.take(k as int)) == Ok::<Seq<BenchmarkDataView>, Seq<char>>(
                selected@.map_values(|b: BenchmarkData| b@),
            ),
        decreases names.len() - k,
    {
        let ghost before = selected@.map_values(|b: BenchmarkData| b@);
        assert(wanted.take(k + 1).drop_last() =~= wanted.take(k as int));
        assert(wanted.take(k + 1).last() == names@[k as int]@);
        match find_scenario(all, names[k].as_str()) {
            Some(i) => {
                proof {
                    lemma_scenario_index(views, names@[k as int]@);
                }
                let c = all[i].clone();
                assert(views[i as int] == all@[i as int]@);
                selected.push(c);
                assert(selected@.map_values(|b: BenchmarkData| b@) =~= before.push(views[i as int]));
            },
            None => {
                proof {
                    lemma_selected_error(views, wanted, (k + 1) as int);
                }
                return Err(ParsingError::UnknownScenario { name: names[k].clone(), config_path: owned(config_path) });
            },
        }
        k = k + 1;
    }
    assert(wanted.take(names.len() as int) =~= wanted);
    Ok(selected)
}

/// A name missing from the scenarios makes the whole selection fail on it.
pub proof fn lemma_selected_error(all: Seq<BenchmarkDataView>, names: Seq<Seq<char>>, k: int)
    requires
        0 < k <= names.len(),
        selected_scenarios(all, names.take(k - 1)) is Ok,
        scenario_index(all, names[k - 1]) is None,
    ensures
        selected_scenarios(all, names) == Err::<Seq<BenchmarkDataView>, Seq<char>>(names[k - 1]),
    decreases names.len() - k,
{
    assert(names.take(k).drop_last() =~= names.take(k - 1));
    if k < names.len() {
        assert(names.take(k + 1).drop_last() =~= names.take(k));
        lemma_selected_error_grows(all, names, k);
    } else {
        assert(names.take(k) =~= names);
    }
}

/// Once a selection fails, selecting more names fails on the same name.
pub proof fn lemma_selected_error_grows(all: Seq<BenchmarkDataView>, names: Seq<Seq<char>>, k: int)
    requires
        0 < k <= names.len(),
        selected_scenarios(all, names.take(k)) is Err,
    ensures
        selected_scenarios(all, names) == selected_scenarios(all, names.take(k)),
    decreases names.len() - k,
{
    if k < names.len() {
        assert(names.take(k + 1).drop_last() =~= names.take(k));
        lemma_selected_error_grows(all, names, k + 1);
    } else {
        assert(names.take(k) =~= names);
    }
}

/// The scenarios configuration: the one given, or `scenarios/config.yml` in
/// the benchmarks repository.
pub fn scenarios_config_path(benchmarks_path: &str, given: Option<String>) -> (r: String)
    ensures
        given matches Some(g) ==> r@ == g@,
        given is None ==> r@ == path_join_spec(path_join_spec(benchmarks_path@, "scenarios"@), "config.yml"@),
{
    match given {
        Some(g) => g,
        None => {
            let scenarios = path_join(benchmarks_path, "scenarios");
            path_join(scenarios.as_str(), "config.yml")
        },
    }
}

/// The version of the benchmarks repository recorded with results: its head
/// commit, or `unknown` when it could not be read.
pub fn benchmarks_version(head: Option<String>) -> (r: String)
    ensures
        head matches Some(h) ==> r@ == h@,
        head is None ==> r@ == "unknown"@,
{
    match head {
        Some(h) => h,
        None => owned("unknown"),
    }
}

} // verus!
