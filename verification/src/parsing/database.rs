//! The `database` subcommand: which stored results to print or drop, and
//! where the results database is.

use vstd::prelude::*;

use crate::config::benchmark::BenchmarkPoint;
use crate::database::utilities::BenchmarkFilters;
use crate::parsing::benchmark_setup::{parse_points, parse_points_spec};
use crate::parsing::{DropDatabaseParams, PrintDatabaseParams, Subcommands};
use crate::text::{path_join, path_join_spec, split_all, split_spec};

verus! {

/// The file name of the results database in the home directory.
pub const DEFAULT_DB_FILE: &'static str = "SDB_benchmarker.db";

/// The default database location needs a home directory.
#[derive(Debug, Clone, Copy, PartialEq, Eq, Structural)]
pub enum DbPathError {
    NoHomeDir,
}

/// The default database location: `SDB_benchmarker.db` in the home directory
/// (`home`, when there is one).
pub fn default_db_path(home: Option<String>) -> (r: Result<String, DbPathError>)
    ensures
        home matches Some(h) ==> (r matches Ok(p) && p@ == path_join_spec(h@, "SDB_benchmarker.db"@)),
        home is None ==> r == Err::<String, DbPathError>(DbPathError::NoHomeDir),
{
    match home {
        Some(h) => Ok(path_join(h.as_str(), "SDB_benchmarker.db")),
        None => Err(DbPathError::NoHomeDir),
    }
}

/// The values of a repeated option whose values may hold several items
/// separated by `sep`: the items of each value, in order.
pub open spec fn split_each(values: Seq<Seq<char>>, sep: char) -> Seq<Seq<char>>
    decreases values.len(),
{
    if values.len() == 0 {
        Seq::empty()
    } else {
        split_each(values.drop_last(), sep) + split_spec(values.last(), sep)
    }
}

/// The items of each value, split at `sep`, in order.
pub fn split_values(values: &Vec<String>, sep: char) -> (r: Vec<String>)
    ensures
        r@.map_values(|s: String| s@) == split_each(values@.map_values(|s: String| s@), sep),
{
    let ghost views = values@.map_values(|s: String| s@);
    let mut out: Vec<String> = Vec::new();
    let mut i: usize = 0;
    while i < values.len()
        invariant
            i <= values.len(),
            views == values@.map_values(|s: String| s@),
            out@.map_values(|s: String| s@) == split_each(views.take(i as int), sep),
        decreases values.len() - i,
    {
        assert(views.take(i + 1).drop_last() =~= views.take(i as int));
        assert(views.take(i + 1).last() == values@[i as int]@);
        let pieces = split_all(values[i].as_str(), sep);
        let ghost before = out@.map_values(|s: String| s@);
        let mut k: usize = 0;
        while k < pieces.len()
            invariant
                k <= pieces.len(),
                out@.map_values(|s: String| s@) == before + pieces@.map_values(|s: String| s@).take(k as int),
            decreases pieces.len() - k,
        {
            assert(pieces@.map_values(|s: String| s@)[k as int] == pieces@[k as int]@);
            let ghost mid = out@.map_values(|s: String| s@);
            let item = pieces[k].clone();
            out.push(item);
            assert(out@.map_values(|s: String| s@) =~= mid.push(item@));
            assert(pieces@.map_values(|s: String| s@).take(k + 1) =~= pieces@.map_values(|s: String| s@).take(
                k as int,
            ).push(item@));
            assert(out@.map_values(|s: String| s@) =~= before + pieces@.map_values(|s: String| s@).take(k + 1));
            k = k + 1;
        }
        assert(pieces@.map_values(|s: String| s@).take(pieces.len() as int) =~= pieces@.map_values(|s: String| s@));
        i = i + 1;
    }
    assert(views.take(values.len() as int) =~= views);
    out
}

/// A `--benchmark-point` item is not a number.
#[derive(Debug, Clone, Copy, PartialEq, Eq, Structural)]
pub enum FilterParsingError {
    InvalidPoint,
}

/// The filters given to `database print` or `database drop`: each option may
/// be repeated and each value may list items separated by `:`.
#[derive(Debug)]
pub struct InputDatabaseFilters {
    pub commit_hashes: Vec<String>,
    pub benchmark_names: Vec<String>,
    pub benchmark_points: Vec<BenchmarkPoint>,
    pub measurement_methods: Vec<String>,
}

impl InputDatabaseFilters {
    /// The filters from the raw option values: each split at `:`; every
    /// point item must be a number.
    pub fn from_args(
        commit_hashes: &Vec<String>,
        benchmark_names: &Vec<String>,
        benchmark_points: &Vec<String>,
        measurement_methods: &Vec<String>,
    ) -> (r: Result<InputDatabaseFilters, FilterParsingError>)
        ensures
            match parse_points_spec(split_each(benchmark_points@.map_values(|s: String| s@), ':')) {
                None => r == Err::<InputDatabaseFilters, FilterParsingError>(FilterParsingError::InvalidPoint),
                Some(points) => r matches Ok(f)
                    && f.commit_hashes@.map_values(|s: String| s@) == split_each(commit_hashes@.map_values(|s: String| s@), ':')
                    && f.benchmark_names@.map_values(|s: String| s@) == split_each(benchmark_names@.map_values(|s: String| s@), ':')
                    && f.benchmark_points@ == points
                    && f.measurement_methods@.map_values(|s: String| s@) == split_each(
                        measurement_methods@.map_values(|s: String| s@),
                        ':',
                    ),
            },
    {
        let point_items = split_values(benchmark_points, ':');
        let points = match parse_points(&point_items) {
            Some(p) => p,
            None => return Err(FilterParsingError::InvalidPoint),
        };
        Ok(InputDatabaseFilters {
            commit_hashes: split_values(commit_hashes, ':'),
            benchmark_names: split_values(benchmark_names, ':'),
            benchmark_points: points,
            measurement_methods: split_values(measurement_methods, ':'),
        })
    }

    /// The database filters: the given columns restricted, every driver.
    pub fn into_filters(self) -> (r: BenchmarkFilters)
        ensures
            r.commit_hashes@ == self.commit_hashes@,
            r.benchmark_names@ == self.benchmark_names@,
            r.driver_names@.len() == 0,
            r.benchmark_points@ == self.benchmark_points@,
            r.measurement_methods@ == self.measurement_methods@,
    {
        BenchmarkFilters {
            commit_hashes: self.commit_hashes,
            benchmark_names: self.benchmark_names,
            driver_names: Vec::new(),
            benchmark_points: self.benchmark_points,
            measurement_methods: self.measurement_methods,
        }
    }
}

/// What to do with the selected results.
#[derive(Debug)]
pub enum DatabaseCommandINPUT {
    Print { filters: InputDatabaseFilters },
    Drop { filters: InputDatabaseFilters },
}

/// The `database` subcommand.
#[derive(Debug)]
pub struct DatabaseArgs {
    pub command: DatabaseCommandINPUT,
}

impl DatabaseArgs {
    /// The request: print or drop the results the filters select.
    pub fn finalize(self) -> (r: Subcommands)
        ensures
            match self.command {
                DatabaseCommandINPUT::Print { filters } => r matches Subcommands::PrintDatabase(p)
                    && p.filters.commit_hashes@ == filters.commit_hashes@
                    && p.filters.benchmark_names@ == filters.benchmark_names@
                    && p.filters.driver_names@.len() == 0
                    && p.filters.benchmark_points@ == filters.benchmark_points@
                    && p.filters.measurement_methods@ == filters.measurement_methods@,
                DatabaseCommandINPUT::Drop { filters } => r matches Subcommands::DropDatabase(p)
                    && p.filters.commit_hashes@ == filters.commit_hashes@
                    && p.filters.benchmark_names@ == filters.benchmark_names@
                    && p.filters.driver_names@.len() == 0
                    && p.filters.benchmark_points@ == filters.benchmark_points@
                    && p.filters.measurement_methods@ == filters.measurement_methods@,
            },
    {
        match self.command {
            DatabaseCommandINPUT::Print { filters } => Subcommands::PrintDatabase(
                PrintDatabaseParams { filters: filters.into_filters() },
            ),
            DatabaseCommandINPUT::Drop { filters } => Subcommands::DropDatabase(
                DropDatabaseParams { filters: filters.into_filters() },
            ),
        }
    }
}

} // verus!
