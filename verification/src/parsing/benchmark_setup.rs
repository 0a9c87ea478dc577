//! `--benchmark-setup`: a scenarios configuration file, or literal points.

use vstd::prelude::*;

use crate::config::backend::FindOutcome;
use crate::config::benchmark::{
    BenchmarkConfigList, BenchmarkData, BenchmarkDataView, BenchmarkPoint, ParamMode, data_of,
    find_benchmark, points_computable, points_sorted, sort_points,
};
use crate::config::{find_config, ConfigError};
use crate::number::{parse_u64, parse_unsigned};
use crate::parsing::ParsingError;
use crate::text::{owned, split_all, split_spec, lemma_split_nonempty};

verus! {

/// Where the scenario comes from.
#[derive(Debug)]
pub enum BenchmarkSetup {
    /// A scenarios configuration file.
    Path(String),
    /// Literal points, with every other setting at its default.
    Points(Vec<BenchmarkPoint>),
}

/// The abstract value of a benchmark setup.
pub enum BenchmarkSetupView {
    Path(Seq<char>),
    Points(Seq<BenchmarkPoint>),
}

impl View for BenchmarkSetup {
    type V = BenchmarkSetupView;

    open spec fn view(&self) -> BenchmarkSetupView {
        match self {
            BenchmarkSetup::Path(p) => BenchmarkSetupView::Path(p@),
            BenchmarkSetup::Points(v) => BenchmarkSetupView::Points(v@),
        }
    }
}

/// A list of points that starts with a number has a piece that is not one.
#[derive(Debug, Clone, Copy, PartialEq, Eq, Structural)]
pub enum BenchmarkSetupError {
    FailedParsingPoint,
}

/// The numbers that the pieces denote, or `None` when one of them is not a
/// number that fits in a point.
pub open spec fn parse_points_spec(pieces: Seq<Seq<char>>) -> Option<Seq<BenchmarkPoint>>
    decreases pieces.len(),
{
    if pieces.len() == 0 {
        Some(Seq::empty())
    } else {
        match parse_points_spec(pieces.drop_last()) {
            None => None,
            Some(ps) => match parse_unsigned(pieces.last(), u64::MAX as int) {
                Some(n) => Some(ps.push(n as u64)),
                None => None,
            },
        }
    }
}

/// What a `--benchmark-setup` value denotes: when the text before its first
/// comma is a number, the comma-separated points (each must be a number);
/// otherwise the path of a scenarios configuration.
pub open spec fn setup_spec(s: Seq<char>) -> Result<BenchmarkSetupView, BenchmarkSetupError> {
    let pieces = split_spec(s, ',');
    if parse_unsigned(pieces[0], u64::MAX as int) is None {
        Ok(BenchmarkSetupView::Path(s))
    } else {
        match parse_points_spec(pieces) {
            Some(ps) => Ok(BenchmarkSetupView::Points(ps)),
            None => Err(BenchmarkSetupError::FailedParsingPoint),
        }
    }
}

/// The numbers that the pieces denote, or `None` when one of them is not one.
pub fn parse_points(pieces: &Vec<String>) -> (r: Option<Vec<BenchmarkPoint>>)
    ensures
        match r {
            Some(v) => parse_points_spec(pieces@.map_values(|p: String| p@)) == Some(v@),
            None => parse_points_spec(pieces@.map_values(|p: String| p@)) is None,
        },
{
    let ghost views = pieces@.map_values(|p: String| p@);
    let mut points: Vec<BenchmarkPoint> = Vec::new();
    let mut i: usize = 0;
    while i < pieces.len()
        invariant
            i <= pieces.len(),
            views == pieces@.map_values(|p: String| p@),
            parse_points_spec(views.take(i as int)) == Some(points@),
        decreases pieces.len() - i,
    {
        assert(views.take(i + 1).drop_last() =~= views.take(i as int));
        assert(views.take(i + 1).last() == pieces@[i as int]@);
        match parse_u64(pieces[i].as_str()) {
            Some(n) => {
                points.push(n);
            },
            None => {
                proof {
                    lemma_parse_points_fails(views, (i + 1) as int);
                }
                return None;
            },
        }
        i = i + 1;
    }
    assert(views.take(pieces.len() as int) =~= views);
    Some(points)
}

/// Once a prefix of the pieces fails to parse, all of them do.
pub proof fn lemma_parse_points_fails(pieces: Seq<Seq<char>>, k: int)
    requires
        0 <= k <= pieces.len(),
        parse_points_spec(pieces.take(k)) is None,
    ensures
        parse_points_spec(pieces) is None,
    decreases pieces.len() - k,
{
    if k < pieces.len() {
        assert(pieces.take(k + 1).drop_last() =~= pieces.take(k));
        lemma_parse_points_fails(pieces, k + 1);
    } else {
        assert(pieces.take(k) =~= pieces);
    }
}

/// The abstract value of a parsing result.
pub open spec fn setup_result_view(r: Result<BenchmarkSetup, BenchmarkSetupError>) -> Result<BenchmarkSetupView, BenchmarkSetupError> {
    match r {
        Ok(s) => Ok(s@),
        Err(e) => Err(e),
    }
}

/// A scenario of literal points: named `name`, running the workload of the
/// same name once per point, in ascending order, with no timeout.
pub open spec fn points_data(name: Seq<char>, points: Seq<BenchmarkPoint>, d: BenchmarkDataView) -> bool {
    &&& d.name == name
    &&& d.workload == name
    &&& d.param_mode == ParamMode::Count
    &&& points_sorted(d.points)
    &&& d.points.to_multiset() == points.to_multiset()
    &&& d.timeout is None
    &&& d.num_runs == 1
    &&& d.measure is None
}

impl BenchmarkSetup {
    /// Reads a `--benchmark-setup` value (see `setup_spec`).
    pub fn from_str(s: &str) -> (r: Result<BenchmarkSetup, BenchmarkSetupError>)
        ensures
            setup_result_view(r) == setup_spec(s@),
    {
        let pieces = split_all(s, ',');
        proof {
            lemma_split_nonempty(s@, ',');
        }
        assert(pieces@.map_values(|p: String| p@)[0] == pieces@[0]@);
        match parse_u64(pieces[0].as_str()) {
            None => Ok(BenchmarkSetup::Path(owned(s))),
            Some(_) => match parse_points(&pieces) {
                Some(points) => Ok(BenchmarkSetup::Points(points)),
                None => Err(BenchmarkSetupError::FailedParsingPoint),
            },
        }
    }

    /// The scenario `name` of this setup. For a path, `loaded` is what
    /// reading that configuration gave; literal points are sorted.
    pub fn into_config(self, name: &str, loaded: Option<Result<BenchmarkConfigList, ConfigError>>) -> (r: Result<BenchmarkData, ConfigError>)
        requires
            self is Path <==> loaded is Some,
            loaded matches Some(Ok(list)) ==> (find_benchmark(list.merged_view(), name@) matches FindOutcome::Found(i)
                ==> points_computable(list.merged_view()[i])),
        ensures
            match self@ {
                BenchmarkSetupView::Points(ps) => r matches Ok(d) && points_data(name@, ps, d@),
                BenchmarkSetupView::Path(path) => match loaded {
                    Some(Err(e)) => r == Err::<BenchmarkData, ConfigError>(e),
                    Some(Ok(list)) => match find_benchmark(list.merged_view(), name@) {
                        FindOutcome::Found(i) => r matches Ok(d) && d@ == data_of(list.merged_view()[i]),
                        _ => r matches Err(ConfigError::ConfigurationNotFound { path: p, benchmark_name: n })
                            && p@ == path && n@ == name@,
                    },
                    None => false,
                },
            },
    {
        match self {
            BenchmarkSetup::Path(path) => match loaded {
                Some(Ok(list)) => match find_config(name, &list, path.as_str()) {
                    Ok(c) => Ok(BenchmarkData::from_config(c)),
                    Err(e) => Err(e),
                },
                Some(Err(e)) => Err(e),
                None => Err(ConfigError::ConfigurationNotFound { path, benchmark_name: owned(name) }),
            },
            BenchmarkSetup::Points(points) => {
                let sorted = sort_points(points);
                Ok(BenchmarkData {
                    name: owned(name),
                    workload: owned(name),
                    param_mode: ParamMode::default_mode(),
                    points: sorted,
                    timeout: None,
                    num_runs: 1,
                    measure: None,
                })
            },
        }
    }

    /// The scenario `name` of the given setup, or `NoBenchmarkConfiguration`
    /// when there is none (see `into_config`).
    pub fn finalize(setup: Option<BenchmarkSetup>, name: &str, loaded: Option<Result<BenchmarkConfigList, ConfigError>>) -> (r: Result<BenchmarkData, ParsingError>)
        requires
            setup matches Some(s) ==> (s is Path <==> loaded is Some),
            loaded matches Some(Ok(list)) ==> (find_benchmark(list.merged_view(), name@) matches FindOutcome::Found(i)
                ==> points_computable(list.merged_view()[i])),
        ensures
            setup is None ==> r matches Err(ParsingError::NoBenchmarkConfiguration),
            setup matches Some(s) ==> match s@ {
                BenchmarkSetupView::Points(ps) => r matches Ok(d) && points_data(name@, ps, d@),
                BenchmarkSetupView::Path(path) => match loaded {
                    Some(Err(e)) => r matches Err(ParsingError::BenchmarkConfigError(x)) && x == e,
                    Some(Ok(list)) => match find_benchmark(list.merged_view(), name@) {
                        FindOutcome::Found(i) => r matches Ok(d) && d@ == data_of(list.merged_view()[i]),
                        _ => r matches Err(ParsingError::BenchmarkConfigError(
                            ConfigError::ConfigurationNotFound { path: p, benchmark_name: n },
                        )) && p@ == path && n@ == name@,
                    },
                    None => false,
                },
            },
    {
        match setup {
            Some(s) => match s.into_config(name, loaded) {
                Ok(d) => Ok(d),
                Err(e) => Err(ParsingError::BenchmarkConfigError(e)),
            },
            None => Err(ParsingError::NoBenchmarkConfiguration),
        }
    }
}

} // verus!
