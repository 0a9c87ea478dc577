//! The `plot` subcommand: the series to draw, given as
//! `BACKEND@REPO[:REF[=ALIAS]]`, and the kind of plot.

use vstd::prelude::*;

use crate::commit_hash::{CommitHash, FailedToRetrieveCommitHash};
use crate::measurement::MeasurementMethod;
use crate::parsing::benchmark_setup::{BenchmarkSetup, BenchmarkSetupView};
use crate::parsing::ParsingError;
use crate::plotting::{DriverWithCommit, PlotKind, Quantity, Scale, VisKind};
use crate::text::{chars_of, owned, split_once, split_once_spec, str_eq, string_of_range};

verus! {

/// Why a series could not be read or resolved.
#[derive(Debug)]
pub enum DriverWithCommitParsingError {
    /// The `@` between the backend and the repository is missing.
    MissingAtSign,
    /// The backend name is empty.
    EmptyBackendName,
    /// The repository is empty.
    EmptyRepo,
    /// The reference could not be resolved in the repository.
    HashResolutionFailed(FailedToRetrieveCommitHash),
}

/// A series as written on the command line.
#[derive(Debug, Clone)]
pub struct ParsableDriverWithCommit {
    pub driver_name: String,
    pub repo: String,
    /// Git reference resolved in the repository (branch, tag or commit hash).
    pub git_ref: String,
    /// Label shown on the plot: the reference unless `=ALIAS` was given.
    pub display_tag: String,
}

/// The abstract value of a series as written.
pub struct SeriesView {
    pub driver_name: Seq<char>,
    pub repo: Seq<char>,
    pub git_ref: Seq<char>,
    pub display_tag: Seq<char>,
}

impl View for ParsableDriverWithCommit {
    type V = SeriesView;

    open spec fn view(&self) -> SeriesView {
        SeriesView {
            driver_name: self.driver_name@,
            repo: self.repo@,
            git_ref: self.git_ref@,
            display_tag: self.display_tag@,
        }
    }
}

/// `HEAD` in place of an empty reference.
pub open spec fn or_head(s: Seq<char>) -> Seq<char> {
    if s.len() == 0 {
        "HEAD"@
    } else {
        s
    }
}

/// What `BACKEND@REPO[:REF[=ALIAS]]` denotes. The backend ends at the first
/// `@`; the repository at the first `:` after it, or, with no `:`, at a `=`
/// that starts an alias. An empty or missing reference is `HEAD`. The label is
/// the alias when one is given (an empty alias included), otherwise the
/// reference.
pub open spec fn series_spec(s: Seq<char>) -> Result<SeriesView, DriverWithCommitParsingError> {
    match split_once_spec(s, '@') {
        None => Err(DriverWithCommitParsingError::MissingAtSign),
        Some((name, rest)) => if name.len() == 0 {
            Err(DriverWithCommitParsingError::EmptyBackendName)
        } else {
            match split_once_spec(rest, ':') {
                Some((repo, ref_part)) => if repo.len() == 0 {
                    Err(DriverWithCommitParsingError::EmptyRepo)
                } else {
                    let ref_with_alias = or_head(ref_part);
                    match split_once_spec(ref_with_alias, '=') {
                        Some((r, alias)) => Ok(SeriesView { driver_name: name, repo, git_ref: or_head(r), display_tag: alias }),
                        None => Ok(SeriesView { driver_name: name, repo, git_ref: ref_with_alias, display_tag: ref_with_alias }),
                    }
                },
                None => match split_once_spec(rest, '=') {
                    Some((repo, alias)) => if repo.len() == 0 {
                        Err(DriverWithCommitParsingError::EmptyRepo)
                    } else {
                        Ok(SeriesView { driver_name: name, repo, git_ref: "HEAD"@, display_tag: alias })
                    },
                    None => if rest.len() == 0 {
                        Err(DriverWithCommitParsingError::EmptyRepo)
                    } else {
                        Ok(SeriesView { driver_name: name, repo: rest, git_ref: "HEAD"@, display_tag: "HEAD"@ })
                    },
                },
            }
        },
    }
}

/// `HEAD` in place of an empty string.
fn or_head_string(s: String) -> (r: String)
    ensures
        r@ == or_head(s@),
{
    if s.unicode_len() == 0 {
        owned("HEAD")
    } else {
        s
    }
}

impl ParsableDriverWithCommit {
    /// Reads `BACKEND@REPO[:REF[=ALIAS]]` (see `series_spec`).
    pub fn from_str(s: &str) -> (r: Result<ParsableDriverWithCommit, DriverWithCommitParsingError>)
        ensures
            match series_spec(s@) {
                Ok(v) => r matches Ok(p) && p@ == v,
                Err(e) => r matches Err(x) && x == e,
            },
    {
        let (driver_name, rest) = match split_once(s, '@') {
            Some(p) => p,
            None => return Err(DriverWithCommitParsingError::MissingAtSign),
        };
        if driver_name.unicode_len() == 0 {
            return Err(DriverWithCommitParsingError::EmptyBackendName);
        }
        match split_once(rest.as_str(), ':') {
            Some((repo, ref_part)) => {
                if repo.unicode_len() == 0 {
                    return Err(DriverWithCommitParsingError::EmptyRepo);
                }
                let ref_with_alias = or_head_string(ref_part);
                match split_once(ref_with_alias.as_str(), '=') {
                    Some((r, alias)) => Ok(ParsableDriverWithCommit {
                        driver_name,
                        repo,
                        git_ref: or_head_string(r),
                        display_tag: alias,
                    }),
                    None => Ok(ParsableDriverWithCommit {
                        driver_name,
                        repo,
                        git_ref: ref_with_alias.clone(),
                        display_tag: ref_with_alias,
                    }),
                }
            },
            None => {
                let (repo, alias) = match split_once(rest.as_str(), '=') {
                    Some((repo, alias)) => (repo, alias),
                    None => (rest, owned("HEAD")),
                };
                if repo.unicode_len() == 0 {
                    return Err(DriverWithCommitParsingError::EmptyRepo);
                }
                Ok(ParsableDriverWithCommit { driver_name, repo, git_ref: owned("HEAD"), display_tag: alias })
            },
        }
    }

    /// The series to plot. `resolved` is `Some` when the repository is a
    /// directory: what resolving the reference in it gave. Otherwise the
    /// repository text itself is the version stored in the database (a commit
    /// hash, `<hash>-dirty`, or `v<version>`), and a `HEAD` label becomes its
    /// first eight characters.
    pub fn resolve(self, resolved: Option<Result<CommitHash, FailedToRetrieveCommitHash>>) -> (r: Result<DriverWithCommit, DriverWithCommitParsingError>)
        ensures
            match resolved {
                Some(Ok(h)) => r matches Ok(d) && d.driver_name@ == self.driver_name@ && d.commit == h
                    && d.tag@ == self.display_tag@,
                Some(Err(e)) => r matches Err(DriverWithCommitParsingError::HashResolutionFailed(x)) && x == e,
                None => r matches Ok(d) && d.driver_name@ == self.driver_name@ && d.commit@ == self.repo@
                    && d.tag@ == (if self.display_tag@ == "HEAD"@ {
                    self.repo@.take(if self.repo@.len() < 8 { self.repo@.len() as int } else { 8 })
                } else {
                    self.display_tag@
                }),
            },
    {
        match resolved {
            Some(Ok(commit)) => Ok(DriverWithCommit { driver_name: self.driver_name, commit, tag: self.display_tag }),
            Some(Err(e)) => Err(DriverWithCommitParsingError::HashResolutionFailed(e)),
            None => {
                let tag = if str_eq(self.display_tag.as_str(), "HEAD") {
                    let v = chars_of(self.repo.as_str());
                    let n: usize = if v.len() < 8 { v.len() } else { 8 };
                    let t = string_of_range(&v, 0, n);
                    assert(t@ =~= self.repo@.take(n as int));
                    t
                } else {
                    self.display_tag
                };
                Ok(DriverWithCommit {
                    driver_name: self.driver_name,
                    commit: CommitHash::new_unchecked(self.repo),
                    tag,
                })
            },
        }
    }
}

/// `--quantity`: what the y axis of a series plot shows.
#[derive(Debug, Clone, Copy, PartialEq, Eq, Structural)]
pub enum InputQuantity {
    Time,
    Throughput,
}

/// `--visualization-kind`: the scaling of the y axis.
#[derive(Debug, Clone, Copy, PartialEq, Eq, Structural)]
pub enum InputScale {
    Linear,
    Log,
}

impl InputQuantity {
    /// The quantity named.
    pub fn finalize(self) -> (r: Quantity)
        ensures
            self == InputQuantity::Time ==> r == Quantity::Time,
            self == InputQuantity::Throughput ==> r == Quantity::Throughput,
    {
        match self {
            InputQuantity::Time => Quantity::Time,
            InputQuantity::Throughput => Quantity::Throughput,
        }
    }
}

impl InputScale {
    /// The scale named.
    pub fn finalize(self) -> (r: Scale)
        ensures
            self == InputScale::Linear ==> r == Scale::Linear,
            self == InputScale::Log ==> r == Scale::Log,
    {
        match self {
            InputScale::Linear => Scale::Linear,
            InputScale::Log => Scale::Log,
        }
    }
}

/// The kind of plot asked for.
#[derive(Debug)]
pub enum InputPlotKind {
    Series { measurement_method: MeasurementMethod, quantity: InputQuantity, visualization_kind: InputScale },
    FlameGraph { artifacts_dir: Option<String>, flame_repo: String },
    PerfStat { events: Vec<String> },
}

impl InputPlotKind {
    /// The file written when no output is given: an SVG image, or an HTML
    /// page for flame graphs.
    pub fn default_output_name(&self) -> (r: &'static str)
        ensures
            *self is FlameGraph ==> r@ == "out.html"@,
            !(*self is FlameGraph) ==> r@ == "out.svg"@,
    {
        match self {
            InputPlotKind::Series { .. } => "out.svg",
            InputPlotKind::FlameGraph { .. } => "out.html",
            InputPlotKind::PerfStat { .. } => "out.svg",
        }
    }

    /// The plot asked for.
    pub fn finalize(self) -> (r: Result<PlotKind, ParsingError>)
        ensures
            match self {
                InputPlotKind::Series { measurement_method, quantity, visualization_kind } => r matches Ok(
                    PlotKind::Series { measurement_method: m, visualization_kind: v },
                ) && m == measurement_method && (quantity == InputQuantity::Throughput ==> v == VisKind::Throughput)
                    && (quantity == InputQuantity::Time && visualization_kind == InputScale::Linear ==> v == VisKind::Linear)
                    && (quantity == InputQuantity::Time && visualization_kind == InputScale::Log ==> v == VisKind::Log),
                InputPlotKind::FlameGraph { artifacts_dir, flame_repo } => r matches Ok(
                    PlotKind::FlameGraph { artifacts_dir: a, flame_repo: f },
                ) && a == artifacts_dir && f == flame_repo,
                InputPlotKind::PerfStat { events } => r matches Ok(PlotKind::PerfStat { events: e }) && e == events,
            },
    {
        match self {
            InputPlotKind::Series { measurement_method, quantity, visualization_kind } => Ok(PlotKind::Series {
                measurement_method,
                visualization_kind: VisKind::new(quantity.finalize(), visualization_kind.finalize()),
            }),
            InputPlotKind::FlameGraph { artifacts_dir, flame_repo } => Ok(PlotKind::FlameGraph { artifacts_dir, flame_repo }),
            InputPlotKind::PerfStat { events } => Ok(PlotKind::PerfStat { events }),
        }
    }
}

/// The file the plot is written to: the one given, or the kind's default.
pub fn output_file_name(output: Option<String>, kind: &InputPlotKind) -> (r: String)
    ensures
        output matches Some(o) ==> r@ == o@,
        output is None && *kind is FlameGraph ==> r@ == "out.html"@,
        output is None && !(*kind is FlameGraph) ==> r@ == "out.svg"@,
{
    match output {
        Some(o) => o,
        None => owned(kind.default_output_name()),
    }
}

/// The scenarios configuration to plot every scenario of, when no scenario
/// is named: the setup must be a path.
pub fn plot_config_path(setup: &Option<BenchmarkSetup>) -> (r: Result<String, ParsingError>)
    ensures
        match setup {
            Some(s) => match s@ {
                BenchmarkSetupView::Path(p) => r matches Ok(x) && x@ == p,
                BenchmarkSetupView::Points(_) => r matches Err(ParsingError::NoBenchmarkConfiguration),
            },
            None => r matches Err(ParsingError::NoBenchmarkConfiguration),
        },
{
    match setup {
        Some(BenchmarkSetup::Path(p)) => Ok(p.clone()),
        _ => Err(ParsingError::NoBenchmarkConfiguration),
    }
}

} // verus!
