//! Benchmarking sessions: the commands of each phase, and the decisions
//! taken while measuring a scenario point by point.

pub mod executor;
pub mod point;
pub mod session;

use vstd::prelude::*;

use crate::benchmarking::executor::{CompileError, PlainCommandError};
use crate::command::{Command, CommandParsingError, CommandView, parse_command_line, pairs_view};
use crate::commit_hash::CommitHash;
use crate::config::api::ApiSetup;
use crate::config::benchmark::{BenchmarkData, BenchmarkPoint, param_mode_text};
use crate::config::driver::{DriverSpec, env_vars_spec};
use crate::database::utilities::Provenance;
use crate::flame_graph::FlameFrequency;
use crate::measurement::MeasurementMethod;
use crate::number::{decimal, u64_to_string};

verus! {

/// How the runs of a scenario are measured.
#[derive(Debug, Clone)]
pub enum BenchMeasure {
    /// The run's own timing, repeated `num_runs` times.
    Time,
    /// `perf stat` counters.
    PerfStat,
    /// `perf record` samples folded into a flame graph stored in `store_dir`.
    FlameGraph { flame_repo: String, frequency: FlameFrequency, store_dir: String },
    /// Any command, given the run command as arguments.
    Command(Command),
}

impl From<BenchMeasure> for MeasurementMethod {
    fn from(value: BenchMeasure) -> (r: MeasurementMethod) {
        match value {
            BenchMeasure::Time => MeasurementMethod::Time,
            BenchMeasure::PerfStat => MeasurementMethod::Perf,
            BenchMeasure::FlameGraph { .. } => MeasurementMethod::FlameGraph,
            BenchMeasure::Command(command) => MeasurementMethod::Command(command),
        }
    }
}

impl vstd::std_specs::convert::FromSpecImpl<BenchMeasure> for MeasurementMethod {
    open spec fn obeys_from_spec() -> bool {
        true
    }

    open spec fn from_spec(value: BenchMeasure) -> MeasurementMethod {
        match value {
            BenchMeasure::Time => MeasurementMethod::Time,
            BenchMeasure::PerfStat => MeasurementMethod::Perf,
            BenchMeasure::FlameGraph { .. } => MeasurementMethod::FlameGraph,
            BenchMeasure::Command(command) => MeasurementMethod::Command(command),
        }
    }
}

/// Whether results already stored are kept or measured again.
#[derive(Debug, Clone, Copy, PartialEq, Eq, Structural)]
pub enum BenchmarkMode {
    /// Points with a stored result are skipped.
    UseCached,
    /// Stored results are dropped and every point is measured.
    ForceRerun,
}

/// Why a benchmarking session failed.
#[derive(Debug)]
pub enum BenchmarkingError {
    Compile(CompileError),
    Database(String),
    ParsingRun(CommandParsingError),
    NoStoreDir { required_by: MeasurementMethod },
    EnvPrepareFailed(PlainCommandError),
    PrepareFailed { benchmark: String, point: BenchmarkPoint, source: PlainCommandError },
    PointFailed { benchmark: String, point: BenchmarkPoint, source: String },
    Measurement(String),
}

/// Everything identifying and driving one benchmarking session: the driver
/// under test and the api directory to run in.
#[derive(Debug)]
pub struct Session {
    pub driver: DriverSpec,
    pub driver_commit: CommitHash,
    pub api: ApiSetup,
    pub benchmarks_commit: String,
}

/// The run command of one phase of a scenario: run in the api directory with
/// the phase, the workload, the parameter mode and the driver package in its
/// environment.
pub open spec fn phase_view(
    c: CommandView,
    api_dir: Seq<char>,
    phase: Seq<char>,
    benchmark: BenchmarkData,
    package: Seq<char>,
) -> CommandView {
    CommandView {
        cwd: Some(api_dir),
        envs: seq![
            ("PHASE"@, phase),
            ("BENCHMARK"@, benchmark.workload@),
            ("PARAM_MODE"@, param_mode_text(benchmark.param_mode)),
            ("DRIVER_PACKAGE"@, package),
        ],
        ..c
    }
}

/// The result of turning a line into the command of a phase.
pub open spec fn phase_result(
    line: Seq<char>,
    api_dir: Seq<char>,
    phase: Seq<char>,
    benchmark: BenchmarkData,
    package: Seq<char>,
) -> Result<CommandView, CommandParsingError> {
    match parse_command_line(line) {
        Ok(c) => Ok(phase_view(c, api_dir, phase, benchmark, package)),
        Err(e) => Err(e),
    }
}

/// The result of turning a line into a plain command of the api: run in the
/// api directory with the driver's environment variables.
pub open spec fn plain_result(line: Seq<char>, api_dir: Seq<char>, driver: DriverSpec) -> Result<CommandView, CommandParsingError> {
    match parse_command_line(line) {
        Ok(c) => Ok(CommandView { cwd: Some(api_dir), envs: env_vars_spec(driver), ..c }),
        Err(e) => Err(e),
    }
}

/// The abstract value of a command result.
pub open spec fn result_view<E>(r: Result<Command, E>) -> Result<CommandView, E> {
    match r {
        Ok(c) => Ok(c@),
        Err(e) => Err(e),
    }
}

/// The abstract value of a command result whose parsing errors are session errors.
pub open spec fn session_result_view(r: Result<Command, BenchmarkingError>) -> Result<CommandView, CommandParsingError> {
    match r {
        Ok(c) => Ok(c@),
        Err(BenchmarkingError::ParsingRun(e)) => Err(e),
        Err(_) => Err(CommandParsingError::ProgramNotGiven),
    }
}

/// The command with the point's decimal text as the STEP variable.
pub open spec fn with_step(c: CommandView, point: BenchmarkPoint) -> CommandView {
    CommandView { envs: c.envs.push(("STEP"@, decimal(point as nat))), ..c }
}

impl Session {
    /// The run command for one phase of one scenario, with every variable of
    /// the workload contract except STEP.
    pub fn phase_command(&self, phase: &str, benchmark: &BenchmarkData) -> (r: Result<Command, CommandParsingError>)
        ensures
            result_view(r) == phase_result(
                self.api.config.run_command@,
                self.api.api_dir@,
                phase@,
                *benchmark,
                self.driver.package@,
            ),
    {
        let parsed = Command::from_str(self.api.config.run_command.as_str());
        match parsed {
            Ok(c) => {
                let r = c.with_cwd(self.api.api_dir.as_str())
                    .with_env("PHASE", phase)
                    .with_env("BENCHMARK", benchmark.workload.as_str())
                    .with_env("PARAM_MODE", benchmark.param_mode.as_str())
                    .with_env("DRIVER_PACKAGE", self.driver.package.as_str());
                assert(r@.envs =~= phase_view(
                    c@,
                    self.api.api_dir@,
                    phase@,
                    *benchmark,
                    self.driver.package@,
                ).envs);
                Ok(r)
            },
            Err(e) => Err(e),
        }
    }

    /// A command of the api (env-prepare, env-cleanup, build): run in the api
    /// directory with the driver's environment variables.
    pub fn plain_api_command(&self, command: &str) -> (r: Result<Command, CommandParsingError>)
        ensures
            result_view(r) == plain_result(command@, self.api.api_dir@, self.driver),
    {
        match Command::from_str(command) {
            Ok(c) => {
                let envs = self.driver.env_vars();
                let r = c.with_cwd(self.api.api_dir.as_str()).with_envs(envs);
                assert(r@.envs =~= env_vars_spec(self.driver));
                Ok(r)
            },
            Err(e) => Err(e),
        }
    }

    /// The api's env-prepare command, which links the driver under test; the
    /// caller runs it, and a failure is `EnvPrepareFailed`.
    pub fn env_prepare(&self) -> (r: Result<Command, BenchmarkingError>)
        ensures
            r is Ok || r matches Err(BenchmarkingError::ParsingRun(_)),
            session_result_view(r) == plain_result(self.api.config.env_prepare@, self.api.api_dir@, self.driver),
    {
        match self.plain_api_command(self.api.config.env_prepare.as_str()) {
            Ok(c) => Ok(c),
            Err(e) => Err(BenchmarkingError::ParsingRun(e)),
        }
    }

    /// The api's env-cleanup command, which reverts what env-prepare made;
    /// the caller runs it on a best-effort basis.
    pub fn env_cleanup(&self) -> (r: Result<Command, CommandParsingError>)
        ensures
            result_view(r) == plain_result(self.api.config.env_cleanup@, self.api.api_dir@, self.driver),
    {
        self.plain_api_command(self.api.config.env_cleanup.as_str())
    }

    /// The api's build command, run once per session and not measured.
    pub fn build(&self) -> (r: Result<Command, BenchmarkingError>)
        ensures
            r is Ok || r matches Err(BenchmarkingError::ParsingRun(_)),
            session_result_view(r) == plain_result(self.api.config.build_command@, self.api.api_dir@, self.driver),
    {
        match self.plain_api_command(self.api.config.build_command.as_str()) {
            Ok(c) => Ok(c),
            Err(e) => Err(BenchmarkingError::ParsingRun(e)),
        }
    }

    /// The command of the unmeasured `prepare` or `teardown` phase at `point`.
    pub fn point_phase_command(&self, phase: &str, benchmark: &BenchmarkData, point: BenchmarkPoint) -> (r: Result<Command, CommandParsingError>)
        ensures
            result_view(r) == match phase_result(
                self.api.config.run_command@,
                self.api.api_dir@,
                phase@,
                *benchmark,
                self.driver.package@,
            ) {
                Ok(c) => Ok(with_step(c, point)),
                Err(e) => Err(e),
            },
    {
        match self.phase_command(phase, benchmark) {
            Ok(c) => {
                let step = u64_to_string(point);
                Ok(c.with_env("STEP", step.as_str()))
            },
            Err(e) => Err(e),
        }
    }

    /// Where this session's results come from.
    pub fn provenance(&self) -> (r: Provenance)
        ensures
            r.api@ == self.driver.api@,
            r.benchmarks_commit@ == self.benchmarks_commit@,
    {
        Provenance { api: self.driver.api.clone(), benchmarks_commit: self.benchmarks_commit.clone() }
    }
}

/// The outcome of a scenario's `prepare` phase at `point`.
pub fn prepare_result(benchmark: &BenchmarkData, point: BenchmarkPoint, outcome: Result<(), PlainCommandError>) -> (r: Result<(), BenchmarkingError>)
    ensures
        outcome is Ok <==> r is Ok,
        outcome matches Err(e) ==> (r matches Err(BenchmarkingError::PrepareFailed { benchmark: b, point: p, source })
            && b@ == benchmark.name@ && p == point && source == e),
{
    match outcome {
        Ok(()) => Ok(()),
        Err(source) => Err(BenchmarkingError::PrepareFailed { benchmark: benchmark.name.clone(), point, source }),
    }
}

/// The points of `points` whose result is not stored (`stored` holds, for
/// each point, whether it is).
pub open spec fn unstored_points(points: Seq<BenchmarkPoint>, stored: Seq<bool>) -> Seq<BenchmarkPoint>
    decreases points.len(),
{
    if points.len() == 0 {
        Seq::empty()
    } else {
        let n = points.len() - 1;
        let rest = unstored_points(points.take(n), stored.take(n));
        if stored[n] {
            rest
        } else {
            rest.push(points[n])
        }
    }
}

/// The points to measure: when results are kept, those with no stored result;
/// when measuring again, all of them (their stored results are dropped).
pub fn points_to_measure(mode: BenchmarkMode, points: &Vec<BenchmarkPoint>, stored: &Vec<bool>) -> (r: Vec<BenchmarkPoint>)
    requires
        points.len() == stored.len(),
    ensures
        mode == BenchmarkMode::ForceRerun ==> r@ == points@,
        mode == BenchmarkMode::UseCached ==> r@ == unstored_points(points@, stored@),
{
    let mut r: Vec<BenchmarkPoint> = Vec::new();
    let mut i: usize = 0;
    while i < points.len()
        invariant
            i <= points.len(),
            points.len() == stored.len(),
            mode == BenchmarkMode::ForceRerun ==> r@ == points@.take(i as int),
            mode == BenchmarkMode::UseCached ==> r@ == unstored_points(points@.take(i as int), stored@.take(i as int)),
        decreases points.len() - i,
    {
        proof {
            let p = points@.take(i + 1);
            let s = stored@.take(i + 1);
            assert(p.take(i as int) =~= points@.take(i as int));
            assert(s.take(i as int) =~= stored@.take(i as int));
            assert(points@.take(i + 1) =~= points@.take(i as int).push(points@[i as int]));
        }
        if mode == BenchmarkMode::ForceRerun || !stored[i] {
            r.push(points[i]);
        }
        i = i + 1;
    }
    assert(points@.take(points.len() as int) =~= points@);
    assert(stored@.take(stored.len() as int) =~= stored@);
    r
}

/// Every point to measure is one of the scenario's points, and none with a
/// stored result is measured again while results are kept.
pub proof fn lemma_unstored_points(points: Seq<BenchmarkPoint>, stored: Seq<bool>)
    requires
        points.len() == stored.len(),
    ensures
        unstored_points(points, stored).len() <= points.len(),
        forall|k: int| 0 <= k < unstored_points(points, stored).len() ==> #[trigger] points.contains(unstored_points(points, stored)[k]),
        forall|j: int| 0 <= j < points.len() && !stored[j] ==> #[trigger] unstored_points(points, stored).contains(points[j]),
    decreases points.len(),
{
    if points.len() > 0 {
        let n = points.len() - 1;
        let pt = points.take(n);
        let st = stored.take(n);
        lemma_unstored_points(pt, st);
        let rest = unstored_points(pt, st);
        assert forall|k: int| 0 <= k < unstored_points(points, stored).len() implies #[trigger] points.contains(
            unstored_points(points, stored)[k],
        ) by {
            if k < rest.len() {
                let x = rest[k];
                assert(pt.contains(x));
                let w = choose|w: int| 0 <= w < pt.len() && pt[w] == x;
                assert(points[w] == x);
            } else {
                assert(points[n] == unstored_points(points, stored)[k]);
            }
        }
        assert forall|j: int| 0 <= j < points.len() && !stored[j] implies #[trigger] unstored_points(points, stored).contains(
            points[j],
        ) by {
            if j < n {
                assert(pt[j] == points[j]);
                assert(st[j] == stored[j]);
                assert(rest.contains(points[j]));
                let w = choose|w: int| 0 <= w < rest.len() && rest[w] == points[j];
                assert(unstored_points(points, stored)[w] == points[j]);
            } else {
                assert(unstored_points(points, stored)[rest.len() as int] == points[j]);
            }
        }
    }
}

/// How many results are not stored.
pub open spec fn count_unstored(stored: Seq<bool>) -> nat
    decreases stored.len(),
{
    if stored.len() == 0 {
        0
    } else {
        count_unstored(stored.drop_last()) + if stored.last() { 0nat } else { 1nat }
    }
}

/// When results are kept, only points without a stored result are measured:
/// every point to measure is the point at some index whose result is not
/// stored, and there are exactly as many as such indices. So when every
/// result is stored, nothing is measured; and when none is, every point is.
pub proof fn lemma_measured_points_are_unstored(points: Seq<BenchmarkPoint>, stored: Seq<bool>)
    requires
        points.len() == stored.len(),
    ensures
        ({
            let r = unstored_points(points, stored);
            &&& r.len() == count_unstored(stored)
            &&& forall|k: int| 0 <= k < r.len() ==> exists|j: int|
                0 <= j < points.len() && !stored[j] && points[j] == #[trigger] r[k]
            &&& (forall|j: int| 0 <= j < stored.len() ==> stored[j]) ==> r.len() == 0
            &&& (forall|j: int| 0 <= j < stored.len() ==> !stored[j]) ==> r == points
        }),
    decreases points.len(),
{
    if points.len() > 0 {
        let n = points.len() - 1;
        let pt = points.take(n);
        let st = stored.take(n);
        assert(st =~= stored.drop_last());
        lemma_measured_points_are_unstored(pt, st);
        let rest = unstored_points(pt, st);
        let r = unstored_points(points, stored);
        assert forall|k: int| 0 <= k < r.len() implies exists|j: int|
            0 <= j < points.len() && !stored[j] && points[j] == #[trigger] r[k] by {
            if k < rest.len() {
                let j = choose|j: int| 0 <= j < pt.len() && !st[j] && pt[j] == #[trigger] rest[k];
                assert(points[j] == pt[j] && stored[j] == st[j]);
                assert(r[k] == rest[k]);
            } else {
                assert(r[k] == points[n]);
                assert(!stored[n]);
            }
        }
        if forall|j: int| 0 <= j < stored.len() ==> stored[j] {
            assert forall|j: int| 0 <= j < st.len() implies st[j] by {
                assert(st[j] == stored[j]);
            }
            assert(stored[n]);
        }
        if forall|j: int| 0 <= j < stored.len() ==> !stored[j] {
            assert forall|j: int| 0 <= j < st.len() implies !st[j] by {
                assert(st[j] == stored[j]);
            }
            assert(!stored[n]);
            assert(rest == pt);
            assert(points =~= pt.push(points[n]));
        }
    }
}

} // verus!
