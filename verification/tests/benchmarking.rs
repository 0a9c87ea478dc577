use scylladb_drivers_benchmarker::benchmarking::session::{SessionStage, SessionState};
use scylladb_drivers_benchmarker::benchmarking::executor::{
    build_source, plain_command_result, CommandExecutor, CompileError, FlameExecutor,
    MeasurementError, OutputExecutor, PlainCommandError,
};
use scylladb_drivers_benchmarker::benchmarking::point::{
    classify, runs_per_point, MeasuredKind, PointAction, PointEnd, PointResult, PointState, RunEvent,
};
use scylladb_drivers_benchmarker::benchmarking::{
    points_to_measure, prepare_result, BenchMeasure, BenchmarkMode, BenchmarkingError, Session,
};
use scylladb_drivers_benchmarker::command::{Command, CommandParsingError};
use scylladb_drivers_benchmarker::commit_hash::CommitHash;
use scylladb_drivers_benchmarker::config::api::{ApiConfig, ApiSetup};
use scylladb_drivers_benchmarker::config::benchmark::{BenchmarkData, ParamMode};
use scylladb_drivers_benchmarker::config::driver::DriverSpec;
use scylladb_drivers_benchmarker::database::utilities::BenchmarkRecord;
use scylladb_drivers_benchmarker::flame_graph::FlameFrequency;
use scylladb_drivers_benchmarker::measurement::MeasurementMethod;
use scylladb_drivers_benchmarker::process::ProcessOutput;

fn session(run_command: &str) -> Session {
    Session {
        driver: DriverSpec::from_published_spec("published:nodejs:cassandra-driver@4.8.0").unwrap(),
        driver_commit: CommitHash::new_unchecked("v4.8.0".to_owned()),
        api: ApiSetup {
            config: ApiConfig {
                api: "nodejs".to_owned(),
                env_prepare: "./link.sh --force".to_owned(),
                env_cleanup: "./unlink.sh".to_owned(),
                build_command: "npm run build".to_owned(),
                run_command: run_command.to_owned(),
            },
            api_dir: "/bench/apis/nodejs".to_owned(),
        },
        benchmarks_commit: "1234".to_owned(),
    }
}

fn scenario() -> BenchmarkData {
    BenchmarkData {
        name: "select".to_owned(),
        workload: "select-workload".to_owned(),
        param_mode: ParamMode::Concurrency,
        points: vec![10, 20],
        timeout: None,
        num_runs: 3,
        measure: None,
    }
}

fn output(code: i32, stdout: &str, stderr: &str) -> ProcessOutput {
    ProcessOutput { code: Some(code), stdout: stdout.as_bytes().to_vec(), stderr: stderr.as_bytes().to_vec() }
}

fn pairs(v: &[(&str, &str)]) -> Vec<(String, String)> {
    v.iter().map(|(a, b)| (a.to_string(), b.to_string())).collect()
}

#[test]
fn phase_commands_carry_the_workload_contract() {
    let s = session("node run.js --fast");
    let run = s.phase_command("run", &scenario()).unwrap();
    assert_eq!(run.program(), "node");
    assert_eq!(*run.args(), vec!["run.js", "--fast"]);
    assert_eq!(run.cwd().as_deref(), Some("/bench/apis/nodejs"));
    assert_eq!(
        *run.envs(),
        pairs(&[
            ("PHASE", "run"),
            ("BENCHMARK", "select-workload"),
            ("PARAM_MODE", "concurrency"),
            ("DRIVER_PACKAGE", "cassandra-driver"),
        ])
    );
    let prepare = s.point_phase_command("prepare", &scenario(), 20).unwrap();
    assert_eq!(prepare.envs().last().unwrap(), &("STEP".to_owned(), "20".to_owned()));
    assert_eq!(prepare.envs()[0], ("PHASE".to_owned(), "prepare".to_owned()));
    assert_eq!(
        session("").phase_command("run", &scenario()).unwrap_err(),
        CommandParsingError::ProgramNotGiven
    );
}

#[test]
fn api_commands_carry_the_driver() {
    let s = session("node run.js");
    let prepare = s.env_prepare().unwrap();
    assert_eq!(prepare.to_string(), "./link.sh --force");
    assert_eq!(prepare.cwd().as_deref(), Some("/bench/apis/nodejs"));
    assert_eq!(
        *prepare.envs(),
        pairs(&[
            ("DRIVER_PACKAGE", "cassandra-driver"),
            ("DRIVER_SOURCE", "published"),
            ("DRIVER_VERSION", "4.8.0"),
        ])
    );
    assert_eq!(s.env_cleanup().unwrap().to_string(), "./unlink.sh");
    assert_eq!(s.build().unwrap().to_string(), "npm run build");
    let p = s.provenance();
    assert_eq!(p.api, "nodejs");
    assert_eq!(p.benchmarks_commit, "1234");
    let mut broken = session("node run.js");
    broken.api.config.build_command = "'unterminated".to_owned();
    assert!(matches!(
        broken.build(),
        Err(BenchmarkingError::ParsingRun(CommandParsingError::FailedShlexing))
    ));
}

#[test]
fn points_kept_or_measured_again() {
    let points = vec![1, 2, 3, 4];
    let stored = vec![true, false, true, false];
    assert_eq!(points_to_measure(BenchmarkMode::UseCached, &points, &stored), vec![2, 4]);
    assert_eq!(points_to_measure(BenchmarkMode::ForceRerun, &points, &stored), vec![1, 2, 3, 4]);
}

#[test]
fn prepare_failures_name_the_point() {
    assert!(prepare_result(&scenario(), 10, Ok(())).is_ok());
    match prepare_result(&scenario(), 10, Err(PlainCommandError::TimedOut)) {
        Err(BenchmarkingError::PrepareFailed { benchmark, point, source }) => {
            assert_eq!(benchmark, "select");
            assert_eq!(point, 10);
            assert!(matches!(source, PlainCommandError::TimedOut));
        }
        other => panic!("unexpected {other:?}"),
    }
}

#[test]
fn measurement_methods_of_measures() {
    assert!(matches!(MeasurementMethod::from(BenchMeasure::Time), MeasurementMethod::Time));
    assert!(matches!(MeasurementMethod::from(BenchMeasure::PerfStat), MeasurementMethod::Perf));
    let flame = BenchMeasure::FlameGraph {
        flame_repo: "/fg".to_owned(),
        frequency: FlameFrequency::Max,
        store_dir: "/store".to_owned(),
    };
    assert!(matches!(MeasurementMethod::from(flame), MeasurementMethod::FlameGraph));
    let cmd = Command::new_program("valgrind".to_owned());
    match MeasurementMethod::from(BenchMeasure::Command(cmd)) {
        MeasurementMethod::Command(c) => assert_eq!(c.program(), "valgrind"),
        other => panic!("unexpected {other:?}"),
    }
}

#[test]
fn executors_build_measured_commands() {
    let run = Command::new_args("node".to_owned(), vec!["run.js".to_owned()]);
    let time = OutputExecutor::new_time(run.clone());
    assert_eq!(time.measured_command("/tmp/out", 5).to_string(), "time -o /tmp/out -f %e node run.js 5");
    let perf = OutputExecutor::new_perf_stat(run.clone());
    assert_eq!(perf.measured_command("/tmp/o", 1).to_string(), "perf stat --json -o /tmp/o node run.js 1");
    let custom = CommandExecutor::new(Command::new_args("/usr/bin/time".to_owned(), vec!["-f".to_owned(), "%e".to_owned()]), run.clone());
    assert_eq!(custom.measured_command(2).to_string(), "/usr/bin/time -f %e node run.js 2");
    let flame = FlameExecutor::new("/fg".to_owned(), "/store".to_owned(), FlameFrequency::Number(99), run);
    let cmds = flame.commands(7);
    assert_eq!(cmds[0].to_string(), "perf record -F 99 -a -g -o - -- node run.js 7");
    assert_eq!(cmds[1].to_string(), "perf script -i -");
    assert_eq!(cmds[2].to_string(), "/fg/stackcollapse-perf.pl");
    assert!(cmds[1].envs().is_empty());
}

#[test]
fn measured_commands_keep_the_phase_environment() {
    let s = session("node run.js");
    let run = s.phase_command("run", &scenario()).unwrap();
    let measured = OutputExecutor::new_time(run).measured_command("/tmp/t", 10);
    assert_eq!(measured.to_string(), "time -o /tmp/t -f %e node run.js 10");
    assert_eq!(measured.cwd().as_deref(), Some("/bench/apis/nodejs"));
    assert_eq!(measured.envs()[0], ("PHASE".to_owned(), "run".to_owned()));
    assert_eq!(measured.envs().last().unwrap(), &("STEP".to_owned(), "10".to_owned()));
}

#[test]
fn command_outputs_become_records() {
    match CommandExecutor::handle_output(output(0, "1.5\n", "x \n")) {
        Ok(BenchmarkRecord::Data(d)) => assert_eq!(d, "1.5\nx"),
        other => panic!("unexpected {other:?}"),
    }
    assert!(matches!(
        CommandExecutor::handle_output(output(1, "", "")),
        Err(MeasurementError::ExecutionFailed(_))
    ));
    match CommandExecutor::handle_output(output(0, "zażółć", "")) {
        Ok(BenchmarkRecord::Data(d)) => assert_eq!(d, "zażółć"),
        other => panic!("unexpected {other:?}"),
    }
    let bad = ProcessOutput { code: Some(0), stdout: vec![0xff], stderr: vec![] };
    assert!(matches!(CommandExecutor::handle_output(bad), Err(MeasurementError::WrongOutputFormat)));
    match OutputExecutor::handle_output(output(0, "", ""), "0.42\n".to_owned()) {
        Ok(BenchmarkRecord::Data(d)) => assert_eq!(d, "0.42"),
        other => panic!("unexpected {other:?}"),
    }
    assert!(plain_command_result(Some(output(0, "", ""))).is_ok());
    assert!(matches!(plain_command_result(None), Err(PlainCommandError::TimedOut)));
    assert!(matches!(plain_command_result(Some(output(2, "", ""))), Err(PlainCommandError::Failed(_))));
    assert!(build_source(Ok(output(0, "", ""))).is_ok());
    assert!(matches!(build_source(Ok(output(1, "", ""))), Err(CompileError::CompilationRunning(_))));
    match build_source(Err("no such file".to_owned())) {
        Err(CompileError::CompilationStarting(m)) => assert_eq!(m, "no such file"),
        other => panic!("unexpected {other:?}"),
    }
}

#[test]
fn timing_runs_are_repeated() {
    assert_eq!(runs_per_point(true, 3), 3);
    assert_eq!(runs_per_point(false, 3), 1);
    let mut s = PointState::start(runs_per_point(true, 2));
    for _ in 0..2 {
        assert!(matches!(s.action(), PointAction::Prepare));
        s = s.step(RunEvent::Prepared);
        assert!(matches!(s.action(), PointAction::Measure));
        assert!(matches!(classify(true, &Some(BenchmarkRecord::Data("1.0".to_owned()))), MeasuredKind::ReadTime));
        s = s.step(RunEvent::TimeMeasured);
        assert!(matches!(s.action(), PointAction::Teardown));
        s = s.step(RunEvent::TornDown);
    }
    assert_eq!(s.values, 2);
    assert_eq!(s.attempted, 2);
    assert!(matches!(s.finish(false), PointEnd::Store(PointResult::Timed)));
}

#[test]
fn timeouts_and_failures_end_a_point() {
    let s = PointState::start(3).step(RunEvent::Prepared).step(RunEvent::TimedOut);
    assert!(matches!(s.action(), PointAction::Teardown));
    let s = s.step(RunEvent::TornDown);
    assert!(matches!(s.action(), PointAction::Store(PointResult::Record(BenchmarkRecord::Timeout))));
    let failed = PointState::start(3).step(RunEvent::PrepareFailed);
    assert!(matches!(failed.action(), PointAction::Fail));
    assert!(matches!(failed.finish(true), PointEnd::Skip));
    assert!(matches!(failed.finish(false), PointEnd::Abort));
    let unreadable = PointState::start(3).step(RunEvent::Prepared).step(RunEvent::TimeUnreadable);
    assert!(matches!(unreadable.action(), PointAction::Teardown));
    assert!(matches!(unreadable.step(RunEvent::TornDown).action(), PointAction::Fail));
    assert!(matches!(classify(false, &None), MeasuredKind::Event(RunEvent::MeasureFailed)));
    assert!(matches!(
        classify(false, &Some(BenchmarkRecord::Timeout)),
        MeasuredKind::Event(RunEvent::TimedOut)
    ));
    let kept = PointState::start(1)
        .step(RunEvent::Prepared)
        .step(RunEvent::Recorded(BenchmarkRecord::FilePath("/f".to_owned())))
        .step(RunEvent::TornDown);
    match kept.finish(true) {
        PointEnd::Store(PointResult::Record(BenchmarkRecord::FilePath(p))) => assert_eq!(p, "/f"),
        other => panic!("unexpected {other:?}"),
    }
}

#[test]
fn session_steps_end_with_cleanup() {
    // Everything succeeds: prepare, build, each scenario in order, cleanup.
    let mut s = SessionState::start(2);
    let mut seen = Vec::new();
    while s.stage != SessionStage::Done {
        seen.push(s.stage);
        s = s.step(true);
    }
    assert_eq!(
        seen,
        vec![
            SessionStage::Preparing,
            SessionStage::Building,
            SessionStage::Running(0),
            SessionStage::Running(1),
            SessionStage::CleaningUp,
        ]
    );
    assert_eq!(s.outcome(), Some(Ok(())));
    // A failed env-prepare goes straight to cleanup and is reported.
    let s = SessionState::start(2).step(false);
    assert_eq!(s.stage, SessionStage::CleaningUp);
    assert_eq!(s.outcome(), None);
    let s = s.step(false);
    assert_eq!(s.outcome(), Some(Err(SessionStage::Preparing)));
    // A failed scenario stops the others; cleanup still runs.
    let s = SessionState::start(3).step(true).step(true).step(false);
    assert_eq!(s.stage, SessionStage::CleaningUp);
    assert_eq!(s.step(true).outcome(), Some(Err(SessionStage::Running(0))));
    // Without scenarios the build is followed by cleanup.
    assert_eq!(SessionState::start(0).step(true).step(true).stage, SessionStage::CleaningUp);
}
