use scylladb_drivers_benchmarker::benchmarking::{BenchMeasure, BenchmarkMode};
use scylladb_drivers_benchmarker::command::Command;
use scylladb_drivers_benchmarker::commit_hash::CommitHash;
use scylladb_drivers_benchmarker::config::benchmark::{
    BenchmarkConfig, BenchmarkConfigList, BenchmarkData, BenchmarkDefaults, ParamMode, ProgressType,
};
use scylladb_drivers_benchmarker::config::duration::MyDuration;
use scylladb_drivers_benchmarker::config::driver::DriverSpec;
use scylladb_drivers_benchmarker::flame_graph::FlameFrequency;
use scylladb_drivers_benchmarker::measurement::MeasurementMethod;
use scylladb_drivers_benchmarker::parsing::benchmark::{
    with_driver_name, FlameOptions, InputBenchmarkMode, MeasureSubcommand, StoreDirState,
};
use scylladb_drivers_benchmarker::parsing::benchmark_setup::{BenchmarkSetup, BenchmarkSetupError};
use scylladb_drivers_benchmarker::parsing::database::{
    default_db_path, split_values, DatabaseArgs, DatabaseCommandINPUT, DbPathError,
    FilterParsingError, InputDatabaseFilters,
};
use scylladb_drivers_benchmarker::parsing::plot::{
    output_file_name, plot_config_path, DriverWithCommitParsingError, InputPlotKind,
    InputQuantity, InputScale, ParsableDriverWithCommit,
};
use scylladb_drivers_benchmarker::parsing::{
    benchmarks_version, scenarios_config_path, select_scenarios, ParsingError, Subcommands,
};
use scylladb_drivers_benchmarker::plotting::{PlotKind, VisKind};

fn data(name: &str) -> BenchmarkData {
    BenchmarkData {
        name: name.to_owned(),
        workload: name.to_owned(),
        param_mode: ParamMode::Count,
        points: vec![1],
        timeout: None,
        num_runs: 1,
        measure: None,
    }
}

#[test]
fn setup_finalize_points() {
    let output =
        BenchmarkSetup::finalize(Some(BenchmarkSetup::Points(vec![1, 2, 3])), "bname", None).unwrap();
    assert_eq!(output.name, "bname");
    assert_eq!(output.points, vec![1, 2, 3]);
    assert_eq!(output.timeout, None);
}

#[test]
fn setup_finalize_path() {
    let bconfig = BenchmarkConfig {
        name: "bname".to_owned(),
        workload: None,
        param_mode: None,
        starting_step: 1,
        no_steps: Some(3),
        step_progress: Some(1),
        progress_type: Some(ProgressType::Additive),
        timeout: Some(MyDuration::from_secs(3)),
        num_runs: None,
        measure: None,
    };
    // The list as read from the scenario file named by the setup.
    let loaded = BenchmarkConfigList { configs: vec![bconfig], defaults: BenchmarkDefaults::empty() };
    let output = BenchmarkSetup::finalize(
        Some(BenchmarkSetup::Path("bconfig.yml".to_owned())),
        "bname",
        Some(Ok(loaded)),
    )
    .unwrap();
    assert_eq!(output.name, "bname");
    assert_eq!(output.points, vec![1, 2, 3]);
    assert_eq!(output.timeout, Some(MyDuration::from_secs(3)));
}

#[test]
fn basic_run() {
    let output = output_file_name(
        Some("plot.svg".to_owned()),
        &InputPlotKind::Series {
            measurement_method: MeasurementMethod::Time,
            quantity: InputQuantity::Time,
            visualization_kind: InputScale::Linear,
        },
    );
    assert_eq!(output, "plot.svg");
    let plot_kind = InputPlotKind::Series {
        measurement_method: MeasurementMethod::Time,
        quantity: InputQuantity::Time,
        visualization_kind: InputScale::Linear,
    }
    .finalize()
    .unwrap();
    match plot_kind {
        PlotKind::Series { measurement_method, visualization_kind } => {
            assert!(matches!(measurement_method, MeasurementMethod::Time));
            assert!(matches!(visualization_kind, VisKind::Linear));
        }
        _ => panic!("Expected PlotKind::Series"),
    }

    let series = vec![
        ParsableDriverWithCommit::from_str("backend-a@/repo/a:branch").unwrap(),
        ParsableDriverWithCommit::from_str("backend-b@/repo/b:abc123=v1.0").unwrap(),
    ];
    assert_eq!(series.len(), 2);
    let s0: &ParsableDriverWithCommit = &series[0];
    assert_eq!(s0.driver_name, "backend-a");
    assert_eq!(s0.repo, "/repo/a");
    assert_eq!(s0.git_ref, "branch");
    assert_eq!(s0.display_tag, "branch");

    let s1: &ParsableDriverWithCommit = &series[1];
    assert_eq!(s1.driver_name, "backend-b");
    assert_eq!(s1.repo, "/repo/b");
    assert_eq!(s1.git_ref, "abc123");
    assert_eq!(s1.display_tag, "v1.0");
}

#[test]
fn advanced_database() {
    let filters = InputDatabaseFilters::from_args(
        &vec!["test:21123123:ff".to_owned()],
        &vec!["my:benchmark:".to_owned()],
        &vec!["1:2:5:3".to_owned()],
        &vec!["m1:m2:m4".to_owned()],
    )
    .unwrap();
    let command = DatabaseArgs {
        command: DatabaseCommandINPUT::Print { filters },
    };
    let DatabaseCommandINPUT::Print { filters } = command.command else {
        panic!("Expected DatabaseCommand::Print");
    };

    assert_eq!(filters.commit_hashes, vec!["test", "21123123", "ff"]);
    assert_eq!(filters.benchmark_names, vec!["my", "benchmark", ""]);
    assert_eq!(filters.benchmark_points, vec![1, 2, 5, 3]);
    assert_eq!(filters.measurement_methods, vec!["m1", "m2", "m4"]);
}

#[test]
fn database_request_keeps_filters() {
    let filters = InputDatabaseFilters::from_args(
        &vec!["a".to_owned(), "b:c".to_owned()],
        &vec![],
        &vec!["7".to_owned()],
        &vec![],
    )
    .unwrap();
    match (DatabaseArgs { command: DatabaseCommandINPUT::Drop { filters } }).finalize() {
        Subcommands::DropDatabase(p) => {
            assert_eq!(p.filters.commit_hashes, vec!["a", "b", "c"]);
            assert!(p.filters.benchmark_names.is_empty());
            assert!(p.filters.driver_names.is_empty());
            assert_eq!(p.filters.benchmark_points, vec![7]);
        }
        _ => panic!("expected a drop request"),
    }
    let err = InputDatabaseFilters::from_args(&vec![], &vec![], &vec!["1:x".to_owned()], &vec![]);
    assert!(matches!(err, Err(FilterParsingError::InvalidPoint)));
    assert_eq!(split_values(&vec!["".to_owned()], ':'), vec![""]);
}

#[test]
fn benchmark_setup_values() {
    match BenchmarkSetup::from_str("5,1,3").unwrap() {
        BenchmarkSetup::Points(p) => assert_eq!(p, vec![5, 1, 3]),
        other => panic!("unexpected {other:?}"),
    }
    match BenchmarkSetup::from_str("scenarios/config.yml").unwrap() {
        BenchmarkSetup::Path(p) => assert_eq!(p, "scenarios/config.yml"),
        other => panic!("unexpected {other:?}"),
    }
    // A path whose first piece is not a number stays a path, commas and all.
    match BenchmarkSetup::from_str("a,1").unwrap() {
        BenchmarkSetup::Path(p) => assert_eq!(p, "a,1"),
        other => panic!("unexpected {other:?}"),
    }
    assert_eq!(
        BenchmarkSetup::from_str("1,x").unwrap_err(),
        BenchmarkSetupError::FailedParsingPoint
    );
    assert_eq!(
        BenchmarkSetup::from_str("1,").unwrap_err(),
        BenchmarkSetupError::FailedParsingPoint
    );
}

#[test]
fn literal_points_are_sorted() {
    let d = BenchmarkSetup::Points(vec![30, 10, 20]).into_config("x", None).unwrap();
    assert_eq!(d.points, vec![10, 20, 30]);
    assert_eq!(d.workload, "x");
    assert_eq!(d.param_mode, ParamMode::Count);
    assert_eq!(d.num_runs, 1);
    assert!(matches!(
        BenchmarkSetup::finalize(None, "x", None),
        Err(ParsingError::NoBenchmarkConfiguration)
    ));
}

#[test]
fn series_forms_and_errors() {
    let p = ParsableDriverWithCommit::from_str("a@repo").unwrap();
    assert_eq!((p.repo.as_str(), p.git_ref.as_str(), p.display_tag.as_str()), ("repo", "HEAD", "HEAD"));
    let p = ParsableDriverWithCommit::from_str("a@abc123=old").unwrap();
    assert_eq!((p.repo.as_str(), p.git_ref.as_str(), p.display_tag.as_str()), ("abc123", "HEAD", "old"));
    let p = ParsableDriverWithCommit::from_str("a@repo:").unwrap();
    assert_eq!((p.git_ref.as_str(), p.display_tag.as_str()), ("HEAD", "HEAD"));
    let p = ParsableDriverWithCommit::from_str("a@repo:=x").unwrap();
    assert_eq!((p.git_ref.as_str(), p.display_tag.as_str()), ("HEAD", "x"));
    let p = ParsableDriverWithCommit::from_str("a@repo:main=").unwrap();
    assert_eq!((p.git_ref.as_str(), p.display_tag.as_str()), ("main", ""));
    assert!(matches!(
        ParsableDriverWithCommit::from_str("no-at-sign"),
        Err(DriverWithCommitParsingError::MissingAtSign)
    ));
    assert!(matches!(
        ParsableDriverWithCommit::from_str("@repo"),
        Err(DriverWithCommitParsingError::EmptyBackendName)
    ));
    assert!(matches!(
        ParsableDriverWithCommit::from_str("a@:main"),
        Err(DriverWithCommitParsingError::EmptyRepo)
    ));
    assert!(matches!(
        ParsableDriverWithCommit::from_str("a@"),
        Err(DriverWithCommitParsingError::EmptyRepo)
    ));
    assert!(matches!(
        ParsableDriverWithCommit::from_str("a@=x"),
        Err(DriverWithCommitParsingError::EmptyRepo)
    ));
}

#[test]
fn series_resolution() {
    let p = ParsableDriverWithCommit::from_str("rust@0123456789abcdef").unwrap();
    let d = p.clone().resolve(None).unwrap();
    assert_eq!(d.commit.as_str(), "0123456789abcdef");
    assert_eq!(d.tag, "01234567");
    let short = ParsableDriverWithCommit::from_str("rust@v1").unwrap().resolve(None).unwrap();
    assert_eq!(short.tag, "v1");
    let named = ParsableDriverWithCommit::from_str("rust@abc=label").unwrap().resolve(None).unwrap();
    assert_eq!(named.tag, "label");
    let hash = CommitHash::new_unchecked("f".repeat(40));
    let resolved = p.resolve(Some(Ok(hash))).unwrap();
    assert_eq!(resolved.driver_name, "rust");
    assert_eq!(resolved.commit.as_str(), "f".repeat(40));
    assert_eq!(resolved.tag, "HEAD");
}

#[test]
fn plot_defaults() {
    let flame = InputPlotKind::FlameGraph { artifacts_dir: None, flame_repo: "/fg".to_owned() };
    assert_eq!(flame.default_output_name(), "out.html");
    assert_eq!(output_file_name(None, &flame), "out.html");
    let perf = InputPlotKind::PerfStat { events: vec!["task-clock".to_owned()] };
    assert_eq!(output_file_name(None, &perf), "out.svg");
    match perf.finalize().unwrap() {
        PlotKind::PerfStat { events } => assert_eq!(events, vec!["task-clock"]),
        _ => panic!("expected perf-stat"),
    }
    let throughput = InputPlotKind::Series {
        measurement_method: MeasurementMethod::Time,
        quantity: InputQuantity::Throughput,
        visualization_kind: InputScale::Log,
    };
    assert!(matches!(
        throughput.finalize().unwrap(),
        PlotKind::Series { visualization_kind: VisKind::Throughput, .. }
    ));
    assert!(matches!(plot_config_path(&None), Err(ParsingError::NoBenchmarkConfiguration)));
    assert!(matches!(
        plot_config_path(&Some(BenchmarkSetup::Points(vec![1]))),
        Err(ParsingError::NoBenchmarkConfiguration)
    ));
    assert_eq!(plot_config_path(&Some(BenchmarkSetup::Path("c.yml".to_owned()))).unwrap(), "c.yml");
}

#[test]
fn scenario_selection() {
    let all = vec![data("a"), data("b"), data("c")];
    let picked = select_scenarios(&all, &vec!["c".to_owned(), "a".to_owned()], "cfg.yml").unwrap();
    let names: Vec<&str> = picked.iter().map(|d| d.name.as_str()).collect();
    assert_eq!(names, vec!["c", "a"]);
    let every = select_scenarios(&all, &vec![], "cfg.yml").unwrap();
    assert_eq!(every.len(), 3);
    match select_scenarios(&all, &vec!["a".to_owned(), "x".to_owned(), "y".to_owned()], "cfg.yml") {
        Err(ParsingError::UnknownScenario { name, config_path }) => {
            assert_eq!(name, "x");
            assert_eq!(config_path, "cfg.yml");
        }
        other => panic!("unexpected {other:?}"),
    }
    assert_eq!(scenarios_config_path("/bench", None), "/bench/scenarios/config.yml");
    assert_eq!(scenarios_config_path("/bench", Some("o.yml".to_owned())), "o.yml");
    assert_eq!(benchmarks_version(None), "unknown");
    assert_eq!(benchmarks_version(Some("abc".to_owned())), "abc");
}

#[test]
fn run_options() {
    assert_eq!(InputBenchmarkMode::ForceRerun.finalize(), BenchmarkMode::ForceRerun);
    assert_eq!(InputBenchmarkMode::UseCached.finalize(), BenchmarkMode::UseCached);
    let options = FlameOptions {
        flame_repo: "/fg".to_owned(),
        frequency: FlameFrequency::Number(99),
        store_dir: "out".to_owned(),
    };
    assert!(matches!(
        options.clone().finalize(StoreDirState::NotADirectory),
        Err(ParsingError::StoreDirNotADir)
    ));
    match MeasureSubcommand::FlameGraph(options).finalize(StoreDirState::Directory("/abs/out".to_owned())) {
        Ok(BenchMeasure::FlameGraph { flame_repo, frequency, store_dir }) => {
            assert_eq!(flame_repo, "/fg");
            assert_eq!(frequency, FlameFrequency::Number(99));
            assert_eq!(store_dir, "/abs/out");
        }
        other => panic!("unexpected {other:?}"),
    }
    let command = Command::new_program("perf".to_owned());
    assert!(matches!(
        MeasureSubcommand::Command { command }.finalize(StoreDirState::NotADirectory),
        Ok(BenchMeasure::Command(_))
    ));
    let spec = DriverSpec::from_published_spec("published:nodejs:cassandra-driver@4.8.0").unwrap();
    assert_eq!(with_driver_name(spec.clone(), Some("nodejs-driver".to_owned())).name, "nodejs-driver");
    assert_eq!(with_driver_name(spec, None).name, "cassandra-driver");
}

#[test]
fn database_location() {
    assert_eq!(default_db_path(Some("/home/u".to_owned())).unwrap(), "/home/u/SDB_benchmarker.db");
    assert_eq!(default_db_path(None).unwrap_err(), DbPathError::NoHomeDir);
}
