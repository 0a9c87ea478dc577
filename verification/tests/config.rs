use scylladb_drivers_benchmarker::commit_hash::CommitHash;
use scylladb_drivers_benchmarker::config::api::{ApiConfig, ApiConfigError, ApiSetup};
use scylladb_drivers_benchmarker::config::backend::{BackendConfig, BackendConfigList, BackendDefaults};
use scylladb_drivers_benchmarker::config::benchmark::{
    sort_points, BenchmarkConfig, BenchmarkConfigList, BenchmarkData, BenchmarkDefaults, ParamMode,
    ProgressType,
};
use scylladb_drivers_benchmarker::config::driver::{
    is_dirty, status_command, DriverRepoConfig, DriverSource, DriverSpec,
};
use scylladb_drivers_benchmarker::config::{find_config as find_scenario_config, ConfigError};
use scylladb_drivers_benchmarker::process::ProcessOutput;

fn scenario(name: &str, start: u64, steps: Option<u64>, step: u64, kind: ProgressType) -> BenchmarkConfig {
    BenchmarkConfig {
        name: name.to_owned(),
        workload: None,
        param_mode: None,
        starting_step: start,
        no_steps: steps,
        step_progress: Some(step),
        progress_type: Some(kind),
        timeout: None,
        num_runs: Some(1),
        measure: None,
    }
}

#[test]
fn find_config() {
    let config = |name: &str| BackendConfig {
        name: "name: ".to_owned() + name,
        benchmark_name: Some("benchmark_".to_owned() + name),
        build_command: "build_cmd_".to_owned() + name,
        run_command: "run_cmd_".to_owned() + name,
    };

    let backend_config_list = BackendConfigList {
        configs: vec![config("a"), config("b")],
        defaults: BackendDefaults::empty(),
    };

    assert!(backend_config_list.find_config("name: c").is_none());

    let found = backend_config_list.find_config("benchmark_a").unwrap();
    assert_eq!(found, config("a"));
}

#[test]
fn points_additive() {
    let data = BenchmarkConfig {
        name: String::new(),
        workload: None,
        param_mode: None,
        starting_step: 7,
        no_steps: Some(3),
        step_progress: Some(2),
        progress_type: Some(ProgressType::Additive),
        timeout: None,
        num_runs: Some(1),
        measure: None,
    };
    let points: Vec<u64> = data.benchmark_points();
    assert_eq!(points, vec![7, 9, 11]);
}

#[test]
fn points_multiplicative() {
    let data = BenchmarkConfig {
        name: String::new(),
        workload: None,
        param_mode: None,
        starting_step: 3,
        no_steps: Some(3),
        step_progress: Some(2),
        progress_type: Some(ProgressType::Multiplicative),
        timeout: None,
        num_runs: Some(1),
        measure: None,
    };
    let points: Vec<u64> = data.benchmark_points();
    assert_eq!(points, vec![3, 6, 12]);
}

#[test]
fn parse_published_spec() {
    let spec = DriverSpec::from_published_spec("published:nodejs:cassandra-driver@4.8.0").unwrap();
    assert_eq!(spec.name, "cassandra-driver");
    assert_eq!(spec.api, "nodejs");
    assert_eq!(spec.package, "cassandra-driver");
    assert_eq!(
        spec.source,
        DriverSource::Published {
            version: "4.8.0".to_owned()
        }
    );
    assert_eq!(spec.commit_id(None).unwrap().as_str(), "v4.8.0");
}

#[test]
fn parse_published_spec_invalid() {
    for s in [
        "published:nodejs:cassandra-driver",
        "published:cassandra-driver@4.8.0",
        "nodejs:cassandra-driver@4.8.0",
        "published::x@1",
    ] {
        assert!(DriverSpec::from_published_spec(s).is_err(), "{s}");
    }
}

#[test]
fn points_that_cannot_be_listed() {
    assert!(scenario("a", 1, Some(3), 2, ProgressType::Additive).can_list_points());
    assert!(!scenario("a", 1, None, 2, ProgressType::Additive).can_list_points());
    // Only the listed points must fit: the last one may be the largest number.
    assert!(scenario("a", u64::MAX, Some(1), 2, ProgressType::Multiplicative).can_list_points());
    assert_eq!(scenario("a", u64::MAX, Some(1), 2, ProgressType::Multiplicative).benchmark_points(), vec![u64::MAX]);
    assert!(!scenario("a", u64::MAX, Some(2), 2, ProgressType::Multiplicative).can_list_points());
    assert!(scenario("a", u64::MAX, Some(2), 1, ProgressType::Multiplicative).can_list_points());
    assert!(scenario("a", 5, Some(0), 2, ProgressType::Additive).benchmark_points().is_empty());
}

#[test]
fn scenario_from_entry_and_defaults() {
    let list = BenchmarkConfigList {
        configs: vec![scenario("first", 1, None, 1, ProgressType::Additive), scenario("second", 2, Some(2), 3, ProgressType::Multiplicative)],
        defaults: BenchmarkDefaults {
            param_mode: Some(ParamMode::Concurrency),
            no_steps: Some(4),
            step_progress: None,
            progress_type: None,
            timeout: None,
            num_runs: None,
            measure: None,
        },
    };
    let merged = list.configs();
    assert_eq!(merged[0].no_steps, Some(4));
    assert_eq!(merged[1].no_steps, Some(2));
    assert_eq!(merged[0].param_mode, Some(ParamMode::Concurrency));
    let found = find_scenario_config("second", &list, "scenarios.yml").unwrap();
    let data = BenchmarkData::from_config(found);
    assert_eq!(data.name, "second");
    assert_eq!(data.workload, "second");
    assert_eq!(data.param_mode, ParamMode::Concurrency);
    assert_eq!(data.points, vec![2, 6]);
    match find_scenario_config("third", &list, "scenarios.yml") {
        Err(ConfigError::ConfigurationNotFound { path, benchmark_name }) => {
            assert_eq!(path, "scenarios.yml");
            assert_eq!(benchmark_name, "third");
        }
        other => panic!("unexpected {other:?}"),
    }
}

#[test]
fn points_are_sorted_keeping_duplicates() {
    assert_eq!(sort_points(vec![5, 1, 3, 1]), vec![1, 1, 3, 5]);
    assert_eq!(sort_points(vec![]), Vec::<u64>::new());
}

#[test]
fn api_directory_and_declared_api() {
    let (dir, path) = ApiSetup::locate("/bench", "nodejs");
    assert_eq!(dir, "/bench/apis/nodejs");
    assert_eq!(path, "/bench/apis/nodejs/api-config.yml");
    let config = ApiConfig {
        api: "rust".to_owned(),
        env_prepare: "./prepare.sh".to_owned(),
        env_cleanup: "./cleanup.sh".to_owned(),
        build_command: "cargo build".to_owned(),
        run_command: "cargo run".to_owned(),
    };
    match ApiSetup::from_config(config.clone(), dir.clone(), path.clone(), "nodejs") {
        Err(ApiConfigError::ApiMismatch { declared, requested, .. }) => {
            assert_eq!(declared, "rust");
            assert_eq!(requested, "nodejs");
        }
        other => panic!("unexpected {other:?}"),
    }
    let setup = ApiSetup::from_config(config, dir, path, "rust").unwrap();
    assert_eq!(setup.api_dir, "/bench/apis/nodejs");
}

#[test]
fn local_driver_environment_and_version() {
    let spec = DriverSpec::from_repo_config(
        "/src/driver",
        DriverRepoConfig {
            driver_name: "rust-driver".to_owned(),
            api: "rust-v1".to_owned(),
            package: "scylla".to_owned(),
            package_path: Some("scylla".to_owned()),
        },
    );
    assert_eq!(spec.repository(), Some("/src/driver"));
    assert_eq!(
        spec.env_vars(),
        vec![
            ("DRIVER_PACKAGE".to_owned(), "scylla".to_owned()),
            ("DRIVER_SOURCE".to_owned(), "path".to_owned()),
            ("DRIVER_PATH".to_owned(), "/src/driver".to_owned()),
            ("DRIVER_PACKAGE_PATH".to_owned(), "scylla".to_owned()),
        ]
    );
    let hash = CommitHash::new_unchecked("a".repeat(40));
    let clean = spec.commit_id(Some(Ok((hash.clone(), false)))).unwrap();
    assert_eq!(clean.as_str(), "a".repeat(40));
    let dirty = spec.commit_id(Some(Ok((hash, true)))).unwrap();
    assert_eq!(dirty.as_str(), "a".repeat(40) + "-dirty");
    let status = status_command("/src/driver");
    assert_eq!(status.to_string(), "git status --porcelain");
    assert_eq!(status.cwd().as_deref(), Some("/src/driver"));
    let printed = ProcessOutput { code: Some(0), stdout: b" M lib.rs\n".to_vec(), stderr: vec![] };
    assert!(is_dirty(&Some(printed)));
    assert!(!is_dirty(&None));
}

#[test]
fn published_driver_environment() {
    let spec = DriverSpec::from_published_spec("published:nodejs:cassandra-driver@4.8.0").unwrap();
    assert_eq!(spec.repository(), None);
    assert_eq!(
        spec.env_vars(),
        vec![
            ("DRIVER_PACKAGE".to_owned(), "cassandra-driver".to_owned()),
            ("DRIVER_SOURCE".to_owned(), "published".to_owned()),
            ("DRIVER_VERSION".to_owned(), "4.8.0".to_owned()),
        ]
    );
}

#[test]
fn defaults_fill_only_unset_run_counts() {
    let mut explicit = scenario("explicit", 1, Some(1), 1, ProgressType::Additive);
    explicit.num_runs = Some(1);
    let mut unset = scenario("unset", 1, Some(1), 1, ProgressType::Additive);
    unset.num_runs = None;
    let mut defaults = BenchmarkDefaults::empty();
    defaults.num_runs = Some(5);
    let list = BenchmarkConfigList { configs: vec![explicit, unset], defaults };
    let merged = list.configs();
    assert_eq!(merged[0].num_runs, Some(1));
    assert_eq!(merged[1].num_runs, Some(5));
    assert_eq!(BenchmarkData::from_config(merged[0].clone()).num_runs, 1);
    assert_eq!(BenchmarkData::from_config(merged[1].clone()).num_runs, 5);
    let mut bare = scenario("bare", 1, Some(1), 1, ProgressType::Additive);
    bare.num_runs = None;
    assert_eq!(BenchmarkData::from_config(bare).num_runs, 1);
}
