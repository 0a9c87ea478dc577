use scylladb_drivers_benchmarker::command::CommandParsingError;
use scylladb_drivers_benchmarker::commit_hash::{CommitHash, ErrorSource, RepoPath};
use scylladb_drivers_benchmarker::config::duration::{duration_overflows, parse_duration, MyDuration};
use scylladb_drivers_benchmarker::database::query::{
    create_table_sql, data_filtration, files_to_remove, join_strings, schema, schema_matches,
    single_result, MultipleResults, SqlValue,
};
use scylladb_drivers_benchmarker::database::utilities::{
    BenchmarkFilters, BenchmarkParams, BenchmarkParamsBuilder, BenchmarkRecord,
};
use scylladb_drivers_benchmarker::flame_graph::{FlameFrequency, NotAFlameFrequency};
use scylladb_drivers_benchmarker::measurement::{MeasurementMethod, MeasurementMethodParsingError};
use scylladb_drivers_benchmarker::number::{parse_u32, parse_u64, u64_to_string};
use scylladb_drivers_benchmarker::perf_stat::{decimal_point_text, find_event};
use scylladb_drivers_benchmarker::process::ProcessOutput;
use scylladb_drivers_benchmarker::text::{path_join, split_all, split_once, strip_prefix, trim_end};

fn roundtrip(d: MyDuration, text: &str) {
    assert_eq!(d.to_text(), text);
    assert!(!duration_overflows(text));
    assert_eq!(parse_duration(text).unwrap(), d);
}

/// Checks the duration against the YAML document `expected`: the document
/// holds the duration's text, and reading that text, or the one written back
/// by the YAML serializer, gives the duration again.
fn serde_case(d: MyDuration, expected: &str) {
    let text = d.to_text();
    let expected_text: String = serde_yml::from_str(expected).unwrap();
    assert_eq!(text, expected_text);
    assert_eq!(parse_duration(&expected_text).unwrap(), d);
    let written = serde_yml::to_string(&text).unwrap();
    let reread: String = serde_yml::from_str(&written).unwrap();
    assert_eq!(parse_duration(&reread).unwrap(), d);
}

#[test]
fn serde_test_single_duration() {
    serde_case(MyDuration::from_secs(2), "'2s'\n");
    serde_case(MyDuration::new(0, 13_000_000), "'13ms'\n");
    serde_case(MyDuration::new(0, 7), "'7ns'\n");
    serde_case(MyDuration::from_secs(4 * 60), "'4m'\n");
    serde_case(MyDuration::from_secs(20 * 60 * 60), "'20h'\n");
}

#[test]
fn serde_test_combined_duration() {
    serde_case(MyDuration::new(2, 13_000_000), "'2s13ms'\n");
    serde_case(MyDuration::new(4 * 60, 7), "'4m7ns'\n");
    serde_case(MyDuration::from_secs(20 * 60 * 60 + 5), "'20h5s'\n");
}

#[test]
fn single_durations() {
    roundtrip(MyDuration::from_secs(2), "2s");
    roundtrip(MyDuration::new(0, 13_000_000), "13ms");
    roundtrip(MyDuration::new(0, 7), "7ns");
    roundtrip(MyDuration::from_secs(4 * 60), "4m");
    roundtrip(MyDuration::from_secs(20 * 60 * 60), "20h");
    roundtrip(MyDuration::from_secs(0), "0s");
}

#[test]
fn combined_durations() {
    roundtrip(MyDuration::new(2, 13_000_000), "2s13ms");
    roundtrip(MyDuration::new(4 * 60, 7), "4m7ns");
    roundtrip(MyDuration::from_secs(20 * 60 * 60 + 5), "20h5s");
    roundtrip(MyDuration::new(3600 + 60 + 1, 1_500_000), "1h1m1s1500000ns");
}

#[test]
fn duration_texts_read_from_the_end() {
    // Units may come in any order and repeat; each adds to the total.
    assert_eq!(parse_duration("5s1m").unwrap(), MyDuration::from_secs(65));
    assert_eq!(parse_duration("1500ms").unwrap(), MyDuration::new(1, 500_000_000));
    assert_eq!(parse_duration("").unwrap(), MyDuration::from_secs(0));
    assert_eq!(parse_duration("5x").unwrap_err(), "unrecognized unit. Unparsed: 5x");
    assert_eq!(parse_duration("1h5").unwrap_err(), "unrecognized unit. Unparsed: 1h5");
    assert_eq!(parse_duration("s").unwrap_err(), "parsing of  failed");
    assert_eq!(
        parse_duration("99999999999999999999s").unwrap_err(),
        "parsing of 99999999999999999999 failed"
    );
    assert!(duration_overflows("18446744073709551615h"));
    assert!(duration_overflows("18446744073709551615s1s"));
    assert!(!duration_overflows("18446744073709551615s999ms"));
}

#[test]
fn numbers() {
    assert_eq!(parse_u64("18446744073709551615"), Some(u64::MAX));
    assert_eq!(parse_u64("18446744073709551616"), None);
    assert_eq!(parse_u64("+7"), Some(7));
    assert_eq!(parse_u64(""), None);
    assert_eq!(parse_u64("-1"), None);
    assert_eq!(parse_u32("4294967296"), None);
    assert_eq!(u64_to_string(0), "0");
    assert_eq!(u64_to_string(1234567890), "1234567890");
}

#[test]
fn measurement_names() {
    for name in ["time", "perf", "flame-graph"] {
        assert_eq!(MeasurementMethod::from_str(name).unwrap().to_string(), name);
    }
    let custom = MeasurementMethod::from_str("valgrind --tool=massif").unwrap();
    assert_eq!(custom.to_string(), "valgrind --tool=massif");
    assert_eq!(custom.y_axis_label(), "Value");
    assert_eq!(MeasurementMethod::Time.y_axis_label(), "Time [s]");
    assert_eq!(
        MeasurementMethod::from_str("").unwrap_err(),
        MeasurementMethodParsingError::ParsingFailed(CommandParsingError::ProgramNotGiven)
    );
}

#[test]
fn flame_frequencies() {
    assert_eq!(FlameFrequency::from_str("max").unwrap(), FlameFrequency::Max);
    assert_eq!(FlameFrequency::from_str("99").unwrap(), FlameFrequency::Number(99));
    assert_eq!(FlameFrequency::from_str("fast").unwrap_err(), NotAFlameFrequency);
    assert_eq!(FlameFrequency::Number(4000).to_string(), "4000");
    assert_eq!(FlameFrequency::Max.to_string(), "max");
}

#[test]
fn commit_hashes_from_git() {
    let hash = "0123456789abcdef0123456789abcdef01234567";
    let ok = ProcessOutput { code: Some(0), stdout: format!("{hash}\n").into_bytes(), stderr: vec![] };
    assert_eq!(CommitHash::from_git_output(ok).unwrap().as_str(), hash);
    let short = ProcessOutput { code: Some(0), stdout: b"abc\n".to_vec(), stderr: vec![] };
    assert_eq!(
        CommitHash::from_git_output(short).unwrap_err(),
        ErrorSource::InvalidHash { hash: "abc".to_owned() }
    );
    let failed = ProcessOutput { code: Some(128), stdout: vec![], stderr: b"fatal".to_vec() };
    assert!(matches!(
        CommitHash::from_git_output(failed),
        Err(ErrorSource::GitCommandFailure { .. })
    ));
    let bytes = ProcessOutput { code: Some(0), stdout: vec![0xc3, 0x28], stderr: vec![] };
    assert_eq!(CommitHash::from_git_output(bytes).unwrap_err(), ErrorSource::InvalidUtf8);
    assert!(CommitHash::validate(&"A".repeat(64)));
    assert!(!CommitHash::validate(&"g".repeat(40)));
    let cmd = CommitHash::rev_parse_command("HEAD".to_owned());
    assert_eq!(cmd.to_string(), "git rev-parse --verify HEAD");
    let err = CommitHash::from_git_run(cmd, RepoPath(Some("/r".to_owned())), Err("no git".to_owned())).unwrap_err();
    assert_eq!(err.repo_path.to_display_string(), "/r");
    assert_eq!(
        err.source,
        ErrorSource::GitCommandConstructionFailure { message: "no git".to_owned() }
    );
    assert_eq!(RepoPath(None).to_display_string(), "unspecified(current)");
}

#[test]
fn utf8_and_text_helpers() {
    assert_eq!(split_all("a,,b", ','), vec!["a", "", "b"]);
    assert_eq!(split_once("k=v=w", '='), Some(("k".to_owned(), "v=w".to_owned())));
    assert_eq!(strip_prefix("published:x", "published:"), Some("x".to_owned()));
    assert_eq!(path_join("/a/", "b"), "/a/b");
    assert_eq!(path_join("/a", "/abs"), "/abs");
    assert_eq!(trim_end("x \t\n"), "x");
}

#[test]
fn perf_numbers_and_events() {
    assert_eq!(decimal_point_text("1,25"), "1.25");
    let names = vec!["cycles".to_owned(), "task-clock".to_owned(), "task-clock".to_owned()];
    assert_eq!(find_event(&names, "task-clock"), Some(1));
    assert_eq!(find_event(&names, "branches"), None);
}

#[test]
fn result_queries() {
    let (sql, values) = data_filtration(&BenchmarkFilters::all());
    assert_eq!(sql, "");
    assert!(values.is_empty());
    let filters = BenchmarkFilters {
        commit_hashes: vec!["a".to_owned(), "b".to_owned()],
        benchmark_names: vec![],
        driver_names: vec!["rust".to_owned()],
        benchmark_points: vec![5],
        measurement_methods: vec![],
    };
    let (sql, values) = data_filtration(&filters);
    assert_eq!(
        sql,
        "WHERE commit_hash IN (?, ?) AND driver_name IN (?) AND benchmark_point IN (?)"
    );
    assert_eq!(
        values,
        vec![
            SqlValue::Text("a".to_owned()),
            SqlValue::Text("b".to_owned()),
            SqlValue::Text("rust".to_owned()),
            SqlValue::Integer(5),
        ]
    );
    let params = BenchmarkParamsBuilder::new(
        CommitHash::new_unchecked("h".to_owned()),
        "select".to_owned(),
        "rust".to_owned(),
        "time".to_owned(),
    )
    .finalize(3);
    let exact = BenchmarkFilters::filter_exact_param(&params);
    assert_eq!(exact.benchmark_points, vec![3]);
    assert_eq!(exact.driver_names, vec!["rust"]);
    let same = BenchmarkParams::new(
        CommitHash::new_unchecked("h".to_owned()),
        "select".to_owned(),
        "rust".to_owned(),
        3,
        "time".to_owned(),
    );
    assert_eq!(same, params);
    assert_eq!(join_strings(&vec!["x".to_owned(), "y".to_owned()], ", "), "x, y");
    assert_eq!(single_result(vec![]), Ok(None));
    assert_eq!(
        single_result(vec![BenchmarkRecord::Timeout, BenchmarkRecord::Timeout]),
        Err(MultipleResults)
    );
    assert!(BenchmarkRecord::Timeout.is_timeout());
    assert_eq!(
        files_to_remove(&vec![BenchmarkRecord::FilePath("/x".to_owned()), BenchmarkRecord::Timeout]),
        vec!["/x"]
    );
    assert!(schema_matches(&schema()));
    assert!(!schema_matches(&vec![]));
    assert!(create_table_sql().contains("Benchmarks"));
    assert!(create_table_sql().starts_with("CREATE TABLE IF NOT EXISTS Benchmarks (commit_hash TEXT NOT NULL, "));
    assert!(create_table_sql().ends_with(
        "data_json TEXT NOT NULL, UNIQUE(commit_hash, benchmark_name, driver_name, benchmark_point, measurement_method));"
    ));
}

#[test]
fn test_data_filtration() {
    let commit_hashes = vec!["a", "b"];
    let benchmark_names = vec!["x", "y"];
    let driver_names = vec!["backend1"];
    let benchmark_points = vec![1, 2];
    let measurement_methods = vec!["cold", "hot"];
    for &ch in &commit_hashes {
        for &bn in &benchmark_names {
            for &back in &driver_names {
                for &bp in &benchmark_points {
                    for &mm in &measurement_methods {
                        let params = BenchmarkParams::new(
                            CommitHash::new_unchecked(ch.into()),
                            bn.into(),
                            back.into(),
                            bp,
                            mm.into(),
                        );
                        let (sql, values) = data_filtration(&BenchmarkFilters::filter_exact_param(&params));
                        let expected_sql = "WHERE commit_hash IN (?) AND benchmark_name IN (?) \
                             AND driver_name IN (?) AND benchmark_point IN (?) \
                             AND measurement_method IN (?)";
                        assert_eq!(sql, expected_sql);
                        assert_eq!(values.len(), 5);
                        assert_eq!(
                            values,
                            vec![
                                SqlValue::Text(ch.to_owned()),
                                SqlValue::Text(bn.to_owned()),
                                SqlValue::Text(back.to_owned()),
                                SqlValue::Integer(bp as i64),
                                SqlValue::Text(mm.to_owned()),
                            ]
                        );
                    }
                }
            }
        }
    }
}
