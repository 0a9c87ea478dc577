use scylladb_drivers_benchmarker::commit_hash::CommitHash;
use scylladb_drivers_benchmarker::measurement::MeasurementMethod;
use scylladb_drivers_benchmarker::plotting::flamegraph::{
    artifact_path, flame_iframe, flame_page_footer, flame_page_header, flamegraph_command,
    flamegraph_failure, relative_size_svg, titled_flamegraph,
};
use scylladb_drivers_benchmarker::plotting::perf_stat::{event_units, PerfEventEntry};
use scylladb_drivers_benchmarker::plotting::{
    cell_origin, check_drivers_found, check_missing, column_slot, extension, grid_format,
    grid_size, group_width, nest_svg, plot_layout, series_name, series_title, series_y_label,
    single_chart_format, OutputFormat, PlotError, PlotKind, PlotLayout, PlotSettings, Quantity,
    Scale, VisKind,
};

#[test]
fn output_extension_and_formats() {
    assert_eq!(extension("plot.svg"), "svg");
    assert_eq!(extension("dir.v2/plot.png"), "png");
    assert_eq!(extension("noext"), "noext");
    assert_eq!(extension("trailing."), "");
    assert_eq!(single_chart_format("a.png", "series").unwrap(), OutputFormat::Png);
    assert_eq!(single_chart_format("a.svg", "series").unwrap(), OutputFormat::Svg);
    assert_eq!(single_chart_format("a.html", "flamegraph").unwrap(), OutputFormat::Html);
    match single_chart_format("a.jpg", "series") {
        Err(PlotError::IncompatibleOutputFormat { format, plot }) => {
            assert_eq!(format, "jpg");
            assert_eq!(plot, "series");
        }
        other => panic!("unexpected {other:?}"),
    }
    assert_eq!(grid_format("g.svg").unwrap(), OutputFormat::Svg);
    match grid_format("g.html") {
        Err(PlotError::IncompatibleOutputFormat { format, plot }) => {
            assert_eq!(format, "html");
            assert_eq!(plot, "grid");
        }
        other => panic!("unexpected {other:?}"),
    }
}

#[test]
fn layout_and_grid_geometry() {
    assert_eq!(plot_layout(0), PlotLayout::Nothing);
    assert_eq!(plot_layout(1), PlotLayout::Single);
    assert_eq!(plot_layout(5), PlotLayout::Grid);
    assert_eq!(grid_size(3), (3840, 2160));
    assert_eq!(grid_size(4), (3840, 2160));
    assert_eq!(grid_size(5), (3840, 3240));
    assert_eq!(cell_origin(0), (0, 0));
    assert_eq!(cell_origin(1), (1920, 0));
    assert_eq!(cell_origin(4), (0, 2160));
}

#[test]
fn nested_svg_is_placed() {
    let svg = "<?xml version=\"1.0\"?>\n<svg width=\"10\"><rect/></svg>";
    assert_eq!(
        nest_svg(svg, 1920, 0),
        "<svg width=\"10\" x=\"1920\" y=\"0\"><rect/></svg>"
    );
    assert_eq!(nest_svg("plain", 1, 2), "plain x=\"1\" y=\"2\"");
}

#[test]
fn chart_texts() {
    assert_eq!(series_name("rust", "v1.0"), "rust@v1.0");
    assert_eq!(series_name("rust", ""), "rust");
    assert_eq!(series_title("select", VisKind::Log), "Benchmark select Results (log scale)");
    assert_eq!(series_title("select", VisKind::Throughput), "Benchmark select Results (throughput)");
    assert_eq!(series_title("select", VisKind::Linear), "Benchmark select Results");
    assert_eq!(series_y_label(VisKind::Throughput, "Time [s]"), "Throughput [points/s]");
    assert_eq!(series_y_label(VisKind::Log, "Time [s]"), "Time [s]");
    assert_eq!(VisKind::new(Quantity::Time, Scale::Log), VisKind::Log);
    assert_eq!(VisKind::new(Quantity::Time, Scale::Linear), VisKind::Linear);
    assert_eq!(VisKind::new(Quantity::Throughput, Scale::Linear), VisKind::Throughput);
}

#[test]
fn column_slots() {
    assert_eq!(group_width(3), 4);
    assert_eq!(column_slot(0, 0, 3), 0);
    assert_eq!(column_slot(2, 1, 3), 9);
}

#[test]
fn missing_results() {
    let hash = CommitHash::new_unchecked("abc".to_owned());
    assert!(check_missing(&hash, "select", "time", &vec![1, 2], &vec![true, true]).is_ok());
    match check_missing(&hash, "select", "time", &vec![1, 2, 4], &vec![true, false, false]) {
        Err(PlotError::MissingRecords { commit_hash, benchmark, points, measurement_method }) => {
            assert_eq!(commit_hash, "abc");
            assert_eq!(benchmark, "select");
            assert_eq!(points, vec![2, 4]);
            assert_eq!(measurement_method, "time");
        }
        other => panic!("unexpected {other:?}"),
    }
    assert!(matches!(
        check_missing(&hash, "select", "time", &vec![1, 2], &vec![false, false]),
        Err(PlotError::MissingBenchmark { .. })
    ));
    assert!(matches!(
        check_drivers_found(&hash, "select", "time", &vec![]),
        Err(PlotError::MissingBenchmark { .. })
    ));
    assert!(check_drivers_found(&hash, "select", "time", &vec!["rust".to_owned()]).is_ok());
}

#[test]
fn settings_keep_output() {
    let s = PlotSettings::new(
        PlotKind::Series { measurement_method: MeasurementMethod::Time, visualization_kind: VisKind::Linear },
        "out.svg".to_owned(),
    );
    assert_eq!(s.output(), "out.svg");
}

#[test]
fn flame_graph_files_and_commands() {
    assert_eq!(artifact_path("/art", "select", "rust@v1", 10), "/art/select_rust@v1_10.svg");
    assert_eq!(flamegraph_command("/fg").to_string(), "/fg/flamegraph.pl --width 1920");
    match flamegraph_failure("rust", 3) {
        PlotError::Internal(m) => assert_eq!(m, "flamegraph.pl failed on rust data point 3"),
        other => panic!("unexpected {other:?}"),
    }
    assert_eq!(
        titled_flamegraph("<g>Flame Graph 2</g><text>Flame Graph</text>", "rust", 3),
        "<g>Flame Graph 2</g><text>rust at 3</text>"
    );
    assert!(flame_page_header("select").ends_with("\t<h1>Benchmark select results</h1>"));
    assert_eq!(flame_page_footer(), "</body></html>");
}

#[test]
fn flame_graph_frames() {
    let svg = "<?xml?><svg version=\"1.1\" width=\"1200\" height=\"342\" onload=\"init(evt)\"><g/></svg>";
    let (rel, w, h) = relative_size_svg(svg).unwrap();
    assert_eq!(rel, "<?xml?><svg version=\"1.1\" width=\"100%\" height=\"100%\" onload=\"init(evt)\"><g/></svg>");
    assert_eq!((w.as_str(), h.as_str()), ("1200", "342"));
    let frame = flame_iframe("<svg version=\"1\" width=\"2\" height=\"3\"/>").unwrap();
    assert_eq!(
        frame,
        "<iframe srcdoc='&lt;!DOCTYPE html&gt;&lt;html&gt;&lt;body&gt;&lt;svg version=&quot;1&quot; width=&quot;100%&quot; height=&quot;100%&quot;&#x2F;&gt;&lt;&#47;body&gt;&lt;&#47;html&gt;'\n                style=\"width:100%; aspect-ratio:2/3; border:none\"></iframe>"
    );
    match relative_size_svg("<svg width=\"2\" height=\"3\">") {
        Err(PlotError::Internal(m)) => assert_eq!(m, "Regex match failed in generated svg"),
        other => panic!("unexpected {other:?}"),
    }
    // White space of any kind separates the attributes; only the first
    // drawing's attributes are rewritten.
    let (rel, w, h) = relative_size_svg(
        "a<svg\n\tversion=\"1.1\"  width=\"10\"\nheight=\"20\"><svg version=\"2\" width=\"3\" height=\"4\">",
    )
    .unwrap();
    assert_eq!(rel, "a<svg version=\"1.1\" width=\"100%\" height=\"100%\"><svg version=\"2\" width=\"3\" height=\"4\">");
    assert_eq!((w.as_str(), h.as_str()), ("10", "20"));
    match flame_iframe("<svg/>") {
        Err(PlotError::Internal(m)) => assert_eq!(m, "Regex match failed in generated svg"),
        other => panic!("unexpected {other:?}"),
    }
}

fn entry(event: &str, unit: &str) -> PerfEventEntry {
    PerfEventEntry { event: event.to_owned(), unit: unit.to_owned() }
}

#[test]
fn perf_event_units() {
    let events = vec!["task-clock".to_owned(), "cycles".to_owned()];
    let series_a = vec![Some(vec![entry("task-clock", "CPUs utilized"), entry("cycles", "GHz")]), None];
    let series_b = vec![Some(vec![entry("task-clock", "CPUs utilized"), entry("cycles", "")])];
    match event_units(&events, &vec![series_a.clone(), series_b]) {
        Err(PlotError::InvalidData(m)) => assert_eq!(m, "different units for event cycles"),
        other => panic!("unexpected {other:?}"),
    }
    assert_eq!(
        event_units(&events, &vec![series_a.clone()]).unwrap(),
        vec!["CPUs utilized", "GHz"]
    );
    let missing = vec![Some(vec![entry("task-clock", "msec")])];
    match event_units(&events, &vec![series_a, missing]) {
        Err(PlotError::InvalidData(m)) => assert_eq!(m, "Event 'cycles' not found in dataset"),
        other => panic!("unexpected {other:?}"),
    }
}
