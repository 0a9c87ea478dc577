//! Plotting decisions: what is plotted and how, where each chart of a grid
//! goes, the output format, and which stored results a chart lacks.
//!
//! Drawing itself (floating-point ranges and the drawing backends) is done
//! by the caller.

pub mod flamegraph;
pub mod perf_stat;

use vstd::prelude::*;

use crate::benchmarking::unstored_points;
use crate::commit_hash::CommitHash;
use crate::config::benchmark::BenchmarkPoint;
use crate::measurement::MeasurementMethod;
use crate::number::{decimal, u64_to_string};
use crate::text::{
    chars_of, find_char, find_str, first_index_of, first_occurrence, owned, push_str, split_all,
    split_spec, lemma_split_nonempty, str_eq, string_of_range,
};

verus! {

/// Width of one chart, in pixels.
pub const IMAGE_WIDTH: u32 = 1920;

/// Height of one chart, in pixels.
pub const IMAGE_HEIGHT: u32 = 1080;

/// Number of charts in a row of a grid.
pub const GRID_COLS: u32 = 2;

/// A (driver, commit, label) triple identifying one data series to plot.
#[derive(Debug)]
pub struct DriverWithCommit {
    pub driver_name: String,
    pub commit: CommitHash,
    pub tag: String,
}

/// What the y axis of a series plot shows.
#[derive(Debug, Clone, Copy, PartialEq, Eq, Structural)]
pub enum Quantity {
    /// The measured time.
    Time,
    /// The throughput derived from it: the point divided by the time.
    Throughput,
}

/// The scaling of the y axis of a series plot.
#[derive(Debug, Clone, Copy, PartialEq, Eq, Structural)]
pub enum Scale {
    Linear,
    Log,
}

/// How a series plot draws its values.
#[derive(Debug, Clone, Copy, PartialEq, Eq, Structural)]
pub enum VisKind {
    /// Times on a linear axis.
    Linear,
    /// Times on a logarithmic axis.
    Log,
    /// Throughputs, drawn as grouped columns standing on zero.
    Throughput,
}

impl VisKind {
    /// The drawing of `quantity` on a `scale` axis: throughputs are always
    /// drawn as columns on a linear axis.
    pub fn new(quantity: Quantity, scale: Scale) -> (r: VisKind)
        ensures
            quantity == Quantity::Throughput ==> r == VisKind::Throughput,
            quantity == Quantity::Time && scale == Scale::Linear ==> r == VisKind::Linear,
            quantity == Quantity::Time && scale == Scale::Log ==> r == VisKind::Log,
    {
        match quantity {
            Quantity::Throughput => VisKind::Throughput,
            Quantity::Time => match scale {
                Scale::Linear => VisKind::Linear,
                Scale::Log => VisKind::Log,
            },
        }
    }
}

/// The kind of plot to make.
#[derive(Debug)]
pub enum PlotKind {
    Series { measurement_method: MeasurementMethod, visualization_kind: VisKind },
    FlameGraph { artifacts_dir: Option<String>, flame_repo: String },
    PerfStat { events: Vec<String> },
}

/// A plot request: its kind and the file it is written to.
#[derive(Debug)]
pub struct PlotSettings {
    pub plot_kind: PlotKind,
    output: String,
}

impl PlotSettings {
    /// The request to make a `plot_kind` plot into `output`.
    pub fn new(plot_kind: PlotKind, output: String) -> (r: PlotSettings)
        ensures
            r.kind_spec() == plot_kind,
            r.output_spec() == output@,
    {
        PlotSettings { plot_kind, output }
    }

    /// The kind of plot requested.
    pub closed spec fn kind_spec(&self) -> PlotKind {
        self.plot_kind
    }

    /// The file the plot is written to.
    pub closed spec fn output_spec(&self) -> Seq<char> {
        self.output@
    }

    /// The file the plot is written to.
    pub fn output(&self) -> (r: &str)
        ensures
            r@ == self.output_spec(),
    {
        self.output.as_str()
    }
}

/// Why a plot could not be made.
#[derive(Debug)]
pub enum PlotError {
    Database(String),
    InvalidData(String),
    Plotters(String),
    /// A value that has no logarithm, as the bit pattern of a 64-bit float.
    InvalidLogValue(u64),
    MissingRecords {
        commit_hash: String,
        benchmark: String,
        points: Vec<BenchmarkPoint>,
        measurement_method: String,
    },
    MissingBenchmark { commit_hash: String, benchmark: String, measurement_method: String },
    IncompatibleOutputFormat { format: String, plot: String },
    MissingFlameRepo,
    Io { message: String, path: Option<String> },
    Internal(String),
}

/// The file formats a chart can be written in.
#[derive(Debug, Clone, Copy, PartialEq, Eq, Structural)]
pub enum OutputFormat {
    Png,
    Svg,
    /// A page written by the flame-graph plot itself; nothing is drawn.
    Html,
}

/// The extension of a file name: what follows its last `.`, or the whole
/// name when it has none.
pub open spec fn extension_spec(output: Seq<char>) -> Seq<char> {
    split_spec(output, '.').last()
}

/// The format that an extension names.
pub open spec fn format_of(ext: Seq<char>) -> Option<OutputFormat> {
    if ext == "png"@ {
        Some(OutputFormat::Png)
    } else if ext == "svg"@ {
        Some(OutputFormat::Svg)
    } else if ext == "html"@ {
        Some(OutputFormat::Html)
    } else {
        None
    }
}

/// The extension of a file name: what follows its last `.`, or the whole
/// name when it has none.
pub fn extension(output: &str) -> (r: String)
    ensures
        r@ == extension_spec(output@),
{
    let pieces = split_all(output, '.');
    proof {
        lemma_split_nonempty(output@, '.');
    }
    let last = pieces.len() - 1;
    assert(pieces@.map_values(|p: String| p@)[last as int] == pieces@[last as int]@);
    pieces[last].clone()
}

/// The format a single chart is written in, from the output's extension;
/// `plot` names the chart in the error for any other extension.
pub fn single_chart_format(output: &str, plot: &str) -> (r: Result<OutputFormat, PlotError>)
    ensures
        match format_of(extension_spec(output@)) {
            Some(f) => r == Ok::<OutputFormat, PlotError>(f),
            None => r matches Err(PlotError::IncompatibleOutputFormat { format, plot: p })
                && format@ == extension_spec(output@) && p@ == plot@,
        },
{
    proof {
        reveal_strlit("png");
        reveal_strlit("svg");
        reveal_strlit("html");
    }
    let ext = extension(output);
    if str_eq(ext.as_str(), "png") {
        Ok(OutputFormat::Png)
    } else if str_eq(ext.as_str(), "svg") {
        Ok(OutputFormat::Svg)
    } else if str_eq(ext.as_str(), "html") {
        Ok(OutputFormat::Html)
    } else {
        Err(PlotError::IncompatibleOutputFormat { format: ext, plot: owned(plot) })
    }
}

/// The format a grid of charts is written in: PNG or SVG, from the output's
/// extension.
pub fn grid_format(output: &str) -> (r: Result<OutputFormat, PlotError>)
    ensures
        extension_spec(output@) == "png"@ ==> r == Ok::<OutputFormat, PlotError>(OutputFormat::Png),
        extension_spec(output@) == "svg"@ ==> r == Ok::<OutputFormat, PlotError>(OutputFormat::Svg),
        extension_spec(output@) != "png"@ && extension_spec(output@) != "svg"@ ==> (r matches Err(
            PlotError::IncompatibleOutputFormat { format, plot },
        ) && format@ == extension_spec(output@) && plot@ == "grid"@),
{
    proof {
        reveal_strlit("png");
        reveal_strlit("svg");
        assert("png"@[0] != "svg"@[0]);
    }
    let ext = extension(output);
    if str_eq(ext.as_str(), "png") {
        Ok(OutputFormat::Png)
    } else if str_eq(ext.as_str(), "svg") {
        Ok(OutputFormat::Svg)
    } else {
        Err(PlotError::IncompatibleOutputFormat { format: ext, plot: owned("grid") })
    }
}

/// How a set of scenarios is plotted.
#[derive(Debug, Clone, Copy, PartialEq, Eq, Structural)]
pub enum PlotLayout {
    /// No scenario: nothing is drawn.
    Nothing,
    /// One scenario: one chart.
    Single,
    /// Several scenarios: one chart each, in a grid.
    Grid,
}

/// How `count` scenarios are plotted.
pub fn plot_layout(count: usize) -> (r: PlotLayout)
    ensures
        count == 0 ==> r == PlotLayout::Nothing,
        count == 1 ==> r == PlotLayout::Single,
        count > 1 ==> r == PlotLayout::Grid,
{
    if count == 1 {
        PlotLayout::Single
    } else if count == 0 {
        PlotLayout::Nothing
    } else {
        PlotLayout::Grid
    }
}

/// The number of rows of a grid of `count` charts.
pub open spec fn grid_rows_spec(count: nat) -> nat {
    ((count + GRID_COLS - 1) as nat) / (GRID_COLS as nat)
}

/// The size in pixels of a grid of `count` charts: `GRID_COLS` charts wide,
/// as many rows as needed.
pub fn grid_size(count: usize) -> (r: (u32, u32))
    requires
        IMAGE_HEIGHT * grid_rows_spec(count as nat) <= u32::MAX,
    ensures
        r.0 == IMAGE_WIDTH * GRID_COLS,
        r.1 == IMAGE_HEIGHT * grid_rows_spec(count as nat),
{
    let rows: usize = count / 2 + count % 2;
    assert(rows == grid_rows_spec(count as nat));
    assert(rows <= 3976821);
    let rows32: u32 = rows as u32;
    (IMAGE_WIDTH * GRID_COLS, IMAGE_HEIGHT * rows32)
}

/// Where the `index`-th chart of a grid goes: its column and row times the
/// chart's size.
pub fn cell_origin(index: usize) -> (r: (u32, u32))
    requires
        IMAGE_HEIGHT * ((index as nat) / (GRID_COLS as nat)) <= u32::MAX,
    ensures
        r.0 == IMAGE_WIDTH * ((index as nat) % (GRID_COLS as nat)),
        r.1 == IMAGE_HEIGHT * ((index as nat) / (GRID_COLS as nat)),
{
    let col: u32 = (index % 2) as u32;
    let row_u: usize = index / 2;
    assert(row_u <= 3976821);
    let row: u32 = row_u as u32;
    (IMAGE_WIDTH * col, IMAGE_HEIGHT * row)
}

/// An SVG document placed at `(x, y)` inside another: any text before its
/// root `<svg` element is dropped, and `x` and `y` attributes are added at
/// the end of that element's opening tag.
pub open spec fn nest_svg_spec(svg: Seq<char>, x: nat, y: nat) -> Seq<char> {
    let start = match first_occurrence(svg, "<svg"@) {
        Some(i) => i,
        None => 0,
    };
    let t = svg.subrange(start, svg.len() as int);
    let end = match first_index_of(t, '>') {
        Some(j) => j,
        None => t.len() as int,
    };
    t.subrange(0, end) + " x=\""@ + decimal(x) + "\" y=\""@ + decimal(y) + "\""@ + t.subrange(end, t.len() as int)
}

/// Places an SVG document at `(x, y)` inside another (see `nest_svg_spec`).
pub fn nest_svg(svg: &str, x: u32, y: u32) -> (r: String)
    ensures
        r@ == nest_svg_spec(svg@, x as nat, y as nat),
{
    proof {
        reveal_strlit("<svg");
    }
    let v = chars_of(svg);
    let pattern = chars_of("<svg");
    let start: usize = match find_str(&v, &pattern) {
        Some(i) => {
            proof {
                crate::text::lemma_occurrence_in_bounds(v@, pattern@, 0);
            }
            i
        },
        None => 0,
    };
    let t = string_of_range(&v, start, v.len());
    let tv = chars_of(t.as_str());
    let end: usize = match find_char(&tv, '>') {
        Some(j) => {
            proof {
                crate::text::lemma_first_index_of(tv@, '>');
            }
            j
        },
        None => tv.len(),
    };
    let mut r = string_of_range(&tv, 0, end);
    push_str(&mut r, " x=\"");
    push_str(&mut r, u64_to_string(x as u64).as_str());
    push_str(&mut r, "\" y=\"");
    push_str(&mut r, u64_to_string(y as u64).as_str());
    push_str(&mut r, "\"");
    push_str(&mut r, string_of_range(&tv, end, tv.len()).as_str());
    r
}

/// The name of a series: the driver, then `@` and the label; a series with
/// an empty label (an explicit empty alias) is named by its driver alone.
pub fn series_name(driver_name: &str, tag: &str) -> (r: String)
    ensures
        tag@.len() == 0 ==> r@ == driver_name@,
        tag@.len() > 0 ==> r@ == driver_name@ + "@"@ + tag@,
{
    let mut r = owned(driver_name);
    if tag.unicode_len() > 0 {
        push_str(&mut r, "@");
        push_str(&mut r, tag);
    }
    r
}

/// What the title of a series plot adds after the scenario's name.
pub open spec fn title_suffix(kind: VisKind) -> Seq<char> {
    match kind {
        VisKind::Log => " (log scale)"@,
        VisKind::Throughput => " (throughput)"@,
        VisKind::Linear => ""@,
    }
}

/// The title of a series plot of the scenario `name`.
pub fn series_title(name: &str, kind: VisKind) -> (r: String)
    ensures
        r@ == "Benchmark "@ + name@ + " Results"@ + title_suffix(kind),
{
    let mut r = owned("Benchmark ");
    push_str(&mut r, name);
    push_str(&mut r, " Results");
    match kind {
        VisKind::Log => push_str(&mut r, " (log scale)"),
        VisKind::Throughput => push_str(&mut r, " (throughput)"),
        VisKind::Linear => push_str(&mut r, ""),
    }
    r
}

/// The label of the y axis of a series plot: throughputs have their own
/// unit; times are labelled as the measurement method says.
pub fn series_y_label(kind: VisKind, method_label: &str) -> (r: String)
    ensures
        kind == VisKind::Throughput ==> r@ == "Throughput [points/s]"@,
        kind != VisKind::Throughput ==> r@ == method_label@,
{
    match kind {
        VisKind::Throughput => owned("Throughput [points/s]"),
        _ => owned(method_label),
    }
}

/// The slot of a column in a throughput plot: each group of columns spans one
/// slot per series and one that separates it from the next group.
pub fn column_slot(group_index: u64, series_index: u64, series_count: u64) -> (r: u64)
    requires
        series_count < u64::MAX,
        group_index * (series_count + 1) + series_index <= u64::MAX,
    ensures
        r == group_index * (series_count + 1) + series_index,
{
    assert(group_index * (series_count + 1) <= u64::MAX) by (nonlinear_arith)
        requires
            group_index * (series_count + 1) + series_index <= u64::MAX,
            series_index >= 0,
    ;
    group_index * (series_count + 1) + series_index
}

/// The width of one group of columns, in slots: one per series and a separator.
pub fn group_width(series_count: u64) -> (r: u64)
    requires
        series_count < u64::MAX,
    ensures
        r == series_count + 1,
{
    series_count + 1
}

/// The results a series of a chart lacks: `Ok` when every point has one;
/// when none has, the scenario did not run for this commit; otherwise the
/// points without a result are listed. `found` holds, for each point, whether
/// a result was found.
pub fn check_missing(
    commit_hash: &CommitHash,
    benchmark: &str,
    measurement_method: &str,
    points: &Vec<BenchmarkPoint>,
    found: &Vec<bool>,
) -> (r: Result<(), PlotError>)
    requires
        points.len() == found.len(),
    ensures
        unstored_points(points@, found@).len() == 0 ==> r is Ok,
        unstored_points(points@, found@).len() > 0 && unstored_points(points@, found@).len() == points.len() ==> (r matches Err(
            PlotError::MissingBenchmark { commit_hash: c, benchmark: b, measurement_method: m },
        ) && c@ == commit_hash@ && b@ == benchmark@ && m@ == measurement_method@),
        unstored_points(points@, found@).len() > 0 && unstored_points(points@, found@).len() != points.len() ==> (r matches Err(
            PlotError::MissingRecords { commit_hash: c, benchmark: b, points: p, measurement_method: m },
        ) && c@ == commit_hash@ && b@ == benchmark@ && m@ == measurement_method@ && p@ == unstored_points(
            points@,
            found@,
        )),
{
    let missing = crate::benchmarking::points_to_measure(
        crate::benchmarking::BenchmarkMode::UseCached,
        points,
        found,
    );
    if missing.len() == 0 {
        Ok(())
    } else if missing.len() == points.len() {
        Err(PlotError::MissingBenchmark {
            commit_hash: commit_hash.to_string(),
            benchmark: owned(benchmark),
            measurement_method: owned(measurement_method),
        })
    } else {
        Err(PlotError::MissingRecords {
            commit_hash: commit_hash.to_string(),
            benchmark: owned(benchmark),
            points: missing,
            measurement_method: owned(measurement_method),
        })
    }
}

/// A commit with no stored driver results for a scenario did not run it.
pub fn check_drivers_found(
    commit_hash: &CommitHash,
    benchmark: &str,
    measurement_method: &str,
    driver_names: &Vec<String>,
) -> (r: Result<(), PlotError>)
    ensures
        driver_names.len() > 0 ==> r is Ok,
        driver_names.len() == 0 ==> (r matches Err(
            PlotError::MissingBenchmark { commit_hash: c, benchmark: b, measurement_method: m },
        ) && c@ == commit_hash@ && b@ == benchmark@ && m@ == measurement_method@),
{
    if driver_names.len() > 0 {
        Ok(())
    } else {
        Err(PlotError::MissingBenchmark {
            commit_hash: commit_hash.to_string(),
            benchmark: owned(benchmark),
            measurement_method: owned(measurement_method),
        })
    }
}

} // verus!
