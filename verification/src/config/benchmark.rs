//! Benchmark scenarios: their points, timeouts and measurement, with
//! top-level defaults.

use vstd::prelude::*;

use crate::command::{copy_opt, opt_view};
use crate::config::backend::{or_default, FindOutcome};
use crate::config::duration::MyDuration;
use crate::measurement::{MeasurementMethod, MeasurementMethodView};
use crate::text::str_eq;

verus! {

/// A benchmark point: the STEP value handed to the workload.
pub type BenchmarkPoint = u64;

/// How consecutive points grow.
#[derive(Debug, Clone, Copy, PartialEq, Eq, Structural)]
pub enum ProgressType {
    Multiplicative,
    Additive,
}

/// How the workload interprets the point value (the PARAM_MODE variable).
#[derive(Debug, Clone, Copy, PartialEq, Eq, Structural)]
pub enum ParamMode {
    /// The point is the number of queries.
    Count,
    /// The point is the concurrency level.
    Concurrency,
}

/// The points are in ascending order.
pub open spec fn points_sorted(s: Seq<BenchmarkPoint>) -> bool {
    forall|i: int, j: int| 0 <= i <= j < s.len() ==> s[i] <= s[j]
}

/// The points in ascending order (`slice::sort`): the same points, each as
/// often as before.
pub fn sort_points(v: Vec<BenchmarkPoint>) -> (r: Vec<BenchmarkPoint>)
    ensures
        points_sorted(r@),
        r@.to_multiset() == v@.to_multiset(),
{
    let mut r: Vec<BenchmarkPoint> = Vec::new();
    let mut i: usize = 0;
    assert(v@.take(0) =~= Seq::<BenchmarkPoint>::empty());
    assert(r@ =~= Seq::<BenchmarkPoint>::empty());
    while i < v.len()
        invariant
            i <= v.len(),
            points_sorted(r@),
            r@.to_multiset() == v@.take(i as int).to_multiset(),
        decreases v.len() - i,
    {
        let x = v[i];
        let mut pos: usize = 0;
        while pos < r.len() && r[pos] <= x
            invariant
                pos <= r.len(),
                forall|k: int| 0 <= k < pos ==> r@[k] <= x,
            decreases r.len() - pos,
        {
            pos = pos + 1;
        }
        let ghost old_r = r@;
        r.insert(pos, x);
        proof {
            assert(r@ == old_r.insert(pos as int, x));
            assert forall|a: int, b: int| 0 <= a <= b < r@.len() implies r@[a] <= r@[b] by {
                if a < pos && b < pos {
                    assert(r@[a] == old_r[a] && r@[b] == old_r[b]);
                } else if a < pos && b == pos {
                    assert(r@[a] == old_r[a]);
                } else if a < pos && b > pos {
                    assert(r@[a] == old_r[a] && r@[b] == old_r[b - 1]);
                } else if a == pos && b > pos {
                    assert(r@[b] == old_r[b - 1]);
                    assert(old_r[pos as int] <= old_r[b - 1]);
                } else if a > pos {
                    assert(r@[a] == old_r[a - 1] && r@[b] == old_r[b - 1]);
                }
            }
            assert(r@.remove(pos as int) =~= old_r);
            r@.to_multiset_ensures();
            assert(r@.to_multiset().remove(x) == old_r.to_multiset());
            assert(r@.to_multiset().count(x) > 0) by {
                assert(r@[pos as int] == x);
                assert(r@.contains(x));
            }
            assert(r@.to_multiset() =~= old_r.to_multiset().insert(x));
            assert(v@.take(i + 1) =~= v@.take(i as int).push(x));
            v@.take(i as int).to_multiset_ensures();
        }
        i = i + 1;
    }
    assert(v@.take(v.len() as int) =~= v@);
    r
}

/// The name of a parameter mode, as handed to the workload.
pub open spec fn param_mode_text(m: ParamMode) -> Seq<char> {
    match m {
        ParamMode::Count => "count"@,
        ParamMode::Concurrency => "concurrency"@,
    }
}

impl ParamMode {
    /// The mode used when none is configured.
    pub fn default_mode() -> (r: ParamMode)
        ensures
            r == ParamMode::Count,
    {
        ParamMode::Count
    }

    /// The mode's name, as handed to the workload.
    pub fn as_str(&self) -> (r: &'static str)
        ensures
            r@ == param_mode_text(*self),
    {
        match self {
            ParamMode::Count => "count",
            ParamMode::Concurrency => "concurrency",
        }
    }
}

/// The number of runs when none is configured.
pub fn default_num_runs() -> (r: u32)
    ensures
        r == 1,
{
    1
}

/// Whether `n` is the default number of runs.
pub fn is_default_num_runs(n: &u32) -> (r: bool)
    ensures
        r == (*n == 1),
{
    *n == 1
}

/// A copy of an optional measurement method.
pub fn copy_measure(m: &Option<MeasurementMethod>) -> (r: Option<MeasurementMethod>)
    ensures
        measure_view(r) == measure_view(*m),
{
    match m {
        Some(x) => Some(x.clone()),
        None => None,
    }
}

/// The abstract value of an optional measurement method.
pub open spec fn measure_view(m: Option<MeasurementMethod>) -> Option<MeasurementMethodView> {
    match m {
        Some(x) => Some(x@),
        None => None,
    }
}

/// One benchmark scenario as configured.
#[derive(Debug)]
pub struct BenchmarkConfig {
    pub name: String,
    /// Workload implementation to run; defaults to the scenario name.
    pub workload: Option<String>,
    pub param_mode: Option<ParamMode>,
    pub starting_step: BenchmarkPoint,
    pub no_steps: Option<BenchmarkPoint>,
    pub step_progress: Option<BenchmarkPoint>,
    pub progress_type: Option<ProgressType>,
    pub timeout: Option<MyDuration>,
    /// Runs per point when timing; one when unset.
    pub num_runs: Option<u32>,
    pub measure: Option<MeasurementMethod>,
}

/// The abstract value of a benchmark scenario.
pub struct BenchmarkConfigView {
    pub name: Seq<char>,
    pub workload: Option<Seq<char>>,
    pub param_mode: Option<ParamMode>,
    pub starting_step: BenchmarkPoint,
    pub no_steps: Option<BenchmarkPoint>,
    pub step_progress: Option<BenchmarkPoint>,
    pub progress_type: Option<ProgressType>,
    pub timeout: Option<MyDuration>,
    pub num_runs: Option<u32>,
    pub measure: Option<MeasurementMethodView>,
}

impl View for BenchmarkConfig {
    type V = BenchmarkConfigView;

    open spec fn view(&self) -> BenchmarkConfigView {
        BenchmarkConfigView {
            name: self.name@,
            workload: opt_view(self.workload),
            param_mode: self.param_mode,
            starting_step: self.starting_step,
            no_steps: self.no_steps,
            step_progress: self.step_progress,
            progress_type: self.progress_type,
            timeout: self.timeout,
            num_runs: self.num_runs,
            measure: measure_view(self.measure),
        }
    }
}

impl Clone for BenchmarkConfig {
    fn clone(&self) -> (r: Self)
        ensures
            r@ == self@,
    {
        BenchmarkConfig {
            name: self.name.clone(),
            workload: copy_opt(&self.workload),
            param_mode: self.param_mode,
            starting_step: self.starting_step,
            no_steps: self.no_steps,
            step_progress: self.step_progress,
            progress_type: self.progress_type,
            timeout: self.timeout,
            num_runs: self.num_runs,
            measure: copy_measure(&self.measure),
        }
    }
}

/// The `i`-th point of a scenario starting at `start` and growing by `step`.
pub open spec fn point_at(start: nat, step: nat, kind: ProgressType, i: nat) -> nat
    decreases i,
{
    if i == 0 {
        start
    } else {
        let p = point_at(start, step, kind, (i - 1) as nat);
        match kind {
            ProgressType::Additive => p + step,
            ProgressType::Multiplicative => p * step,
        }
    }
}

/// Whether the points of a scenario can be listed: its step count, step size
/// and progress type are set, and none of its points overflows.
pub open spec fn points_computable(c: BenchmarkConfigView) -> bool {
    &&& c.no_steps is Some
    &&& c.step_progress is Some
    &&& c.progress_type is Some
    &&& forall|i: nat|
        i < c.no_steps->0 ==> #[trigger] point_at(
            c.starting_step as nat,
            c.step_progress->0 as nat,
            c.progress_type->0,
            i,
        ) <= u64::MAX
}

/// The points of a scenario: `no_steps` of them, from the starting step on.
pub open spec fn points_of(c: BenchmarkConfigView) -> Seq<BenchmarkPoint> {
    Seq::new(
        c.no_steps->0 as nat,
        |i: int|
            point_at(c.starting_step as nat, c.step_progress->0 as nat, c.progress_type->0, i as nat)
                as u64,
    )
}

impl BenchmarkConfig {
    /// The points of the scenario, in order.
    pub fn benchmark_points(&self) -> (r: Vec<BenchmarkPoint>)
        requires
            points_computable(self@),
        ensures
            r@ == points_of(self@),
    {
        let no_steps = self.no_steps.unwrap();
        let step = self.step_progress.unwrap();
        let kind = self.progress_type.unwrap();
        let ghost start = self.starting_step as nat;
        let mut current: u64 = self.starting_step;
        let mut r: Vec<BenchmarkPoint> = Vec::new();
        let mut k: u64 = 0;
        while k < no_steps
            invariant
                points_computable(self@),
                no_steps == self@.no_steps->0,
                step == self@.step_progress->0,
                kind == self@.progress_type->0,
                start == self.starting_step,
                k <= no_steps,
                k < no_steps ==> current as nat == point_at(start, step as nat, kind, k as nat),
                r@.len() == k,
                forall|j: int| 0 <= j < k ==> r@[j] as nat == #[trigger] point_at(start, step as nat, kind, j as nat),
            decreases no_steps - k,
        {
            r.push(current);
            if k + 1 < no_steps {
                assert(point_at(
                    self@.starting_step as nat,
                    self@.step_progress->0 as nat,
                    self@.progress_type->0,
                    (k + 1) as nat,
                ) <= u64::MAX);
                match kind {
                    ProgressType::Additive => {
                        current = current + step;
                    },
                    ProgressType::Multiplicative => {
                        current = current * step;
                    },
                }
            }
            k = k + 1;
        }
        assert(r@ =~= points_of(self@));
        r
    }

    /// Whether the points of the scenario can be listed: its step count, step
    /// size and progress type are set, and no point overflows.
    pub fn can_list_points(&self) -> (r: bool)
        ensures
            r == points_computable(self@),
    {
        let (no_steps, step, kind) = match (self.no_steps, self.step_progress, self.progress_type) {
            (Some(n), Some(s), Some(k)) => (n, s, k),
            _ => return false,
        };
        let ghost start = self.starting_step as nat;
        let mut current: u64 = self.starting_step;
        let mut k: u64 = 0;
        while k + 1 < no_steps
            invariant
                no_steps == self@.no_steps->0,
                step == self@.step_progress->0,
                kind == self@.progress_type->0,
                start == self.starting_step,
                self@.no_steps is Some,
                self@.step_progress is Some,
                self@.progress_type is Some,
                k == 0 || k < no_steps,
                current as nat == point_at(start, step as nat, kind, k as nat),
                forall|j: nat| j <= k ==> #[trigger] point_at(start, step as nat, kind, j) <= u64::MAX,
            decreases no_steps - k,
        {
            let next = match kind {
                ProgressType::Additive => current.checked_add(step),
                ProgressType::Multiplicative => current.checked_mul(step),
            };
            match next {
                Some(n) => {
                    current = n;
                },
                None => {
                    assert(point_at(start, step as nat, kind, (k + 1) as nat) > u64::MAX);
                    assert(point_at(
                        self@.starting_step as nat,
                        self@.step_progress->0 as nat,
                        self@.progress_type->0,
                        (k + 1) as nat,
                    ) > u64::MAX);
                    return false;
                },
            }
            k = k + 1;
            assert forall|j: nat| j <= k implies #[trigger] point_at(start, step as nat, kind, j) <= u64::MAX by {
                if j < k {
                } else {
                    assert(j == k);
                }
            }
        }
        assert forall|i: nat| i < no_steps implies #[trigger] point_at(start, step as nat, kind, i) <= u64::MAX by {
            assert(i <= k);
        }
        true
    }

    /// The scenario's name (the key under which it is found).
    pub fn benchmark_name(&self) -> (r: String)
        ensures
            r@ == self@.name,
    {
        self.name.clone()
    }
}

/// A scenario ready to run: its points listed and its defaults resolved.
#[derive(Debug)]
pub struct BenchmarkData {
    pub name: String,
    /// Workload implementation name (the BENCHMARK variable).
    pub workload: String,
    /// How the workload interprets the point value (the PARAM_MODE variable).
    pub param_mode: ParamMode,
    pub points: Vec<BenchmarkPoint>,
    pub timeout: Option<MyDuration>,
    pub num_runs: u32,
    pub measure: Option<MeasurementMethod>,
}

/// The abstract value of a scenario ready to run.
pub struct BenchmarkDataView {
    pub name: Seq<char>,
    pub workload: Seq<char>,
    pub param_mode: ParamMode,
    pub points: Seq<BenchmarkPoint>,
    pub timeout: Option<MyDuration>,
    pub num_runs: u32,
    pub measure: Option<MeasurementMethodView>,
}

impl View for BenchmarkData {
    type V = BenchmarkDataView;

    open spec fn view(&self) -> BenchmarkDataView {
        BenchmarkDataView {
            name: self.name@,
            workload: self.workload@,
            param_mode: self.param_mode,
            points: self.points@,
            timeout: self.timeout,
            num_runs: self.num_runs,
            measure: measure_view(self.measure),
        }
    }
}

impl Clone for BenchmarkData {
    fn clone(&self) -> (r: Self)
        ensures
            r@ == self@,
    {
        BenchmarkData {
            name: self.name.clone(),
            workload: self.workload.clone(),
            param_mode: self.param_mode,
            points: self.points.clone(),
            timeout: self.timeout,
            num_runs: self.num_runs,
            measure: copy_measure(&self.measure),
        }
    }
}

/// The scenario that a configuration entry becomes.
pub open spec fn data_of(c: BenchmarkConfigView) -> BenchmarkDataView {
    BenchmarkDataView {
        name: c.name,
        workload: match c.workload {
            Some(w) => w,
            None => c.name,
        },
        param_mode: match c.param_mode {
            Some(m) => m,
            None => ParamMode::Count,
        },
        points: points_of(c),
        timeout: c.timeout,
        num_runs: match c.num_runs {
            Some(n) => n,
            None => 1,
        },
        measure: c.measure,
    }
}

impl BenchmarkData {
    /// The scenario that a configuration entry describes: its points listed,
    /// the workload defaulting to the scenario name, the mode to `count` and
    /// the number of runs to one.
    pub fn from_config(value: BenchmarkConfig) -> (r: BenchmarkData)
        requires
            points_computable(value@),
        ensures
            r@ == data_of(value@),
    {
        let points = value.benchmark_points();
        let workload = match &value.workload {
            Some(w) => w.clone(),
            None => value.name.clone(),
        };
        let param_mode = match value.param_mode {
            Some(m) => m,
            None => ParamMode::default_mode(),
        };
        BenchmarkData {
            points,
            workload,
            param_mode,
            name: value.name,
            timeout: value.timeout,
            num_runs: match value.num_runs {
                Some(n) => n,
                None => default_num_runs(),
            },
            measure: value.measure,
        }
    }
}

/// Defaults applied to every scenario that leaves a field unset.
#[derive(Debug)]
pub struct BenchmarkDefaults {
    pub param_mode: Option<ParamMode>,
    pub no_steps: Option<BenchmarkPoint>,
    pub step_progress: Option<BenchmarkPoint>,
    pub progress_type: Option<ProgressType>,
    pub timeout: Option<MyDuration>,
    pub num_runs: Option<u32>,
    pub measure: Option<MeasurementMethod>,
}

impl BenchmarkDefaults {
    /// No defaults at all.
    pub fn empty() -> (r: BenchmarkDefaults)
        ensures
            r.is_empty_spec(),
    {
        BenchmarkDefaults {
            param_mode: None,
            no_steps: None,
            step_progress: None,
            progress_type: None,
            timeout: None,
            num_runs: None,
            measure: None,
        }
    }

    /// Whether no default is set.
    pub open spec fn is_empty_spec(&self) -> bool {
        &&& self.param_mode is None
        &&& self.no_steps is None
        &&& self.step_progress is None
        &&& self.progress_type is None
        &&& self.timeout is None
        &&& self.num_runs is None
        &&& self.measure is None
    }

    /// Whether no default is set.
    pub fn is_empty(&self) -> (r: bool)
        ensures
            r == self.is_empty_spec(),
    {
        self.param_mode.is_none() && self.no_steps.is_none() && self.step_progress.is_none()
            && self.progress_type.is_none() && self.timeout.is_none() && self.num_runs.is_none()
            && self.measure.is_none()
    }
}

/// A scenario with the defaults applied.
pub open spec fn merge_benchmark(c: BenchmarkConfigView, d: &BenchmarkDefaults) -> BenchmarkConfigView {
    BenchmarkConfigView {
        param_mode: or_default(c.param_mode, d.param_mode),
        no_steps: or_default(c.no_steps, d.no_steps),
        step_progress: or_default(c.step_progress, d.step_progress),
        progress_type: or_default(c.progress_type, d.progress_type),
        timeout: or_default(c.timeout, d.timeout),
        num_runs: or_default(c.num_runs, d.num_runs),
        measure: or_default(c.measure, measure_view(d.measure)),
        ..c
    }
}

/// The index of the first scenario named `name`.
pub open spec fn find_benchmark(configs: Seq<BenchmarkConfigView>, name: Seq<char>) -> FindOutcome
    decreases configs.len(),
{
    if configs.len() == 0 {
        FindOutcome::NotFound
    } else if configs[0].name == name {
        FindOutcome::Found(0)
    } else {
        match find_benchmark(configs.drop_first(), name) {
            FindOutcome::Found(i) => FindOutcome::Found(i + 1),
            other => other,
        }
    }
}

/// The scenarios of a configuration file, with their defaults.
#[derive(Debug)]
pub struct BenchmarkConfigList {
    pub configs: Vec<BenchmarkConfig>,
    pub defaults: BenchmarkDefaults,
}

impl BenchmarkConfigList {
    /// The abstract value of all scenarios, with the defaults applied.
    pub open spec fn merged_view(&self) -> Seq<BenchmarkConfigView> {
        self.configs@.map_values(|c: BenchmarkConfig| merge_benchmark(c@, &self.defaults))
    }

    /// All scenarios, with the defaults applied, in order.
    pub fn configs(&self) -> (r: Vec<BenchmarkConfig>)
        ensures
            r@.map_values(|c: BenchmarkConfig| c@) == self.merged_view(),
    {
        let mut r: Vec<BenchmarkConfig> = Vec::new();
        let mut i: usize = 0;
        while i < self.configs.len()
            invariant
                i <= self.configs.len(),
                r@.len() == i,
                forall|j: int| 0 <= j < i ==> #[trigger] r@[j]@ == self.merged_view()[j],
            decreases self.configs.len() - i,
        {
            let mut c = self.configs[i].clone();
            let d = &self.defaults;
            if c.param_mode.is_none() {
                c.param_mode = d.param_mode;
            }
            if c.no_steps.is_none() {
                c.no_steps = d.no_steps;
            }
            if c.step_progress.is_none() {
                c.step_progress = d.step_progress;
            }
            if c.progress_type.is_none() {
                c.progress_type = d.progress_type;
            }
            if c.timeout.is_none() {
                c.timeout = d.timeout;
            }
            if c.num_runs.is_none() {
                c.num_runs = d.num_runs;
            }
            if c.measure.is_none() {
                c.measure = copy_measure(&d.measure);
            }
            r.push(c);
            i = i + 1;
        }
        assert(r@.map_values(|c: BenchmarkConfig| c@) =~= self.merged_view());
        r
    }

    /// The first scenario (defaults applied) named `benchmark_name`.
    pub fn find_config(&self, benchmark_name: &str) -> (r: Option<BenchmarkConfig>)
        ensures
            match find_benchmark(self.merged_view(), benchmark_name@) {
                FindOutcome::Found(i) => r matches Some(c) && c@ == self.merged_view()[i],
                _ => r is None,
            },
    {
        let configs = self.configs();
        let ghost all = self.merged_view();
        assert(all.subrange(0, all.len() as int) =~= all);
        let mut i: usize = 0;
        while i < configs.len()
            invariant
                configs@.map_values(|c: BenchmarkConfig| c@) == all,
                all == self.merged_view(),
                i <= configs.len(),
                find_benchmark(all, benchmark_name@) == match find_benchmark(all.subrange(i as int, all.len() as int), benchmark_name@) {
                    FindOutcome::Found(k) => FindOutcome::Found(k + i),
                    other => other,
                },
            decreases configs.len() - i,
        {
            let ghost rest = all.subrange(i as int, all.len() as int);
            assert(rest.drop_first() =~= all.subrange(i + 1, all.len() as int));
            assert(rest[0] == configs@[i as int]@);
            if str_eq(configs[i].name.as_str(), benchmark_name) {
                return Some(configs[i].clone());
            }
            i = i + 1;
        }
        None
    }
}

/// Finding a scenario by name finds the first one with that name, and finds
/// nothing only when no scenario has it: `find_config` gives the first match.
pub proof fn lemma_find_benchmark_first_match(configs: Seq<BenchmarkConfigView>, name: Seq<char>)
    ensures
        find_benchmark(configs, name) is Found || find_benchmark(configs, name) is NotFound,
        find_benchmark(configs, name) matches FindOutcome::Found(i) ==> {
            &&& 0 <= i < configs.len()
            &&& configs[i].name == name
            &&& forall|j: int| 0 <= j < i ==> #[trigger] configs[j].name != name
        },
        find_benchmark(configs, name) is NotFound ==> forall|j: int|
            0 <= j < configs.len() ==> #[trigger] configs[j].name != name,
    decreases configs.len(),
{
    if configs.len() > 0 && configs[0].name != name {
        let rest = configs.drop_first();
        lemma_find_benchmark_first_match(rest, name);
        assert forall|j: int| 1 <= j < configs.len() implies #[trigger] configs[j] == rest[j - 1] by {}
        if let FindOutcome::Found(i) = find_benchmark(configs, name) {
            assert forall|j: int| 0 <= j < i implies #[trigger] configs[j].name != name by {
                if j > 0 {
                    assert(configs[j] == rest[j - 1]);
                }
            }
        }
        if find_benchmark(configs, name) is NotFound {
            assert forall|j: int| 0 <= j < configs.len() implies #[trigger] configs[j].name != name by {
                if j > 0 {
                    assert(configs[j] == rest[j - 1]);
                }
            }
        }
    }
}

/// Applying the defaults fills exactly the fields a scenario leaves unset:
/// each unset field takes the default's value, each set field keeps its own,
/// and the name, the workload and the starting step are the scenario's.
pub proof fn lemma_defaults_fill_unset_fields(list: &BenchmarkConfigList, i: int)
    requires
        0 <= i < list.configs@.len(),
    ensures
        ({
            let c = list.configs@[i]@;
            let d = &list.defaults;
            let m = list.merged_view()[i];
            &&& list.merged_view().len() == list.configs@.len()
            &&& m.name == c.name && m.workload == c.workload && m.starting_step == c.starting_step
            &&& (c.param_mode is None ==> m.param_mode == d.param_mode)
            &&& (c.param_mode is Some ==> m.param_mode == c.param_mode)
            &&& (c.no_steps is None ==> m.no_steps == d.no_steps)
            &&& (c.no_steps is Some ==> m.no_steps == c.no_steps)
            &&& (c.step_progress is None ==> m.step_progress == d.step_progress)
            &&& (c.step_progress is Some ==> m.step_progress == c.step_progress)
            &&& (c.progress_type is None ==> m.progress_type == d.progress_type)
            &&& (c.progress_type is Some ==> m.progress_type == c.progress_type)
            &&& (c.timeout is None ==> m.timeout == d.timeout)
            &&& (c.timeout is Some ==> m.timeout == c.timeout)
            &&& (c.num_runs is None ==> m.num_runs == d.num_runs)
            &&& (c.num_runs is Some ==> m.num_runs == c.num_runs)
            &&& (c.measure is None ==> m.measure == measure_view(d.measure))
            &&& (c.measure is Some ==> m.measure == c.measure)
        }),
{
}

} // verus!
