//! The runs of one benchmark point: prepare, measure, teardown, repeated for
//! timing, and what the point ends with.
//!
//! The caller performs each requested action and reports what happened; this
//! state machine decides what comes next, and whether the point is stored,
//! skipped or aborts the scenario.

use vstd::prelude::*;

use crate::database::utilities::BenchmarkRecord;

verus! {

/// What the caller reports after performing an action.
#[derive(Debug, Clone)]
pub enum RunEvent {
    /// The prepare phase succeeded.
    Prepared,
    /// The prepare phase failed; nothing is measured.
    PrepareFailed,
    /// The measurement failed.
    MeasureFailed,
    /// The measured run did not finish in time.
    TimedOut,
    /// A timing run printed a number of seconds, kept by the caller.
    TimeMeasured,
    /// A timing run printed something that is not a number.
    TimeUnreadable,
    /// The measurement produced a record.
    Recorded(BenchmarkRecord),
    /// The teardown phase ran (its failures are only reported).
    TornDown,
}

/// How a measured outcome is to be reported.
#[derive(Debug, Clone)]
pub enum MeasuredKind {
    /// The text printed by a timing run must first be read as seconds.
    ReadTime,
    /// The outcome is this event.
    Event(RunEvent),
}

/// What a finished point stores.
#[derive(Debug, Clone)]
pub enum PointResult {
    /// This record.
    Record(BenchmarkRecord),
    /// Mean and deviation of the times that the caller kept.
    Timed,
}

/// What to do next for a point.
#[derive(Debug, Clone)]
pub enum PointAction {
    /// Run the unmeasured prepare phase.
    Prepare,
    /// Run the measured run phase.
    Measure,
    /// Run the unmeasured teardown phase.
    Teardown,
    /// The point failed.
    Fail,
    /// The point is done; store this.
    Store(PointResult),
}

/// How a point ends, given whether failures are skipped.
#[derive(Debug, Clone)]
pub enum PointEnd {
    /// Store this and go on.
    Store(PointResult),
    /// The point failed; go on with the next one.
    Skip,
    /// The point failed; stop the scenario with its error.
    Abort,
}

/// Where a run stands.
#[derive(Debug, Clone, Copy, PartialEq, Eq, Structural)]
pub enum Phase {
    /// Between runs.
    Ready,
    /// Prepared, not measured yet.
    Prepared,
    /// Measured, not torn down yet.
    Measured,
}

/// The progress of one point.
#[derive(Debug, Clone)]
pub struct PointState {
    /// Runs to perform.
    pub runs: u64,
    /// Runs started so far.
    pub attempted: u64,
    /// Times kept so far.
    pub values: u64,
    /// The record kept so far.
    pub record: Option<BenchmarkRecord>,
    /// A run failed.
    pub failed: bool,
    /// A run timed out.
    pub stopped: bool,
    /// Where the current run stands.
    pub phase: Phase,
}

/// How many runs a point gets: `num_runs` when timing, one otherwise.
pub open spec fn runs_for(is_time: bool, num_runs: u32) -> u64 {
    if is_time {
        num_runs as u64
    } else {
        1
    }
}

/// How many runs a point gets: `num_runs` when timing, one otherwise.
pub fn runs_per_point(is_time: bool, num_runs: u32) -> (r: u64)
    ensures
        r == runs_for(is_time, num_runs),
{
    if is_time {
        num_runs as u64
    } else {
        1
    }
}

/// How a measurement outcome (`None` for a failure) is reported: a timing
/// run's printed text must be read as seconds; a timeout and a failure stop
/// the point; any other record is kept.
pub fn classify(is_time: bool, outcome: &Option<BenchmarkRecord>) -> (r: MeasuredKind)
    ensures
        match *outcome {
            None => r matches MeasuredKind::Event(RunEvent::MeasureFailed),
            Some(BenchmarkRecord::Timeout) => r matches MeasuredKind::Event(RunEvent::TimedOut),
            Some(BenchmarkRecord::Data(d)) => if is_time {
                r is ReadTime
            } else {
                r matches MeasuredKind::Event(RunEvent::Recorded(x)) && x == BenchmarkRecord::Data(d)
            },
            Some(rec) => r matches MeasuredKind::Event(RunEvent::Recorded(x)) && x == rec,
        },
{
    match outcome {
        None => MeasuredKind::Event(RunEvent::MeasureFailed),
        Some(BenchmarkRecord::Timeout) => MeasuredKind::Event(RunEvent::TimedOut),
        Some(BenchmarkRecord::Data(d)) => {
            if is_time {
                MeasuredKind::ReadTime
            } else {
                MeasuredKind::Event(RunEvent::Recorded(BenchmarkRecord::Data(d.clone())))
            }
        },
        Some(BenchmarkRecord::FilePath(p)) => MeasuredKind::Event(
            RunEvent::Recorded(BenchmarkRecord::FilePath(p.clone())),
        ),
        Some(BenchmarkRecord::TimedData { mean_bits, stddev_bits }) => MeasuredKind::Event(
            RunEvent::Recorded(BenchmarkRecord::TimedData { mean_bits: *mean_bits, stddev_bits: *stddev_bits }),
        ),
    }
}

/// A copy of a record.
pub fn copy_record(r: &BenchmarkRecord) -> (c: BenchmarkRecord)
    ensures
        c == *r,
{
    match r {
        BenchmarkRecord::Data(d) => BenchmarkRecord::Data(d.clone()),
        BenchmarkRecord::FilePath(p) => BenchmarkRecord::FilePath(p.clone()),
        BenchmarkRecord::Timeout => BenchmarkRecord::Timeout,
        BenchmarkRecord::TimedData { mean_bits, stddev_bits } => BenchmarkRecord::TimedData {
            mean_bits: *mean_bits,
            stddev_bits: *stddev_bits,
        },
    }
}

/// What a point does next: a measured run is always torn down, and a
/// prepared one measured; between runs, a failure ends the point, another
/// run starts while runs are due, and otherwise the point stores its record,
/// or the kept times when it has none.
pub open spec fn next_action(s: PointState) -> PointAction {
    match s.phase {
        Phase::Measured => PointAction::Teardown,
        Phase::Prepared => PointAction::Measure,
        Phase::Ready => if s.failed {
            PointAction::Fail
        } else if !s.stopped && s.attempted < s.runs {
            PointAction::Prepare
        } else {
            match s.record {
                Some(rec) => PointAction::Store(PointResult::Record(rec)),
                None => PointAction::Store(PointResult::Timed),
            }
        },
    }
}

/// Whether `event` answers the action the state asked for.
pub open spec fn answers(s: PointState, event: RunEvent) -> bool {
    match next_action(s) {
        PointAction::Prepare => event is Prepared || event is PrepareFailed,
        PointAction::Measure => event is MeasureFailed || event is TimedOut || event is TimeMeasured
            || event is TimeUnreadable || event is Recorded,
        PointAction::Teardown => event is TornDown,
        _ => false,
    }
}

/// The state after `event` answered the action asked for.
pub open spec fn next_state(s: PointState, event: RunEvent) -> PointState {
    match event {
        RunEvent::Prepared => PointState { attempted: (s.attempted + 1) as u64, phase: Phase::Prepared, ..s },
        RunEvent::PrepareFailed => PointState { attempted: (s.attempted + 1) as u64, failed: true, ..s },
        RunEvent::MeasureFailed | RunEvent::TimeUnreadable => PointState { failed: true, phase: Phase::Measured, ..s },
        RunEvent::TimedOut => PointState {
            stopped: true,
            record: Some(BenchmarkRecord::Timeout),
            phase: Phase::Measured,
            ..s
        },
        RunEvent::TimeMeasured => PointState { values: (s.values + 1) as u64, phase: Phase::Measured, ..s },
        RunEvent::Recorded(x) => PointState { record: Some(x), phase: Phase::Measured, ..s },
        RunEvent::TornDown => PointState { phase: Phase::Ready, ..s },
    }
}

impl PointState {
    /// The state is consistent: no more runs started than planned, no more
    /// times kept than runs started, a timeout leaves a timeout record, and a
    /// run in progress has been counted.
    pub open spec fn wf(&self) -> bool {
        &&& self.attempted <= self.runs
        &&& self.values <= self.attempted
        &&& self.stopped ==> self.record == Some(BenchmarkRecord::Timeout)
        &&& self.phase != Phase::Ready ==> self.attempted > 0
        &&& self.phase == Phase::Prepared ==> !self.failed && !self.stopped && self.values < self.attempted
    }

    /// A point about to get `runs` runs.
    pub fn start(runs: u64) -> (r: PointState)
        ensures
            r.wf(),
            r == (PointState {
                runs,
                attempted: 0,
                values: 0,
                record: None,
                failed: false,
                stopped: false,
                phase: Phase::Ready,
            }),
    {
        PointState { runs, attempted: 0, values: 0, record: None, failed: false, stopped: false, phase: Phase::Ready }
    }

    /// What to do next (see `next_action`).
    pub fn action(&self) -> (r: PointAction)
        ensures
            r == next_action(*self),
    {
        match self.phase {
            Phase::Measured => PointAction::Teardown,
            Phase::Prepared => PointAction::Measure,
            Phase::Ready => {
                if self.failed {
                    PointAction::Fail
                } else if !self.stopped && self.attempted < self.runs {
                    PointAction::Prepare
                } else {
                    match &self.record {
                        Some(rec) => PointAction::Store(PointResult::Record(copy_record(rec))),
                        None => PointAction::Store(PointResult::Timed),
                    }
                }
            },
        }
    }

    /// The state after `event` answered the action asked for.
    pub fn step(self, event: RunEvent) -> (r: PointState)
        requires
            self.wf(),
            answers(self, event),
        ensures
            r.wf(),
            r == next_state(self, event),
    {
        let mut s = self;
        match event {
            RunEvent::Prepared => {
                s.attempted = s.attempted + 1;
                s.phase = Phase::Prepared;
            },
            RunEvent::PrepareFailed => {
                s.attempted = s.attempted + 1;
                s.failed = true;
            },
            RunEvent::MeasureFailed | RunEvent::TimeUnreadable => {
                s.failed = true;
                s.phase = Phase::Measured;
            },
            RunEvent::TimedOut => {
                s.stopped = true;
                s.record = Some(BenchmarkRecord::Timeout);
                s.phase = Phase::Measured;
            },
            RunEvent::TimeMeasured => {
                s.values = s.values + 1;
                s.phase = Phase::Measured;
            },
            RunEvent::Recorded(x) => {
                s.record = Some(x);
                s.phase = Phase::Measured;
            },
            RunEvent::TornDown => {
                s.phase = Phase::Ready;
            },
        }
        s
    }

    /// How the point ends once it asks for no more phases: a failure is
    /// skipped when `keep_going`, and aborts the scenario otherwise.
    pub fn finish(&self, keep_going: bool) -> (r: PointEnd)
        requires
            next_action(*self) is Fail || next_action(*self) is Store,
        ensures
            next_action(*self) is Fail && keep_going ==> r is Skip,
            next_action(*self) is Fail && !keep_going ==> r is Abort,
            next_action(*self) matches PointAction::Store(x) ==> r == PointEnd::Store(x),
    {
        match self.action() {
            PointAction::Store(x) => PointEnd::Store(x),
            _ => {
                if keep_going {
                    PointEnd::Skip
                } else {
                    PointEnd::Abort
                }
            },
        }
    }
}

/// A measured run is always torn down, whatever the measurement reported,
/// and a failed prepare phase is neither measured nor torn down: the point
/// fails at once.
pub proof fn lemma_teardown_follows_measurement(s: PointState, event: RunEvent)
    requires
        s.wf(),
        answers(s, event),
    ensures
        next_action(s) is Measure ==> next_action(next_state(s, event)) is Teardown,
        event is PrepareFailed ==> next_action(next_state(s, event)) is Fail,
{
}

/// Every answered action keeps the state consistent, and no more runs are
/// started than planned: a point is prepared at most `runs` times.
pub proof fn lemma_runs_bounded(s: PointState, event: RunEvent)
    requires
        s.wf(),
        answers(s, event),
    ensures
        next_state(s, event).wf(),
        next_state(s, event).attempted <= s.runs,
        event is Prepared || event is PrepareFailed ==> s.attempted < s.runs,
{
}

/// A run that times out ends the point with a timeout record once it is torn
/// down, and one that fails makes the point fail once it is torn down.
pub proof fn lemma_measured_outcome_ends_point(s: PointState, event: RunEvent)
    requires
        s.wf(),
        next_action(s) is Measure,
        event is TimedOut || event is MeasureFailed || event is TimeUnreadable,
    ensures
        ({
            let t = next_state(next_state(s, event), RunEvent::TornDown);
            &&& t.wf()
            &&& event is TimedOut ==> next_action(t) == PointAction::Store(PointResult::Record(BenchmarkRecord::Timeout))
            &&& !(event is TimedOut) ==> next_action(t) is Fail
        }),
{
}

} // verus!
