//! The order of a benchmarking session: env-prepare, the build, every scenario
//! in turn, and env-cleanup at the end, also when a step before it failed.

use vstd::prelude::*;

verus! {

/// The step a session is at.
#[derive(Debug, Clone, Copy, PartialEq, Eq, Structural)]
pub enum SessionStage {
    /// Running the api's env-prepare command.
    Preparing,
    /// Building the benchmark project.
    Building,
    /// Benchmarking the scenario at this index.
    Running(usize),
    /// Running the api's env-cleanup command.
    CleaningUp,
    /// Nothing is left to do.
    Done,
}

/// The progress of a session over `scenarios` scenarios.
#[derive(Debug, Clone, Copy, PartialEq, Eq, Structural)]
pub struct SessionState {
    /// The number of scenarios to benchmark.
    pub scenarios: usize,
    /// The step to perform next.
    pub stage: SessionStage,
    /// The step that failed, if one did.
    pub failure: Option<SessionStage>,
}

/// The step after `stage` succeeded: the build follows env-prepare, the
/// scenarios follow the build one after the other, and env-cleanup follows
/// the last of them (or the build, when there is none).
pub open spec fn after_success(scenarios: nat, stage: SessionStage) -> SessionStage {
    match stage {
        SessionStage::Preparing => SessionStage::Building,
        SessionStage::Building => if scenarios == 0 {
            SessionStage::CleaningUp
        } else {
            SessionStage::Running(0)
        },
        SessionStage::Running(i) => if i + 1 < scenarios {
            SessionStage::Running((i + 1) as usize)
        } else {
            SessionStage::CleaningUp
        },
        SessionStage::CleaningUp => SessionStage::Done,
        SessionStage::Done => SessionStage::Done,
    }
}

/// The state after the step of `s` was performed: env-cleanup ends the
/// session whatever it reported (its failures are only reported); any other
/// step that fails is recorded and the session goes straight to env-cleanup;
/// a step that succeeds leads to the one after it.
pub open spec fn next_session_state(s: SessionState, succeeded: bool) -> SessionState {
    match s.stage {
        SessionStage::Done => s,
        SessionStage::CleaningUp => SessionState { stage: SessionStage::Done, ..s },
        _ => if succeeded {
            SessionState { stage: after_success(s.scenarios as nat, s.stage), ..s }
        } else {
            SessionState { stage: SessionStage::CleaningUp, failure: Some(s.stage), ..s }
        },
    }
}

/// How many steps are left before the session is done.
pub open spec fn steps_left(s: SessionState) -> nat {
    match s.stage {
        SessionStage::Preparing => (s.scenarios + 3) as nat,
        SessionStage::Building => (s.scenarios + 2) as nat,
        SessionStage::Running(i) => (s.scenarios - i + 1) as nat,
        SessionStage::CleaningUp => 1,
        SessionStage::Done => 0,
    }
}

impl SessionState {
    /// The state is consistent: a running scenario is one of the session's,
    /// and a failure, once recorded, is of a step before env-cleanup and
    /// leaves only env-cleanup to perform.
    pub open spec fn wf(&self) -> bool {
        &&& self.stage matches SessionStage::Running(i) ==> i < self.scenarios
        &&& self.failure is Some ==> (self.stage is CleaningUp || self.stage is Done)
        &&& self.failure matches Some(f) ==> !(f is CleaningUp || f is Done)
        &&& self.failure matches Some(SessionStage::Running(i)) ==> i < self.scenarios
    }

    /// A session over `scenarios` scenarios, about to run env-prepare.
    pub open spec fn start_spec(scenarios: usize) -> SessionState {
        SessionState { scenarios, stage: SessionStage::Preparing, failure: None }
    }

    /// A session over `scenarios` scenarios, about to run env-prepare.
    pub fn start(scenarios: usize) -> (r: SessionState)
        ensures
            r.wf(),
            r == SessionState::start_spec(scenarios),
    {
        SessionState { scenarios, stage: SessionStage::Preparing, failure: None }
    }

    /// The state after the current step was performed, `succeeded` telling
    /// how it went (see `next_session_state`).
    pub fn step(self, succeeded: bool) -> (r: SessionState)
        requires
            self.wf(),
        ensures
            r.wf(),
            r == next_session_state(self, succeeded),
    {
        match self.stage {
            SessionStage::Done => self,
            SessionStage::CleaningUp => SessionState { stage: SessionStage::Done, ..self },
            stage => {
                if !succeeded {
                    SessionState { stage: SessionStage::CleaningUp, failure: Some(stage), ..self }
                } else {
                    let next = match stage {
                        SessionStage::Preparing => SessionStage::Building,
                        SessionStage::Building => {
                            if self.scenarios == 0 {
                                SessionStage::CleaningUp
                            } else {
                                SessionStage::Running(0)
                            }
                        },
                        SessionStage::Running(i) => {
                            if i + 1 < self.scenarios {
                                SessionStage::Running(i + 1)
                            } else {
                                SessionStage::CleaningUp
                            }
                        },
                        other => other,
                    };
                    SessionState { stage: next, ..self }
                }
            },
        }
    }

    /// How the session ended, once it is done: `Ok` when no step failed,
    /// otherwise the step that failed. `None` while steps are left.
    pub fn outcome(&self) -> (r: Option<Result<(), SessionStage>>)
        ensures
            !(self.stage is Done) ==> r is None,
            self.stage is Done ==> r == Some(
                match self.failure {
                    None => Ok::<(), SessionStage>(()),
                    Some(f) => Err(f),
                },
            ),
    {
        match self.stage {
            SessionStage::Done => match self.failure {
                None => Some(Ok(())),
                Some(f) => Some(Err(f)),
            },
            _ => None,
        }
    }
}

/// Env-cleanup runs at the end of every session, also on failure: a failed
/// step before it leads straight to it, the session is done only right after
/// it, and it runs once, whatever it reports.
pub proof fn lemma_cleanup_ends_every_session(s: SessionState, succeeded: bool)
    requires
        s.wf(),
    ensures
        !(s.stage is CleaningUp || s.stage is Done) && !succeeded ==> next_session_state(s, succeeded)
            == (SessionState { stage: SessionStage::CleaningUp, failure: Some(s.stage), ..s }),
        !(s.stage is Done) && next_session_state(s, succeeded).stage is Done ==> s.stage is CleaningUp,
        s.stage is CleaningUp ==> next_session_state(s, succeeded) == (SessionState { stage: SessionStage::Done, ..s }),
{
}

/// Every step keeps the state consistent and brings the session closer to
/// its end, so a session always gets to env-cleanup and then to its end.
pub proof fn lemma_session_progress(s: SessionState, succeeded: bool)
    requires
        s.wf(),
        !(s.stage is Done),
    ensures
        next_session_state(s, succeeded).wf(),
        steps_left(next_session_state(s, succeeded)) < steps_left(s),
{
}

/// After a successful build the scenarios run one after the other, each once,
/// in the order given, and env-cleanup follows the last of them.
pub proof fn lemma_scenarios_in_order(s: SessionState, i: usize)
    requires
        s.wf(),
        s.stage == SessionStage::Running(i),
    ensures
        i + 1 < s.scenarios ==> next_session_state(s, true).stage == SessionStage::Running((i + 1) as usize),
        i + 1 == s.scenarios ==> next_session_state(s, true).stage is CleaningUp,
        next_session_state(s, true).failure == s.failure,
{
}

/// A session without failures reports success, and one in which a step failed
/// reports that step, whatever env-cleanup reported.
pub proof fn lemma_session_outcome(s: SessionState, succeeded: bool)
    requires
        s.wf(),
        s.stage is CleaningUp,
    ensures
        next_session_state(s, succeeded).stage is Done,
        next_session_state(s, succeeded).failure == s.failure,
{
}

/// The `i`-th step of a session's work: env-prepare, the build, then the
/// scenarios in order.
pub open spec fn work_step(i: nat) -> SessionStage {
    if i == 0 {
        SessionStage::Preparing
    } else if i == 1 {
        SessionStage::Building
    } else {
        SessionStage::Running((i - 2) as usize)
    }
}

/// The steps of a session's work over `n` scenarios, in order.
pub open spec fn work_steps(n: nat) -> Seq<SessionStage> {
    Seq::new(n + 2, |i: int| work_step(i as nat))
}

/// The position of the first failure among `outcomes` (their length when none
/// failed).
pub open spec fn first_failure(outcomes: Seq<bool>) -> nat
    decreases outcomes.len(),
{
    if outcomes.len() == 0 {
        0
    } else if !outcomes[0] {
        0
    } else {
        1 + first_failure(outcomes.drop_first())
    }
}

/// The steps a session performs from `s` on, each answered in turn by the
/// next of `outcomes`, until it is done or no answer is left.
pub open spec fn performed_steps(s: SessionState, outcomes: Seq<bool>) -> Seq<SessionStage>
    decreases outcomes.len(),
{
    if s.stage is Done || outcomes.len() == 0 {
        Seq::empty()
    } else {
        seq![s.stage] + performed_steps(next_session_state(s, outcomes[0]), outcomes.drop_first())
    }
}

/// The state a session reaches from `s` with those answers.
pub open spec fn final_session(s: SessionState, outcomes: Seq<bool>) -> SessionState
    decreases outcomes.len(),
{
    if s.stage is Done || outcomes.len() == 0 {
        s
    } else {
        final_session(next_session_state(s, outcomes[0]), outcomes.drop_first())
    }
}

/// The whole-run part of `lemma_whole_session`, from the `j`-th work step on.
proof fn lemma_session_from(n: usize, j: nat, outcomes: Seq<bool>)
    requires
        j < n + 2,
        outcomes.len() >= n + 3 - j,
    ensures
        ({
            let s = SessionState { scenarios: n, stage: work_step(j), failure: None };
            let k = first_failure(outcomes) as int;
            let w = work_steps(n as nat);
            &&& performed_steps(s, outcomes) == (if j + k < n + 2 {
                w.subrange(j as int, j + k + 1int)
            } else {
                w.subrange(j as int, n + 2)
            }).push(SessionStage::CleaningUp)
            &&& final_session(s, outcomes).stage is Done
            &&& final_session(s, outcomes).failure == (if j + k < n + 2 {
                Some(w[j + k as int])
            } else {
                None::<SessionStage>
            })
        }),
    decreases n + 2 - j,
{
    let s = SessionState { scenarios: n, stage: work_step(j), failure: None };
    let w = work_steps(n as nat);
    let rest = outcomes.drop_first();
    let next = next_session_state(s, outcomes[0]);
    assert(w[j as int] == work_step(j));
    if !outcomes[0] {
        let c = SessionState { stage: SessionStage::CleaningUp, failure: Some(s.stage), ..s };
        assert(next == c);
        let d = next_session_state(c, rest[0]);
        assert(performed_steps(d, rest.drop_first()) =~= Seq::<SessionStage>::empty());
        assert(performed_steps(c, rest) =~= seq![SessionStage::CleaningUp]);
        assert(w.subrange(j as int, j + 1int) =~= seq![work_step(j)]);
        assert(performed_steps(s, outcomes) =~= seq![work_step(j), SessionStage::CleaningUp]);
        assert(final_session(c, rest) == final_session(d, rest.drop_first()));
    } else {
        assert(first_failure(outcomes) == 1 + first_failure(rest));
        if j + 1 < n + 2 {
            assert(next == SessionState { stage: work_step(j + 1), ..s });
            lemma_session_from(n, j + 1, rest);
            let k = first_failure(outcomes) as int;
            if j + k < n + 2 {
                assert(w.subrange(j as int, j + k + 1int) =~= seq![work_step(j)] + w.subrange(j + 1int, j + k + 1int));
            } else {
                assert(w.subrange(j as int, n + 2) =~= seq![work_step(j)] + w.subrange(j + 1int, n + 2));
            }
        } else {
            assert(next.stage is CleaningUp);
            let d = next_session_state(next, rest[0]);
            assert(performed_steps(d, rest.drop_first()) =~= Seq::<SessionStage>::empty());
            assert(performed_steps(next, rest) =~= seq![SessionStage::CleaningUp]);
            assert(w.subrange(j as int, n + 2) =~= seq![work_step(j)]);
            assert(performed_steps(s, outcomes) =~= seq![work_step(j), SessionStage::CleaningUp]);
            assert(final_session(next, rest) == final_session(d, rest.drop_first()));
        }
    }
}

/// A whole session over `n` scenarios, each step answered in turn by
/// `outcomes` (one answer for every step it may take): it performs
/// env-prepare, the build and the scenarios in order, stops the work at the
/// first step that fails, and then runs env-cleanup exactly once, as its last
/// step, whether a step failed or not. It ends reporting success when every
/// step of its work succeeded, and otherwise the step that failed first.
pub proof fn lemma_whole_session(n: usize, outcomes: Seq<bool>)
    requires
        outcomes.len() >= n + 3,
    ensures
        ({
            let s = SessionState::start_spec(n);
            let k = first_failure(outcomes) as int;
            let w = work_steps(n as nat);
            &&& performed_steps(s, outcomes) == (if k < n + 2 { w.take(k + 1int) } else { w }).push(SessionStage::CleaningUp)
            &&& final_session(s, outcomes).stage is Done
            &&& final_session(s, outcomes).failure == (if k < n + 2 { Some(w[k as int]) } else { None::<SessionStage> })
        }),
{
    lemma_session_from(n, 0, outcomes);
    let w = work_steps(n as nat);
    assert(w.subrange(0, n + 2) =~= w);
    let k = first_failure(outcomes) as int;
    if k < n + 2 {
        assert(w.subrange(0, k + 1int) =~= w.take(k + 1int));
    }
}

} // verus!
