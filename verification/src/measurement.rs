//! How a benchmark point is measured, and its name in the results database.

use vstd::prelude::*;

use crate::command::{Command, CommandParsingError, CommandView, command_text, shell_split};
use crate::text::{owned, str_eq};

verus! {

/// How a run is measured.
#[derive(Debug)]
pub enum MeasurementMethod {
    Time,
    Perf,
    FlameGraph,
    /// Any command, given the run command (and the point) as arguments.
    Command(Command),
}

/// The abstract value of a measurement method.
pub enum MeasurementMethodView {
    Time,
    Perf,
    FlameGraph,
    Command(CommandView),
}

impl View for MeasurementMethod {
    type V = MeasurementMethodView;

    open spec fn view(&self) -> MeasurementMethodView {
        match self {
            MeasurementMethod::Time => MeasurementMethodView::Time,
            MeasurementMethod::Perf => MeasurementMethodView::Perf,
            MeasurementMethod::FlameGraph => MeasurementMethodView::FlameGraph,
            MeasurementMethod::Command(c) => MeasurementMethodView::Command(c@),
        }
    }
}

impl Clone for MeasurementMethod {
    fn clone(&self) -> (r: Self)
        ensures
            r@ == self@,
    {
        match self {
            MeasurementMethod::Time => MeasurementMethod::Time,
            MeasurementMethod::Perf => MeasurementMethod::Perf,
            MeasurementMethod::FlameGraph => MeasurementMethod::FlameGraph,
            MeasurementMethod::Command(c) => MeasurementMethod::Command(c.clone()),
        }
    }
}

/// Why a measurement method could not be read.
#[derive(Debug, Clone, PartialEq, Eq)]
pub enum MeasurementMethodParsingError {
    /// Not one of the named methods, and not a command either.
    ParsingFailed(CommandParsingError),
    /// The given flame-graph path is not a directory.
    FlameGraphNotInADirectory(String),
}

/// The name under which results of a method are stored.
pub open spec fn measurement_text(m: MeasurementMethodView) -> Seq<char> {
    match m {
        MeasurementMethodView::FlameGraph => "flame-graph"@,
        MeasurementMethodView::Perf => "perf"@,
        MeasurementMethodView::Time => "time"@,
        MeasurementMethodView::Command(c) => command_text(c.program, c.arguments),
    }
}

/// The method that a name denotes: one of the three named methods, or else a
/// command line.
pub open spec fn parse_measurement(s: Seq<char>) -> Option<MeasurementMethodView> {
    if s == "perf"@ {
        Some(MeasurementMethodView::Perf)
    } else if s == "flame-graph"@ {
        Some(MeasurementMethodView::FlameGraph)
    } else if s == "time"@ {
        Some(MeasurementMethodView::Time)
    } else {
        match shell_split(s) {
            Some(words) => if words.len() > 0 {
                Some(
                    MeasurementMethodView::Command(
                        CommandView {
                            program: words[0],
                            arguments: words.drop_first(),
                            cwd: None,
                            envs: Seq::empty(),
                        },
                    ),
                )
            } else {
                None
            },
            None => None,
        }
    }
}

impl MeasurementMethod {
    /// The label of the y axis of plots of this method.
    pub fn y_axis_label(&self) -> (r: &'static str)
        ensures
            r@ == match self@ {
                MeasurementMethodView::Time => "Time [s]"@,
                MeasurementMethodView::Perf => "Perf value"@,
                MeasurementMethodView::FlameGraph => "Frequency"@,
                MeasurementMethodView::Command(_) => "Value"@,
            },
    {
        match self {
            MeasurementMethod::Time => "Time [s]",
            MeasurementMethod::Perf => "Perf value",
            MeasurementMethod::FlameGraph => "Frequency",
            MeasurementMethod::Command(_) => "Value",
        }
    }

    /// The name under which results of this method are stored.
    pub fn to_string(&self) -> (r: String)
        ensures
            r@ == measurement_text(self@),
    {
        match self {
            MeasurementMethod::FlameGraph => owned("flame-graph"),
            MeasurementMethod::Perf => owned("perf"),
            MeasurementMethod::Time => owned("time"),
            MeasurementMethod::Command(c) => c.to_string(),
        }
    }

    /// Reads a method: `perf`, `flame-graph`, `time`, or any command line.
    pub fn from_str(s: &str) -> (r: Result<MeasurementMethod, MeasurementMethodParsingError>)
        ensures
            match r {
                Ok(m) => parse_measurement(s@) == Some(m@),
                Err(MeasurementMethodParsingError::ParsingFailed(e)) => parse_measurement(s@) is None
                    && (e == CommandParsingError::FailedShlexing <==> shell_split(s@) is None),
                Err(_) => false,
            },
    {
        proof {
            reveal_strlit("perf");
            reveal_strlit("flame-graph");
            reveal_strlit("time");
        }
        if str_eq(s, "perf") {
            Ok(MeasurementMethod::Perf)
        } else if str_eq(s, "flame-graph") {
            Ok(MeasurementMethod::FlameGraph)
        } else if str_eq(s, "time") {
            Ok(MeasurementMethod::Time)
        } else {
            match Command::from_str(s) {
                Ok(c) => {
                    assert(c@.envs =~= Seq::<(Seq<char>, Seq<char>)>::empty());
                    Ok(MeasurementMethod::Command(c))
                },
                Err(e) => Err(MeasurementMethodParsingError::ParsingFailed(e)),
            }
        }
    }
}

/// Reading back the name of a named method gives that method.
pub proof fn lemma_named_method_roundtrip(m: MeasurementMethodView)
    requires
        !(m is Command),
    ensures
        parse_measurement(measurement_text(m)) == Some(m),
{
    reveal_strlit("perf");
    reveal_strlit("flame-graph");
    reveal_strlit("time");
    assert("time"@[0] != "perf"@[0]);
    assert("flame-graph"@.len() != "perf"@.len());
    assert("flame-graph"@.len() != "time"@.len());
}

} // verus!
