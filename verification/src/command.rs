//! Commands read from configurations: a program, its arguments, and the
//! working directory and environment it runs with.

use vstd::prelude::*;

use crate::text::{push_char, push_str};

verus! {

/// The parse error of `shell_words::split` (an unmatched quote).
#[verifier::external_type_specification]
#[verifier::external_body]
pub struct ExShellParseError(shell_words::ParseError);

/// The words that `shell_words::split` makes of a command line,
/// or `None` where it reports an unmatched quote.
pub uninterp spec fn shell_split(line: Seq<char>) -> Option<Seq<Seq<char>>>;

/// Calls `shell_words::split`. Its result is named by `shell_split`: the
/// contract claims that the call is a function of the line alone, and that it
/// fails exactly where `shell_split` gives `None`.
#[verifier::external_body]
fn split_words(line: &str) -> (r: Result<Vec<String>, shell_words::ParseError>)
    ensures
        r is Ok <==> shell_split(line@) is Some,
        r matches Ok(words) ==> words@.map_values(|w: String| w@) == shell_split(line@)->0,
{
    shell_words::split(line)
}

/// Why a command line could not be turned into a command.
#[derive(Debug, Clone, Copy, PartialEq, Eq)]
pub enum CommandParsingError {
    /// The line holds no word at all.
    ProgramNotGiven,
    /// The line has an unmatched quote.
    FailedShlexing,
}

/// The abstract value of a command.
pub struct CommandView {
    pub program: Seq<char>,
    pub arguments: Seq<Seq<char>>,
    pub cwd: Option<Seq<char>>,
    pub envs: Seq<(Seq<char>, Seq<char>)>,
}

/// A program with its arguments, working directory and extra environment.
#[derive(Debug)]
pub struct Command {
    program: String,
    arguments: Vec<String>,
    cwd: Option<String>,
    envs: Vec<(String, String)>,
}

/// The characters of each string of a sequence.
pub open spec fn strings_view(v: Seq<String>) -> Seq<Seq<char>> {
    v.map_values(|s: String| s@)
}

/// The characters of each pair of strings of a sequence.
pub open spec fn pairs_view(v: Seq<(String, String)>) -> Seq<(Seq<char>, Seq<char>)> {
    v.map_values(|p: (String, String)| (p.0@, p.1@))
}

/// The characters of an optional string.
pub open spec fn opt_view(o: Option<String>) -> Option<Seq<char>> {
    match o {
        Some(s) => Some(s@),
        None => None,
    }
}

impl View for Command {
    type V = CommandView;

    closed spec fn view(&self) -> CommandView {
        CommandView {
            program: self.program@,
            arguments: strings_view(self.arguments@),
            cwd: opt_view(self.cwd),
            envs: pairs_view(self.envs@),
        }
    }
}

/// A command line as printed: the program, then each argument after a space.
pub open spec fn command_text(program: Seq<char>, arguments: Seq<Seq<char>>) -> Seq<char>
    decreases arguments.len(),
{
    if arguments.len() == 0 {
        program
    } else {
        command_text(program, arguments.drop_last()) + seq![' '] + arguments.last()
    }
}

/// The command that a line denotes: its first word is the program and the
/// rest are its arguments; no working directory and no extra environment.
pub open spec fn parse_command_line(line: Seq<char>) -> Result<CommandView, CommandParsingError> {
    match shell_split(line) {
        None => Err(CommandParsingError::FailedShlexing),
        Some(words) => if words.len() == 0 {
            Err(CommandParsingError::ProgramNotGiven)
        } else {
            Ok(CommandView { program: words[0], arguments: words.drop_first(), cwd: None, envs: Seq::empty() })
        },
    }
}

/// The abstract value of a parsing result.
pub open spec fn command_result_view(r: Result<Command, CommandParsingError>) -> Result<CommandView, CommandParsingError> {
    match r {
        Ok(c) => Ok(c@),
        Err(e) => Err(e),
    }
}

/// A copy of a vector of strings.
pub fn copy_strings(v: &Vec<String>) -> (r: Vec<String>)
    ensures
        strings_view(r@) == strings_view(v@),
        r@.len() == v@.len(),
{
    let mut r: Vec<String> = Vec::new();
    let mut i: usize = 0;
    while i < v.len()
        invariant
            i <= v.len(),
            r@.len() == i,
            forall|j: int| 0 <= j < i ==> #[trigger] r@[j]@ == v@[j]@,
        decreases v.len() - i,
    {
        r.push(v[i].clone());
        i = i + 1;
    }
    assert(strings_view(r@) =~= strings_view(v@));
    r
}

/// A copy of a vector of pairs of strings.
pub fn copy_pairs(v: &Vec<(String, String)>) -> (r: Vec<(String, String)>)
    ensures
        pairs_view(r@) == pairs_view(v@),
{
    let mut r: Vec<(String, String)> = Vec::new();
    let mut i: usize = 0;
    while i < v.len()
        invariant
            i <= v.len(),
            r@.len() == i,
            forall|j: int| 0 <= j < i ==> #[trigger] r@[j].0@ == v@[j].0@ && r@[j].1@ == v@[j].1@,
        decreases v.len() - i,
    {
        let (a, b) = &v[i];
        r.push((a.clone(), b.clone()));
        i = i + 1;
    }
    assert(pairs_view(r@) =~= pairs_view(v@));
    r
}

/// A copy of an optional string.
pub fn copy_opt(o: &Option<String>) -> (r: Option<String>)
    ensures
        opt_view(r) == opt_view(*o),
{
    match o {
        Some(s) => Some(s.clone()),
        None => None,
    }
}

impl Clone for Command {
    fn clone(&self) -> (r: Self)
        ensures
            r@ == self@,
    {
        Command {
            program: self.program.clone(),
            arguments: copy_strings(&self.arguments),
            cwd: copy_opt(&self.cwd),
            envs: copy_pairs(&self.envs),
        }
    }
}

impl Command {
    /// A command running `program` with no arguments.
    pub fn new_program(program: String) -> (r: Command)
        ensures
            r@.program == program@,
            r@.arguments == Seq::<Seq<char>>::empty(),
            r@.cwd is None,
            r@.envs == Seq::<(Seq<char>, Seq<char>)>::empty(),
    {
        let r = Command { program, arguments: Vec::new(), cwd: None, envs: Vec::new() };
        assert(strings_view(r.arguments@) =~= Seq::<Seq<char>>::empty());
        assert(pairs_view(r.envs@) =~= Seq::<(Seq<char>, Seq<char>)>::empty());
        r
    }

    /// A command running `program` with the given arguments.
    pub fn new_args(program: String, arguments: Vec<String>) -> (r: Command)
        ensures
            r@.program == program@,
            r@.arguments == strings_view(arguments@),
            r@.cwd is None,
            r@.envs == Seq::<(Seq<char>, Seq<char>)>::empty(),
    {
        let r = Command { program, arguments, cwd: None, envs: Vec::new() };
        assert(pairs_view(r.envs@) =~= Seq::<(Seq<char>, Seq<char>)>::empty());
        r
    }

    /// The command made of split words: the first is the program, the rest are
    /// its arguments.
    pub fn from_words(words: Vec<String>) -> (r: Result<Command, CommandParsingError>)
        ensures
            words@.len() == 0 ==> r == Err::<Command, CommandParsingError>(CommandParsingError::ProgramNotGiven),
            words@.len() > 0 ==> (r matches Ok(c) && c@.program == words@[0]@
                && c@.arguments == strings_view(words@).drop_first() && c@.cwd is None
                && c@.envs.len() == 0),
    {
        if words.len() == 0 {
            return Err(CommandParsingError::ProgramNotGiven);
        }
        let mut words = words;
        let ghost before = words@;
        let program = words.remove(0);
        assert(strings_view(words@) =~= strings_view(before).drop_first());
        let r = Command::new_args(program, words);
        Ok(r)
    }

    /// Parses a shell-like command line (quotes and escapes as in a POSIX shell).
    pub fn from_str(line: &str) -> (r: Result<Command, CommandParsingError>)
        ensures
            shell_split(line@) is None ==> r == Err::<Command, CommandParsingError>(CommandParsingError::FailedShlexing),
            shell_split(line@) matches Some(words) ==> {
                &&& words.len() == 0 ==> r == Err::<Command, CommandParsingError>(CommandParsingError::ProgramNotGiven)
                &&& words.len() > 0 ==> (r matches Ok(c) && c@.program == words[0]
                    && c@.arguments == words.drop_first() && c@.cwd is None && c@.envs.len() == 0)
            },
            command_result_view(r) == parse_command_line(line@),
    {
        match split_words(line) {
            Ok(words) => {
                proof {
                    assert(strings_view(words@).len() == words@.len());
                    if words@.len() > 0 {
                        assert(strings_view(words@)[0] == words@[0]@);
                    }
                }
                let r = Command::from_words(words);
                proof {
                    if r is Ok {
                        assert(r->Ok_0@.envs =~= Seq::<(Seq<char>, Seq<char>)>::empty());
                    }
                }
                r
            },
            Err(_) => Err(CommandParsingError::FailedShlexing),
        }
    }

    /// Appends one argument.
    pub fn add_arg(&mut self, argument: String)
        ensures
            final(self)@ == (CommandView {
                arguments: old(self)@.arguments.push(argument@),
                ..old(self)@
            }),
    {
        self.arguments.push(argument);
        assert(strings_view(self.arguments@) =~= strings_view(old(self).arguments@).push(argument@));
    }

    /// `inner` run under `program`: the program's arguments are `prefix`,
    /// then `inner`'s program and arguments; it runs in `inner`'s directory
    /// with `inner`'s environment.
    pub fn wrapping(program: String, prefix: Vec<String>, inner: Command) -> (r: Command)
        ensures
            r@ == (CommandView {
                program: program@,
                arguments: strings_view(prefix@).push(inner@.program) + inner@.arguments,
                cwd: inner@.cwd,
                envs: inner@.envs,
            }),
    {
        let Command { program: inner_program, arguments, cwd, envs } = inner;
        let r = Command { program, arguments: prefix, cwd, envs }.with_arg(inner_program).with_args(arguments);
        r
    }

    /// The command with one more argument.
    pub fn with_arg(self, argument: String) -> (r: Command)
        ensures
            r@ == (CommandView { arguments: self@.arguments.push(argument@), ..self@ }),
    {
        let mut s = self;
        s.add_arg(argument);
        s
    }

    /// The command with the given arguments appended, in order.
    pub fn with_args(self, arguments: Vec<String>) -> (r: Command)
        ensures
            r@ == (CommandView { arguments: self@.arguments + strings_view(arguments@), ..self@ }),
    {
        let mut s = self;
        let ghost start = s@;
        let mut i: usize = 0;
        while i < arguments.len()
            invariant
                i <= arguments.len(),
                s@ == (CommandView {
                    arguments: start.arguments + strings_view(arguments@.subrange(0, i as int)),
                    ..start
                }),
            decreases arguments.len() - i,
        {
            s.add_arg(arguments[i].clone());
            assert(strings_view(arguments@.subrange(0, i + 1)) =~= strings_view(
                arguments@.subrange(0, i as int),
            ).push(arguments@[i as int]@));
            i = i + 1;
        }
        assert(arguments@.subrange(0, arguments@.len() as int) =~= arguments@);
        s
    }

    /// The command with another command (its program, then its arguments)
    /// appended as arguments.
    pub fn with_cmd_arg(self, argument: Command) -> (r: Command)
        ensures
            r@ == (CommandView {
                arguments: self@.arguments.push(argument@.program) + argument@.arguments,
                ..self@
            }),
    {
        self.with_arg(argument.program).with_args(argument.arguments)
    }

    /// The command run in the directory `dir`.
    pub fn with_cwd(self, dir: &str) -> (r: Command)
        ensures
            r@ == (CommandView { cwd: Some(dir@), ..self@ }),
    {
        let mut s = self;
        s.cwd = Some(dir.to_owned());
        s
    }

    /// The command with one more environment variable.
    pub fn with_env(self, key: &str, value: &str) -> (r: Command)
        ensures
            r@ == (CommandView { envs: self@.envs.push((key@, value@)), ..self@ }),
    {
        let mut s = self;
        let ghost before = s.envs@;
        s.envs.push((key.to_owned(), value.to_owned()));
        assert(pairs_view(s.envs@) =~= pairs_view(before).push((key@, value@)));
        s
    }

    /// The command with the given environment variables appended, in order.
    pub fn with_envs(self, envs: Vec<(String, String)>) -> (r: Command)
        ensures
            r@ == (CommandView { envs: self@.envs + pairs_view(envs@), ..self@ }),
    {
        let mut s = self;
        let ghost start = s@;
        let mut i: usize = 0;
        while i < envs.len()
            invariant
                i <= envs.len(),
                s@ == (CommandView { envs: start.envs + pairs_view(envs@.subrange(0, i as int)), ..start }),
            decreases envs.len() - i,
        {
            let (k, v) = &envs[i];
            s = s.with_env(k.as_str(), v.as_str());
            assert(pairs_view(envs@.subrange(0, i + 1)) =~= pairs_view(envs@.subrange(0, i as int)).push(
                (envs@[i as int].0@, envs@[i as int].1@),
            ));
            i = i + 1;
        }
        assert(envs@.subrange(0, envs@.len() as int) =~= envs@);
        s
    }

    /// The program run.
    pub fn program(&self) -> (r: &str)
        ensures
            r@ == self@.program,
    {
        self.program.as_str()
    }

    /// The arguments, in order.
    pub fn args(&self) -> (r: &Vec<String>)
        ensures
            strings_view(r@) == self@.arguments,
    {
        &self.arguments
    }

    /// The working directory, when one is set.
    pub fn cwd(&self) -> (r: &Option<String>)
        ensures
            opt_view(*r) == self@.cwd,
    {
        &self.cwd
    }

    /// The extra environment variables, in order.
    pub fn envs(&self) -> (r: &Vec<(String, String)>)
        ensures
            pairs_view(r@) == self@.envs,
    {
        &self.envs
    }

    /// The command line as printed: the program, then each argument after a space.
    pub fn to_string(&self) -> (r: String)
        ensures
            r@ == command_text(self@.program, self@.arguments),
    {
        let mut out = self.program.clone();
        let mut i: usize = 0;
        while i < self.arguments.len()
            invariant
                i <= self.arguments.len(),
                out@ == command_text(self@.program, self@.arguments.subrange(0, i as int)),
            decreases self.arguments.len() - i,
        {
            let ghost prefix = self@.arguments.subrange(0, i + 1);
            assert(prefix.drop_last() =~= self@.arguments.subrange(0, i as int));
            push_char(&mut out, ' ');
            push_str(&mut out, self.arguments[i].as_str());
            i = i + 1;
        }
        assert(self@.arguments.subrange(0, self@.arguments.len() as int) =~= self@.arguments);
        out
    }
}

} // verus!
