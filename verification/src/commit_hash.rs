//! Commit hashes of repositories, and how git's answer becomes one.

use vstd::prelude::*;
use vstd::utf8::{decode_utf8, valid_utf8};

use crate::command::{Command, CommandView, strings_view};
use crate::process::{ProcessOutput, string_from_utf8};
use crate::text::{chars_of, owned, string_of_range};

verus! {

/// The identity of a driver or benchmarks version: a git commit hash, or a
/// label standing for one (`<hash>-dirty`, `v<version>`).
#[derive(Debug, PartialEq, Eq)]
pub struct CommitHash(String);

impl View for CommitHash {
    type V = Seq<char>;

    closed spec fn view(&self) -> Seq<char> {
        self.0@
    }
}

impl Clone for CommitHash {
    fn clone(&self) -> (r: Self)
        ensures
            r@ == self@,
    {
        CommitHash(self.0.clone())
    }
}

/// Whether `c` is an ASCII hexadecimal digit.
pub open spec fn is_hex_digit(c: char) -> bool {
    ('0' <= c && c <= '9') || ('a' <= c && c <= 'f') || ('A' <= c && c <= 'F')
}

/// Whether `s` looks like a full SHA-1 or SHA-256 commit hash: 40 or 64
/// hexadecimal digits.
pub open spec fn is_valid_hash(s: Seq<char>) -> bool {
    &&& forall|i: int| 0 <= i < s.len() ==> is_hex_digit(#[trigger] s[i])
    &&& (s.len() == 40 || s.len() == 64)
}

/// What git's output becomes: the text without its last character (the line end).
pub open spec fn without_last(s: Seq<char>) -> Seq<char> {
    if s.len() == 0 {
        s
    } else {
        s.drop_last()
    }
}

/// The low-level reason a commit hash could not be obtained.
#[derive(Debug, Clone, PartialEq, Eq)]
pub enum ErrorSource {
    /// The git command could not be started.
    GitCommandConstructionFailure { message: String },
    /// The git command ran and failed.
    GitCommandFailure { output: ProcessOutput },
    /// Git printed bytes that are not UTF-8.
    InvalidUtf8,
    /// Git printed something that is not a commit hash.
    InvalidHash { hash: String },
}

/// Where the git command ran; `None` for the current directory.
#[derive(Debug, Clone, PartialEq, Eq)]
pub struct RepoPath(pub Option<String>);

impl RepoPath {
    /// The directory as printed, or `unspecified(current)` without one.
    pub fn to_display_string(&self) -> (r: String)
        ensures
            match self.0 {
                Some(p) => r@ == p@,
                None => r@ == "unspecified(current)"@,
            },
    {
        match &self.0 {
            Some(p) => p.clone(),
            None => owned("unspecified(current)"),
        }
    }
}

/// A failure to obtain a commit hash, with the command and where it ran.
#[derive(Debug, Clone)]
pub struct FailedToRetrieveCommitHash {
    pub command: Command,
    pub repo_path: RepoPath,
    pub source: ErrorSource,
}

impl CommitHash {
    /// A commit hash taken as it is, without asking git.
    pub fn new_unchecked(value: String) -> (r: CommitHash)
        ensures
            r@ == value@,
    {
        CommitHash(value)
    }

    /// The hash as text.
    pub fn as_str(&self) -> (r: &str)
        ensures
            r@ == self@,
    {
        self.0.as_str()
    }

    /// The hash as text, in a new string.
    pub fn to_string(&self) -> (r: String)
        ensures
            r@ == self@,
    {
        self.0.clone()
    }

    /// Whether `value` is 40 or 64 hexadecimal digits.
    pub fn validate(value: &str) -> (r: bool)
        ensures
            r == is_valid_hash(value@),
    {
        let v = chars_of(value);
        let mut i: usize = 0;
        while i < v.len()
            invariant
                v@ == value@,
                i <= v.len(),
                forall|j: int| 0 <= j < i ==> is_hex_digit(#[trigger] v@[j]),
            decreases v.len() - i,
        {
            let c = v[i];
            if !(('0' <= c && c <= '9') || ('a' <= c && c <= 'f') || ('A' <= c && c <= 'F')) {
                assert(!is_hex_digit(value@[i as int]));
                return false;
            }
            i = i + 1;
        }
        v.len() == 40 || v.len() == 64
    }

    /// The git command asking for the hash of `commit`.
    pub fn rev_parse_command(commit: String) -> (r: Command)
        ensures
            r@.program == "git"@,
            r@.arguments == seq!["rev-parse"@, "--verify"@, commit@],
            r@.cwd is None,
            r@.envs.len() == 0,
    {
        let mut args: Vec<String> = Vec::new();
        args.push(owned("rev-parse"));
        args.push(owned("--verify"));
        args.push(commit);
        let r = Command::new_args(owned("git"), args);
        assert(strings_view(args@) =~= seq!["rev-parse"@, "--verify"@, commit@]);
        r
    }

    /// The commit hash that the git command `command`, run in `repo_path`,
    /// gave: `outcome` is its output, or why it could not be started. A
    /// failure keeps the command and the directory with its reason.
    pub fn from_git_run(command: Command, repo_path: RepoPath, outcome: Result<ProcessOutput, String>) -> (r: Result<CommitHash, FailedToRetrieveCommitHash>)
        ensures
            match outcome {
                Err(message) => r matches Err(f) && f.command@ == command@ && f.repo_path == repo_path
                    && f.source == (ErrorSource::GitCommandConstructionFailure { message }),
                Ok(output) => {
                    &&& !output.spec_success() ==> (r matches Err(f) && f.command@ == command@
                        && f.repo_path == repo_path && f.source == (ErrorSource::GitCommandFailure { output }))
                    &&& output.spec_success() && !valid_utf8(output.stdout@) ==> (r matches Err(f)
                        && f.command@ == command@ && f.repo_path == repo_path && f.source == ErrorSource::InvalidUtf8)
                    &&& output.spec_success() && valid_utf8(output.stdout@) ==> {
                        let value = without_last(decode_utf8(output.stdout@));
                        &&& is_valid_hash(value) ==> (r matches Ok(h) && h@ == value)
                        &&& !is_valid_hash(value) ==> (r matches Err(f) && f.command@ == command@
                            && f.repo_path == repo_path && (f.source matches ErrorSource::InvalidHash { hash }
                            && hash@ == value))
                    }
                },
            },
    {
        let result = match outcome {
            Ok(output) => CommitHash::from_git_output(output),
            Err(message) => Err(ErrorSource::GitCommandConstructionFailure { message }),
        };
        match result {
            Ok(h) => Ok(h),
            Err(source) => Err(FailedToRetrieveCommitHash { command, repo_path, source }),
        }
    }

    /// The commit hash that git printed: the output must come from a
    /// successful run, be UTF-8, and, without its line end, be a valid hash.
    pub fn from_git_output(output: ProcessOutput) -> (r: Result<CommitHash, ErrorSource>)
        ensures
            !output.spec_success() ==> r == Err::<CommitHash, ErrorSource>(
                ErrorSource::GitCommandFailure { output },
            ),
            output.spec_success() && !valid_utf8(output.stdout@) ==> r == Err::<CommitHash, ErrorSource>(
                ErrorSource::InvalidUtf8,
            ),
            output.spec_success() && valid_utf8(output.stdout@) ==> {
                let value = without_last(decode_utf8(output.stdout@));
                &&& is_valid_hash(value) ==> (r matches Ok(h) && h@ == value)
                &&& !is_valid_hash(value) ==> (r matches Err(ErrorSource::InvalidHash { hash }) && hash@ == value)
            },
    {
        if !output.success() {
            return Err(ErrorSource::GitCommandFailure { output });
        }
        let text = match string_from_utf8(output.stdout) {
            Some(t) => t,
            None => return Err(ErrorSource::InvalidUtf8),
        };
        let v = chars_of(text.as_str());
        let end: usize = if v.len() > 0 { v.len() - 1 } else { 0 };
        let value = string_of_range(&v, 0, end);
        assert(value@ =~= without_last(text@));
        if !CommitHash::validate(value.as_str()) {
            Err(ErrorSource::InvalidHash { hash: value })
        } else {
            Ok(CommitHash(value))
        }
    }
}

} // verus!
