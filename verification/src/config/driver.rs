//! The driver under test: a local repository holding a
//! `benchmark-config.yml`, or a published package named on the command line
//! as `published:<api>:<package>@<version>`.

use vstd::prelude::*;

use crate::command::{Command, opt_view, strings_view, copy_opt};
use crate::commit_hash::{CommitHash, FailedToRetrieveCommitHash};
use crate::process::ProcessOutput;
use crate::text::{owned, push_str, split_once, split_once_spec, strip_prefix, has_prefix};

verus! {

/// The name of the driver repository's configuration file.
pub const DRIVER_CONFIG_FILE: &'static str = "benchmark-config.yml";

/// The contents of `benchmark-config.yml` at the root of a driver repository.
#[derive(Debug, Clone, PartialEq, Eq)]
pub struct DriverRepoConfig {
    /// Identity of the driver in the results database and on plots.
    pub driver_name: String,
    /// Driver API: selects `apis/<api>/` in the benchmarks repository.
    pub api: String,
    /// Package name as imported by the workloads.
    pub package: String,
    /// Path within the repository to the package; the root when absent.
    pub package_path: Option<String>,
}

/// Where the driver under test comes from.
#[derive(Debug, Clone, PartialEq, Eq)]
pub enum DriverSource {
    /// A local repository checkout.
    Path { repo: String },
    /// A published package version.
    Published { version: String },
}

/// The fully resolved driver under test.
#[derive(Debug, Clone, PartialEq, Eq)]
pub struct DriverSpec {
    pub name: String,
    pub api: String,
    pub package: String,
    pub package_path: Option<String>,
    pub source: DriverSource,
}

/// Why the driver under test could not be resolved.
#[derive(Debug, Clone)]
pub enum DriverSpecError {
    ConfigUnreadable { repo: String, file: String, message: String },
    ConfigInvalid { repo: String, message: String },
    InvalidPublishedSpec { spec: String },
    CommitResolution(FailedToRetrieveCommitHash),
}

/// The parts `(api, package, version)` of `published:<api>:<package>@<version>`,
/// each non-empty; the api ends at the first `:`, the package at the first `@`
/// after it.
pub open spec fn published_parts(spec: Seq<char>) -> Option<(Seq<char>, Seq<char>, Seq<char>)> {
    let prefix = "published:"@;
    if !has_prefix(spec, prefix) {
        None
    } else {
        let rest = spec.subrange(prefix.len() as int, spec.len() as int);
        match split_once_spec(rest, ':') {
            None => None,
            Some((api, package_at_version)) => match split_once_spec(package_at_version, '@') {
                None => None,
                Some((package, version)) => if api.len() == 0 || package.len() == 0 || version.len() == 0 {
                    None
                } else {
                    Some((api, package, version))
                },
            },
        }
    }
}

/// The environment variables handed to the api's env-prepare script.
pub open spec fn env_vars_spec(d: DriverSpec) -> Seq<(Seq<char>, Seq<char>)> {
    let first = seq![("DRIVER_PACKAGE"@, d.package@)];
    match d.source {
        DriverSource::Path { repo } => {
            let with_repo = first + seq![("DRIVER_SOURCE"@, "path"@), ("DRIVER_PATH"@, repo@)];
            match d.package_path {
                Some(p) => with_repo.push(("DRIVER_PACKAGE_PATH"@, p@)),
                None => with_repo,
            }
        },
        DriverSource::Published { version } => first + seq![
            ("DRIVER_SOURCE"@, "published"@),
            ("DRIVER_VERSION"@, version@),
        ],
    }
}

impl DriverSpec {
    /// The driver described by the configuration file of the repository at `repo`.
    pub fn from_repo_config(repo: &str, config: DriverRepoConfig) -> (r: DriverSpec)
        ensures
            r == (DriverSpec {
                name: config.driver_name,
                api: config.api,
                package: config.package,
                package_path: config.package_path,
                source: r.source,
            }),
            r.source matches DriverSource::Path { repo: p } && p@ == repo@,
    {
        DriverSpec {
            name: config.driver_name,
            api: config.api,
            package: config.package,
            package_path: config.package_path,
            source: DriverSource::Path { repo: owned(repo) },
        }
    }

    /// Parses `published:<api>:<package>@<version>`; the package also names
    /// the driver.
    pub fn from_published_spec(spec: &str) -> (r: Result<DriverSpec, DriverSpecError>)
        ensures
            match published_parts(spec@) {
                Some((api, package, version)) => r matches Ok(d) && d.name@ == package
                    && d.api@ == api && d.package@ == package && d.package_path is None
                    && (d.source matches DriverSource::Published { version: v } && v@ == version),
                None => r matches Err(DriverSpecError::InvalidPublishedSpec { spec: s }) && s@ == spec@,
            },
    {
        proof {
            reveal_strlit("published:");
        }
        let rest = match strip_prefix(spec, "published:") {
            Some(rest) => rest,
            None => return Err(DriverSpecError::InvalidPublishedSpec { spec: owned(spec) }),
        };
        let (api, package_at_version) = match split_once(rest.as_str(), ':') {
            Some(p) => p,
            None => return Err(DriverSpecError::InvalidPublishedSpec { spec: owned(spec) }),
        };
        let (package, version) = match split_once(package_at_version.as_str(), '@') {
            Some(p) => p,
            None => return Err(DriverSpecError::InvalidPublishedSpec { spec: owned(spec) }),
        };
        if api.unicode_len() == 0 || package.unicode_len() == 0 || version.unicode_len() == 0 {
            return Err(DriverSpecError::InvalidPublishedSpec { spec: owned(spec) });
        }
        Ok(DriverSpec {
            name: package.clone(),
            api,
            package,
            package_path: None,
            source: DriverSource::Published { version },
        })
    }

    /// The repository whose state identifies this driver, for a local driver.
    pub fn repository(&self) -> (r: Option<&str>)
        ensures
            match self.source {
                DriverSource::Path { repo } => r matches Some(p) && p@ == repo@,
                DriverSource::Published { .. } => r is None,
            },
    {
        match &self.source {
            DriverSource::Path { repo } => Some(repo.as_str()),
            DriverSource::Published { .. } => None,
        }
    }

    /// Identity of the driver version in the results database: for a local
    /// driver, the commit hash of its repository (`inspected`: the head hash,
    /// and whether the working tree has uncommitted changes), with a `-dirty`
    /// suffix when it has; for a published driver, `v<version>`.
    pub fn commit_id(&self, inspected: Option<Result<(CommitHash, bool), FailedToRetrieveCommitHash>>) -> (r: Result<CommitHash, DriverSpecError>)
        requires
            self.source is Path <==> inspected is Some,
        ensures
            match self.source {
                DriverSource::Published { version } => r matches Ok(h) && h@ == "v"@ + version@,
                DriverSource::Path { .. } => match inspected {
                    Some(Ok((hash, dirty))) => r matches Ok(h) && h@ == (if dirty {
                        hash@ + "-dirty"@
                    } else {
                        hash@
                    }),
                    Some(Err(e)) => r matches Err(DriverSpecError::CommitResolution(f)) && f == e,
                    None => false,
                },
            },
    {
        match &self.source {
            DriverSource::Published { version } => {
                let mut id = owned("v");
                push_str(&mut id, version.as_str());
                Ok(CommitHash::new_unchecked(id))
            },
            DriverSource::Path { .. } => match inspected {
                Some(Ok((hash, dirty))) => {
                    if dirty {
                        let mut id = hash.to_string();
                        push_str(&mut id, "-dirty");
                        Ok(CommitHash::new_unchecked(id))
                    } else {
                        Ok(hash)
                    }
                },
                Some(Err(e)) => Err(DriverSpecError::CommitResolution(e)),
                None => Err(DriverSpecError::InvalidPublishedSpec { spec: owned("") }),
            },
        }
    }

    /// The environment variables consumed by the api's env-prepare script.
    pub fn env_vars(&self) -> (r: Vec<(String, String)>)
        ensures
            r@.map_values(|p: (String, String)| (p.0@, p.1@)) == env_vars_spec(*self),
    {
        let mut envs: Vec<(String, String)> = Vec::new();
        envs.push((owned("DRIVER_PACKAGE"), self.package.clone()));
        match &self.source {
            DriverSource::Path { repo } => {
                envs.push((owned("DRIVER_SOURCE"), owned("path")));
                envs.push((owned("DRIVER_PATH"), repo.clone()));
                if let Some(path) = &self.package_path {
                    envs.push((owned("DRIVER_PACKAGE_PATH"), path.clone()));
                }
            },
            DriverSource::Published { version } => {
                envs.push((owned("DRIVER_SOURCE"), owned("published")));
                envs.push((owned("DRIVER_VERSION"), version.clone()));
            },
        }
        assert(envs@.map_values(|p: (String, String)| (p.0@, p.1@)) =~= env_vars_spec(*self));
        envs
    }
}

/// Whether an environment sets `key`.
pub open spec fn sets_key(envs: Seq<(Seq<char>, Seq<char>)>, key: Seq<char>) -> bool {
    exists|i: int| 0 <= i < envs.len() && #[trigger] envs[i].0 == key
}

/// What the api's scripts are told of the driver: its package always; for a
/// local repository, that the source is a path, the repository's path (with
/// or without a package path), and the package path exactly when one is
/// configured; for a published package, that the source is published and
/// its version, and neither a path nor a package path.
pub proof fn lemma_driver_environment(d: DriverSpec)
    ensures
        ({
            let env = env_vars_spec(d);
            &&& env.contains(("DRIVER_PACKAGE"@, d.package@))
            &&& match d.source {
                DriverSource::Path { repo } => {
                    &&& env.contains(("DRIVER_SOURCE"@, "path"@))
                    &&& env.contains(("DRIVER_PATH"@, repo@))
                    &&& (d.package_path matches Some(p) ==> env.contains(("DRIVER_PACKAGE_PATH"@, p@)))
                    &&& (d.package_path is None ==> !sets_key(env, "DRIVER_PACKAGE_PATH"@))
                    &&& !sets_key(env, "DRIVER_VERSION"@)
                },
                DriverSource::Published { version } => {
                    &&& env.contains(("DRIVER_SOURCE"@, "published"@))
                    &&& env.contains(("DRIVER_VERSION"@, version@))
                    &&& !sets_key(env, "DRIVER_PATH"@)
                    &&& !sets_key(env, "DRIVER_PACKAGE_PATH"@)
                },
            }
        }),
{
    reveal_strlit("DRIVER_PACKAGE");
    reveal_strlit("DRIVER_SOURCE");
    reveal_strlit("DRIVER_PATH");
    reveal_strlit("DRIVER_PACKAGE_PATH");
    reveal_strlit("DRIVER_VERSION");
    let env = env_vars_spec(d);
    assert(env[0] == ("DRIVER_PACKAGE"@, d.package@));
    match d.source {
        DriverSource::Path { repo } => {
            assert(env[1] == ("DRIVER_SOURCE"@, "path"@));
            assert(env[2] == ("DRIVER_PATH"@, repo@));
            if let Some(p) = d.package_path {
                assert(env[3] == ("DRIVER_PACKAGE_PATH"@, p@));
            } else {
                assert(env.len() == 3);
                assert forall|i: int| 0 <= i < env.len() implies #[trigger] env[i].0 != "DRIVER_PACKAGE_PATH"@ by {
                    assert(env[i].0.len() != "DRIVER_PACKAGE_PATH"@.len());
                }
            }
            assert forall|i: int| 0 <= i < env.len() implies #[trigger] env[i].0 != "DRIVER_VERSION"@ by {
                if i == 0 || i == 2 {
                    assert(env[i].0[7] != "DRIVER_VERSION"@[7]);
                } else {
                    assert(env[i].0.len() != "DRIVER_VERSION"@.len());
                }
            }
        },
        DriverSource::Published { version } => {
            assert(env[1] == ("DRIVER_SOURCE"@, "published"@));
            assert(env[2] == ("DRIVER_VERSION"@, version@));
            assert(env.len() == 3);
            assert forall|i: int| 0 <= i < env.len() implies #[trigger] env[i].0 != "DRIVER_PATH"@ by {
                if i == 2 {
                    assert(env[i].0[7] != "DRIVER_PATH"@[7]);
                } else {
                    assert(env[i].0.len() != "DRIVER_PATH"@.len());
                }
            }
            assert forall|i: int| 0 <= i < env.len() implies #[trigger] env[i].0 != "DRIVER_PACKAGE_PATH"@ by {
                assert(env[i].0.len() != "DRIVER_PACKAGE_PATH"@.len());
            }
        },
    }
}

/// The git command listing uncommitted changes of the repository at `repo`.
pub fn status_command(repo: &str) -> (r: Command)
    ensures
        r@.program == "git"@,
        r@.arguments == seq!["status"@, "--porcelain"@],
        r@.cwd == Some(repo@),
        r@.envs.len() == 0,
{
    let mut args: Vec<String> = Vec::new();
    args.push(owned("status"));
    args.push(owned("--porcelain"));
    let r = Command::new_args(owned("git"), args);
    assert(strings_view(args@) =~= seq!["status"@, "--porcelain"@]);
    r.with_cwd(repo)
}

/// Whether a repository has uncommitted changes, from what `git status
/// --porcelain` printed: only a run that printed something counts; a command
/// that could not run counts as clean.
pub fn is_dirty(status: &Option<ProcessOutput>) -> (r: bool)
    ensures
        r == (status matches Some(o) && o.stdout@.len() > 0),
{
    match status {
        Some(o) => o.stdout.len() > 0,
        None => false,
    }
}

} // verus!
