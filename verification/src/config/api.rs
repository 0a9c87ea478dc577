//! Per-API configuration: `apis/<api>/api-config.yml` in the benchmarks
//! repository. All commands it names run in the api directory.

use vstd::prelude::*;

use crate::text::{owned, path_join, path_join_spec, str_eq};

verus! {

/// The name of the per-API configuration file.
pub const API_CONFIG_FILE: &'static str = "api-config.yml";

/// The contents of an api-config.yml.
#[derive(Debug, Clone, PartialEq, Eq)]
pub struct ApiConfig {
    pub api: String,
    /// Script linking the driver under test into the benchmark project.
    pub env_prepare: String,
    /// Script reverting whatever env-prepare generated.
    pub env_cleanup: String,
    /// Command building the benchmark project (run once, unmeasured).
    pub build_command: String,
    /// Command invoked for every phase of every benchmark.
    pub run_command: String,
}

/// An api configuration with the directory it was loaded from.
#[derive(Debug, Clone, PartialEq, Eq)]
pub struct ApiSetup {
    pub config: ApiConfig,
    pub api_dir: String,
}

/// Why an api configuration could not be loaded.
#[derive(Debug, Clone, PartialEq, Eq)]
pub enum ApiConfigError {
    Unreadable { api: String, path: String, message: String },
    Invalid { path: String, message: String },
    ApiMismatch { path: String, declared: String, requested: String },
}

/// The directory of an api in the benchmarks repository.
pub open spec fn api_dir_spec(benchmarks_path: Seq<char>, api: Seq<char>) -> Seq<char> {
    path_join_spec(path_join_spec(benchmarks_path, "apis"@), api)
}

impl ApiSetup {
    /// The api directory and the path of its configuration file.
    pub fn locate(benchmarks_path: &str, api: &str) -> (r: (String, String))
        ensures
            r.0@ == api_dir_spec(benchmarks_path@, api@),
            r.1@ == path_join_spec(api_dir_spec(benchmarks_path@, api@), "api-config.yml"@),
    {
        let apis = path_join(benchmarks_path, "apis");
        let api_dir = path_join(apis.as_str(), api);
        let path = path_join(api_dir.as_str(), "api-config.yml");
        (api_dir, path)
    }

    /// The setup for `api` from a configuration read at `path`: refused when
    /// the file declares another api.
    pub fn from_config(config: ApiConfig, api_dir: String, path: String, api: &str) -> (r: Result<ApiSetup, ApiConfigError>)
        ensures
            config.api@ == api@ ==> r == Ok::<ApiSetup, ApiConfigError>(ApiSetup { config, api_dir }),
            config.api@ != api@ ==> (r matches Err(ApiConfigError::ApiMismatch { path: p, declared, requested })
                && p == path && declared == config.api && requested@ == api@),
    {
        if !str_eq(config.api.as_str(), api) {
            return Err(ApiConfigError::ApiMismatch { path, declared: config.api, requested: owned(api) });
        }
        Ok(ApiSetup { config, api_dir })
    }
}

} // verus!
