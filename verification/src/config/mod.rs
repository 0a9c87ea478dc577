//! Configuration files: backends, benchmarks, APIs and drivers.

pub mod api;
pub mod backend;
pub mod benchmark;
pub mod driver;
pub mod duration;

use vstd::prelude::*;

use crate::config::backend::{find_backend, BackendConfig, BackendConfigList, FindOutcome};
use crate::config::benchmark::{find_benchmark, BenchmarkConfig, BenchmarkConfigList};
use crate::text::{owned, push_str};

verus! {

/// Why a configuration could not be obtained.
#[derive(Debug, Clone, PartialEq, Eq)]
pub enum ConfigError {
    /// The file could not be read.
    FileOperationError { message: String, path: String },
    /// The file is not a valid configuration.
    ParseError { message: String, path: String },
    /// No entry of the file has the requested name.
    ConfigurationNotFound { path: String, benchmark_name: String },
}

/// A named configuration missing from a file.
#[derive(Debug, Clone, PartialEq, Eq)]
pub struct ConfigurationNotFound {
    pub path: String,
    pub name: String,
}

impl ConfigurationNotFound {
    /// The message shown to the user.
    pub fn to_display_string(&self) -> (r: String)
        ensures
            r@ == "Unable to find configuration: "@ + self.name@ + " in "@ + self.path@,
    {
        let mut r = owned("Unable to find configuration: ");
        push_str(&mut r, self.name.as_str());
        push_str(&mut r, " in ");
        push_str(&mut r, self.path.as_str());
        r
    }
}

/// The scenario named `benchmark_name` in a list read from `config_path`.
pub fn find_config(benchmark_name: &str, config_list: &BenchmarkConfigList, config_path: &str) -> (r: Result<BenchmarkConfig, ConfigError>)
    ensures
        match find_benchmark(config_list.merged_view(), benchmark_name@) {
            FindOutcome::Found(i) => r matches Ok(c) && c@ == config_list.merged_view()[i],
            _ => r matches Err(ConfigError::ConfigurationNotFound { path, benchmark_name: n })
                && path@ == config_path@ && n@ == benchmark_name@,
        },
{
    match config_list.find_config(benchmark_name) {
        Some(c) => Ok(c),
        None => Err(ConfigError::ConfigurationNotFound {
            path: owned(config_path),
            benchmark_name: owned(benchmark_name),
        }),
    }
}

/// The backend entry named `benchmark_name` in a list read from `config_path`.
pub fn find_backend_config(benchmark_name: &str, config_list: &BackendConfigList, config_path: &str) -> (r: Result<BackendConfig, ConfigError>)
    requires
        !(find_backend(config_list.merged_view(), benchmark_name@) is MissingName),
    ensures
        match find_backend(config_list.merged_view(), benchmark_name@) {
            FindOutcome::Found(i) => r matches Ok(c) && c@ == config_list.merged_view()[i],
            _ => r matches Err(ConfigError::ConfigurationNotFound { path, benchmark_name: n })
                && path@ == config_path@ && n@ == benchmark_name@,
        },
{
    match config_list.find_config(benchmark_name) {
        Some(c) => Ok(c),
        None => Err(ConfigError::ConfigurationNotFound {
            path: owned(config_path),
            benchmark_name: owned(benchmark_name),
        }),
    }
}

} // verus!
