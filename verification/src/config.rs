//! Where a service's configuration is read from.

use vstd::prelude::*;
use vstd::string::StringExecFns;

verus! {

/// The run mode of a service that names none.
pub open spec fn default_run_mode() -> Seq<char> {
    "development"@
}

/// The configuration files of a run mode, in the order in which they are
/// layered: the defaults, the file of the run mode, the local overrides.
pub open spec fn config_sources(run_mode: Seq<char>) -> Seq<Seq<char>> {
    seq!["config/default"@, "config/"@ + run_mode, "config/local"@]
}

/// Entry point of configuration loading.
pub struct EywaConfig;

impl EywaConfig {
    /// The run mode: the configured one, or `development`.
    pub fn run_mode(configured: Option<String>) -> (mode: String)
        ensures
            mode@ == match configured {
                Some(mode) => mode@,
                None => default_run_mode(),
            },
    {
        match configured {
            Some(mode) => mode,
            None => "development".to_string(),
        }
    }

    /// The configuration files to layer for `run_mode`, first to last. Each
    /// is optional; later ones override earlier ones.
    pub fn sources(run_mode: &str) -> (files: Vec<String>)
        ensures
            files@.map_values(|file: String| file@) == config_sources(run_mode@),
    {
        let mut files: Vec<String> = Vec::new();
        files.push("config/default".to_string());
        let mut file = "config/".to_string();
        file.append(run_mode);
        files.push(file);
        files.push("config/local".to_string());
        assert(files@.map_values(|file: String| file@) =~= config_sources(run_mode@));
        files
    }
}

} // verus!
