//! The shared command configuration.
//!
//! One record carries everything a command needs: forge credentials, the
//! target daemon's address, the repository to deploy, and the applications
//! root override.  Most fields are optional so that values can come from
//! arguments, the environment, or defaults; the unverified shell fills it
//! in and hands it to the engine.

use vstd::prelude::*;
use vstd::string::StringExecFns;

verus! {

broadcast use vstd::string::group_string_axioms;

/// Parameters for one deployment, discovery or daemon command.
#[derive(Clone, Debug, PartialEq)]
pub struct CommandConfig {
    /// Username for forge HTTP Basic authentication.
    pub auth_user: Option<String>,
    /// Password for forge HTTP Basic authentication, or the personal
    /// access token under the `github` sentinel.
    pub auth_password: Option<String>,
    /// The target daemon's hostname or address.
    pub host: Option<String>,
    /// The target daemon's TCP port.
    pub port: Option<u16>,
    /// The repository to deploy, as `owner/name`.
    pub repo: Option<String>,
    /// The forge base URL, or the `github` sentinel.
    pub forge: Option<String>,
    /// Overrides the applications root directory.
    pub apps_dir: Option<String>,
    /// Ask the daemon to synthesize a missing health check.
    pub auto_health: bool,
}

impl Default for CommandConfig {
    /// The defaults: no credentials, no target host, the standard deploy
    /// port, no repository, the local development forge, the standard
    /// applications root, and no auto-health request.
    fn default() -> (r: CommandConfig)
        ensures
            r.auth_user is None,
            r.auth_password is None,
            r.host is None,
            r.port == Some(7530u16),
            r.repo is None,
            r.forge matches Some(f) && f@ == "http://localhost:8080"@,
            r.apps_dir is None,
            r.auto_health == false,
    {
        CommandConfig {
            auth_user: None,
            auth_password: None,
            host: None,
            port: Some(7530),
            repo: None,
            forge: Some(String::from_str("http://localhost:8080")),
            apps_dir: None,
            auto_health: false,
        }
    }
}

} // verus!
