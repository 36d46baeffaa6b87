//! Where the daemon keeps its socket, session state and configuration,
//! derived from the XDG base directories. There is no `/tmp` fallback.

use vstd::prelude::*;
use crate::ids::{uuid_text, SessionId};
use crate::pathname::path_join;
use crate::text::owned;

verus! {

#[derive(Clone, Debug, PartialEq, Eq)]
pub struct AppPaths {
    pub runtime_root: String,
    pub control_socket: String,
    pub sessions_runtime: String,
    pub state_root: String,
    pub sessions_state: String,
    pub config_file: String,
}

#[derive(Clone, Debug, PartialEq, Eq)]
pub enum PathError {
    /// `XDG_RUNTIME_DIR` is unset or empty.
    MissingRuntimeDirectory,
    /// Neither `HOME` nor the XDG state and config directories are set.
    MissingHomeDirectory,
    Create { path: String, message: String },
    Permissions { path: String, message: String },
}

/// A variable's value when it is set and not empty.
pub open spec fn set_value(v: Option<Seq<char>>) -> Option<Seq<char>> {
    match v {
        Some(s) => if s.len() > 0 {
            Some(s)
        } else {
            None
        },
        None => None,
    }
}

/// An XDG base directory: its own variable, else `HOME/fallback`.
pub open spec fn base_dir(own: Option<Seq<char>>, home: Option<Seq<char>>, fallback: Seq<char>) -> Option<Seq<char>> {
    match set_value(own) {
        Some(d) => Some(d),
        None => match set_value(home) {
            Some(h) => Some(path_join(h, fallback)),
            None => None,
        },
    }
}

/// The paths for the given runtime, state and config base directories.
pub open spec fn paths_for(p: AppPaths, runtime: Seq<char>, state: Seq<char>, config: Seq<char>) -> bool {
    &&& p.runtime_root@ == path_join(runtime, "omarec"@)
    &&& p.control_socket@ == path_join(path_join(runtime, "omarec"@), "control.sock"@)
    &&& p.sessions_runtime@ == path_join(path_join(runtime, "omarec"@), "sessions"@)
    &&& p.state_root@ == path_join(state, "omarec"@)
    &&& p.sessions_state@ == path_join(path_join(state, "omarec"@), "sessions"@)
    &&& p.config_file@ == path_join(config, "omarec/config.toml"@)
}

/// The runtime, state and config base directories, or which one is missing.
pub open spec fn environment_bases(
    runtime_dir: Option<Seq<char>>,
    home: Option<Seq<char>>,
    state_home: Option<Seq<char>>,
    config_home: Option<Seq<char>>,
) -> Result<(Seq<char>, Seq<char>, Seq<char>), PathError> {
    match set_value(runtime_dir) {
        None => Err(PathError::MissingRuntimeDirectory),
        Some(run) => match base_dir(state_home, home, ".local/state"@) {
            None => Err(PathError::MissingHomeDirectory),
            Some(st) => match base_dir(config_home, home, ".config"@) {
                None => Err(PathError::MissingHomeDirectory),
                Some(cf) => Ok((run, st, cf)),
            },
        },
    }
}

fn set_text(v: Option<String>) -> (r: Option<String>)
    ensures
        crate::pathname::opt_text(r) == set_value(crate::pathname::opt_text(v)),
{
    match v {
        Some(s) => if s.as_str().is_empty() {
            None
        } else {
            Some(s)
        },
        None => None,
    }
}

fn base_text(own: Option<String>, home: &Option<String>, fallback: &str) -> (r: Option<String>)
    ensures
        crate::pathname::opt_text(r) == base_dir(
            crate::pathname::opt_text(own),
            crate::pathname::opt_text(*home),
            fallback@,
        ),
{
    match set_text(own) {
        Some(d) => Some(d),
        None => match set_text(crate::text::copy_opt_string(home)) {
            Some(h) => Some(crate::pathname::join(h.as_str(), fallback)),
            None => None,
        },
    }
}

impl AppPaths {
    /// The paths from the values of `XDG_RUNTIME_DIR`, `HOME`,
    /// `XDG_STATE_HOME` and `XDG_CONFIG_HOME`. State and configuration fall
    /// back to `~/.local/state` and `~/.config`; the runtime directory has
    /// no fallback.
    pub fn from_environment(
        runtime_dir: Option<String>,
        home: Option<String>,
        state_home: Option<String>,
        config_home: Option<String>,
    ) -> (r: Result<Self, PathError>)
        ensures
            match environment_bases(
                crate::pathname::opt_text(runtime_dir),
                crate::pathname::opt_text(home),
                crate::pathname::opt_text(state_home),
                crate::pathname::opt_text(config_home),
            ) {
                Err(e) => r == Err::<Self, PathError>(e),
                Ok((run, st, cf)) => r matches Ok(p) && paths_for(p, run, st, cf),
            },
    {
        let runtime_base = match set_text(runtime_dir) {
            Some(d) => d,
            None => {
                return Err(PathError::MissingRuntimeDirectory);
            },
        };
        let state_base = match base_text(state_home, &home, ".local/state") {
            Some(d) => d,
            None => {
                return Err(PathError::MissingHomeDirectory);
            },
        };
        let config_base = match base_text(config_home, &home, ".config") {
            Some(d) => d,
            None => {
                return Err(PathError::MissingHomeDirectory);
            },
        };
        let runtime_root = crate::pathname::join(runtime_base.as_str(), "omarec");
        let state_root = crate::pathname::join(state_base.as_str(), "omarec");
        Ok(
            AppPaths {
                control_socket: crate::pathname::join(runtime_root.as_str(), "control.sock"),
                sessions_runtime: crate::pathname::join(runtime_root.as_str(), "sessions"),
                sessions_state: crate::pathname::join(state_root.as_str(), "sessions"),
                config_file: crate::pathname::join(config_base.as_str(), "omarec/config.toml"),
                runtime_root,
                state_root,
            },
        )
    }

    /// The runtime directory of one session.
    pub fn session_runtime(&self, session_id: &SessionId) -> (r: String)
        ensures
            r@ == path_join(self.sessions_runtime@, uuid_text(session_id.value() as nat)),
    {
        crate::pathname::join(self.sessions_runtime.as_str(), session_id.to_string().as_str())
    }
}

} // verus!
