//! Process-wide configuration flags.
//!
//! Two flags are read once from the environment at startup: one selecting
//! polling versus blocking event delivery (off by default), one selecting
//! vsynced versus immediate GPU presentation (on by default). The reading
//! itself happens at the process edge; these functions decide what a read
//! value means, and a `Config` carries the decision to the constructors
//! that need it.

use vstd::prelude::*;

verus! {

/// The values that switch a flag on.
pub open spec fn is_enabling(s: Seq<char>) -> bool {
    s == "true"@ || s == "yes"@ || s == "on"@ || s == "1"@
}

/// The values that switch a flag off.
pub open spec fn is_disabling(s: Seq<char>) -> bool {
    s == "false"@ || s == "no"@ || s == "off"@ || s == "0"@
}

/// Whether event delivery polls: only an explicitly enabling value turns
/// polling on; an absent or other value leaves the default of blocking
/// delivery.
pub fn polling_from_env(value: Option<String>) -> (r: bool)
    ensures
        r == (value matches Some(v) && is_enabling(v@)),
{
    match value {
        Some(v) => {
            v == "true".to_string() || v == "yes".to_string() || v == "on".to_string() || v
                == "1".to_string()
        },
        None => false,
    }
}

/// Whether presentation waits for vsync: only an explicitly disabling
/// value turns vsync off; an absent or other value leaves the default of
/// vsync on.
pub fn vsync_from_env(value: Option<String>) -> (r: bool)
    ensures
        r == !(value matches Some(v) && is_disabling(v@)),
{
    match value {
        Some(v) => {
            !(v == "false".to_string() || v == "no".to_string() || v == "off".to_string() || v
                == "0".to_string())
        },
        None => true,
    }
}

/// The immutable configuration built once at startup and threaded through
/// the constructors that need it.
#[derive(Debug, Clone, Copy, PartialEq, Eq, Structural)]
pub struct Config {
    pub polling: bool,
    pub vsync: bool,
}

impl Config {
    /// Resolves both flags from their raw environment values.
    pub fn from_env_values(polling: Option<String>, vsync: Option<String>) -> (r: Config)
        ensures
            r.polling == (polling matches Some(v) && is_enabling(v@)),
            r.vsync == !(vsync matches Some(v) && is_disabling(v@)),
    {
        Config { polling: polling_from_env(polling), vsync: vsync_from_env(vsync) }
    }
}

impl Default for Config {
    /// Blocking delivery, vsync on.
    fn default() -> (r: Config)
        ensures
            !r.polling,
            r.vsync,
    {
        Config { polling: false, vsync: true }
    }
}

} // verus!
