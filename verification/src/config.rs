use vstd::prelude::*;

verus! {

/// Idle threshold, in seconds, that applies when the configuration does not
/// set one.
pub const DEFAULT_RUN_AFTER_SECONDS: u64 = 20;

/// The settings the supervisor runs with: where to run the command, the
/// command itself with its arguments, and after how many idle seconds to
/// start it. Immutable once loaded.
#[derive(Debug)]
pub struct IdlerConfig {
    /// Working directory the child process is started in.
    pub path: String,
    /// Executable name, resolved relative to `path`.
    pub cmd: String,
    /// Arguments handed to the command, in order.
    pub args: Vec<String>,
    /// Idle threshold in seconds; `None` means the default applies.
    pub run_after_seconds: Option<u64>,
}

impl IdlerConfig {
    /// The idle threshold in effect: the configured value, or the default
    /// when none is set.
    pub open spec fn threshold_spec(&self) -> u64 {
        match self.run_after_seconds {
            Some(seconds) => seconds,
            None => DEFAULT_RUN_AFTER_SECONDS,
        }
    }

    /// Seconds of idleness past which the supervisor starts the command.
    pub fn threshold(&self) -> (t: u64)
        ensures
            t == self.threshold_spec(),
    {
        match self.run_after_seconds {
            Some(seconds) => seconds,
            None => DEFAULT_RUN_AFTER_SECONDS,
        }
    }
}

} // verus!
