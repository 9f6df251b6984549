pub mod settings;

use vstd::prelude::*;

verus! {

/// The `--debug` switch. The application keeps it in one process-wide
/// flag; these are the rules that read it.
pub struct DebugMode {
    pub enabled: bool,
}

impl DebugMode {
    /// The switch as a run starts: off until `--debug` turns it on.
    pub fn new() -> (r: DebugMode)
        ensures
            !r.enabled,
    {
        DebugMode { enabled: false }
    }

    pub fn set_debug_mode(&mut self, debug: bool)
        ensures
            final(self).enabled == debug,
    {
        self.enabled = debug;
    }

    pub fn is_debug_enabled(&self) -> (r: bool)
        ensures
            r == self.enabled,
    {
        self.enabled
    }

    /// A debug build, or a run with `--debug`, is a development run.
    pub fn is_development(&self, debug_build: bool) -> (r: bool)
        ensures
            r == (debug_build || self.enabled),
    {
        debug_build || self.enabled
    }

    /// Logs also go to the terminal in a run with `--debug`.
    pub fn log_to_terminal(&self) -> (r: bool)
        ensures
            r == self.enabled,
    {
        self.enabled
    }
}

} // verus!
