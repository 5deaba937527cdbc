//! The life cycle of the proxy core process: whether it runs, what starting
//! and stopping require, and what they record.

use vstd::prelude::*;
use crate::text::{decimal, decimal_string};

verus! {

/// How the core runs.
#[derive(Debug, Clone, Copy, PartialEq, Eq, Structural)]
pub enum RunningMode {
    /// Through the system service.
    Service,
    /// As a child process.
    Sidecar,
    /// Not at all.
    NotRunning,
}

/// Why the core could not be started.
pub enum CoreError {
    /// It already runs.
    AlreadyRunning,
    /// The configuration file is missing.
    ConfigNotFound(String),
    /// The core executable is missing.
    CoreNotFound(String),
    /// The process exited at once with this code.
    ExitedImmediately(i32),
}

/// A signed number in decimal.
pub open spec fn signed_decimal(c: int) -> Seq<char> {
    if c < 0 {
        "-"@ + decimal((-c) as nat)
    } else {
        decimal(c as nat)
    }
}

/// The text of each error.
pub open spec fn core_error_text(e: CoreError) -> Seq<char> {
    match e {
        CoreError::AlreadyRunning => "Core is already running"@,
        CoreError::ConfigNotFound(p) => "Config file not found: "@ + p@,
        CoreError::CoreNotFound(p) => "Core file not found: "@ + p@,
        CoreError::ExitedImmediately(c) => "Clash Core exited immediately with code: "@ + signed_decimal(
            c as int,
        ),
    }
}

impl CoreError {
    /// The text of the error.
    pub fn message(&self) -> (r: String)
        ensures
            r@ == core_error_text(*self),
    {
        match self {
            CoreError::AlreadyRunning => "Core is already running".to_owned(),
            CoreError::ConfigNotFound(p) => {
                let mut s = "Config file not found: ".to_owned();
                s.append(p.as_str());
                s
            },
            CoreError::CoreNotFound(p) => {
                let mut s = "Core file not found: ".to_owned();
                s.append(p.as_str());
                s
            },
            CoreError::ExitedImmediately(c) => {
                let mut s = "Clash Core exited immediately with code: ".to_owned();
                if *c < 0 {
                    s.append("-");
                    let n: i64 = -(*c as i64);
                    let d = decimal_string(n as u64);
                    s.append(d.as_str());
                } else {
                    let d = decimal_string(*c as u64);
                    s.append(d.as_str());
                }
                s
            },
        }
    }
}

/// The recorded state of the core.
pub struct CoreManangerState {
    pub running_mode: RunningMode,
}

impl CoreManangerState {
    /// Not running.
    pub fn default_state() -> (r: Self)
        ensures
            r.running_mode == RunningMode::NotRunning,
    {
        CoreManangerState { running_mode: RunningMode::NotRunning }
    }
}

/// The core manager: the state, the executable and its configuration.
pub struct CoreManager {
    pub state: CoreManangerState,
    pub core_path: String,
    pub config_path: String,
}

/// Whether a mode is a running one.
pub open spec fn is_running_mode(m: RunningMode) -> bool {
    m == RunningMode::Service || m == RunningMode::Sidecar
}

impl CoreManager {
    /// A manager of a core that does not run yet.
    pub fn new(core_path: String, config_path: String) -> (r: Self)
        ensures
            r.state.running_mode == RunningMode::NotRunning,
            r.core_path == core_path,
            r.config_path == config_path,
    {
        CoreManager { state: CoreManangerState::default_state(), core_path, config_path }
    }

    /// Whether the core runs.
    pub fn is_running(&self) -> (r: bool)
        ensures
            r == is_running_mode(self.state.running_mode),
    {
        match self.state.running_mode {
            RunningMode::Service | RunningMode::Sidecar => true,
            RunningMode::NotRunning => false,
        }
    }

    /// What starting requires: the core must not run, and the configuration
    /// and the executable must exist (checked in that order).
    pub fn start_check(&self, config_exists: bool, core_exists: bool) -> (r: Result<(), CoreError>)
        ensures
            if is_running_mode(self.state.running_mode) {
                r matches Err(CoreError::AlreadyRunning)
            } else if !config_exists {
                r matches Err(CoreError::ConfigNotFound(p)) && p == self.config_path
            } else if !core_exists {
                r matches Err(CoreError::CoreNotFound(p)) && p == self.core_path
            } else {
                r is Ok
            },
    {
        if self.is_running() {
            return Err(CoreError::AlreadyRunning);
        }
        if !config_exists {
            return Err(CoreError::ConfigNotFound(self.config_path.clone()));
        }
        if !core_exists {
            return Err(CoreError::CoreNotFound(self.core_path.clone()));
        }
        Ok(())
    }

    /// Records the outcome of launching: `Some(Some(code))` when the process
    /// had already exited with a code, which fails; otherwise the core runs
    /// through the service from now on.
    pub fn record_start(&mut self, exited: Option<Option<i32>>) -> (r: Result<(), CoreError>)
        ensures
            final(self).core_path == old(self).core_path,
            final(self).config_path == old(self).config_path,
            match exited {
                Some(Some(code)) => (r matches Err(CoreError::ExitedImmediately(c)) && c == code)
                    && final(self).state.running_mode == old(self).state.running_mode,
                _ => r is Ok && final(self).state.running_mode == RunningMode::Service,
            },
    {
        match exited {
            Some(Some(code)) => Err(CoreError::ExitedImmediately(code)),
            _ => {
                self.state.running_mode = RunningMode::Service;
                Ok(())
            },
        }
    }

    /// Records that the core was stopped.
    pub fn mark_stopped(&mut self)
        ensures
            final(self).state.running_mode == RunningMode::NotRunning,
            final(self).core_path == old(self).core_path,
            final(self).config_path == old(self).config_path,
    {
        self.state.running_mode = RunningMode::NotRunning;
    }

    /// The captured output of the core: none is captured.
    pub fn get_output(&self) -> (r: Option<(Vec<u8>, Vec<u8>)>)
        ensures
            r is None,
    {
        None
    }
}

} // verus!
