//! Configuration that the terminal's core consumes.
use vstd::prelude::*;
use crate::graphics::Color;

verus! {

/// Shells that completion scripts can be generated for.
#[derive(Clone, Copy, Debug, PartialEq, Eq, Structural)]
pub enum ShellKind {
    Bash,
    Fish,
    Zsh,
    PowerShell,
    Elvish,
}

/// What the terminal is asked to do.
#[derive(Clone, Debug, PartialEq, Eq)]
pub enum CliCommand {
    /// Print a completion script for a shell.
    Completions { shell: ShellKind },
    /// Connect to a service; `user_info_text` names the user and their color.
    Connect { replica_url: String, canister_id: String, user_info_text: String },
}

/// Command line options.
#[derive(Clone, Debug, PartialEq, Eq)]
pub struct CliOpt {
    /// Where captures of events and screens are written.
    pub capture_output_path: String,
    /// Frame rate of the animations assembled from captures.
    pub engiffen_frame_rate: usize,
    /// No window is opened.
    pub no_window: bool,
    /// Nothing is captured.
    pub no_capture: bool,
    pub log_trace: bool,
    pub log_debug: bool,
    pub log_info: bool,
    pub command: CliCommand,
}

/// How a session connects, and as whom.
#[derive(Clone, Debug, PartialEq, Eq)]
pub struct ConnectCfg {
    pub cli_opt: CliOpt,
    pub canister_id: String,
    pub replica_url: String,
    pub user_name: String,
    pub user_color: Color,
}

/// Verbosity of the log, most verbose first.
#[derive(Clone, Copy, Debug, PartialEq, Eq, Structural)]
pub enum LogLevel {
    Trace,
    Debug,
    Info,
    Warn,
}

pub open spec fn log_level_spec(trace: bool, debug: bool, info: bool) -> LogLevel {
    if trace {
        LogLevel::Trace
    } else if debug {
        LogLevel::Debug
    } else if info {
        LogLevel::Info
    } else {
        LogLevel::Warn
    }
}

impl CliOpt {
    /// The most verbose level asked for; warnings only when none is.
    pub fn log_level(&self) -> (r: LogLevel)
        ensures
            r == log_level_spec(self.log_trace, self.log_debug, self.log_info),
    {
        if self.log_trace {
            LogLevel::Trace
        } else if self.log_debug {
            LogLevel::Debug
        } else if self.log_info {
            LogLevel::Info
        } else {
            LogLevel::Warn
        }
    }
}

} // verus!
