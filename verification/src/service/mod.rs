//! The background service, identical in model on every platform: **the
//! service runs as the user who installed it**, so its configuration is that
//! user's own file and needs no elevation to edit.
//!
//! | | mechanism | starts |
//! |---|---|---|
//! | Linux | systemd system unit, `User=` the installing user | at boot |
//! | macOS | per-user LaunchAgent | at login |
//! | Windows | Scheduled Task at logon | at logon |
//!
//! The platform's service manager is driven by the program; what its answers
//! mean, and the text it is given, are decided here.

pub mod launchd;
pub mod systemd;
pub mod windows;

use vstd::prelude::*;
use crate::text::{join_strings, join_with, trim, views};

verus! {

/// Whether the service manager currently has the agent running.
#[derive(Debug, Clone, Copy, PartialEq, Eq, Structural)]
pub enum ServiceState {
    /// Installed and running.
    Running,
    /// Installed but not running.
    Stopped,
    /// No unit, agent or task registered.
    NotInstalled,
    /// This platform has no service manager we drive, or it could not be
    /// queried. `meerkly run` still works.
    Unknown,
}

pub open spec fn state_name(s: ServiceState) -> Seq<char> {
    match s {
        ServiceState::Running => "running"@,
        ServiceState::Stopped => "stopped"@,
        ServiceState::NotInstalled => "not-installed"@,
        ServiceState::Unknown => "unknown"@,
    }
}

impl ServiceState {
    pub fn as_str(self) -> (s: &'static str)
        ensures
            s@ == state_name(self),
    {
        match self {
            ServiceState::Running => "running",
            ServiceState::Stopped => "stopped",
            ServiceState::NotInstalled => "not-installed",
            ServiceState::Unknown => "unknown",
        }
    }
}

/// What follows a configuration change. A change only reaches a running
/// daemon through a restart — the agent reads its file once at startup — so
/// say so rather than let a change look like it took effect.
#[derive(Debug, Clone, Copy, PartialEq, Eq, Structural)]
pub enum AfterWrite {
    /// Stop and start the service.
    Restart,
    /// Tell the user to restart.
    SuggestRestart,
    /// The service is not running: nothing to do.
    Nothing,
}

pub fn after_write_action(state: ServiceState, restart: bool) -> (a: AfterWrite)
    ensures
        state == ServiceState::Running && restart ==> a == AfterWrite::Restart,
        state == ServiceState::Running && !restart ==> a == AfterWrite::SuggestRestart,
        state != ServiceState::Running ==> a == AfterWrite::Nothing,
{
    match state {
        ServiceState::Running => if restart {
            AfterWrite::Restart
        } else {
            AfterWrite::SuggestRestart
        },
        _ => AfterWrite::Nothing,
    }
}

/// Why the service could not be set up.
#[derive(Debug, Clone, PartialEq)]
pub enum ServiceError {
    /// `--user` was given on a platform whose service always runs as the
    /// installing user.
    UserNotApplicable { windows: bool },
    /// No `--user`, and neither `$SUDO_USER` nor `$USER` names a user to run
    /// as.
    NoTargetUser,
}

pub open spec fn service_error_message(e: ServiceError) -> Seq<char> {
    match e {
        ServiceError::UserNotApplicable { windows } => if windows {
            "--user does not apply on Windows: the logon task always runs as the user who installs it. Run `meerkly service install` as that user."@
        } else {
            "--user does not apply on macOS: a LaunchAgent always runs as the user who installs it. Run `meerkly service install` as that user."@
        },
        ServiceError::NoTargetUser => "cannot tell which user the service should run as; pass `--user <name>`"@,
    }
}

impl ServiceError {
    pub fn message(&self) -> (m: String)
        ensures
            m@ == service_error_message(*self),
    {
        match self {
            ServiceError::UserNotApplicable { windows } => if *windows {
                String::from_str(
                    "--user does not apply on Windows: the logon task always runs as the user who installs it. Run `meerkly service install` as that user.",
                )
            } else {
                String::from_str(
                    "--user does not apply on macOS: a LaunchAgent always runs as the user who installs it. Run `meerkly service install` as that user.",
                )
            },
            ServiceError::NoTargetUser => String::from_str(
                "cannot tell which user the service should run as; pass `--user <name>`",
            ),
        }
    }
}

/// What a failed command is reported as: its stderr — the tool's own
/// diagnostics are far better than anything invented — or its stdout when
/// stderr is blank, trimmed.
pub open spec fn failure_detail(stdout: Seq<char>, stderr: Seq<char>) -> Seq<char> {
    if trim(stderr).len() == 0 {
        trim(stdout)
    } else {
        trim(stderr)
    }
}

pub fn command_failure(program: &str, args: &Vec<String>, stdout: &str, stderr: &str) -> (m: String)
    ensures
        m@ == program@ + " "@ + join_with(views(args@), " "@) + " failed: "@ + failure_detail(
            stdout@,
            stderr@,
        ),
{
    let err = crate::text::chars_of(stderr);
    let err_t = crate::text::trim_chars(err.as_slice());
    let detail = if err_t.len() == 0 {
        let out = crate::text::chars_of(stdout);
        crate::text::trim_chars(out.as_slice())
    } else {
        err_t
    };
    let detail_s = crate::text::string_of(detail.as_slice());
    String::from_str(program).concat(" ").concat(join_strings(args, " ").as_str()).concat(
        " failed: ",
    ).concat(detail_s.as_str())
}

} // verus!
