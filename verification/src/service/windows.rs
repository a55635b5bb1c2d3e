//! Windows: a Scheduled Task that runs at logon, as the logged-on user.
//!
//! Deliberately **not** a Windows service: a real service runs as a service
//! account or as a named user whose password Windows must store, which would
//! move the configuration out of the user's own `%APPDATA%` and behind
//! elevation. The cost is that it starts at logon rather than at boot.

use vstd::prelude::*;
use crate::service::{ServiceError, ServiceState};
use crate::text::{chars_of, contains_chars, contains_spec};

verus! {

/// The task's name.
pub const TASK: &'static str = "meerkly";

/// The logon task. It has no state of its own: the task name identifies it.
#[derive(Debug, Clone, Copy, Default)]
pub struct Manager;

impl Manager {
    /// The logon task always runs as the user who installs it, so there is
    /// nobody else to install for: say so rather than silently ignore `--user`.
    pub fn for_user(user: &str) -> (r: Result<Manager, ServiceError>)
        ensures
            r == Err::<Manager, ServiceError>(ServiceError::UserNotApplicable { windows: true }),
    {
        Err(ServiceError::UserNotApplicable { windows: true })
    }

    /// The command line the task runs: the quoted binary and `run`.
    pub fn task_command(exe: &str) -> (c: String)
        ensures
            c@ == "\""@ + exe@ + "\" run"@,
    {
        String::from_str("\"").concat(exe).concat("\" run")
    }

    /// `schtasks /Query`'s answer: "Running" while the task's program is up,
    /// any other listing when it is registered but idle, and a failed query
    /// when there is no such task (`None`).
    pub fn state_from(query: Option<String>) -> (s: ServiceState)
        ensures
            match query {
                Some(out) => if contains_spec(out@, "Running"@) {
                    s == ServiceState::Running
                } else {
                    s == ServiceState::Stopped
                },
                None => s == ServiceState::NotInstalled,
            },
    {
        match query {
            Some(out) => {
                let text = chars_of(out.as_str());
                let running = chars_of("Running");
                if contains_chars(text.as_slice(), running.as_slice()) {
                    ServiceState::Running
                } else {
                    ServiceState::Stopped
                }
            },
            None => ServiceState::NotInstalled,
        }
    }

    /// How a person would do the same without this CLI.
    pub fn native_hint() -> (h: String)
        ensures
            h@ == "schtasks /Run /TN meerkly    |    schtasks /End /TN meerkly"@,
    {
        String::from_str("schtasks /Run /TN meerkly    |    schtasks /End /TN meerkly")
    }
}

} // verus!
