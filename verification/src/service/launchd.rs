//! macOS: a per-user LaunchAgent.
//!
//! A LaunchAgent is already user-scoped, so "runs as the installing user"
//! needs no arranging at all. The trade-off is that it starts **at login
//! rather than at boot**; a LaunchDaemon would run as root and put the
//! configuration back behind `sudo`.

use vstd::prelude::*;
use crate::paths::{join, join_spec, Platform};
use crate::service::{ServiceError, ServiceState};
use crate::text::{
    chars_of, ends_with_chars, ends_with_spec, first_word, first_word_of, lines_of, lines_spec,
    opt_view, parse_u32, parse_u32_spec,
};

verus! {

/// `agent`, not `meerkly`: the desktop app takes `com.meerkly.app`, and
/// launchd keys its whole namespace on this label.
pub const LABEL: &'static str = "com.meerkly.agent";

pub const PLIST_HEAD: &'static str = "<?xml version=\"1.0\" encoding=\"UTF-8\"?>\n<!-- Managed by meerkly. Regenerate with `meerkly service install`. -->\n<!DOCTYPE plist PUBLIC \"-//Apple//DTD PLIST 1.0//EN\" \"http://www.apple.com/DTDs/PropertyList-1.0.dtd\">\n<plist version=\"1.0\">\n<dict>\n  <key>Label</key><string>com.meerkly.agent</string>\n  <key>ProgramArguments</key>\n  <array>\n    <string>";

pub const PLIST_ARGS: &'static str = "</string>\n    <string>run</string>\n  </array>\n  <key>RunAtLoad</key><true/>\n  <key>KeepAlive</key><true/>\n  <key>EnvironmentVariables</key>\n  <dict>\n    <key>MEERKLY_LOG</key><string>info</string>\n  </dict>\n  <key>StandardOutPath</key><string>";

pub const PLIST_ERR: &'static str = "/meerkly.log</string>\n  <key>StandardErrorPath</key><string>";

pub const PLIST_TAIL: &'static str = "/meerkly.log</string>\n</dict>\n</plist>\n";

/// The agent, by where its property list lives.
#[derive(Debug, Clone)]
pub struct Manager {
    pub plist_path: String,
}

/// `~/Library/LaunchAgents/com.meerkly.agent.plist`, with `/tmp` standing in
/// for an unknown home.
pub open spec fn plist_path_spec(home: Option<Seq<char>>) -> Seq<char> {
    let h = match home {
        Some(h) => h,
        None => "/tmp"@,
    };
    join_spec(
        Platform::MacOs,
        join_spec(Platform::MacOs, h, "Library/LaunchAgents"@),
        "com.meerkly.agent.plist"@,
    )
}

pub open spec fn plist_text_spec(exe: Seq<char>, log_dir: Seq<char>) -> Seq<char> {
    PLIST_HEAD@ + exe + PLIST_ARGS@ + log_dir + PLIST_ERR@ + log_dir + PLIST_TAIL@
}

/// Whether a `launchctl list` line is up: its first column, the pid, is a
/// number.
pub open spec fn line_is_running(line: Seq<char>) -> bool {
    match first_word(line) {
        Some(w) => parse_u32_spec(w) is Some,
        None => false,
    }
}

/// The first line that ends with the label, if any.
pub open spec fn agent_line(lines: Seq<Seq<char>>) -> Option<Seq<char>>
    decreases lines.len(),
{
    if lines.len() == 0 {
        None
    } else if ends_with_spec(lines[0], LABEL@) {
        Some(lines[0])
    } else {
        agent_line(lines.drop_first())
    }
}

/// The agent's state from whether its property list exists and what
/// `launchctl list` printed (`None` when it could not be run).
pub open spec fn agent_state_spec(plist_exists: bool, list: Option<Seq<char>>) -> ServiceState {
    if !plist_exists {
        ServiceState::NotInstalled
    } else {
        match list {
            None => ServiceState::Unknown,
            Some(l) => match agent_line(lines_spec(l)) {
                Some(line) => if line_is_running(line) {
                    ServiceState::Running
                } else {
                    ServiceState::Stopped
                },
                None => ServiceState::Stopped,
            },
        }
    }
}

impl Manager {
    /// The agent of the user whose home is `home` (`$HOME`).
    pub fn new(home: Option<String>) -> (m: Manager)
        ensures
            m.plist_path@ == plist_path_spec(opt_view(home)),
    {
        let h = match home {
            Some(h) => h,
            None => String::from_str("/tmp"),
        };
        let dir = join(Platform::MacOs, h.as_str(), "Library/LaunchAgents");
        Manager { plist_path: join(Platform::MacOs, dir.as_str(), "com.meerkly.agent.plist") }
    }

    /// A LaunchAgent always belongs to whoever loads it, so there is nobody
    /// else to install for: say so rather than silently ignore `--user`.
    pub fn for_user(user: &str) -> (r: Result<Manager, ServiceError>)
        ensures
            r == Err::<Manager, ServiceError>(ServiceError::UserNotApplicable { windows: false }),
    {
        Err(ServiceError::UserNotApplicable { windows: false })
    }

    pub fn plist_text(exe: &str, log_dir: &str) -> (t: String)
        ensures
            t@ == plist_text_spec(exe@, log_dir@),
    {
        String::from_str(PLIST_HEAD).concat(exe).concat(PLIST_ARGS).concat(log_dir).concat(
            PLIST_ERR,
        ).concat(log_dir).concat(PLIST_TAIL)
    }

    pub fn state_from(plist_exists: bool, list: Option<String>) -> (s: ServiceState)
        ensures
            s == agent_state_spec(plist_exists, opt_view(list)),
    {
        if !plist_exists {
            return ServiceState::NotInstalled;
        }
        let ghost given = opt_view(list);
        let text = match list {
            Some(l) => l,
            None => {
                return ServiceState::Unknown;
            },
        };
        let lines = lines_of(text.as_str());
        let ghost ls = lines_spec(text@);
        let label = chars_of(LABEL);
        let n = lines.len();
        let mut i: usize = 0;
        assert(ls.skip(0) == ls);
        while i < n
            invariant
                plist_exists,
                given == Some(text@),
                given == opt_view(list),
                n == lines@.len(),
                i <= n,
                label@ == LABEL@,
                lines@.map_values(|l: Vec<char>| l@) == ls,
                ls == lines_spec(text@),
                agent_line(ls) == agent_line(ls.skip(i as int)),
            decreases n - i,
        {
            assert(ls.skip(i as int)[0] == lines@[i as int]@);
            assert(ls.skip(i as int).drop_first() == ls.skip(i + 1));
            if ends_with_chars(lines[i].as_slice(), label.as_slice()) {
                let running = match first_word_of(lines[i].as_slice()) {
                    Some(w) => parse_u32(w.as_slice()).is_some(),
                    None => false,
                };
                assert(running == line_is_running(lines@[i as int]@));
                assert(agent_line(ls.skip(i as int)) == Some(lines@[i as int]@));
                return if running {
                    ServiceState::Running
                } else {
                    ServiceState::Stopped
                };
            }
            i = i + 1;
        }
        assert(ls.skip(n as int).len() == 0);
        ServiceState::Stopped
    }

    /// How a person would do the same without this CLI.
    pub fn native_hint() -> (h: String)
        ensures
            h@ == "launchctl start|stop com.meerkly.agent    (or: brew services start|stop meerkly)"@,
    {
        String::from_str(
            "launchctl start|stop com.meerkly.agent    (or: brew services start|stop meerkly)",
        )
    }
}

} // verus!
