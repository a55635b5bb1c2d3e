//! Linux: a systemd **system** unit that runs as the installing user.
//!
//! A system unit rather than `systemctl --user`, because a user unit stops
//! when the user logs out. `User=` and `Environment=HOME=` give the other
//! half: the service still resolves the installing user's
//! `~/.config/meerkly/config.toml`, so editing it never needs sudo even though
//! installing did.

use vstd::prelude::*;
use crate::paths::{join, join_spec, Platform};
use crate::service::{ServiceError, ServiceState};
use crate::text::{chars_equal, chars_of, opt_view, trim, trim_chars};

verus! {

pub const UNIT: &'static str = "meerkly.service";

pub const UNIT_DIR: &'static str = "/etc/systemd/system";

pub const UNIT_HEAD: &'static str = "# Managed by meerkly. Regenerate with `sudo meerkly service install`.\n[Unit]\nDescription=meerkly agent \u{2014} shares this machine's connection as a proxy exit node\nDocumentation=https://meerkly.com\nAfter=network-online.target\nWants=network-online.target\n\n[Service]\nType=simple\nUser=";

pub const UNIT_HOME: &'static str = "\n# The agent resolves its configuration under $HOME; systemd starts units with an\n# empty environment, so this is what points it at the installing user's file\n# rather than root's.\nEnvironment=HOME=";

pub const UNIT_EXEC: &'static str = "\nEnvironment=MEERKLY_LOG=info\nExecStart=";

pub const UNIT_PATHS: &'static str = " run\nRestart=always\nRestartSec=5\n\n# The agent needs outbound network and its own config; nothing else.\nNoNewPrivileges=yes\nPrivateTmp=yes\nProtectSystem=strict\nProtectHome=read-only\nReadWritePaths=";

pub const UNIT_CONFIG_DIR: &'static str = "/.config/meerkly ";

pub const UNIT_TAIL: &'static str = "/.local/state/meerkly\nProtectControlGroups=yes\nProtectKernelTunables=yes\nRestrictSUIDSGID=yes\n\n[Install]\nWantedBy=multi-user.target\n";

/// The unit, by where its file lives, and the user named to run it, if one
/// was.
#[derive(Debug, Clone)]
pub struct Manager {
    pub unit_path: String,
    pub user: Option<String>,
}

pub open spec fn unit_path_spec() -> Seq<char> {
    join_spec(Platform::Linux, UNIT_DIR@, UNIT@)
}

/// The unit file for a service that runs `exe` as `user`, whose home is
/// `home`.
pub open spec fn unit_text_spec(user: Seq<char>, home: Seq<char>, exe: Seq<char>) -> Seq<char> {
    UNIT_HEAD@ + user + UNIT_HOME@ + home + UNIT_EXEC@ + exe + UNIT_PATHS@ + home
        + UNIT_CONFIG_DIR@ + home + UNIT_TAIL@
}

/// Whom the service runs as: the user named with `--user`, else the human
/// behind a `sudo` (not root), else `$USER`.
pub open spec fn target_user_spec(
    named: Option<Seq<char>>,
    sudo_user: Option<Seq<char>>,
    user: Option<Seq<char>>,
) -> Option<Seq<char>> {
    match named {
        Some(n) => Some(n),
        None => match sudo_user {
            Some(u) if u.len() > 0 && u != "root"@ => Some(u),
            _ => match user {
                Some(u) if u.len() > 0 => Some(u),
                _ => None,
            },
        },
    }
}

/// Whom the service runs as, case by case: a named user wins; else a usable
/// `$SUDO_USER` (set, not empty, not `root`); else, with `$SUDO_USER` unset,
/// empty or `root` alike, `$USER` whenever it is set and not empty; else no
/// one.
pub proof fn lemma_target_user_fallbacks(
    named: Option<Seq<char>>,
    sudo_user: Option<Seq<char>>,
    user: Option<Seq<char>>,
)
    ensures
        named matches Some(n) ==> target_user_spec(named, sudo_user, user) == Some(n),
        named is None ==> (sudo_user matches Some(u) ==> (u.len() > 0 && u != "root"@
            ==> target_user_spec(named, sudo_user, user) == Some(u))),
        named is None ==> ((sudo_user is None || sudo_user == Some(Seq::<char>::empty())
            || sudo_user == Some("root"@)) ==> (user matches Some(u) ==> (u.len() > 0
            ==> target_user_spec(named, sudo_user, user) == Some(u)))),
        named is None ==> ((sudo_user is None || sudo_user == Some(Seq::<char>::empty())
            || sudo_user == Some("root"@)) ==> (user is None || user == Some(Seq::<char>::empty())
            ==> target_user_spec(named, sudo_user, user) is None)),
{
}

impl Default for Manager {
    fn default() -> (m: Self)
        ensures
            m.unit_path@ == unit_path_spec(),
            m.user is None,
    {
        Manager::new()
    }
}

impl Manager {
    /// The unit at `/etc/systemd/system/meerkly.service`, run as the
    /// installing user.
    pub fn new() -> (m: Manager)
        ensures
            m.unit_path@ == unit_path_spec(),
            m.user is None,
    {
        Manager { unit_path: join(Platform::Linux, UNIT_DIR, UNIT), user: None }
    }

    /// A manager that installs the unit to run as `user`, whose passwd entry
    /// the caller has looked up: so a typo fails before a unit file is
    /// written.
    pub fn for_user(user: &str) -> (m: Manager)
        ensures
            m.unit_path@ == unit_path_spec(),
            opt_view(m.user) == Some(user@),
    {
        Manager { unit_path: join(Platform::Linux, UNIT_DIR, UNIT), user: Some(String::from_str(user)) }
    }

    /// Who the service should run as: the user this manager was made for,
    /// else `$SUDO_USER`, else `$USER`. Installing as root and leaving
    /// `User=root` would put the config in `/root`, where the person who
    /// installed it cannot reach it.
    pub fn target_user(&self, sudo_user: Option<String>, user: Option<String>) -> (r: Result<
        String,
        ServiceError,
    >)
        ensures
            match target_user_spec(opt_view(self.user), opt_view(sudo_user), opt_view(user)) {
                Some(u) => r matches Ok(s) && s@ == u,
                None => r == Err::<String, ServiceError>(ServiceError::NoTargetUser),
            },
            self.user is None && sudo_user is None ==> (user matches Some(u) ==> (u@.len() > 0
                ==> (r matches Ok(s) && s@ == u@))),
    {
        if let Some(named) = &self.user {
            return Ok(named.clone());
        }
        if let Some(u) = sudo_user {
            let c = chars_of(u.as_str());
            let root = chars_of("root");
            if c.len() > 0 && !chars_equal(c.as_slice(), root.as_slice()) {
                return Ok(u);
            }
        }
        match user {
            Some(u) => if u.unicode_len() > 0 {
                Ok(u)
            } else {
                Err(ServiceError::NoTargetUser)
            },
            None => Err(ServiceError::NoTargetUser),
        }
    }

    pub fn unit_text(user: &str, home: &str, exe: &str) -> (t: String)
        ensures
            t@ == unit_text_spec(user@, home@, exe@),
    {
        String::from_str(UNIT_HEAD).concat(user).concat(UNIT_HOME).concat(home).concat(
            UNIT_EXEC,
        ).concat(exe).concat(UNIT_PATHS).concat(home).concat(UNIT_CONFIG_DIR).concat(home).concat(
            UNIT_TAIL,
        )
    }

    /// The directories the unit lists in `ReadWritePaths=`. systemd will not
    /// start a unit whose `ReadWritePaths=` do not exist, so they are made
    /// before the daemon that would otherwise make them can run.
    pub fn writable_dirs(home: &str) -> (dirs: Vec<String>)
        ensures
            dirs@.len() == 2,
            dirs@[0]@ == join_spec(Platform::Linux, home@, ".config/meerkly"@),
            dirs@[1]@ == join_spec(Platform::Linux, home@, ".local/state/meerkly"@),
    {
        let mut dirs: Vec<String> = Vec::new();
        dirs.push(join(Platform::Linux, home, ".config/meerkly"));
        dirs.push(join(Platform::Linux, home, ".local/state/meerkly"));
        dirs
    }

    /// What the unit's state is: not installed without a unit file; running
    /// when `systemctl is-active` printed `active`; stopped otherwise, a
    /// failed query included (`is-active` exits non-zero when inactive).
    pub fn state_from(unit_exists: bool, is_active: Option<String>) -> (s: ServiceState)
        ensures
            !unit_exists ==> s == ServiceState::NotInstalled,
            unit_exists ==> match is_active {
                Some(out) if trim(out@) == "active"@ => s == ServiceState::Running,
                _ => s == ServiceState::Stopped,
            },
    {
        if !unit_exists {
            return ServiceState::NotInstalled;
        }
        match is_active {
            Some(out) => {
                let all = chars_of(out.as_str());
                let t = trim_chars(all.as_slice());
                let active = chars_of("active");
                if chars_equal(t.as_slice(), active.as_slice()) {
                    ServiceState::Running
                } else {
                    ServiceState::Stopped
                }
            },
            None => ServiceState::Stopped,
        }
    }

    /// How a person would do the same without this CLI.
    pub fn native_hint() -> (h: String)
        ensures
            h@ == "systemctl start|stop|status meerkly    (logs: journalctl -u meerkly.service -f)"@,
    {
        String::from_str(
            "systemctl start|stop|status meerkly    (logs: journalctl -u meerkly.service -f)",
        )
    }
}

} // verus!
