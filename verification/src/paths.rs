//! Where the agent keeps its files.
//!
//! The service runs **as the user who installed it**, so every path here lives
//! in that user's own home: `meerkly config set` and the desktop app can write
//! the configuration without elevation. Deliberately **not** `~/.meerkly/`,
//! which the older meerkly browser worker already owns.
//!
//! Paths are text here. What the operating system is asked (the home
//! directory, the user's known folders, the environment) is asked by the
//! program and handed in.

use vstd::prelude::*;
use crate::text::{
    chars_of, opt_view, parse_u32, parse_u32_spec, split_chars, split_on, string_of, trim,
    trim_chars, views,
};

verus! {

/// Environment override for the configuration file, for tests, containers
/// and anyone running more than one agent on a box.
pub const CONFIG_ENV: &'static str = "MEERKLY_CONFIG";

/// The operating systems the agent lays its files out for.
#[derive(Debug, Clone, Copy, PartialEq, Eq, Structural)]
pub enum Platform {
    Linux,
    MacOs,
    Windows,
}

/// Why a location could not be determined.
#[derive(Debug, Clone, Copy, PartialEq, Eq, Structural)]
pub enum PathError {
    /// The platform's per-user directories are unknown.
    NoProjectDirs,
    /// No home directory could be found.
    NoHome,
}

impl PathError {
    pub fn message(&self) -> (m: String)
        ensures
            *self == PathError::NoProjectDirs ==> m@
                == "cannot determine this user's home directory; set MEERKLY_CONFIG to a file path"@,
            *self == PathError::NoHome ==> m@
                == "cannot determine this user's home directory; set $HOME"@,
    {
        match self {
            PathError::NoProjectDirs => String::from_str(
                "cannot determine this user's home directory; set MEERKLY_CONFIG to a file path",
            ),
            PathError::NoHome => String::from_str(
                "cannot determine this user's home directory; set $HOME",
            ),
        }
    }
}

// ---- joining ---------------------------------------------------------------

pub open spec fn is_separator(platform: Platform, c: char) -> bool {
    c == '/' || (platform == Platform::Windows && c == '\\')
}

pub open spec fn main_separator(platform: Platform) -> char {
    if platform == Platform::Windows {
        '\\'
    } else {
        '/'
    }
}

/// `Path::join` of a relative component: a separator goes between the two
/// unless the base is empty or already ends in one.
pub open spec fn join_spec(platform: Platform, base: Seq<char>, component: Seq<char>) -> Seq<char> {
    if base.len() == 0 || is_separator(platform, base.last()) {
        base + component
    } else {
        base.push(main_separator(platform)) + component
    }
}

pub fn join(platform: Platform, base: &str, component: &str) -> (r: String)
    ensures
        r@ == join_spec(platform, base@, component@),
{
    let b = chars_of(base);
    let n = b.len();
    let needs_separator = n > 0 && !(b[n - 1] == '/' || (platform == Platform::Windows && b[n
        - 1] == '\\'));
    if needs_separator {
        let mut v = b;
        v.push(if platform == Platform::Windows {
            '\\'
        } else {
            '/'
        });
        let head = string_of(v.as_slice());
        head.concat(component)
    } else {
        String::from_str(base).concat(component)
    }
}

// ---- the directories -------------------------------------------------------

/// What the operating system reported about the user's directories.
#[derive(Debug, Clone)]
pub struct Locations {
    pub platform: Platform,
    /// Whether the platform's per-user directories could be determined.
    pub known: bool,
    /// The user's home, as `home_dir` resolved it (Linux, macOS).
    pub home: Option<String>,
    /// The roaming application-data folder, `%APPDATA%` (Windows).
    pub app_data: Option<String>,
    /// The local application-data folder, `%LOCALAPPDATA%` (Windows).
    pub local_app_data: Option<String>,
}

/// The folder the platform reported for `platform`'s layout, or the error
/// that stops it: unknown directories first, then a missing home.
pub open spec fn base_of(loc: Locations, windows_folder: Option<String>) -> Result<Seq<char>, PathError> {
    if !loc.known {
        Err(PathError::NoProjectDirs)
    } else if loc.platform == Platform::Windows {
        match opt_view(windows_folder) {
            Some(f) => Ok(f),
            None => Err(PathError::NoProjectDirs),
        }
    } else {
        match opt_view(loc.home) {
            Some(h) => Ok(h),
            None => Err(PathError::NoHome),
        }
    }
}

pub open spec fn join2(p: Platform, base: Seq<char>, a: Seq<char>, b: Seq<char>) -> Seq<char> {
    join_spec(p, join_spec(p, base, a), b)
}

/// `~/.config/meerkly` on Linux and macOS — macOS gets the XDG path rather
/// than `~/Library/Application Support` because this is a console tool an
/// administrator edits by hand — and `%APPDATA%\meerkly` on Windows.
pub open spec fn config_dir_spec(loc: Locations) -> Result<Seq<char>, PathError> {
    match base_of(loc, loc.app_data) {
        Err(e) => Err(e),
        Ok(base) => if loc.platform == Platform::Windows {
            Ok(join_spec(loc.platform, base, "meerkly"@))
        } else {
            Ok(join2(loc.platform, base, ".config"@, "meerkly"@))
        },
    }
}

/// Machine-written state: `~/.local/state/meerkly` on Linux,
/// `~/Library/Application Support/meerkly` on macOS, and the project's local
/// data folder, `%LOCALAPPDATA%\meerkly\meerkly\data`, on Windows.
pub open spec fn state_dir_spec(loc: Locations) -> Result<Seq<char>, PathError> {
    match base_of(loc, loc.local_app_data) {
        Err(e) => Err(e),
        Ok(base) => match loc.platform {
            Platform::Windows => Ok(join_spec(
                loc.platform,
                join2(loc.platform, base, "meerkly"@, "meerkly"@),
                "data"@,
            )),
            Platform::MacOs => Ok(join_spec(
                loc.platform,
                join2(loc.platform, base, "Library"@, "Application Support"@),
                "meerkly"@,
            )),
            Platform::Linux => Ok(join_spec(
                loc.platform,
                join2(loc.platform, base, ".local"@, "state"@),
                "meerkly"@,
            )),
        },
    }
}

fn base_folder(loc: &Locations, windows_folder: &Option<String>) -> (r: Result<String, PathError>)
    ensures
        match base_of(*loc, *windows_folder) {
            Ok(b) => r matches Ok(s) && s@ == b,
            Err(e) => r == Err::<String, PathError>(e),
        },
{
    if !loc.known {
        return Err(PathError::NoProjectDirs);
    }
    if loc.platform == Platform::Windows {
        match windows_folder {
            Some(f) => Ok(f.clone()),
            None => Err(PathError::NoProjectDirs),
        }
    } else {
        match &loc.home {
            Some(h) => Ok(h.clone()),
            None => Err(PathError::NoHome),
        }
    }
}

pub open spec fn result_view(r: Result<String, PathError>) -> Result<Seq<char>, PathError> {
    match r {
        Ok(s) => Ok(s@),
        Err(e) => Err(e),
    }
}

pub fn config_dir(loc: &Locations) -> (r: Result<String, PathError>)
    ensures
        result_view(r) == config_dir_spec(*loc),
{
    let base = match base_folder(loc, &loc.app_data) {
        Ok(b) => b,
        Err(e) => {
            return Err(e);
        },
    };
    if loc.platform == Platform::Windows {
        Ok(join(loc.platform, base.as_str(), "meerkly"))
    } else {
        let c = join(loc.platform, base.as_str(), ".config");
        Ok(join(loc.platform, c.as_str(), "meerkly"))
    }
}

pub fn state_dir(loc: &Locations) -> (r: Result<String, PathError>)
    ensures
        result_view(r) == state_dir_spec(*loc),
{
    let base = match base_folder(loc, &loc.local_app_data) {
        Ok(b) => b,
        Err(e) => {
            return Err(e);
        },
    };
    let p = loc.platform;
    match p {
        Platform::Windows => {
            let a = join(p, base.as_str(), "meerkly");
            let b = join(p, a.as_str(), "meerkly");
            Ok(join(p, b.as_str(), "data"))
        },
        Platform::MacOs => {
            let a = join(p, base.as_str(), "Library");
            let b = join(p, a.as_str(), "Application Support");
            Ok(join(p, b.as_str(), "meerkly"))
        },
        Platform::Linux => {
            let a = join(p, base.as_str(), ".local");
            let b = join(p, a.as_str(), "state");
            Ok(join(p, b.as_str(), "meerkly"))
        },
    }
}

/// A file or directory named `name` inside the directory `dir` resolves to.
pub open spec fn inside(p: Platform, dir: Result<Seq<char>, PathError>, name: Seq<char>) -> Result<
    Seq<char>,
    PathError,
> {
    match dir {
        Ok(d) => Ok(join_spec(p, d, name)),
        Err(e) => Err(e),
    }
}

fn inside_state_dir(loc: &Locations, name: &str) -> (r: Result<String, PathError>)
    ensures
        result_view(r) == inside(loc.platform, state_dir_spec(*loc), name@),
{
    match state_dir(loc) {
        Ok(d) => Ok(join(loc.platform, d.as_str(), name)),
        Err(e) => Err(e),
    }
}

/// The configuration file: `$MEERKLY_CONFIG` wins if set, otherwise
/// `config.toml` in the configuration directory.
pub fn config_file(override_path: Option<String>, loc: &Locations) -> (r: Result<String, PathError>)
    ensures
        match opt_view(override_path) {
            Some(p) => r matches Ok(s) && s@ == p,
            None => result_view(r) == inside(loc.platform, config_dir_spec(*loc), "config.toml"@),
        },
{
    match override_path {
        Some(p) => Ok(p),
        None => match config_dir(loc) {
            Ok(d) => Ok(join(loc.platform, d.as_str(), "config.toml")),
            Err(e) => Err(e),
        },
    }
}

/// The status file the daemon publishes and `meerkly status` reads back.
pub fn status_file(loc: &Locations) -> (r: Result<String, PathError>)
    ensures
        result_view(r) == inside(loc.platform, state_dir_spec(*loc), "status.json"@),
{
    inside_state_dir(loc, "status.json")
}

/// The daemon's own log files, beside `status.json`.
pub fn log_dir(loc: &Locations) -> (r: Result<String, PathError>)
    ensures
        result_view(r) == inside(loc.platform, state_dir_spec(*loc), "logs"@),
{
    inside_state_dir(loc, "logs")
}

/// This machine's persistent device id. State, not config: never hand-edited,
/// never copied to another machine.
pub fn device_id_file(loc: &Locations) -> (r: Result<String, PathError>)
    ensures
        result_view(r) == inside(loc.platform, state_dir_spec(*loc), "device_id"@),
{
    inside_state_dir(loc, "device_id")
}

/// The home directory on Linux and macOS. Under `sudo`, the human's home —
/// not root's — since the service runs as that human; then `$HOME` when it is
/// not empty, so a systemd unit's `Environment=HOME=…` is authoritative; then
/// what the platform reports.
pub fn home_dir(sudo_home: Option<String>, env_home: Option<String>, platform_home: Option<String>) -> (r:
    Result<String, PathError>)
    ensures
        match (opt_view(sudo_home), opt_view(env_home), opt_view(platform_home)) {
            (Some(h), _, _) => r matches Ok(s) && s@ == h,
            (None, Some(h), _) if h.len() > 0 => r matches Ok(s) && s@ == h,
            (None, _, Some(h)) => r matches Ok(s) && s@ == h,
            _ => r == Err::<String, PathError>(PathError::NoHome),
        },
{
    if let Some(h) = sudo_home {
        return Ok(h);
    }
    if let Some(h) = env_home {
        if h.unicode_len() > 0 {
            return Ok(h);
        }
    }
    match platform_home {
        Some(h) => Ok(h),
        None => Err(PathError::NoHome),
    }
}

// ---- users -----------------------------------------------------------------

/// The fields of a passwd entry the agent needs.
#[derive(Debug, Clone, PartialEq, Eq)]
pub struct PasswdEntry {
    pub uid: u32,
    pub gid: u32,
    pub home: String,
}

/// One `name:x:uid:gid:gecos:home:shell` line, trimmed and split at `:`:
/// at least six fields, a numeric uid and gid, and a home directory.
pub open spec fn passwd_fields(line: Seq<char>) -> Seq<Seq<char>> {
    split_on(trim(line), ':')
}

pub open spec fn parse_passwd_spec(line: Seq<char>) -> Option<(u32, u32, Seq<char>)> {
    let f = passwd_fields(line);
    if f.len() < 6 {
        None
    } else {
        match (parse_u32_spec(f[2]), parse_u32_spec(f[3])) {
            (Some(uid), Some(gid)) => if f[5].len() == 0 {
                None
            } else {
                Some((uid, gid, f[5]))
            },
            _ => None,
        }
    }
}

/// `None` for anything malformed, including a user with no home directory —
/// there is nowhere to put a config.
pub fn parse_passwd_line(line: &str) -> (r: Option<PasswdEntry>)
    ensures
        match parse_passwd_spec(line@) {
            Some((uid, gid, home)) => r matches Some(e) && e.uid == uid && e.gid == gid
                && e.home@ == home,
            None => r is None,
        },
{
    let all = chars_of(line);
    let t = trim_chars(all.as_slice());
    let fields = split_chars(t.as_slice(), ':');
    assert(fields@.map_values(|p: Vec<char>| p@).len() == fields@.len());
    if fields.len() < 6 {
        return None;
    }
    assert(fields@[2]@ == passwd_fields(line@)[2]);
    assert(fields@[3]@ == passwd_fields(line@)[3]);
    assert(fields@[5]@ == passwd_fields(line@)[5]);
    let uid = match parse_u32(fields[2].as_slice()) {
        Some(v) => v,
        None => {
            return None;
        },
    };
    let gid = match parse_u32(fields[3].as_slice()) {
        Some(v) => v,
        None => {
            return None;
        },
    };
    if fields[5].len() == 0 {
        return None;
    }
    Some(PasswdEntry { uid, gid, home: string_of(fields[5].as_slice()) })
}

/// The user behind a `sudo` whose entry the agent should look up: only when
/// running as root (effective uid 0), and only for a named user other than
/// root.
pub fn sudo_user(euid: u32, sudo_user_env: Option<String>) -> (r: Option<String>)
    ensures
        match opt_view(sudo_user_env) {
            Some(u) if euid == 0 && u.len() > 0 && u != "root"@ => r matches Some(s) && s@ == u,
            _ => r is None,
        },
{
    if euid != 0 {
        return None;
    }
    match sudo_user_env {
        Some(u) => {
            let c = chars_of(u.as_str());
            let root = chars_of("root");
            if c.len() > 0 && !crate::text::chars_equal(c.as_slice(), root.as_slice()) {
                Some(u)
            } else {
                None
            }
        },
        None => None,
    }
}

// ---- handing directories back ----------------------------------------------

/// `Path::starts_with`: `prefix`'s components begin `path`'s.
pub open spec fn has_prefix(path: Seq<Seq<char>>, prefix: Seq<Seq<char>>) -> bool {
    prefix.len() <= path.len() && path.take(prefix.len() as int) == prefix
}

/// Whether the ancestor made of the first `j` components is one to hand back:
/// below the home, and not the home itself.
pub open spec fn adoptable(path: Seq<Seq<char>>, home: Seq<Seq<char>>, j: int) -> bool {
    has_prefix(path.take(j), home) && path.take(j) != home
}

/// The ancestors of a path, nearest first, that lie below `home`: walking up
/// from the path's parent, stopping at the home itself or at the first
/// ancestor outside it. Each is given by its number of components.
pub open spec fn adoption_chain_spec(path: Seq<Seq<char>>, home: Seq<Seq<char>>) -> Seq<int> {
    adoption_chain_from(path, home, path.len() - 1)
}

pub open spec fn adoption_chain_from(path: Seq<Seq<char>>, home: Seq<Seq<char>>, j: int) -> Seq<int>
    decreases j,
{
    if j < 1 || !adoptable(path, home, j) {
        Seq::<int>::empty()
    } else {
        seq![j] + adoption_chain_from(path, home, j - 1)
    }
}

fn components_prefix_eq(path: &Vec<String>, home: &Vec<String>, j: usize) -> (b: bool)
    requires
        j <= path@.len(),
    ensures
        b == has_prefix(views(path@).take(j as int), views(home@)),
{
    let m = home.len();
    if m > j {
        return false;
    }
    for i in 0..m
        invariant
            m == home@.len(),
            m <= j <= path@.len(),
            forall|k: int| 0 <= k < i ==> path@[k]@ == home@[k]@,
    {
        if path[i] != home[i] {
            assert(views(path@).take(j as int).take(m as int)[i as int] != views(home@)[i as int]);
            return false;
        }
    }
    assert(views(path@).take(j as int).take(m as int) =~= views(home@));
    true
}

/// The directories `give_to` hands back to the sudo user after writing
/// `path` as root: the components of each ancestor, nearest first, as counts
/// of `path`'s leading components.
pub fn adoption_chain(path: &Vec<String>, home: &Vec<String>) -> (r: Vec<usize>)
    ensures
        r@.map_values(|j: usize| j as int) == adoption_chain_spec(views(path@), views(home@)),
{
    let ghost p = views(path@);
    let ghost h = views(home@);
    let mut r: Vec<usize> = Vec::new();
    if path.len() == 0 {
        return r;
    }
    let mut j: usize = path.len() - 1;
    loop
        invariant
            p == views(path@),
            h == views(home@),
            j < path@.len(),
            r@.map_values(|x: usize| x as int) + adoption_chain_from(p, h, j as int)
                == adoption_chain_spec(p, h),
        ensures
            r@.map_values(|x: usize| x as int) == adoption_chain_spec(p, h),
        decreases j,
    {
        if j < 1 {
            return r;
        }
        let under_home = components_prefix_eq(path, home, j);
        let is_home = j == home.len() && components_prefix_eq(path, home, j);
        proof {
            assert(p.take(j as int).len() == j);
            if j == home@.len() && has_prefix(p.take(j as int), h) {
                assert(p.take(j as int).take(j as int) == p.take(j as int));
            }
            if p.take(j as int) == h {
                assert(p.take(j as int).take(h.len() as int) =~= p.take(j as int));
                assert(has_prefix(p.take(j as int), h));
            }
        }
        if !under_home || is_home {
            return r;
        }
        let ghost before = r@.map_values(|x: usize| x as int);
        r.push(j);
        assert(r@.map_values(|x: usize| x as int) =~= before.push(j as int));
        assert(before.push(j as int) + adoption_chain_from(p, h, j - 1) =~= before + (seq![j as int]
            + adoption_chain_from(p, h, j - 1)));
        j = j - 1;
    }
}

// ---- state apart from configuration ----------------------------------------

/// `path` is the directory `dir` or lies below it.
pub open spec fn within(p: Platform, dir: Seq<char>, path: Seq<char>) -> bool {
    &&& dir.len() <= path.len()
    &&& path.take(dir.len() as int) == dir
    &&& (path.len() == dir.len() || is_separator(p, path[dir.len() as int]))
}

/// The home with the separator that joining puts after it.
pub open spec fn home_base(p: Platform, home: Seq<char>) -> Seq<char> {
    if home.len() == 0 || is_separator(p, home.last()) {
        home
    } else {
        home.push(main_separator(p))
    }
}

proof fn lemma_join_from(p: Platform, base: Seq<char>, c: Seq<char>)
    requires
        c.len() > 0,
        !is_separator(p, c.last()),
    ensures
        join_spec(p, base, c) == home_base(p, base) + c,
        !is_separator(p, join_spec(p, base, c).last()),
        join_spec(p, base, c).len() > 0,
{
}

proof fn lemma_state_outside_config_unix(loc: Locations, name: Seq<char>)
    requires
        loc.platform != Platform::Windows,
        config_dir_spec(loc) is Ok,
    ensures
        state_dir_spec(loc) is Ok,
        !within(loc.platform, config_dir_spec(loc)->Ok_0, state_dir_spec(loc)->Ok_0),
        inside(loc.platform, state_dir_spec(loc), name) matches Ok(f) ==> !within(
            loc.platform,
            config_dir_spec(loc)->Ok_0,
            f,
        ),
{
    reveal_strlit(".config");
    reveal_strlit("meerkly");
    reveal_strlit(".local");
    reveal_strlit("state");
    reveal_strlit("Library");
    reveal_strlit("Application Support");
    let p = loc.platform;
    let h = opt_view(loc.home)->0;
    let b = home_base(p, h);
    let k: int = b.len() as int;
    lemma_join_from(p, h, ".config"@);
    let c1 = join_spec(p, h, ".config"@);
    lemma_join_from(p, c1, "meerkly"@);
    let config = config_dir_spec(loc)->Ok_0;
    assert(config == join_spec(p, c1, "meerkly"@));
    assert(config.len() > k + 1);
    assert(config[k] == '.');
    let state = state_dir_spec(loc)->Ok_0;
    if p == Platform::Linux {
        lemma_join_from(p, h, ".local"@);
        let s1 = join_spec(p, h, ".local"@);
        lemma_join_from(p, s1, "state"@);
        let s2 = join_spec(p, s1, "state"@);
        lemma_join_from(p, s2, "meerkly"@);
        assert(state == join_spec(p, s2, "meerkly"@));
        assert(config[k + 1] == 'c');
        assert(state[k + 1] == 'l');
        if within(p, config, state) {
            assert(state[k + 1] == state.take(config.len() as int)[k + 1]);
        }
        match inside(p, state_dir_spec(loc), name) {
            Ok(f) => {
                if within(p, config, f) {
                    assert(f == join_spec(p, state, name));
                    assert(f.take(state.len() as int) == state);
                    assert(f[k + 1] == f.take(config.len() as int)[k + 1]);
                }
            },
            Err(_) => {},
        }
    } else {
        lemma_join_from(p, h, "Library"@);
        let s1 = join_spec(p, h, "Library"@);
        lemma_join_from(p, s1, "Application Support"@);
        let s2 = join_spec(p, s1, "Application Support"@);
        lemma_join_from(p, s2, "meerkly"@);
        assert(state == join_spec(p, s2, "meerkly"@));
        assert(state[k] == 'L');
        if within(p, config, state) {
            assert(state[k] == state.take(config.len() as int)[k]);
        }
        match inside(p, state_dir_spec(loc), name) {
            Ok(f) => {
                if within(p, config, f) {
                    assert(f == join_spec(p, state, name));
                    assert(f.take(state.len() as int) == state);
                    assert(f[k] == f.take(state.len() as int)[k]);
                    assert(f[k] == f.take(config.len() as int)[k]);
                }
            },
            Err(_) => {},
        }
    }
}

/// `x` begins `y`.
pub open spec fn is_prefix(x: Seq<char>, y: Seq<char>) -> bool {
    x.len() <= y.len() && y.take(x.len() as int) == x
}

/// Two folders neither of which is, or lies below, the other: each taken with
/// the separator that joining puts after it, neither begins the other.
pub open spec fn disjoint_folders(p: Platform, a: Seq<char>, b: Seq<char>) -> bool {
    !is_prefix(home_base(p, a), home_base(p, b)) && !is_prefix(home_base(p, b), home_base(p, a))
}

proof fn lemma_prefix_trans(x: Seq<char>, y: Seq<char>, z: Seq<char>)
    requires
        is_prefix(x, y),
        is_prefix(y, z),
    ensures
        is_prefix(x, z),
{
    assert(z.take(x.len() as int) =~= z.take(y.len() as int).take(x.len() as int));
}

proof fn lemma_prefixes_nest(x: Seq<char>, y: Seq<char>, z: Seq<char>)
    requires
        is_prefix(x, z),
        is_prefix(y, z),
        x.len() <= y.len(),
    ensures
        is_prefix(x, y),
{
    assert(z.take(y.len() as int).take(x.len() as int) =~= z.take(x.len() as int));
    assert(y.take(x.len() as int) =~= x);
}

proof fn lemma_join_extends(p: Platform, base: Seq<char>, c: Seq<char>)
    ensures
        is_prefix(base, join_spec(p, base, c)),
        is_prefix(home_base(p, base), join_spec(p, base, c)),
{
    let j = join_spec(p, base, c);
    assert(j.take(base.len() as int) =~= base);
    assert(j.take(home_base(p, base).len() as int) =~= home_base(p, base));
}

/// On Windows the state directory is joined onto the local folder, so when
/// that folder and the roaming one are apart nothing in it lies in the
/// roaming folder's configuration directory.
proof fn lemma_state_outside_config_windows(loc: Locations, name: Seq<char>)
    requires
        loc.platform == Platform::Windows,
        config_dir_spec(loc) is Ok,
        loc.local_app_data is Some,
        disjoint_folders(loc.platform, loc.app_data->0@, loc.local_app_data->0@),
    ensures
        state_dir_spec(loc) is Ok,
        !within(loc.platform, config_dir_spec(loc)->Ok_0, state_dir_spec(loc)->Ok_0),
        inside(loc.platform, state_dir_spec(loc), name) matches Ok(f) ==> !within(
            loc.platform,
            config_dir_spec(loc)->Ok_0,
            f,
        ),
{
    let p = loc.platform;
    let a = loc.app_data->0@;
    let l = loc.local_app_data->0@;
    let ab = home_base(p, a);
    let lb = home_base(p, l);
    let config = config_dir_spec(loc)->Ok_0;
    lemma_join_extends(p, a, "meerkly"@);
    let s1 = join_spec(p, l, "meerkly"@);
    let s2 = join_spec(p, s1, "meerkly"@);
    let state = join_spec(p, s2, "data"@);
    lemma_join_extends(p, l, "meerkly"@);
    lemma_join_extends(p, s1, "meerkly"@);
    lemma_join_extends(p, s2, "data"@);
    lemma_prefix_trans(lb, s1, s2);
    lemma_prefix_trans(lb, s2, state);
    assert(state_dir_spec(loc) == Ok::<Seq<char>, PathError>(state));
    assert forall|f: Seq<char>| is_prefix(lb, f) implies !within(p, config, f) by {
        if within(p, config, f) {
            assert(is_prefix(config, f));
            lemma_prefix_trans(ab, config, f);
            if ab.len() <= lb.len() {
                lemma_prefixes_nest(ab, lb, f);
            } else {
                lemma_prefixes_nest(lb, ab, f);
            }
        }
    }
    match inside(p, state_dir_spec(loc), name) {
        Ok(f) => {
            lemma_join_extends(p, state, name);
            lemma_prefix_trans(lb, state, f);
        },
        Err(_) => {},
    }
}

/// Everything the daemon writes — the status file, the device id, the logs —
/// lies outside the configuration directory, which is a person's to edit: on
/// Linux and macOS always, on Windows when the roaming and the local
/// application-data folders are apart.
pub proof fn lemma_state_lies_outside_config(loc: Locations, name: Seq<char>)
    requires
        config_dir_spec(loc) is Ok,
        loc.platform == Platform::Windows ==> loc.local_app_data is Some && disjoint_folders(
            loc.platform,
            loc.app_data->0@,
            loc.local_app_data->0@,
        ),
    ensures
        state_dir_spec(loc) is Ok,
        !within(loc.platform, config_dir_spec(loc)->Ok_0, state_dir_spec(loc)->Ok_0),
        inside(loc.platform, state_dir_spec(loc), name) matches Ok(f) ==> !within(
            loc.platform,
            config_dir_spec(loc)->Ok_0,
            f,
        ),
{
    if loc.platform == Platform::Windows {
        lemma_state_outside_config_windows(loc, name);
    } else {
        lemma_state_outside_config_unix(loc, name);
    }
}

} // verus!
