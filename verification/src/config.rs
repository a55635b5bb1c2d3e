//! The agent's configuration: a small TOML file, plus the environment and CLI
//! flags layered over it.
//!
//! Resolution order, strongest first: **CLI flag → environment → config file →
//! SDK defaults**. Nothing here is a secret: a publisher id is a public
//! identifier, so the file is written with ordinary permissions and printed in
//! full.

use vstd::prelude::*;
use crate::device::DeviceIdentity;
use crate::text::{
    ascii_alphanumeric, chars_of, clone_opt_string, clone_strings, debug_quoted, non_blank, str_debug, trimmed_non_blank, is_ascii_alphanumeric, opt_view, split_chars, split_on, string_of,
    trim, trim_chars, views, join_with, lemma_trim, lemma_trim_fixed, lemma_trim_idempotent,
    lemma_split_pieces_lack_separator, lemma_split_join,
};

verus! {

pub const ENV_PUBLISHER_ID: &'static str = "MEERKLY_PUBLISHER_ID";
pub const ENV_GATEWAY_ADDRESSES: &'static str = "MEERKLY_GATEWAY_ADDRESSES";
pub const ENV_CA_CERT_PATH: &'static str = "MEERKLY_CA_CERT_PATH";

/// The comment block every saved configuration file starts with.
pub const HEADER: &'static str = "# meerkly agent configuration.\n#\n# Edit by hand or with `meerkly config set`; either way, restart the service for\n# changes to take effect (`meerkly restart`).\n#\n# The publisher id is a public identifier, not a secret \u{2014} it only says which\n# account earns the bandwidth this machine shares.\n\n";

/// The on-disk file. Every field is optional so a half-written config still
/// loads and reports precisely what is missing.
#[derive(Debug, Clone, PartialEq)]
pub struct Config {
    /// The public `pub_…` id that earns the bandwidth this machine shares.
    pub publisher_id: Option<String>,
    /// Gateways to try, in rotation. Unset means the production gateway.
    pub gateway_addresses: Option<Vec<String>>,
    /// Pin a self-signed development gateway's CA.
    pub ca_cert_path: Option<String>,
    /// `tracing` filter directive, e.g. `info` or `meerkly=debug`.
    pub log: Option<String>,
}

/// What a `Config` holds, as text.
pub struct ConfigView {
    pub publisher_id: Option<Seq<char>>,
    pub gateway_addresses: Option<Seq<Seq<char>>>,
    pub ca_cert_path: Option<Seq<char>>,
    pub log: Option<Seq<char>>,
}

pub open spec fn opt_views(o: Option<Vec<String>>) -> Option<Seq<Seq<char>>> {
    match o {
        Some(v) => Some(views(v@)),
        None => None,
    }
}

impl View for Config {
    type V = ConfigView;

    open spec fn view(&self) -> ConfigView {
        ConfigView {
            publisher_id: opt_view(self.publisher_id),
            gateway_addresses: opt_views(self.gateway_addresses),
            ca_cert_path: opt_view(self.ca_cert_path),
            log: opt_view(self.log),
        }
    }
}

impl Default for Config {
    fn default() -> (c: Self)
        ensures
            c.publisher_id is None,
            c.gateway_addresses is None,
            c.ca_cert_path is None,
            c.log is None,
    {
        Config { publisher_id: None, gateway_addresses: None, ca_cert_path: None, log: None }
    }
}

/// Why a configuration was refused.
#[derive(Debug, Clone, PartialEq)]
pub enum ConfigError {
    /// The trimmed candidate is not `pub_` followed by letters and digits.
    InvalidPublisherId { candidate: String },
    /// No layer named a publisher id; `source` is the config file consulted.
    MissingPublisherId { source: String },
    /// A configuration key that is none of the four; `key` is its normalised form.
    UnknownKey { key: String },
}

// ---- publisher ids ---------------------------------------------------------

pub open spec fn publisher_prefix() -> Seq<char> {
    seq!['p', 'u', 'b', '_']
}

/// `pub_` followed by one or more ASCII letters and digits.
pub open spec fn is_publisher_id(s: Seq<char>) -> bool {
    &&& s.len() > 4
    &&& s.take(4) == publisher_prefix()
    &&& forall|i: int| 4 <= i < s.len() ==> #[trigger] is_ascii_alphanumeric(s[i])
}

/// The canonical publisher-id rule, matching the dashboard's own pairing-code
/// parser: trim surrounding white space, require the `pub_` prefix, reject
/// anything else rather than guessing.
///
/// A **prefix** check, not a length check — ids are `pub_` plus 24
/// alphanumeric characters today, but nothing promises that stays fixed.
pub fn validate_publisher_id(raw: &str) -> (r: Result<String, ConfigError>)
    ensures
        r is Ok <==> is_publisher_id(trim(raw@)),
        r matches Ok(id) ==> id@ == trim(raw@),
        r matches Err(e) ==> (e matches ConfigError::InvalidPublisherId { candidate }
            && candidate@ == trim(raw@)),
{
    let all = chars_of(raw);
    let candidate = trim_chars(all.as_slice());
    let n = candidate.len();
    let mut valid = n > 4 && candidate[0] == 'p' && candidate[1] == 'u' && candidate[2] == 'b'
        && candidate[3] == '_';
    if valid {
        assert(candidate@.take(4) =~= publisher_prefix());
    } else {
        assert(n > 4 ==> candidate@.take(4)[0] == candidate@[0]);
        assert(n > 4 ==> candidate@.take(4)[1] == candidate@[1]);
        assert(n > 4 ==> candidate@.take(4)[2] == candidate@[2]);
        assert(n > 4 ==> candidate@.take(4)[3] == candidate@[3]);
    }
    let mut i: usize = 4;
    while valid && i < n
        invariant
            n == candidate@.len(),
            valid ==> 4 <= i <= n,
            valid ==> n > 4 && candidate@.take(4) == publisher_prefix(),
            valid ==> forall|k: int| 4 <= k < i ==> #[trigger] is_ascii_alphanumeric(candidate@[k]),
            !valid ==> !is_publisher_id(candidate@),
        decreases (if valid { n - i + 1 } else { 0 }),
    {
        if !ascii_alphanumeric(candidate[i]) {
            valid = false;
        } else {
            i = i + 1;
        }
    }
    if valid {
        Ok(string_of(candidate.as_slice()))
    } else {
        Err(ConfigError::InvalidPublisherId { candidate: string_of(candidate.as_slice()) })
    }
}

// ---- gateway addresses -----------------------------------------------------

/// The pieces that are not empty, in order.
pub open spec fn non_empty(pieces: Seq<Seq<char>>) -> Seq<Seq<char>>
    decreases pieces.len(),
{
    if pieces.len() == 0 {
        Seq::<Seq<char>>::empty()
    } else if pieces.last().len() > 0 {
        non_empty(pieces.drop_last()).push(pieces.last())
    } else {
        non_empty(pieces.drop_last())
    }
}

/// Comma-separated addresses, each trimmed, the empty ones dropped.
pub open spec fn addresses_of(raw: Seq<char>) -> Seq<Seq<char>> {
    non_empty(split_on(raw, ',').map_values(|p: Seq<char>| trim(p)))
}

pub fn split_addresses(raw: &str) -> (r: Vec<String>)
    ensures
        views(r@) == addresses_of(raw@),
{
    let all = chars_of(raw);
    let pieces = split_chars(all.as_slice(), ',');
    let ghost trimmed = split_on(raw@, ',').map_values(|p: Seq<char>| trim(p));
    let mut r: Vec<String> = Vec::new();
    let n = pieces.len();
    for i in 0..n
        invariant
            n == pieces@.len(),
            pieces@.map_values(|p: Vec<char>| p@) == split_on(raw@, ','),
            trimmed == split_on(raw@, ',').map_values(|p: Seq<char>| trim(p)),
            views(r@) == non_empty(trimmed.take(i as int)),
    {
        assert(pieces@[i as int]@ == split_on(raw@, ',')[i as int]);
        let piece = trim_chars(pieces[i].as_slice());
        assert(trimmed.take(i + 1).drop_last() == trimmed.take(i as int));
        assert(trimmed.take(i + 1).last() == piece@);
        if piece.len() > 0 {
            let s = string_of(piece.as_slice());
            r.push(s);
            assert(views(r@) =~= non_empty(trimmed.take(i + 1)));
        }
    }
    assert(trimmed.take(n as int) == trimmed);
    r
}

/// An accepted publisher id is already trimmed, so it is accepted again
/// unchanged.
pub proof fn lemma_publisher_id_is_trimmed(s: Seq<char>)
    requires
        is_publisher_id(s),
    ensures
        trim(s) == s,
        is_publisher_id(trim(s)),
{
    assert(s[0] == s.take(4)[0]);
    assert(is_ascii_alphanumeric(s[s.len() - 1]));
    lemma_trim_fixed(s);
}

/// The non-empty pieces are pieces, and are not empty.
pub proof fn lemma_non_empty_members(pieces: Seq<Seq<char>>)
    ensures
        forall|k: int| 0 <= k < non_empty(pieces).len() ==> #[trigger] non_empty(pieces)[k].len() > 0,
        forall|k: int|
            0 <= k < non_empty(pieces).len() ==> exists|m: int|
                0 <= m < pieces.len() && pieces[m] == #[trigger] non_empty(pieces)[k],
    decreases pieces.len(),
{
    if pieces.len() > 0 {
        let front = pieces.drop_last();
        lemma_non_empty_members(front);
        let ne = non_empty(pieces);
        assert forall|k: int| 0 <= k < ne.len() implies exists|m: int|
            0 <= m < pieces.len() && pieces[m] == #[trigger] ne[k] by {
            if k < non_empty(front).len() {
                let m = choose|m: int| 0 <= m < front.len() && front[m] == non_empty(front)[k];
                assert(pieces[m] == ne[k]);
            } else {
                assert(pieces[pieces.len() - 1] == ne[k]);
            }
        }
    }
}

/// Dropping empty pieces from pieces that are all non-empty changes nothing.
pub proof fn lemma_non_empty_keeps(g: Seq<Seq<char>>)
    requires
        forall|k: int| 0 <= k < g.len() ==> #[trigger] g[k].len() > 0,
    ensures
        non_empty(g) == g,
    decreases g.len(),
{
    if g.len() > 0 {
        lemma_non_empty_keeps(g.drop_last());
        assert(g.drop_last().push(g.last()) == g);
    }
}

/// What an address list looks like: each address non-empty, trimmed, and
/// free of commas.
pub open spec fn is_address(a: Seq<char>) -> bool {
    &&& a.len() > 0
    &&& trim(a) == a
    &&& forall|i: int| 0 <= i < a.len() ==> #[trigger] a[i] != ','
}

/// Every address `split_addresses` yields is non-empty, trimmed and free of
/// commas.
pub proof fn lemma_addresses_are_clean(raw: Seq<char>)
    ensures
        forall|k: int| 0 <= k < addresses_of(raw).len() ==> is_address(#[trigger] addresses_of(raw)[k]),
{
    let pieces = split_on(raw, ',');
    let trimmed = pieces.map_values(|p: Seq<char>| trim(p));
    lemma_non_empty_members(trimmed);
    lemma_split_pieces_lack_separator(raw, ',');
    assert forall|k: int| 0 <= k < addresses_of(raw).len() implies is_address(
        #[trigger] addresses_of(raw)[k],
    ) by {
        let a = addresses_of(raw)[k];
        let m = choose|m: int| 0 <= m < trimmed.len() && trimmed[m] == a;
        assert(a == trim(pieces[m]));
        let r = lemma_trim(pieces[m]);
        lemma_trim_idempotent(pieces[m]);
        assert forall|i: int| 0 <= i < a.len() implies #[trigger] a[i] != ',' by {
            assert(a[i] == pieces[m][r.0 + i]);
        }
    }
}

/// Splitting a comma-joined list of addresses gives the list back.
pub proof fn lemma_addresses_round_trip(g: Seq<Seq<char>>)
    requires
        g.len() > 0,
        forall|k: int| 0 <= k < g.len() ==> is_address(#[trigger] g[k]),
    ensures
        addresses_of(join_with(g, seq![','])) == g,
{
    assert forall|k: int, i: int| 0 <= k < g.len() && 0 <= i < g[k].len() implies #[trigger] g[k][i]
        != ',' by {
        assert(is_address(g[k]));
    }
    lemma_split_join(g, ',');
    assert(g.map_values(|p: Seq<char>| trim(p)) =~= g) by {
        assert forall|k: int| 0 <= k < g.len() implies g.map_values(|p: Seq<char>| trim(p))[k]
            == g[k] by {
            assert(is_address(g[k]));
        }
    }
    assert forall|k: int| 0 <= k < g.len() implies #[trigger] g[k].len() > 0 by {
        assert(is_address(g[k]));
    }
    lemma_non_empty_keeps(g);
}

// ---- resolution ------------------------------------------------------------

/// A config resolved from every layer and ready to run.
#[derive(Debug, Clone)]
pub struct Resolved {
    pub publisher_id: String,
    pub gateway_addresses: Vec<String>,
    pub ca_cert_path: Option<String>,
    pub log: Option<String>,
    /// The configuration file the settings were read from.
    pub source: String,
}

pub struct ResolvedView {
    pub publisher_id: Seq<char>,
    pub gateway_addresses: Seq<Seq<char>>,
    pub ca_cert_path: Option<Seq<char>>,
    pub log: Option<Seq<char>>,
    pub source: Seq<char>,
}

impl View for Resolved {
    type V = ResolvedView;

    open spec fn view(&self) -> ResolvedView {
        ResolvedView {
            publisher_id: self.publisher_id@,
            gateway_addresses: views(self.gateway_addresses@),
            ca_cert_path: opt_view(self.ca_cert_path),
            log: opt_view(self.log),
            source: self.source@,
        }
    }
}

/// The environment layer: the values of `MEERKLY_PUBLISHER_ID`,
/// `MEERKLY_GATEWAY_ADDRESSES` and `MEERKLY_CA_CERT_PATH`, as looked up.
#[derive(Debug, Clone)]
pub struct Environment {
    pub publisher_id: Option<String>,
    pub gateway_addresses: Option<String>,
    pub ca_cert_path: Option<String>,
}

/// How the process environment is read: a variable's value, trimmed, and
/// only if something is left.
pub fn env_setting(raw: Option<String>) -> (r: Option<String>)
    ensures
        opt_view(r) == non_blank(opt_view(raw)),
{
    trimmed_non_blank(raw)
}

/// The stronger layer if it is set, else the weaker.
pub open spec fn layered<T>(stronger: Option<T>, weaker: Option<T>) -> Option<T> {
    match stronger {
        Some(v) => Some(v),
        None => weaker,
    }
}

/// The production gateway, `meerkly_sdk::DEFAULT_GATEWAY_ADDRESSES`.
pub open spec fn default_gateways() -> Seq<Seq<char>> {
    seq!["gw.meerkly.com:4443"@]
}

/// `meerkly_sdk::DEFAULT_GATEWAY_ADDRESSES`, each address as an owned string.
/// The SDK's source defines the constant as the one address
/// `gw.meerkly.com:4443`.
#[verifier::external_body]
fn sdk_default_gateways() -> (r: Vec<String>)
    ensures
        views(r@) == default_gateways(),
{
    let mut r = Vec::new();
    for a in meerkly_sdk::DEFAULT_GATEWAY_ADDRESSES {
        r.push((*a).to_owned());
    }
    r
}

/// Gateways: the environment's list, else the file's, else the production
/// default.
pub open spec fn resolved_gateways(
    file: Option<Seq<Seq<char>>>,
    env: Option<Seq<char>>,
) -> Seq<Seq<char>> {
    match env {
        Some(raw) => addresses_of(raw),
        None => match file {
            Some(g) => g,
            None => default_gateways(),
        },
    }
}

pub open spec fn env_view_publisher(env: Environment) -> Option<Seq<char>> {
    opt_view(env.publisher_id)
}

/// What resolving a file, read from `source`, under an environment layer
/// gives: the publisher id of the stronger layer, trimmed and validated, or
/// the error that stops it; gateways and CA path layered the same way; the
/// log filter from the file.
pub open spec fn resolution(
    file: ConfigView,
    source: Seq<char>,
    env_id: Option<Seq<char>>,
    env_gateways: Option<Seq<char>>,
    env_ca: Option<Seq<char>>,
    r: Result<Resolved, ConfigError>,
) -> bool {
    let id = layered(env_id, file.publisher_id);
    match r {
        Err(ConfigError::MissingPublisherId { source: s }) => id is None && s@ == source,
        Err(ConfigError::InvalidPublisherId { candidate }) => id is Some && !is_publisher_id(
            trim(id->0),
        ) && candidate@ == trim(id->0),
        Err(ConfigError::UnknownKey { .. }) => false,
        Ok(res) => {
            &&& id is Some
            &&& is_publisher_id(trim(id->0))
            &&& res@.publisher_id == trim(id->0)
            &&& res@.gateway_addresses == resolved_gateways(file.gateway_addresses, env_gateways)
            &&& res@.ca_cert_path == layered(env_ca, file.ca_cert_path)
            &&& res@.log == file.log
            &&& res@.source == source
        },
    }
}

/// The gateway layers: a list in the environment wins; without one, a
/// resolved config dials exactly the addresses the file lists; only when
/// neither layer names gateways does the production address
/// `gw.meerkly.com:4443` stand in.
pub proof fn lemma_gateway_layers(
    file: ConfigView,
    source: Seq<char>,
    env_id: Option<Seq<char>>,
    env_gateways: Option<Seq<char>>,
    env_ca: Option<Seq<char>>,
    r: Result<Resolved, ConfigError>,
)
    requires
        resolution(file, source, env_id, env_gateways, env_ca, r),
    ensures
        env_gateways matches Some(raw) ==> (r matches Ok(res) ==> res@.gateway_addresses
            == addresses_of(raw)),
        env_gateways is None ==> (file.gateway_addresses matches Some(g) ==> (r matches Ok(res)
            ==> res@.gateway_addresses == g)),
        env_gateways is None ==> (file.gateway_addresses is None ==> (r matches Ok(res)
            ==> res@.gateway_addresses == seq!["gw.meerkly.com:4443"@])),
{
}

impl Resolved {
    /// Apply an environment over a loaded file, then require what the SDK
    /// cannot default: the publisher id.
    pub fn from_parts(file: Config, source: String, env: Environment) -> (r: Result<
        Resolved,
        ConfigError,
    >)
        ensures
            resolution(
                file@,
                source@,
                opt_view(env.publisher_id),
                opt_view(env.gateway_addresses),
                opt_view(env.ca_cert_path),
                r,
            ),
            env.gateway_addresses is None ==> (file@.gateway_addresses matches Some(g) ==> (
            r matches Ok(res) ==> res@.gateway_addresses == g)),
    {
        let Config { publisher_id: file_id, gateway_addresses: file_gateways, ca_cert_path: file_ca, log } = file;
        let Environment { publisher_id: env_id, gateway_addresses: env_gateways, ca_cert_path: env_ca } = env;
        let chosen = match env_id {
            Some(v) => Some(v),
            None => file_id,
        };
        let raw_id = match chosen {
            Some(v) => v,
            None => {
                return Err(ConfigError::MissingPublisherId { source });
            },
        };
        let publisher_id = match validate_publisher_id(raw_id.as_str()) {
            Ok(id) => id,
            Err(e) => {
                return Err(e);
            },
        };
        let gateway_addresses = match env_gateways {
            Some(raw) => split_addresses(raw.as_str()),
            None => match file_gateways {
                Some(g) => g,
                None => sdk_default_gateways(),
            },
        };
        let ca_cert_path = match env_ca {
            Some(v) => Some(v),
            None => file_ca,
        };
        Ok(Resolved { publisher_id, gateway_addresses, ca_cert_path, log, source })
    }

    /// `meerkly run`'s settings: its flags are the strongest layer, over the
    /// environment, over the file, over the SDK default. A gateway flag
    /// replaces the lower layers' lists even when it names no address.
    pub fn for_run(
        file: Config,
        source: String,
        env: Environment,
        publisher_id: Option<String>,
        gateway: Option<String>,
    ) -> (r: Result<Resolved, ConfigError>)
        ensures
            resolution(
                file@,
                source@,
                layered(opt_view(publisher_id), opt_view(env.publisher_id)),
                layered(opt_view(gateway), opt_view(env.gateway_addresses)),
                opt_view(env.ca_cert_path),
                r,
            ),
            publisher_id matches Some(p) ==> (r is Ok <==> is_publisher_id(trim(p@))),
            publisher_id matches Some(p) ==> (r matches Ok(res) ==> res@.publisher_id == trim(p@)),
            gateway matches Some(g) ==> (r matches Ok(res) ==> res@.gateway_addresses
                == addresses_of(g@)),
    {
        let Environment { publisher_id: env_id, gateway_addresses: env_gateways, ca_cert_path } = env;
        let layered_env = Environment {
            publisher_id: match publisher_id {
                Some(p) => Some(p),
                None => env_id,
            },
            gateway_addresses: match gateway {
                Some(g) => Some(g),
                None => env_gateways,
            },
            ca_cert_path,
        };
        Resolved::from_parts(file, source, layered_env)
    }

    /// What the SDK is handed: the resolved settings and this machine's
    /// identity. `sdk` stays unset so the SDK names itself.
    pub fn to_client_config(&self, identity: &DeviceIdentity) -> (c: ClientSettings)
        ensures
            c.publisher_id@ == self.publisher_id@,
            views(c.gateway_addresses@) == views(self.gateway_addresses@),
            opt_view(c.ca_cert_path) == opt_view(self.ca_cert_path),
            opt_view(c.device_id) == Some(identity.device_id@),
            opt_view(c.device_name) == opt_view(identity.device_name),
            opt_view(c.app) == Some(identity.app@),
            c.sdk is None,
    {
        ClientSettings {
            publisher_id: self.publisher_id.clone(),
            gateway_addresses: clone_strings(&self.gateway_addresses),
            ca_cert_path: clone_opt_string(&self.ca_cert_path),
            device_id: Some(identity.device_id.clone()),
            device_name: clone_opt_string(&identity.device_name),
            sdk: None,
            app: Some(identity.app.clone()),
        }
    }
}

/// The settings a `meerkly_sdk::ClientConfig` is built from. A CA path pins
/// that CA (a development gateway); no path verifies against the public roots.
#[derive(Debug, Clone)]
pub struct ClientSettings {
    pub publisher_id: String,
    pub gateway_addresses: Vec<String>,
    pub ca_cert_path: Option<String>,
    pub device_id: Option<String>,
    pub device_name: Option<String>,
    pub sdk: Option<String>,
    pub app: Option<String>,
}

// ---- messages --------------------------------------------------------------

pub open spec fn invalid_id_message(candidate: Seq<char>) -> Seq<char> {
    str_debug(candidate)
        + " is not a publisher id \u{2014} expected a `pub_` prefix followed by letters and digits, as shown on https://dashboard.meerkly.com"@
}

pub open spec fn missing_id_message(source: Seq<char>) -> Seq<char> {
    "no publisher id configured.\n\n  Set one up with:\n    meerkly init\n\n  Create a publisher id at https://dashboard.meerkly.com \u{2014} it is a public identifier, not a secret.\n  Config file: "@
        + source
}

pub open spec fn unknown_key_message(key: Seq<char>) -> Seq<char> {
    "unknown configuration key "@ + str_debug(key)
        + " \u{2014} expected one of: publisher-id, gateway-addresses, ca-cert-path, log"@
}

impl ConfigError {
    /// What the user is told.
    pub fn message(&self) -> (m: String)
        ensures
            self matches ConfigError::InvalidPublisherId { candidate } ==> m@ == invalid_id_message(candidate@),
            self matches ConfigError::MissingPublisherId { source } ==> m@ == missing_id_message(source@),
            self matches ConfigError::UnknownKey { key } ==> m@ == unknown_key_message(key@),
    {
        match self {
            ConfigError::InvalidPublisherId { candidate } => {
                debug_quoted(candidate.as_str()).concat(
                    " is not a publisher id \u{2014} expected a `pub_` prefix followed by letters and digits, as shown on https://dashboard.meerkly.com",
                )
            },
            ConfigError::MissingPublisherId { source } => {
                String::from_str(
                    "no publisher id configured.\n\n  Set one up with:\n    meerkly init\n\n  Create a publisher id at https://dashboard.meerkly.com \u{2014} it is a public identifier, not a secret.\n  Config file: ",
                ).concat(source.as_str())
            },
            ConfigError::UnknownKey { key } => {
                String::from_str("unknown configuration key ").concat(
                    debug_quoted(key.as_str()).as_str(),
                ).concat(" \u{2014} expected one of: publisher-id, gateway-addresses, ca-cert-path, log")
            },
        }
    }
}

/// A saved configuration file: the header, then the serialised settings.
pub fn config_file_text(body: &str) -> (text: String)
    ensures
        text@ == HEADER@ + body@,
{
    String::from_str(HEADER).concat(body)
}

} // verus!
