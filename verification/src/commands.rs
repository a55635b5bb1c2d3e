//! The decisions behind the command surface: which configuration key a name
//! means, what reading and writing one does, and what a command reports.

use vstd::prelude::*;
use crate::config::{
    addresses_of, is_address, is_publisher_id, lemma_addresses_are_clean, lemma_addresses_round_trip,
    lemma_publisher_id_is_trimmed, split_addresses, validate_publisher_id, Config, ConfigError,
    ConfigView,
};
use crate::text::{
    ascii_lower, chars_equal, chars_of, clone_opt_string, join_strings, join_with, opt_view,
    string_of, to_ascii_lower, trim, trim_chars, lemma_trim, lemma_trim_fixed, lemma_trim_idempotent,
};

verus! {

/// The four settings of the configuration file.
#[derive(Debug, Clone, Copy, PartialEq, Eq, Structural)]
pub enum ConfigKey {
    PublisherId,
    GatewayAddresses,
    CaCertPath,
    Log,
}

pub open spec fn normalise_char(c: char) -> char {
    ascii_lower(if c == '-' { '_' } else { c })
}

/// `publisher-id` and `publisher_id` are the same key — the CLI reads better
/// with dashes, TOML with underscores: trimmed, dashes made underscores, ASCII
/// lowercased.
pub open spec fn normalise_spec(key: Seq<char>) -> Seq<char> {
    trim(key).map_values(|c: char| normalise_char(c))
}

pub fn normalise(key: &str) -> (r: String)
    ensures
        r@ == normalise_spec(key@),
{
    let all = chars_of(key);
    let t = trim_chars(all.as_slice());
    let mut v: Vec<char> = Vec::new();
    let n = t.len();
    for i in 0..n
        invariant
            n == t@.len(),
            v@ == t@.take(i as int).map_values(|c: char| normalise_char(c)),
    {
        let c = t[i];
        let d = if c == '-' { '_' } else { c };
        v.push(to_ascii_lower(d));
        assert(v@ =~= t@.take(i + 1).map_values(|c: char| normalise_char(c)));
    }
    assert(t@.take(n as int) == t@);
    string_of(v.as_slice())
}

/// The key a normalised name denotes, if any.
pub open spec fn key_of(name: Seq<char>) -> Option<ConfigKey> {
    if name == "publisher_id"@ {
        Some(ConfigKey::PublisherId)
    } else if name == "gateway_addresses"@ {
        Some(ConfigKey::GatewayAddresses)
    } else if name == "ca_cert_path"@ {
        Some(ConfigKey::CaCertPath)
    } else if name == "log"@ {
        Some(ConfigKey::Log)
    } else {
        None
    }
}

pub fn parse_key(name: &[char]) -> (k: Option<ConfigKey>)
    ensures
        k == key_of(name@),
{
    let publisher_id = chars_of("publisher_id");
    let gateway_addresses = chars_of("gateway_addresses");
    let ca_cert_path = chars_of("ca_cert_path");
    let log = chars_of("log");
    if chars_equal(name, publisher_id.as_slice()) {
        Some(ConfigKey::PublisherId)
    } else if chars_equal(name, gateway_addresses.as_slice()) {
        Some(ConfigKey::GatewayAddresses)
    } else if chars_equal(name, ca_cert_path.as_slice()) {
        Some(ConfigKey::CaCertPath)
    } else if chars_equal(name, log.as_slice()) {
        Some(ConfigKey::Log)
    } else {
        None
    }
}

/// What `config get` prints for a key: the stored value, gateways joined by
/// commas.
pub open spec fn stored(c: ConfigView, k: ConfigKey) -> Option<Seq<char>> {
    match k {
        ConfigKey::PublisherId => c.publisher_id,
        ConfigKey::GatewayAddresses => match c.gateway_addresses {
            Some(g) => Some(join_with(g, ","@)),
            None => None,
        },
        ConfigKey::CaCertPath => c.ca_cert_path,
        ConfigKey::Log => c.log,
    }
}

pub fn get_key(config: &Config, key: &str) -> (r: Result<Option<String>, ConfigError>)
    ensures
        match key_of(normalise_spec(key@)) {
            Some(k) => r matches Ok(v) && opt_view(v) == stored(config@, k),
            None => r matches Err(ConfigError::UnknownKey { key: name })
                && name@ == normalise_spec(key@),
        },
{
    let name = normalise(key);
    let chars = chars_of(name.as_str());
    match parse_key(chars.as_slice()) {
        Some(ConfigKey::PublisherId) => Ok(clone_opt_string(&config.publisher_id)),
        Some(ConfigKey::GatewayAddresses) => match &config.gateway_addresses {
            Some(g) => Ok(Some(join_strings(g, ","))),
            None => Ok(None),
        },
        Some(ConfigKey::CaCertPath) => Ok(clone_opt_string(&config.ca_cert_path)),
        Some(ConfigKey::Log) => Ok(clone_opt_string(&config.log)),
        None => Err(ConfigError::UnknownKey { key: name }),
    }
}

pub open spec fn opt_str(o: Option<&str>) -> Option<Seq<char>> {
    match o {
        Some(s) => Some(s@),
        None => None,
    }
}

/// A value trimmed, when there is one.
pub open spec fn trimmed(value: Option<Seq<char>>) -> Option<Seq<char>> {
    match value {
        Some(v) => Some(trim(v)),
        None => None,
    }
}

fn trimmed_string(v: &str) -> (r: String)
    ensures
        r@ == trim(v@),
{
    let all = chars_of(v);
    let t = trim_chars(all.as_slice());
    string_of(t.as_slice())
}

/// The configuration after setting `k` to `value` (`None` unsets it), or
/// `None` where the value is refused: a publisher id that is not one.
pub open spec fn set_key_spec(c: ConfigView, k: ConfigKey, value: Option<Seq<char>>) -> Option<
    ConfigView,
> {
    match k {
        ConfigKey::PublisherId => match value {
            Some(v) => if is_publisher_id(trim(v)) {
                Some(ConfigView { publisher_id: Some(trim(v)), ..c })
            } else {
                None
            },
            None => Some(ConfigView { publisher_id: None, ..c }),
        },
        ConfigKey::GatewayAddresses => match value {
            Some(v) => if addresses_of(v).len() > 0 {
                Some(ConfigView { gateway_addresses: Some(addresses_of(v)), ..c })
            } else {
                Some(ConfigView { gateway_addresses: None, ..c })
            },
            None => Some(ConfigView { gateway_addresses: None, ..c }),
        },
        ConfigKey::CaCertPath => Some(ConfigView { ca_cert_path: trimmed(value), ..c }),
        ConfigKey::Log => Some(ConfigView { log: trimmed(value), ..c }),
    }
}

pub fn set_key(config: &mut Config, key: &str, value: Option<&str>) -> (r: Result<(), ConfigError>)
    ensures
        match key_of(normalise_spec(key@)) {
            Some(k) => match set_key_spec(old(config)@, k, opt_str(value)) {
                Some(c) => r is Ok && final(config)@ == c,
                None => final(config)@ == old(config)@ && value is Some && (r matches Err(
                    ConfigError::InvalidPublisherId { candidate },
                ) && candidate@ == trim(value->0@)),
            },
            None => final(config)@ == old(config)@ && (r matches Err(
                ConfigError::UnknownKey { key: name },
            ) && name@ == normalise_spec(key@)),
        },
{
    let name = normalise(key);
    let chars = chars_of(name.as_str());
    match parse_key(chars.as_slice()) {
        Some(ConfigKey::PublisherId) => {
            match value {
                Some(v) => match validate_publisher_id(v) {
                    Ok(id) => {
                        config.publisher_id = Some(id);
                    },
                    Err(e) => {
                        return Err(e);
                    },
                },
                None => {
                    config.publisher_id = None;
                },
            }
        },
        Some(ConfigKey::GatewayAddresses) => {
            match value {
                Some(v) => {
                    let addresses = split_addresses(v);
                    if addresses.len() > 0 {
                        config.gateway_addresses = Some(addresses);
                    } else {
                        config.gateway_addresses = None;
                    }
                },
                None => {
                    config.gateway_addresses = None;
                },
            }
        },
        Some(ConfigKey::CaCertPath) => {
            config.ca_cert_path = match value {
                Some(v) => Some(trimmed_string(v)),
                None => None,
            };
        },
        Some(ConfigKey::Log) => {
            config.log = match value {
                Some(v) => Some(trimmed_string(v)),
                None => None,
            };
        },
        None => {
            return Err(ConfigError::UnknownKey { key: name });
        },
    }
    Ok(())
}

/// What reading a key back gives once `value` was stored under it: a
/// publisher id, a CA path and a log filter trimmed, gateways split, trimmed
/// and joined by commas (none if no address is left).
pub open spec fn stored_after_set(k: ConfigKey, value: Option<Seq<char>>) -> Option<Seq<char>> {
    match value {
        None => None,
        Some(v) => match k {
            ConfigKey::PublisherId => Some(trim(v)),
            ConfigKey::GatewayAddresses => if addresses_of(v).len() > 0 {
                Some(join_with(addresses_of(v), ","@))
            } else {
                None
            },
            ConfigKey::CaCertPath => Some(trim(v)),
            ConfigKey::Log => Some(trim(v)),
        },
    }
}

/// A key that was set reads back as what was stored (`None` after an unset),
/// and every other key reads back as before.
pub proof fn lemma_set_then_get(c: ConfigView, k: ConfigKey, value: Option<Seq<char>>, other: ConfigKey)
    requires
        set_key_spec(c, k, value) is Some,
    ensures
        stored(set_key_spec(c, k, value)->0, k) == stored_after_set(k, value),
        other != k ==> stored(set_key_spec(c, k, value)->0, other) == stored(c, other),
{
}

/// Setting `gateway-addresses` never fails and stores the list itself: the
/// value split at commas, each address trimmed, none empty and none holding
/// a comma, in the order given; or no list at all when the value names no
/// address. The other settings stay as they were.
pub proof fn lemma_set_gateways_stores_the_list(c: ConfigView, v: Seq<char>)
    ensures
        set_key_spec(c, ConfigKey::GatewayAddresses, Some(v)) matches Some(n) && n.publisher_id
            == c.publisher_id && n.ca_cert_path == c.ca_cert_path && n.log == c.log,
        set_key_spec(c, ConfigKey::GatewayAddresses, Some(v)) matches Some(n) && match n.gateway_addresses {
            Some(g) => {
                &&& g == addresses_of(v)
                &&& g.len() > 0
                &&& forall|k: int| 0 <= k < g.len() ==> is_address(#[trigger] g[k])
            },
            None => addresses_of(v).len() == 0,
        },
{
    lemma_addresses_are_clean(v);
}

/// Unsetting never fails, and leaves the key unset.
pub proof fn lemma_unset_clears(c: ConfigView, k: ConfigKey)
    ensures
        set_key_spec(c, k, None) is Some,
        stored(set_key_spec(c, k, None)->0, k) is None,
{
}

/// `config set <key> <value>`: store the value, and say what was *stored*,
/// not what was typed.
pub fn config_set(config: &mut Config, key: &str, value: &str) -> (r: Result<String, ConfigError>)
    ensures
        match key_of(normalise_spec(key@)) {
            Some(k) => match set_key_spec(old(config)@, k, Some(value@)) {
                Some(c) => final(config)@ == c && (r matches Ok(echo) && echo@ == key@ + " = "@
                    + match stored(c, k) {
                    Some(s) => s,
                    None => Seq::<char>::empty(),
                }),
                None => final(config)@ == old(config)@ && (r matches Err(
                    ConfigError::InvalidPublisherId { candidate },
                ) && candidate@ == trim(value@)),
            },
            None => final(config)@ == old(config)@ && (r matches Err(
                ConfigError::UnknownKey { key: name },
            ) && name@ == normalise_spec(key@)),
        },
{
    match set_key(config, key, Some(value)) {
        Ok(()) => {},
        Err(e) => {
            return Err(e);
        },
    }
    let stored_value = match get_key(config, key) {
        Ok(v) => v,
        Err(e) => {
            return Err(e);
        },
    };
    let mut echo = String::from_str(key).concat(" = ");
    match stored_value {
        Some(s) => {
            echo = echo.concat(s.as_str());
        },
        None => {},
    }
    Ok(echo)
}

/// `config unset <key>`: remove the value, falling back to its default.
pub fn config_unset(config: &mut Config, key: &str) -> (r: Result<String, ConfigError>)
    ensures
        match key_of(normalise_spec(key@)) {
            Some(k) => r matches Ok(echo) && echo@ == key@ + " unset"@ && final(config)@
                == set_key_spec(old(config)@, k, None)->0,
            None => final(config)@ == old(config)@ && (r matches Err(
                ConfigError::UnknownKey { key: name },
            ) && name@ == normalise_spec(key@)),
        },
{
    match set_key(config, key, None) {
        Ok(()) => Ok(String::from_str(key).concat(" unset")),
        Err(e) => Err(e),
    }
}

/// What `config show` prints when there is no file yet.
pub fn missing_config_notice(path: &str) -> (text: String)
    ensures
        text@ == "# no configuration yet: "@ + path@ + "\n# create one with: meerkly init\n"@,
{
    String::from_str("# no configuration yet: ").concat(path).concat(
        "\n# create one with: meerkly init\n",
    )
}

/// Writing back what was read changes nothing: after a successful
/// `config set`, setting the key to what `config get` prints for it leaves the
/// configuration as it is.
pub proof fn lemma_write_back_changes_nothing(c: ConfigView, k: ConfigKey, value: Option<Seq<char>>)
    requires
        set_key_spec(c, k, value) is Some,
        stored(set_key_spec(c, k, value)->0, k) is Some,
    ensures
        set_key_spec(
            set_key_spec(c, k, value)->0,
            k,
            stored(set_key_spec(c, k, value)->0, k),
        ) == Some(set_key_spec(c, k, value)->0),
{
    let c2 = set_key_spec(c, k, value)->0;
    let out = stored(c2, k)->0;
    match k {
        ConfigKey::PublisherId => {
            lemma_publisher_id_is_trimmed(trim(value->0));
        },
        ConfigKey::GatewayAddresses => {
            reveal_strlit(",");
            assert(","@ == seq![',']);
            let v = value->0;
            lemma_addresses_are_clean(v);
            lemma_addresses_round_trip(addresses_of(v));
            assert(out == join_with(addresses_of(v), seq![',']));
        },
        ConfigKey::CaCertPath => {
            lemma_trim_idempotent(value->0);
        },
        ConfigKey::Log => {
            lemma_trim_idempotent(value->0);
        },
    }
}

/// Normalising a normalised key name changes nothing.
pub proof fn lemma_normalise_idempotent(key: Seq<char>)
    ensures
        normalise_spec(normalise_spec(key)) == normalise_spec(key),
{
    let t = trim(key);
    let n = normalise_spec(key);
    lemma_trim(key);
    if n.len() > 0 {
        assert(n[0] == normalise_char(t[0]));
        assert(n.last() == normalise_char(t.last()));
    }
    lemma_trim_fixed(n);
    assert(n.map_values(|c: char| normalise_char(c)) =~= n) by {
        assert forall|i: int| 0 <= i < n.len() implies #[trigger] normalise_char(n[i]) == n[i] by {
            let c = t[i];
            assert(n[i] == normalise_char(c));
        }
    }
}

} // verus!
