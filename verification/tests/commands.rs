use meerkly::commands::{
    config_set, config_unset, get_key, missing_config_notice, normalise,
    set_key, ConfigKey, parse_key,
};
use meerkly::config::{Config, ConfigError};

fn sample() -> Config {
    Config {
        publisher_id: Some("pub_ABC123".to_owned()),
        gateway_addresses: Some(vec!["a:1".to_owned(), "b:2".to_owned()]),
        ca_cert_path: None,
        log: Some("debug".to_owned()),
    }
}

#[test]
fn dashes_underscores_and_case_name_the_same_key() {
    assert_eq!(normalise(" Publisher-ID "), "publisher_id");
    let chars: Vec<char> = normalise("gateway-addresses").chars().collect();
    assert_eq!(parse_key(&chars), Some(ConfigKey::GatewayAddresses));
    assert_eq!(parse_key(&['l', 'o', 'g']), Some(ConfigKey::Log));
    assert_eq!(parse_key(&['x']), None);
}

#[test]
fn get_prints_the_stored_value_and_joins_gateways() {
    let c = sample();
    assert_eq!(get_key(&c, "publisher-id").unwrap().as_deref(), Some("pub_ABC123"));
    assert_eq!(get_key(&c, "gateway_addresses").unwrap().as_deref(), Some("a:1,b:2"));
    assert_eq!(get_key(&c, "ca-cert-path").unwrap(), None);
    assert_eq!(get_key(&c, "LOG").unwrap().as_deref(), Some("debug"));
}

#[test]
fn an_unknown_key_is_named_in_the_error() {
    let error = get_key(&sample(), " Colour ").unwrap_err();
    assert_eq!(error, ConfigError::UnknownKey { key: "colour".to_owned() });
    assert_eq!(
        error.message(),
        "unknown configuration key \"colour\" \u{2014} expected one of: publisher-id, gateway-addresses, ca-cert-path, log"
    );
    let mut c = sample();
    assert!(set_key(&mut c, "colour", Some("red")).is_err());
    assert_eq!(c, sample());
}

#[test]
fn set_echoes_what_was_stored_not_what_was_typed() {
    let mut c = Config::default();
    assert_eq!(config_set(&mut c, "publisher-id", "  pub_New1 ").unwrap(), "publisher-id = pub_New1");
    assert_eq!(c.publisher_id.as_deref(), Some("pub_New1"));
    assert_eq!(
        config_set(&mut c, "gateway-addresses", " x:1 ,, y:2 ").unwrap(),
        "gateway-addresses = x:1,y:2"
    );
    assert_eq!(config_set(&mut c, "gateway-addresses", " , ").unwrap(), "gateway-addresses = ");
    assert_eq!(c.gateway_addresses, None);
    assert_eq!(config_set(&mut c, "log", " info ").unwrap(), "log = info");
    assert_eq!(c.log.as_deref(), Some("info"));
    assert_eq!(config_set(&mut c, "ca-cert-path", "\t/ca.pem \n").unwrap(), "ca-cert-path = /ca.pem");
    assert_eq!(c.ca_cert_path.as_deref(), Some("/ca.pem"));
}

#[test]
fn an_invalid_publisher_id_is_refused_and_nothing_changes() {
    let mut c = sample();
    let error = config_set(&mut c, "publisher_id", " nope ").unwrap_err();
    assert_eq!(error, ConfigError::InvalidPublisherId { candidate: "nope".to_owned() });
    assert_eq!(c, sample());
}

#[test]
fn unset_falls_back_to_the_default() {
    let mut c = sample();
    assert_eq!(config_unset(&mut c, "gateway-addresses").unwrap(), "gateway-addresses unset");
    assert_eq!(c.gateway_addresses, None);
    assert_eq!(c.publisher_id.as_deref(), Some("pub_ABC123"));
    assert!(config_unset(&mut c, "nope").is_err());
}

#[test]
fn show_without_a_file_says_how_to_make_one() {
    assert_eq!(
        missing_config_notice("/h/.config/meerkly/config.toml"),
        "# no configuration yet: /h/.config/meerkly/config.toml\n# create one with: meerkly init\n"
    );
}

#[test]
fn writing_back_what_was_read_changes_nothing() {
    let mut c = Config::default();
    config_set(&mut c, "gateway-addresses", " a:1 ,\tb:2,, c:3 ").unwrap();
    let printed = get_key(&c, "gateway-addresses").unwrap().unwrap();
    let before = c.clone();
    config_set(&mut c, "gateway-addresses", &printed).unwrap();
    assert_eq!(c, before);

    config_set(&mut c, "publisher-id", "\n pub_Q7 ").unwrap();
    let printed = get_key(&c, "publisher-id").unwrap().unwrap();
    let before = c.clone();
    config_set(&mut c, "publisher-id", &printed).unwrap();
    assert_eq!(c, before);
}

#[test]
fn normalising_twice_is_normalising_once() {
    for key in ["  Gateway-Addresses ", "CA_CERT-path", "log", "x-Y-z"] {
        let once = normalise(key);
        assert_eq!(normalise(&once), once);
    }
}

#[test]
fn setting_one_key_leaves_the_others() {
    let mut c = sample();
    config_set(&mut c, "ca-cert-path", "/ca.pem").unwrap();
    assert_eq!(c.publisher_id, sample().publisher_id);
    assert_eq!(c.gateway_addresses, sample().gateway_addresses);
    assert_eq!(c.log, sample().log);
}
