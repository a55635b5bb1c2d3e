use meerkly::config::{
    config_file_text, env_setting, split_addresses, validate_publisher_id, ClientSettings, Config,
    ConfigError, Environment, Resolved, ENV_GATEWAY_ADDRESSES, ENV_PUBLISHER_ID,
};
use meerkly::device::DeviceIdentity;

fn no_environment() -> Environment {
    Environment { publisher_id: None, gateway_addresses: None, ca_cert_path: None }
}

fn test_identity() -> DeviceIdentity {
    DeviceIdentity {
        device_id: "dev_test".into(),
        device_name: None,
        app: "meerkly-agent/test".into(),
    }
}

/// How a program hands the SDK its settings.
fn sdk_ca_cert(settings: &ClientSettings) -> meerkly_sdk::CaCert {
    meerkly_sdk::CaCert::from_opts(None, settings.ca_cert_path.clone())
}

#[test]
fn the_client_config_carries_the_device_identity() {
    let resolved = Resolved {
        publisher_id: "pub_abc".into(),
        gateway_addresses: vec!["127.0.0.1:4443".into()],
        ca_cert_path: None,
        log: None,
        source: "/nowhere/config.toml".into(),
    };
    let identity = DeviceIdentity {
        device_id: "dev_1".into(),
        device_name: Some("prod-fra-01".into()),
        app: "meerkly-agent/9.9.9".into(),
    };

    let config = resolved.to_client_config(&identity);

    assert_eq!(config.device_id.as_deref(), Some("dev_1"));
    assert_eq!(config.device_name.as_deref(), Some("prod-fra-01"));
    assert_eq!(config.app.as_deref(), Some("meerkly-agent/9.9.9"));
    assert!(config.sdk.is_none());
    assert_eq!(config.publisher_id, "pub_abc");
}

#[test]
fn publisher_ids_are_trimmed_and_prefix_checked() {
    assert_eq!(validate_publisher_id("  pub_ABC123  ").unwrap(), "pub_ABC123");
    for bad in ["", "pub_", "nope", "PUB_ABC", "pub-ABC", "pub_ABC!", "pub_AB C"] {
        assert!(validate_publisher_id(bad).is_err(), "{bad:?} should be rejected");
    }
}

#[test]
fn publisher_ids_are_not_length_checked() {
    assert!(validate_publisher_id("pub_a").is_ok());
    assert!(validate_publisher_id(&format!("pub_{}", "a".repeat(64))).is_ok());
}

#[test]
fn addresses_are_split_trimmed_and_compacted() {
    assert_eq!(split_addresses(" a:1 , b:2 ,, "), vec!["a:1".to_owned(), "b:2".to_owned()]);
    assert!(split_addresses("  ,  ").is_empty());
}

#[test]
fn an_unset_gateway_falls_back_to_the_production_default() {
    let resolved = Resolved::from_parts(
        Config { publisher_id: Some("pub_ABC123".to_owned()), ..Config::default() },
        "/tmp/config.toml".into(),
        no_environment(),
    )
    .unwrap();
    assert_eq!(resolved.gateway_addresses, vec!["gw.meerkly.com:4443"]);
    // No pinned CA means the production path: verify against public roots.
    assert!(sdk_ca_cert(&resolved.to_client_config(&test_identity())).is_public_roots());
}

#[test]
fn a_missing_publisher_id_explains_how_to_set_one() {
    let error =
        Resolved::from_parts(Config::default(), "/tmp/config.toml".into(), no_environment())
            .unwrap_err()
            .message();
    assert!(error.contains("meerkly init"), "{error}");
}

#[test]
fn the_environment_overrides_the_file() {
    let file = Config {
        publisher_id: Some("pub_FROMFILE".to_owned()),
        gateway_addresses: Some(vec!["file:1".to_owned()]),
        ..Config::default()
    };
    let lookup = |key: &str| match key {
        ENV_PUBLISHER_ID => Some("pub_FROMENV".to_owned()),
        ENV_GATEWAY_ADDRESSES => Some("env:2, env:3".to_owned()),
        _ => None,
    };
    let env = Environment {
        publisher_id: lookup(ENV_PUBLISHER_ID),
        gateway_addresses: lookup(ENV_GATEWAY_ADDRESSES),
        ca_cert_path: lookup(meerkly::config::ENV_CA_CERT_PATH),
    };
    let resolved = Resolved::from_parts(file, "/tmp/config.toml".into(), env).unwrap();
    assert_eq!(resolved.publisher_id, "pub_FROMENV");
    assert_eq!(resolved.gateway_addresses, vec!["env:2", "env:3"]);
}

// ---- further cases ---------------------------------------------------------

#[test]
fn the_file_beats_the_default_and_the_environment_beats_the_file_for_the_ca() {
    let file = Config {
        publisher_id: Some(" pub_X1 ".to_owned()),
        ca_cert_path: Some("/file/ca.crt".to_owned()),
        log: Some("debug".to_owned()),
        ..Config::default()
    };
    let resolved =
        Resolved::from_parts(file.clone(), "/c.toml".into(), no_environment()).unwrap();
    assert_eq!(resolved.publisher_id, "pub_X1");
    assert_eq!(resolved.ca_cert_path.as_deref(), Some("/file/ca.crt"));
    assert_eq!(resolved.log.as_deref(), Some("debug"));
    assert_eq!(resolved.source, "/c.toml");

    let env = Environment {
        publisher_id: None,
        gateway_addresses: None,
        ca_cert_path: Some("/env/ca.crt".to_owned()),
    };
    let resolved = Resolved::from_parts(file, "/c.toml".into(), env).unwrap();
    assert_eq!(resolved.ca_cert_path.as_deref(), Some("/env/ca.crt"));
    assert!(!sdk_ca_cert(&resolved.to_client_config(&test_identity())).is_public_roots());
}

#[test]
fn an_invalid_publisher_id_is_reported_trimmed() {
    let error = Resolved::from_parts(
        Config { publisher_id: Some("  nope ".to_owned()), ..Config::default() },
        "/c.toml".into(),
        no_environment(),
    )
    .unwrap_err();
    assert_eq!(error, ConfigError::InvalidPublisherId { candidate: "nope".to_owned() });
    let message = error.message();
    assert!(message.starts_with("\"nope\" is not a publisher id"), "{message}");
}

#[test]
fn a_missing_id_names_the_config_file() {
    let error =
        Resolved::from_parts(Config::default(), "/etc/x.toml".into(), no_environment())
            .unwrap_err();
    assert_eq!(error, ConfigError::MissingPublisherId { source: "/etc/x.toml".to_owned() });
    assert!(error.message().ends_with("Config file: /etc/x.toml"));
}

#[test]
fn an_empty_environment_gateway_list_is_kept_empty() {
    let env = Environment {
        publisher_id: None,
        gateway_addresses: Some(" , ".to_owned()),
        ca_cert_path: None,
    };
    let resolved = Resolved::from_parts(
        Config { publisher_id: Some("pub_a".to_owned()), ..Config::default() },
        "/c.toml".into(),
        env,
    )
    .unwrap();
    assert!(resolved.gateway_addresses.is_empty());
}

#[test]
fn environment_values_are_trimmed_and_blank_ones_ignored() {
    assert_eq!(env_setting(Some("  pub_a \n".to_owned())).as_deref(), Some("pub_a"));
    assert_eq!(env_setting(Some(" \t ".to_owned())), None);
    assert_eq!(env_setting(None), None);
}

#[test]
fn white_space_beyond_ascii_is_trimmed_like_str_trim() {
    let raw = "\u{3000}\u{a0}pub_Z9\u{2003}\u{85}";
    assert_eq!(validate_publisher_id(raw).unwrap(), raw.trim());
    assert_eq!(split_addresses("\u{2028}x:1\u{205f},y:2"), vec!["x:1", "y:2"]);
}

#[test]
fn a_saved_file_starts_with_the_header() {
    let text = config_file_text("publisher_id = \"pub_a\"\n");
    assert!(text.starts_with("# meerkly agent configuration."));
    assert!(text.ends_with("\n\npublisher_id = \"pub_a\"\n"));
}

#[test]
fn non_ascii_letters_are_not_publisher_id_characters() {
    assert!(validate_publisher_id("pub_é").is_err());
    assert!(validate_publisher_id("pub_0").is_ok());
}

#[test]
fn run_flags_beat_the_environment_and_the_file() {
    let file = Config {
        publisher_id: Some("pub_FILE".to_owned()),
        gateway_addresses: Some(vec!["file:1".to_owned()]),
        ..Config::default()
    };
    let env = Environment {
        publisher_id: Some("pub_ENV".to_owned()),
        gateway_addresses: Some("env:2".to_owned()),
        ca_cert_path: Some("/env/ca.crt".to_owned()),
    };
    let resolved = Resolved::for_run(
        file.clone(),
        "/c.toml".into(),
        env.clone(),
        Some(" pub_CLI ".to_owned()),
        Some("cli:3, ,cli:4".to_owned()),
    )
    .unwrap();
    assert_eq!(resolved.publisher_id, "pub_CLI");
    assert_eq!(resolved.gateway_addresses, vec!["cli:3", "cli:4"]);
    assert_eq!(resolved.ca_cert_path.as_deref(), Some("/env/ca.crt"));

    // Without flags the environment still beats the file.
    let resolved = Resolved::for_run(file.clone(), "/c.toml".into(), env.clone(), None, None)
        .unwrap();
    assert_eq!(resolved.publisher_id, "pub_ENV");
    assert_eq!(resolved.gateway_addresses, vec!["env:2"]);

    // An invalid flag is refused even when the environment holds a valid id.
    let error = Resolved::for_run(file, "/c.toml".into(), env, Some("bad".to_owned()), None)
        .unwrap_err();
    assert_eq!(error, ConfigError::InvalidPublisherId { candidate: "bad".to_owned() });
}

#[test]
fn a_gateway_flag_naming_nothing_leaves_the_list_empty() {
    let resolved = Resolved::for_run(
        Config { publisher_id: Some("pub_a".to_owned()), ..Config::default() },
        "/c.toml".into(),
        no_environment(),
        None,
        Some(" , ".to_owned()),
    )
    .unwrap();
    assert!(resolved.gateway_addresses.is_empty());
}
