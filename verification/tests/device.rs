use meerkly::device::{
    app_identity, clean_hostname, device_id_from_hex, load_or_create, mint_device_id, persisted_text, DeviceIdentity,
    VERSION,
};

#[test]
fn a_fresh_state_dir_mints_a_dev_prefixed_id() {
    let choice = load_or_create(None);
    let id = choice.id;
    assert!(choice.minted, "nothing was stored, so the id must be new");
    assert!(id.starts_with("dev_"), "got {id}");
    assert!(id.len() > "dev_".len() + 20, "too short to be a uuid: {id}");
    assert_eq!(persisted_text(&id).trim(), id, "must be persisted");
}

#[test]
fn the_id_is_stable_across_restarts() {
    let first = load_or_create(None);
    let stored = persisted_text(&first.id);
    let second = load_or_create(Some(stored));
    assert!(!second.minted);
    assert_eq!(first.id, second.id);
}

#[test]
fn two_state_dirs_are_two_devices() {
    let ida = load_or_create(None).id;
    let idb = load_or_create(None).id;
    assert_ne!(ida, idb);
}

#[test]
fn a_corrupt_file_is_replaced_rather_than_fatal() {
    for junk in ["", "   \n", "not-a-device-id", "dev_", "dev_has spaces"] {
        let choice = load_or_create(Some(junk.to_owned()));
        assert!(choice.minted, "junk {junk:?} was kept");
        assert!(choice.id.starts_with("dev_"), "junk {junk:?} yielded {}", choice.id);
        assert!(!choice.id.contains(' '));
        assert_eq!(persisted_text(&choice.id).trim(), choice.id);
    }
}

#[test]
fn a_valid_id_with_surrounding_whitespace_is_kept_trimmed() {
    let choice =
        load_or_create(Some("  dev_0123456789abcdef0123456789abcdef  \n".to_owned()));
    assert!(!choice.minted);
    assert_eq!(choice.id, "dev_0123456789abcdef0123456789abcdef");
}

#[test]
fn a_minted_id_is_dev_and_thirty_two_lowercase_hex_digits() {
    let id = mint_device_id();
    assert_eq!(id.len(), 36);
    assert!(id[4..].chars().all(|c| c.is_ascii_digit() || ('a'..='f').contains(&c)), "{id}");
    // A version-4 UUID: version digit 4, variant digit 8, 9, a or b.
    assert_eq!(&id[16..17], "4", "{id}");
    assert!(["8", "9", "a", "b"].contains(&&id[20..21]), "{id}");
}

#[test]
fn the_stored_file_is_the_id_and_a_newline() {
    assert_eq!(persisted_text("dev_x"), "dev_x\n");
}

#[test]
fn any_id_without_white_space_is_kept() {
    let choice = load_or_create(Some("dev_ünïcode-ok".to_owned()));
    assert!(!choice.minted);
    assert_eq!(choice.id, "dev_ünïcode-ok");
    let choice = load_or_create(Some("dev_a\u{a0}b".to_owned()));
    assert!(choice.minted, "a no-break space is white space");
}

#[test]
fn the_app_identity_names_the_agent_and_its_version() {
    assert_eq!(app_identity(), format!("meerkly-agent/{VERSION}"));
    assert_eq!(app_identity(), "meerkly-agent/1.0.0");
}

#[test]
fn a_hostname_is_trimmed_and_a_blank_one_dropped() {
    assert_eq!(clean_hostname(Some(" prod-fra-01\n".to_owned())).as_deref(), Some("prod-fra-01"));
    assert_eq!(clean_hostname(Some("   ".to_owned())), None);
    assert_eq!(clean_hostname(None), None);
}

#[test]
fn the_identity_is_assembled_from_its_parts() {
    let identity = DeviceIdentity::load("dev_1".to_owned(), Some(" box ".to_owned()));
    assert_eq!(identity.device_id, "dev_1");
    assert_eq!(identity.device_name.as_deref(), Some("box"));
    assert_eq!(identity.app, app_identity());
}

#[test]
fn an_id_is_dev_and_the_uuid_digits() {
    let hex = "0123456789abcdef4123456789abcdef";
    assert_eq!(device_id_from_hex(hex), "dev_0123456789abcdef4123456789abcdef");
}
