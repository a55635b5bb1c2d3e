use meerkly::paths::{
    adoption_chain, config_dir, config_file, device_id_file, home_dir, join, log_dir,
    parse_passwd_line, state_dir, status_file, sudo_user, Locations, PasswdEntry, PathError,
    Platform,
};

fn unix(platform: Platform, home: Option<&str>) -> Locations {
    Locations {
        platform,
        known: true,
        home: home.map(str::to_owned),
        app_data: None,
        local_app_data: None,
    }
}

#[test]
fn a_passwd_line_yields_uid_gid_and_home() {
    let e = parse_passwd_line("rasmus:x:1000:1000:Rasmus,,,:/home/rasmus:/bin/zsh\n").unwrap();
    assert_eq!(e, PasswdEntry { uid: 1000, gid: 1000, home: "/home/rasmus".into() });
}

#[test]
fn a_user_without_a_home_is_not_somewhere_to_put_a_config() {
    assert_eq!(parse_passwd_line("nobody:x:65534:65534:nobody::/usr/sbin/nologin"), None);
}

#[test]
fn junk_is_rejected_rather_than_guessed_at() {
    assert_eq!(parse_passwd_line(""), None);
    assert_eq!(parse_passwd_line("only:two"), None);
    assert_eq!(parse_passwd_line("u:x:notanumber:0::/home/u:/bin/sh"), None);
}

#[test]
fn passwd_numbers_parse_as_u32_does() {
    assert_eq!(parse_passwd_line("u:x:+7:4294967295::/h:/s").unwrap().uid, 7);
    assert_eq!(parse_passwd_line("u:x:+7:4294967295::/h:/s").unwrap().gid, 4294967295);
    assert_eq!(parse_passwd_line("u:x:4294967296:0::/h:/s"), None);
    assert_eq!(parse_passwd_line("u:x:-1:0::/h:/s"), None);
    assert_eq!(parse_passwd_line("u:x: 1:0::/h:/s"), None);
    assert_eq!(parse_passwd_line("u:x:+:0::/h:/s"), None);
    // A sixth field is enough; the shell may be missing.
    assert_eq!(parse_passwd_line("u:x:1:2::/h").unwrap().home, "/h");
}

#[test]
fn linux_keeps_config_and_state_under_home() {
    let loc = unix(Platform::Linux, Some("/home/r"));
    assert_eq!(config_dir(&loc).unwrap(), "/home/r/.config/meerkly");
    assert_eq!(config_file(None, &loc).unwrap(), "/home/r/.config/meerkly/config.toml");
    assert_eq!(state_dir(&loc).unwrap(), "/home/r/.local/state/meerkly");
    assert_eq!(status_file(&loc).unwrap(), "/home/r/.local/state/meerkly/status.json");
    assert_eq!(log_dir(&loc).unwrap(), "/home/r/.local/state/meerkly/logs");
    assert_eq!(device_id_file(&loc).unwrap(), "/home/r/.local/state/meerkly/device_id");
}

#[test]
fn macos_uses_xdg_config_but_application_support_for_state() {
    let loc = unix(Platform::MacOs, Some("/Users/r/"));
    assert_eq!(config_dir(&loc).unwrap(), "/Users/r/.config/meerkly");
    assert_eq!(state_dir(&loc).unwrap(), "/Users/r/Library/Application Support/meerkly");
}

#[test]
fn windows_uses_app_data() {
    let loc = Locations {
        platform: Platform::Windows,
        known: true,
        home: None,
        app_data: Some("C:\\Users\\r\\AppData\\Roaming".into()),
        local_app_data: Some("C:\\Users\\r\\AppData\\Local".into()),
    };
    assert_eq!(config_file(None, &loc).unwrap(), "C:\\Users\\r\\AppData\\Roaming\\meerkly\\config.toml");
    assert_eq!(state_dir(&loc).unwrap(), "C:\\Users\\r\\AppData\\Local\\meerkly\\meerkly\\data");
}

#[test]
fn the_environment_override_wins() {
    let loc = unix(Platform::Linux, None);
    assert_eq!(config_file(Some("/tmp/x.toml".into()), &loc).unwrap(), "/tmp/x.toml");
    assert_eq!(config_file(None, &loc), Err(PathError::NoHome));
}

#[test]
fn unknown_directories_are_reported() {
    let mut loc = unix(Platform::Linux, Some("/home/r"));
    loc.known = false;
    assert_eq!(config_dir(&loc), Err(PathError::NoProjectDirs));
    assert!(PathError::NoProjectDirs.message().contains("MEERKLY_CONFIG"));
    assert!(PathError::NoHome.message().contains("$HOME"));
}

#[test]
fn the_home_prefers_sudo_then_home_then_the_platform() {
    let s = |v: &str| Some(v.to_owned());
    assert_eq!(home_dir(s("/home/human"), s("/root"), s("/p")).unwrap(), "/home/human");
    assert_eq!(home_dir(None, s("/root"), s("/p")).unwrap(), "/root");
    assert_eq!(home_dir(None, s(""), s("/p")).unwrap(), "/p");
    assert_eq!(home_dir(None, None, None), Err(PathError::NoHome));
}

#[test]
fn only_a_named_non_root_user_behind_sudo_counts() {
    assert_eq!(sudo_user(0, Some("rasmus".into())).as_deref(), Some("rasmus"));
    assert_eq!(sudo_user(1000, Some("rasmus".into())), None);
    assert_eq!(sudo_user(0, Some("root".into())), None);
    assert_eq!(sudo_user(0, Some("".into())), None);
    assert_eq!(sudo_user(0, None), None);
}

#[test]
fn joining_adds_one_separator() {
    assert_eq!(join(Platform::Linux, "/a", "b"), "/a/b");
    assert_eq!(join(Platform::Linux, "/a/", "b"), "/a/b");
    assert_eq!(join(Platform::Linux, "", "b"), "b");
    assert_eq!(join(Platform::Windows, "C:\\a", "b"), "C:\\a\\b");
    assert_eq!(join(Platform::Windows, "C:/a/", "b"), "C:/a/b");
}

fn comps(v: &[&str]) -> Vec<String> {
    v.iter().map(|s| s.to_string()).collect()
}

#[test]
fn directories_below_home_are_handed_back_up_to_the_home() {
    let home = comps(&["/", "home", "r"]);
    let path = comps(&["/", "home", "r", ".config", "meerkly", "config.toml"]);
    // .../.config/meerkly (5 components), then .../.config (4); the home stops it.
    assert_eq!(adoption_chain(&path, &home), vec![5, 4]);
    let outside = comps(&["/", "etc", "x"]);
    assert!(adoption_chain(&outside, &home).is_empty());
    let similar = comps(&["/", "home", "rasmus", "f"]);
    assert!(adoption_chain(&similar, &home).is_empty());
}

#[test]
fn state_files_lie_outside_the_config_directory() {
    for platform in [Platform::Linux, Platform::MacOs] {
        for home in ["/home/r", "/home/r/", "/"] {
            let loc = unix(platform, Some(home));
            let config = config_dir(&loc).unwrap();
            for file in [status_file(&loc).unwrap(), device_id_file(&loc).unwrap(), log_dir(&loc).unwrap()] {
                assert!(!file.starts_with(&format!("{config}/")), "{file} is inside {config}");
                assert_eq!(std::path::Path::new(&file).parent().unwrap(), std::path::Path::new(&state_dir(&loc).unwrap()));
            }
        }
    }
}

#[test]
fn on_windows_state_lies_outside_config_when_the_folders_are_apart() {
    let loc = Locations {
        platform: Platform::Windows,
        known: true,
        home: None,
        app_data: Some("C:\\Users\\r\\AppData\\Roaming".into()),
        local_app_data: Some("C:\\Users\\r\\AppData\\Local".into()),
    };
    let config = config_dir(&loc).unwrap();
    for file in [status_file(&loc).unwrap(), device_id_file(&loc).unwrap()] {
        assert!(!file.starts_with(&format!("{config}\\")), "{file} is inside {config}");
    }
    // With one folder for both, the state directory does fall inside.
    let same = Locations { local_app_data: loc.app_data.clone(), ..loc };
    let config = config_dir(&same).unwrap();
    assert!(status_file(&same).unwrap().starts_with(&format!("{config}\\")));
}
