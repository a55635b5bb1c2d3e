use meerkly::service::{after_write_action, command_failure, launchd, systemd, windows};
use meerkly::service::{AfterWrite, ServiceError, ServiceState};

#[test]
fn states_have_their_names() {
    assert_eq!(ServiceState::Running.as_str(), "running");
    assert_eq!(ServiceState::Stopped.as_str(), "stopped");
    assert_eq!(ServiceState::NotInstalled.as_str(), "not-installed");
    assert_eq!(ServiceState::Unknown.as_str(), "unknown");
}

#[test]
fn a_change_restarts_only_a_running_service_and_only_when_asked() {
    assert_eq!(after_write_action(ServiceState::Running, true), AfterWrite::Restart);
    assert_eq!(after_write_action(ServiceState::Running, false), AfterWrite::SuggestRestart);
    assert_eq!(after_write_action(ServiceState::Stopped, true), AfterWrite::Nothing);
    assert_eq!(after_write_action(ServiceState::NotInstalled, false), AfterWrite::Nothing);
}

#[test]
fn a_failed_command_reports_stderr_else_stdout() {
    let args = vec!["start".to_owned(), "meerkly.service".to_owned()];
    assert_eq!(
        command_failure("systemctl", &args, "out", "  Unit not found.\n"),
        "systemctl start meerkly.service failed: Unit not found."
    );
    assert_eq!(
        command_failure("systemctl", &args, " from stdout \n", " \n"),
        "systemctl start meerkly.service failed: from stdout"
    );
}

#[test]
fn user_is_not_an_option_on_macos_or_windows() {
    let e = launchd::Manager::for_user("bob").unwrap_err();
    assert_eq!(e, ServiceError::UserNotApplicable { windows: false });
    assert!(e.message().starts_with("--user does not apply on macOS"));
    let e = windows::Manager::for_user("bob").unwrap_err();
    assert!(e.message().starts_with("--user does not apply on Windows"));
}

#[test]
fn the_systemd_unit_lives_in_etc() {
    assert_eq!(systemd::Manager::new().unit_path, "/etc/systemd/system/meerkly.service");
    assert_eq!(systemd::Manager::default().unit_path, "/etc/systemd/system/meerkly.service");
    assert_eq!(systemd::Manager::new().user, None);
    let m = systemd::Manager::for_user("bob");
    assert_eq!(m.unit_path, "/etc/systemd/system/meerkly.service");
    assert_eq!(m.user.as_deref(), Some("bob"));
}

#[test]
fn the_service_runs_as_the_human_behind_sudo() {
    let s = |v: &str| Some(v.to_owned());
    let m = systemd::Manager::new();
    assert_eq!(m.target_user(s("rasmus"), s("root")).unwrap(), "rasmus");
    assert_eq!(m.target_user(s("root"), s("alice")).unwrap(), "alice");
    assert_eq!(m.target_user(s(""), s("alice")).unwrap(), "alice");
    assert_eq!(m.target_user(None, s("")), Err(ServiceError::NoTargetUser));
    assert_eq!(m.target_user(None, None), Err(ServiceError::NoTargetUser));
    assert!(ServiceError::NoTargetUser.message().contains("--user <name>"));
}

#[test]
fn a_named_user_wins_over_sudo_and_user() {
    let s = |v: &str| Some(v.to_owned());
    let m = systemd::Manager::for_user("bob");
    assert_eq!(m.target_user(s("alice"), s("root")).unwrap(), "bob");
    assert_eq!(m.target_user(None, None).unwrap(), "bob");
}

#[test]
fn the_unit_runs_the_binary_as_the_user_with_their_home() {
    let text = systemd::Manager::unit_text("rasmus", "/home/rasmus", "/usr/bin/meerkly");
    assert!(text.starts_with("# Managed by meerkly."));
    assert!(text.contains("\nUser=rasmus\n"));
    assert!(text.contains("\nEnvironment=HOME=/home/rasmus\n"));
    assert!(text.contains("\nExecStart=/usr/bin/meerkly run\n"));
    assert!(text.contains(
        "\nReadWritePaths=/home/rasmus/.config/meerkly /home/rasmus/.local/state/meerkly\n"
    ));
    assert!(text.ends_with("[Install]\nWantedBy=multi-user.target\n"));
    assert_eq!(
        systemd::Manager::writable_dirs("/home/rasmus"),
        vec!["/home/rasmus/.config/meerkly", "/home/rasmus/.local/state/meerkly"]
    );
}

#[test]
fn systemd_state_follows_is_active() {
    assert_eq!(systemd::Manager::state_from(false, Some("active\n".into())), ServiceState::NotInstalled);
    assert_eq!(systemd::Manager::state_from(true, Some("active\n".into())), ServiceState::Running);
    assert_eq!(systemd::Manager::state_from(true, Some("inactive\n".into())), ServiceState::Stopped);
    assert_eq!(systemd::Manager::state_from(true, None), ServiceState::Stopped);
}

#[test]
fn the_launch_agent_lives_in_the_users_library() {
    assert_eq!(
        launchd::Manager::new(Some("/Users/r".into())).plist_path,
        "/Users/r/Library/LaunchAgents/com.meerkly.agent.plist"
    );
    assert_eq!(
        launchd::Manager::new(None).plist_path,
        "/tmp/Library/LaunchAgents/com.meerkly.agent.plist"
    );
}

#[test]
fn the_plist_runs_the_binary_and_logs_to_the_state_dir() {
    let text = launchd::Manager::plist_text("/opt/meerkly", "/Users/r/Library/Application Support/meerkly");
    assert!(text.starts_with("<?xml version=\"1.0\" encoding=\"UTF-8\"?>\n"));
    assert!(text.contains("<string>/opt/meerkly</string>\n    <string>run</string>"));
    assert!(text.contains(
        "<key>StandardErrorPath</key><string>/Users/r/Library/Application Support/meerkly/meerkly.log</string>"
    ));
    assert!(text.ends_with("</dict>\n</plist>\n"));
}

#[test]
fn launchctl_list_tells_running_from_loaded() {
    let list = "PID\tStatus\tLabel\n123\t0\tcom.meerkly.agent\r\n-\t0\tcom.other\n";
    assert_eq!(launchd::Manager::state_from(true, Some(list.into())), ServiceState::Running);
    let idle = "PID\tStatus\tLabel\n-\t0\tcom.meerkly.agent\n";
    assert_eq!(launchd::Manager::state_from(true, Some(idle.into())), ServiceState::Stopped);
    let absent = "PID\tStatus\tLabel\n1\t0\tcom.apple.x\n";
    assert_eq!(launchd::Manager::state_from(true, Some(absent.into())), ServiceState::Stopped);
    assert_eq!(launchd::Manager::state_from(true, None), ServiceState::Unknown);
    assert_eq!(launchd::Manager::state_from(false, Some(list.into())), ServiceState::NotInstalled);
    // The last line may end without a newline.
    assert_eq!(
        launchd::Manager::state_from(true, Some("  77 0 com.meerkly.agent".into())),
        ServiceState::Running
    );
}

#[test]
fn the_logon_task_runs_the_quoted_binary() {
    assert_eq!(
        windows::Manager::task_command("C:\\Program Files\\meerkly.exe"),
        "\"C:\\Program Files\\meerkly.exe\" run"
    );
    assert_eq!(windows::Manager::state_from(Some("Status: Running\n".into())), ServiceState::Running);
    assert_eq!(windows::Manager::state_from(Some("Status: Ready\n".into())), ServiceState::Stopped);
    assert_eq!(windows::Manager::state_from(None), ServiceState::NotInstalled);
}

#[test]
fn native_hints_name_the_platform_tools() {
    assert!(systemd::Manager::native_hint().starts_with("systemctl start|stop|status meerkly"));
    assert!(launchd::Manager::native_hint().starts_with("launchctl start|stop com.meerkly.agent"));
    assert!(windows::Manager::native_hint().starts_with("schtasks /Run /TN meerkly"));
}
