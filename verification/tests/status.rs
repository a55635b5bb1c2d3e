use meerkly::service::ServiceState;
use meerkly::status::{connection_shown, status_report, ConnectionState, Status};

fn published() -> Status {
    Status {
        state: ConnectionState::Connected,
        publisher_id: "pub_a".into(),
        device_id: "dev_1".into(),
        gateway_id: Some("gw-1".into()),
        client_key: None,
        uptime_seconds: 3600,
        last_error: None,
        pid: 4211,
        version: "1.0.0".into(),
    }
}

#[test]
fn states_are_written_in_lowercase() {
    assert_eq!(ConnectionState::Idle.as_str(), "idle");
    assert_eq!(ConnectionState::Connecting.as_str(), "connecting");
    assert_eq!(ConnectionState::Connected.as_str(), "connected");
    assert_eq!(ConnectionState::Stopped.as_str(), "stopped");
}

#[test]
fn a_stopped_service_does_not_show_a_stale_connection() {
    assert!(!connection_shown(ServiceState::Stopped, &Some(published())));
    assert!(connection_shown(ServiceState::Running, &Some(published())));
    assert!(connection_shown(ServiceState::Unknown, &Some(published())));
    assert!(!connection_shown(ServiceState::Running, &None));
}

#[test]
fn the_report_lists_what_is_known() {
    assert_eq!(
        status_report(ServiceState::Running, &Some(published()), "/c.toml"),
        "service:  running\nstate:    connected\npublisher: pub_a\ngateway:  gw-1\nuptime:   3600s\nconfig:   /c.toml\n"
    );
    let mut s = published();
    s.state = ConnectionState::Connecting;
    s.gateway_id = None;
    s.client_key = Some("acct:1".into());
    s.uptime_seconds = 0;
    s.last_error = Some("timed out".into());
    assert_eq!(
        status_report(ServiceState::Unknown, &Some(s), "/c.toml"),
        "service:  unknown\nstate:    connecting\npublisher: pub_a\nclient:   acct:1\nuptime:   0s\nerror:    timed out\nconfig:   /c.toml\n"
    );
}

#[test]
fn without_a_live_connection_the_report_says_not_running() {
    assert_eq!(
        status_report(ServiceState::Stopped, &Some(published()), "/c.toml"),
        "service:  stopped\nstate:    not running\nconfig:   /c.toml\n"
    );
    assert_eq!(
        status_report(ServiceState::NotInstalled, &None, "/c.toml"),
        "service:  not-installed\nstate:    not running\nconfig:   /c.toml\n"
    );
}

#[test]
fn large_uptimes_are_printed_in_full() {
    let mut s = published();
    s.uptime_seconds = u64::MAX;
    let text = status_report(ServiceState::Running, &Some(s), "/c");
    assert!(text.contains("uptime:   18446744073709551615s\n"));
}
