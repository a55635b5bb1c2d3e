//! The status file — the agent's answer to "how is it going?" without an IPC
//! channel. The running daemon publishes what it knows to a small JSON file
//! and `meerkly status` reads it back; this module decides what of it is
//! shown, and how.

use vstd::prelude::*;
use crate::service::{state_name, ServiceState};
use crate::text::{decimal_chars, decimal_digits, extend_chars, extend_str, opt_view, string_of};

verus! {

/// Where the connection to the gateway stands.
#[derive(Debug, Clone, Copy, PartialEq, Eq, Structural)]
pub enum ConnectionState {
    Idle,
    Connecting,
    Connected,
    Stopped,
}

/// The name a state is written under in the status file: lowercase.
pub open spec fn connection_name(s: ConnectionState) -> Seq<char> {
    match s {
        ConnectionState::Idle => "idle"@,
        ConnectionState::Connecting => "connecting"@,
        ConnectionState::Connected => "connected"@,
        ConnectionState::Stopped => "stopped"@,
    }
}

impl ConnectionState {
    pub fn as_str(self) -> (s: &'static str)
        ensures
            s@ == connection_name(self),
    {
        match self {
            ConnectionState::Idle => "idle",
            ConnectionState::Connecting => "connecting",
            ConnectionState::Connected => "connected",
            ConnectionState::Stopped => "stopped",
        }
    }
}

/// What the daemon publishes.
#[derive(Debug, Clone, PartialEq)]
pub struct Status {
    pub state: ConnectionState,
    pub publisher_id: String,
    /// This machine's persistent id — the row it appears as in the dashboard.
    pub device_id: String,
    /// The gateway currently serving this node.
    pub gateway_id: Option<String>,
    /// The identity the gateway assigned to *this connection*: ephemeral,
    /// every reconnect yields a new one.
    pub client_key: Option<String>,
    /// Seconds the daemon has been running — not seconds connected.
    pub uptime_seconds: u64,
    /// Why the last connection attempt failed, if the agent is not connected.
    pub last_error: Option<String>,
    pub pid: u32,
    pub version: String,
}

/// The published status is only trustworthy alongside a live answer from the
/// service manager: a file left behind by a stopped agent is stale.
pub open spec fn shows_connection(service: ServiceState, published: Option<Status>) -> bool {
    published is Some && service != ServiceState::Stopped
}

pub fn connection_shown(service: ServiceState, published: &Option<Status>) -> (b: bool)
    ensures
        b == shows_connection(service, *published),
{
    published.is_some() && service != ServiceState::Stopped
}

/// A published status is shown under every service state but `Stopped`:
/// running, not installed (an agent started by hand with `meerkly run`, as
/// in a container) and unknown alike. Under `Stopped`, or with nothing
/// published, the report says the agent is not running.
pub proof fn lemma_connection_shown_unless_stopped(
    service: ServiceState,
    published: Option<Status>,
    config_path: Seq<char>,
)
    ensures
        service != ServiceState::Stopped ==> (published matches Some(s) ==> shows_connection(
            service,
            published,
        ) && status_report_spec(service, published, config_path) == "service:  "@ + state_name(
            service,
        ) + "\n"@ + connection_lines(s) + "config:   "@ + config_path + "\n"@),
        service == ServiceState::Stopped || published is None ==> !shows_connection(
            service,
            published,
        ) && status_report_spec(service, published, config_path) == "service:  "@ + state_name(
            service,
        ) + "\n"@ + "state:    not running\n"@ + "config:   "@ + config_path + "\n"@,
{
}

pub open spec fn optional_line(label: Seq<char>, value: Option<Seq<char>>) -> Seq<char> {
    match value {
        Some(v) => label + v + "\n"@,
        None => Seq::<char>::empty(),
    }
}

/// The lines `meerkly status` prints about a published connection.
pub open spec fn connection_lines(s: Status) -> Seq<char> {
    "state:    "@ + connection_name(s.state) + "\n"@ + "publisher: "@ + s.publisher_id@ + "\n"@
        + optional_line("gateway:  "@, opt_view(s.gateway_id)) + optional_line(
        "client:   "@,
        opt_view(s.client_key),
    ) + "uptime:   "@ + decimal_digits(s.uptime_seconds as nat) + "s\n"@ + optional_line(
        "error:    "@,
        opt_view(s.last_error),
    )
}

/// What `meerkly status` prints.
pub open spec fn status_report_spec(
    service: ServiceState,
    published: Option<Status>,
    config_path: Seq<char>,
) -> Seq<char> {
    "service:  "@ + state_name(service) + "\n"@ + (if shows_connection(service, published) {
        connection_lines(published->0)
    } else {
        "state:    not running\n"@
    }) + "config:   "@ + config_path + "\n"@
}

fn push_optional_line(out: &mut Vec<char>, label: &str, value: &Option<String>)
    ensures
        final(out)@ == old(out)@ + optional_line(label@, opt_view(*value)),
{
    match value {
        Some(v) => {
            extend_str(out, label);
            extend_str(out, v.as_str());
            extend_str(out, "\n");
        },
        None => {
            assert(old(out)@ + Seq::<char>::empty() == old(out)@);
        },
    }
}

pub fn status_report(service: ServiceState, published: &Option<Status>, config_path: &str) -> (text:
    String)
    ensures
        text@ == status_report_spec(service, *published, config_path@),
{
    let mut out: Vec<char> = Vec::new();
    extend_str(&mut out, "service:  ");
    extend_str(&mut out, service.as_str());
    extend_str(&mut out, "\n");
    let ghost head = out@;
    if connection_shown(service, published) {
        match published {
            Some(s) => {
                extend_str(&mut out, "state:    ");
                extend_str(&mut out, s.state.as_str());
                extend_str(&mut out, "\n");
                extend_str(&mut out, "publisher: ");
                extend_str(&mut out, s.publisher_id.as_str());
                extend_str(&mut out, "\n");
                push_optional_line(&mut out, "gateway:  ", &s.gateway_id);
                push_optional_line(&mut out, "client:   ", &s.client_key);
                extend_str(&mut out, "uptime:   ");
                let digits = decimal_chars(s.uptime_seconds);
                extend_chars(&mut out, digits.as_slice());
                extend_str(&mut out, "s\n");
                push_optional_line(&mut out, "error:    ", &s.last_error);
                assert(out@ =~= head + connection_lines(*s));
            },
            None => {},
        }
    } else {
        extend_str(&mut out, "state:    not running\n");
    }
    extend_str(&mut out, "config:   ");
    extend_str(&mut out, config_path);
    extend_str(&mut out, "\n");
    assert(out@ =~= status_report_spec(service, *published, config_path@));
    string_of(out.as_slice())
}

} // verus!
