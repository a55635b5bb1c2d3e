//! The command surface. Two audiences, one set of commands: a person at a
//! terminal, and the desktop app, which drives the agent entirely through
//! this CLI. The program parses its arguments into these.

use vstd::prelude::*;

verus! {

/// The parsed command line.
#[derive(Debug, Clone)]
pub struct Cli {
    pub command: Command,
}

#[derive(Debug, Clone)]
pub enum Command {
    /// Store a publisher id — given, or asked for — and install and start the
    /// service, unless told not to.
    Init { id: Option<String>, no_service: bool },
    /// Change which account earns what this machine shares.
    Login { id: Option<String> },
    /// Run in the foreground. This is what the service executes.
    Run {
        /// Use this publisher id instead of the configured one.
        publisher_id: Option<String>,
        /// Gateways to try, comma-separated `host:port`.
        gateway: Option<String>,
    },
    /// Install, remove or inspect the background service.
    Service(ServiceCommand),
    /// Start the background service.
    Start,
    /// Stop the background service.
    Stop,
    /// Restart the background service — how configuration changes take effect.
    Restart,
    /// Show whether the agent is running and connected.
    Status {
        /// Machine-readable output. This is the desktop app's interface.
        json: bool,
    },
    /// Read and write the configuration file.
    Config(ConfigCommand),
}

#[derive(Debug, Clone)]
pub enum ServiceCommand {
    /// Register the service and start it. Needs `sudo` on Linux.
    Install {
        /// Run the service as this user instead of the one invoking sudo.
        user: Option<String>,
    },
    /// Stop and deregister the service. Leaves the configuration in place.
    Uninstall,
}

#[derive(Debug, Clone)]
pub enum ConfigCommand {
    /// Set a value: `publisher-id`, `gateway-addresses`, `ca-cert-path`, `log`.
    SetValue { key: String, value: String, restart: bool },
    /// Print one value.
    Get { key: String },
    /// Print the whole configuration file.
    Show,
    /// Print the path to the configuration file.
    Path,
    /// Remove a value, falling back to its default.
    Unset { key: String, restart: bool },
}

} // verus!
