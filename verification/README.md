# meerkly

The meerkly agent shares a machine's connection as a proxy exit node. This
crate holds its logic, verified with Verus; `app/` is the program around it.

- `src/` — the library, every function with a contract that Verus proves:
  - `config`: publisher ids, gateway lists, the layered resolution of a
    configuration (CLI flag → environment → file → SDK default).
  - `commands`: configuration keys and `config get`/`set`/`unset`.
  - `logging`: which `tracing` filter the daemon logs with.
  - `device`: the persistent device id and the identity sent to the gateway.
  - `paths`: where the configuration and state live on each platform, passwd
    lines, and which directories go back to the user behind `sudo`.
  - `run`: the daemon's decisions — connect with backoff, publish status,
    stop — as a state machine.
  - `status`: what `meerkly status` shows.
  - `service`: systemd, launchd and Scheduled Task definitions and how their
    managers' answers are read.
  - `text`: trimming, splitting, joining and number parsing over `char`s.
- `app/` — `main`, argument parsing, files, the environment, the SDK client,
  signals and the service managers' commands.
- `tests/` — tests of the library.
