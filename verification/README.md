# d1v_cli

The logic of the `d1v` command-line client of the D1V platform, written in
Verus. The public functions of `src/` state what they return in contracts
that Verus proves; spec functions and lemmas define and relate the models
those contracts speak of.

## Layout

- `src/` — the verified library.
  - `text/`, `view.rs`, `theme.rs`, `output.rs` — styled text, fields, tables
    and the views the commands print; output formats and status lines.
  - `config/`, `base_url.rs`, `cli.rs`, `failure.rs` — configuration keys and
    values, where the API address comes from, the decisions made before a
    command runs, exit statuses.
  - `auth.rs`, `api_key.rs`, `debug.rs`, `session.rs` — sign-in flows, token
    information and their views.
  - `project.rs`, `deploy.rs`, `quick_deploy.rs`, `db.rs`, `env/`, `github.rs`
    — projects, deployments and their waits, `.env` handling, database and
    GitHub views.
  - `agent.rs`, `launch.rs`, `customer.rs`, `relay.rs`, `expose.rs`,
    `runtime_install.rs`, `skill.rs` — the local device agent: its
    configuration, starting the runtime, the relay, its HTTP requests and
    their responses, its tunnels, exposing ports, installing the runtime
    and the agent instructions.
  - `node/` — the runtime node: Docker output (including the JSON that
    `docker inspect` prints), status, images, start and upgrade plans,
    reverse-proxy ingress detection and configuration.
  - `shell/` — the remote terminal protocol and session.
  - `banner.rs` — the banner's text; `i18n.rs` — choosing the locale.
  - `strs.rs` — character-sequence helpers shared by all of the above.
- `tests/` — tests of the library on concrete values.
- `app/` — the `d1v` program around the library: command-line parsing,
  files, Docker and terminal output.

Outside crates are reached only through small trusted functions whose
contracts name what they compute (JSON string literals, parsed and
re-serialised JSON documents, base64, URL parsing, language tags, SHA-256, display widths,
ANSI escapes and stripping, semantic version comparison, random bytes).
