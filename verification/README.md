# ntfy_bridge

A bridge that forwards Netdata webhooks to ntfy topics: a library with
proved contracts (`src/`) and a small server around it (`app/`).

`src/` holds the logic, each function with its contract:

- `cli` reads the command line and the environment into a `Config`: the
  options, their environment variables and defaults, the check of the ntfy
  URL, and the rules that tie the ntfy credentials together.
- `config` holds the configuration, the credentials it selects, and how it is
  shown with its secrets masked.
- `url_check` checks the ntfy server URL on top of the `url` crate's parser.
- `netdata` models the webhook payloads and reads status and severity names
  without regard to letter case.
- `notification` turns a payload into the notification to publish.
- `routes` gives the paths and fixed header values the server uses.
- `ntfy_client` holds what is needed to reach the ntfy server.

`app/` reads the process's arguments and environment, parses JSON bodies,
serves HTTP with axum and publishes with the ntfy crate.
