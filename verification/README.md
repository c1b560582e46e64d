# frp

A small TCP reverse tunnel. The server listens for visitors and for one
"master" client; for each visitor it asks the master, over a JSON-lines
control connection, to open a worker connection back to it, and relays the
visitor over that worker to a service next to the client.

- `src/` is the verified library (Verus): addresses and durations, the
  control messages and their framing, the client session, the server's
  admission and routing decisions, the worker port range, and the relay and
  idle-watchdog steps, each with its contract and the laws that tie them
  together.
- `app/` is the unverified program around it: sockets, tasks and timers
  (tokio), the JSON and TOML encodings (serde), the web front end (salvo).
  `app server`, `app client` and `app web` run the three roles.
- `tests/` runs the library on concrete values.
