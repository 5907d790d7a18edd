# Rust IRC

A small IRC server. The logic is a library whose behaviour is stated in
`requires` / `ensures` contracts and proved with Verus; a thin program
around it does the networking.

## Layout

- `src/` — the verified library
  - `client_listener.rs`: splitting received bytes into lines, and the
    ping/pong clock of a connection's reader
  - `client_sender.rs`: what a connection's writer does with each reply
  - `message_parsing.rs`: parsing a line into a command
  - `replies.rs`: the replies and their text on the wire
  - `handlers/`: one handler per command, deciding which replies go to
    which connection and how the channels change
  - `context.rs`: server, connection and channel state
  - `util.rs`: wildcard masks, matched through the `regex` crate
  - `time.rs`: timestamps, through the `chrono` crate
  - `laws.rs`: properties that span several functions
- `tests/` — tests of the library on concrete values
- `app/` — the server program: settings, the TCP listener, and a reader
  and a writer per connection, built on `tokio`
