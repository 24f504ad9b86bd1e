# matrix-bridge

An end-to-end encrypted Matrix bridge for coding agents: a command line
(`send`, `read`, `rooms`, `send-wait`, `setup`, `config`) and an MCP server
with five tools (`send_message`, `send_and_wait`, `read_messages`,
`list_rooms`, `join_room`).

## Layout

- `src/` is the verified library (Verus). It holds the bridge's decisions and
  texts, each with a contract:
  - `config.rs`: configuration and credentials, their defaults, file paths,
    the mention pattern;
  - `commands.rs`: which room and mention a command uses, the configuration a
    setup creates, viewing and setting one configuration key (with the laws
    that a set value reads back and other keys stay);
  - `client.rs`: which timeline events become messages and in what order,
    the content of a sent message, room and user ID checks, sync planning;
  - `wait.rs`: the polling decisions of "send and wait for a reply";
  - `trust.rs`: the device trust policy;
  - `format.rs`: terminal listings of messages and rooms;
  - `mcp.rs`: the MCP tools' parameters and answers, and mention detection;
  - `text.rs`, `error.rs`: character-level helpers and the error type.
- `app/` is the program around it: argument parsing, files, JSON, the Matrix
  SDK, the MCP transport and the async loops.
- `tests/` runs the library on concrete values.

## Building the program

The program in `app/` needs `matrix-sdk`, which `Cargo.toml` cannot list: with
its dependencies it brings well over 200 packages, which together with the
rest exceeds the crate's budget of 400 packages in the lock file. Until it is
added (with its `e2e-encryption` and `sqlite` features), `app/` does not
build; the library and its tests do not need it.

`app/` is one program. The MCP server runs as `matrix-bridge mcp-server`; there
is no separate `matrix-bridge-mcp` program and no feature flags that leave out
the command line or the MCP server.
