# mcp_bind

An [MCP](https://modelcontextprotocol.io) server hosted inside a running Unreal Engine game,
built as a static library that UE4SS links in. It lets an MCP client evaluate Lua on the game
thread, run console commands, reload mods, read the loader's state and tail `UE4SS.log`.

The decisions of the server are a library verified with
[Verus](https://github.com/verus-lang/verus); everything that touches a pointer, a socket or a
thread is ordinary Rust around it.

| Where | What |
| --- | --- |
| `src/utf16.rs` | UTF-16 encoding, and decoding with replacement; decoding undoes encoding. |
| `src/ffi.rs` | Strings across the host boundary, and the calls into the host. |
| `src/session.rs` | Sessions: ids, the count of live ones, and their two log lines. |
| `src/tools.rs` | The tool surface, and each tool call from handler to answer. |
| `src/server.rs` | Starting and stopping: where to listen, what is logged, when it succeeds. |
| `src/protocol.rs` | Protocol values, and the calls into `rmcp` and `serde_json`. |
| `src/decimal.rs` | Decimal numerals. |
| `app/` | The C interface, the tokio runtime, the HTTP endpoint and the rmcp handler. |

## Tools

| Tool | Purpose |
| --- | --- |
| `lua_eval(code)` | Execute Lua on the game thread; returns captured output and the returned value. |
| `game_status()` | Loader and game state as JSON. |
| `log_tail(lines, filter)` | Tail `UE4SS.log`, optionally filtered by substring. |
| `reload_mods()` | Reinstall every mod from disk. |
| `execute_console_command(command)` | Execute a console command in the game. |

## Security

This executes arbitrary code inside the game process. Binding defaults to `127.0.0.1`, there is
no authentication, and it is off unless enabled in the ini. Do not bind it to a routable address.

## Trust

What the proofs rest on without proof stands in `src/protocol.rs` (four constructors of `rmcp`
and one call of `serde_json`) and at the top of `src/utf16.rs` (`char::from_u32` and
`String::push`).
