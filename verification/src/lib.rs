//! MCP server hosted inside UE4SS.
//!
//! Exposes the running game to an MCP client over HTTP, so tools can evaluate Lua, read the
//! log and inspect loader state without the user having to press keybinds and paste log
//! excerpts back.
//!
//! Enabled from UE4SS-settings.ini:
//!
//! ```ini
//! [MCP]
//! Enabled = 1
//! BindAddress = 127.0.0.1
//! Port = 8787
//! ```
//!
//! Binding defaults to loopback deliberately: this executes arbitrary Lua inside the game
//! process, so it must not be reachable from off-machine. It is a development tool and should
//! stay disabled for normal play.
//!
//! The library holds every decision of the server and none of its input and output: what is
//! called on the host and with what, what is logged, what a client is answered, when a start
//! succeeds. Callbacks, sockets and threads are driven from outside, with plain values.

pub mod decimal;
pub mod ffi;
pub mod laws;
pub mod protocol;
pub mod server;
pub mod session;
pub mod tools;
pub mod utf16;

pub use server::{
    mcp_is_running, mcp_start, mcp_stop, McpConfig, Ready, RuntimePlan, ServePlan, ServerState,
    Slot, StartEnd, StopPlan,
};
