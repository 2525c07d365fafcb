//! Guards the tool surface: a server that lists no tools looks, from the client, just like a
//! game that is not running.

use mcp_bind::ffi::{from_utf16_ptr, Callback, Host, HostCall, McpHost};
use mcp_bind::session::Sessions;
use mcp_bind::tools::Pd3Server;

fn test_host() -> Host {
    Host(McpHost { ctx: 0 })
}

fn logged(call: &HostCall) -> String {
    match &call.callback {
        Callback::Log { msg } => from_utf16_ptr(Some(msg.as_slice())),
        _ => panic!("not a log line"),
    }
}

#[test]
fn every_tool_is_registered_and_described() {
    let mut sessions = Sessions::new();
    let (server, _) = Pd3Server::new(test_host(), &mut sessions);
    let tools = server.tool_router.list_all();

    let names: Vec<&str> = tools.iter().map(|t| t.name.as_ref()).collect();
    assert!(names.contains(&"lua_eval"), "missing lua_eval: {names:?}");
    assert!(
        names.contains(&"game_status"),
        "missing game_status: {names:?}"
    );
    assert!(names.contains(&"log_tail"), "missing log_tail: {names:?}");
    assert!(
        names.contains(&"reload_mods"),
        "missing reload_mods: {names:?}"
    );
    assert!(
        names.contains(&"execute_console_command"),
        "missing execute_console_command: {names:?}"
    );
    assert_eq!(names.len(), 5, "unexpected tool set: {names:?}");

    // A tool with no description is close to useless to a model, so treat it as a failure.
    for tool in &tools {
        let description = tool.description.as_deref().unwrap_or("");
        assert!(
            description.len() > 20,
            "tool '{}' has a missing or too-short description",
            tool.name
        );
    }
}

/// A session must log exactly one connect and one disconnect, no matter how many times the
/// handler is cloned.
#[test]
fn session_logs_connect_and_disconnect_exactly_once() {
    let mut sessions = Sessions::new();
    let mut captured: Vec<String> = Vec::new();
    let count = |lines: &Vec<String>, needle: &str| {
        lines.iter().filter(|l| l.contains(needle)).count()
    };

    let (mut server, connected) = Pd3Server::new(Host(McpHost { ctx: 7 }), &mut sessions);
    assert_eq!(connected.ctx, 7);
    captured.push(logged(&connected));
    for _ in 0..3 {
        server.session.clone_handle();
    }

    assert_eq!(
        count(&captured, "client connected"),
        1,
        "expected exactly one connect line"
    );
    assert_eq!(
        count(&captured, "client disconnected"),
        0,
        "disconnected while the session was still alive"
    );

    for _ in 0..3 {
        if let Some(call) = server.session.drop_handle(&mut sessions) {
            captured.push(logged(&call));
        }
    }
    assert_eq!(
        count(&captured, "client disconnected"),
        0,
        "dropping a clone reported a disconnect while the original was still alive"
    );

    if let Some(call) = server.session.drop_handle(&mut sessions) {
        assert_eq!(call.ctx, 7);
        captured.push(logged(&call));
    }
    assert_eq!(
        count(&captured, "client disconnected"),
        1,
        "expected exactly one disconnect line after the session dropped"
    );
    assert_eq!(
        captured,
        vec![
            "[MCP] client connected (session 1, 1 active)",
            "[MCP] client disconnected (session 1, 0 active)",
        ]
    );
}

#[test]
fn server_info_advertises_tools() {
    let mut sessions = Sessions::new();
    let (server, _) = Pd3Server::new(test_host(), &mut sessions);
    let info = server.get_info("0.1.0");

    assert!(
        info.capabilities.tools.is_some(),
        "server does not advertise the tools capability, so no client will call one"
    );
    assert!(info.instructions.is_some(), "server has no instructions");
    assert_eq!(info.server_info.name, "ue4ss-pd3");

    assert_eq!(info.server_info.version, "0.1.0");
    assert!(!info.capabilities.prompts);
    assert!(!info.capabilities.resources);
    assert!(info
        .instructions
        .unwrap()
        .starts_with("Live interface to a running PAYDAY 3 process via UE4SS. `lua_eval` runs"));
}

#[test]
fn tools_are_listed_by_name() {
    let names: Vec<String> = Pd3Server::tool_router()
        .list_all()
        .into_iter()
        .map(|t| t.name)
        .collect();
    let mut sorted = names.clone();
    sorted.sort();
    sorted.dedup();
    assert_eq!(names, sorted);
}
