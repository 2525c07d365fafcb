//! Starting and stopping the server, and the sessions on it.

use mcp_bind::decimal::decimal_text;
use mcp_bind::ffi::{from_utf16_ptr, to_utf16, Callback, Host, HostCall, McpHost};
use mcp_bind::session::{SessionGuard, Sessions};
use mcp_bind::{
    mcp_is_running, mcp_start, mcp_stop, McpConfig, Ready, RuntimePlan, ServePlan, ServerState,
    Slot,
};

const HOST: McpHost = McpHost { ctx: 11 };

fn config(address: Option<&str>) -> McpConfig {
    McpConfig {
        bind_address: address.map(to_utf16),
        port: 8787,
    }
}

fn logged(call: HostCall) -> String {
    assert_eq!(call.ctx, 11);
    match call.callback {
        Callback::Log { msg } => from_utf16_ptr(Some(msg.as_slice())),
        _ => panic!("not a log line"),
    }
}

fn plan(slot: &Slot) -> RuntimePlan {
    match mcp_start(&config(Some("127.0.0.1")), &HOST, slot) {
        Ok(plan) => plan,
        Err(log) => panic!("refused: {}", logged(log)),
    }
}

fn serve(plan: RuntimePlan) -> ServePlan {
    match plan.built(Ok(())) {
        Ok(plan) => plan,
        Err(log) => panic!("refused: {}", logged(log)),
    }
}

#[test]
fn binding_defaults_to_loopback() {
    assert_eq!(config(None).socket_address(), "127.0.0.1:8787");
    assert_eq!(config(Some("")).socket_address(), "127.0.0.1:8787");
    assert_eq!(config(Some("10.0.0.2")).socket_address(), "10.0.0.2:8787");
    let config = McpConfig {
        bind_address: None,
        port: 0,
    };
    assert_eq!(config.socket_address(), "127.0.0.1:0");
}

#[test]
fn start_brings_the_server_up() {
    let mut slot = Slot::Free;
    assert!(!mcp_is_running(&slot));

    let runtime = plan(&slot);
    assert_eq!(runtime.bind, "127.0.0.1:8787");
    assert_eq!(runtime.worker_threads, 2);
    assert_eq!(runtime.thread_name, "ue4ss-mcp");

    let serving = serve(runtime);
    assert_eq!(serving.bind, "127.0.0.1:8787");
    assert_eq!(serving.path, "/mcp");

    let end = serving.settled(Ready::Bound, slot);
    assert!(end.up);
    slot = end.slot;
    assert_eq!(logged(end.log), "[MCP] listening on http://127.0.0.1:8787/mcp");
    assert_eq!(slot, Slot::Running(ServerState { shutdown: true }));
    assert!(mcp_is_running(&slot));
}

#[test]
fn second_start_is_refused() {
    let slot = Slot::Running(ServerState { shutdown: true });
    match mcp_start(&config(None), &HOST, &slot) {
        Ok(_) => panic!("started twice"),
        Err(log) => assert_eq!(logged(log), "[MCP] already running"),
    }
}

#[test]
fn poisoned_lock_refuses_a_start() {
    let mut slot = Slot::Poisoned;
    match mcp_start(&config(None), &HOST, &slot) {
        Ok(_) => panic!("started"),
        Err(log) => assert_eq!(logged(log), "[MCP] internal lock poisoned; not starting"),
    }
    assert!(!mcp_is_running(&slot));
    assert_eq!(mcp_stop(&mut slot), None);
    assert_eq!(slot, Slot::Poisoned);
}

#[test]
fn failed_runtime_ends_a_start() {
    match plan(&Slot::Free).built(Err("no threads".to_string())) {
        Ok(_) => panic!("went on"),
        Err(log) => assert_eq!(logged(log), "[MCP] failed to create runtime: no threads"),
    }
}

#[test]
fn failed_bind_ends_a_start() {
    let slot = Slot::Free;
    let end = serve(plan(&slot)).settled(Ready::Failed("address in use".to_string()), slot);
    assert!(!end.up);
    assert_eq!(end.slot, slot);
    assert!(!mcp_is_running(&end.slot));
    assert_eq!(
        logged(end.log),
        "[MCP] failed to start on 127.0.0.1:8787: address in use"
    );
}

#[test]
fn stop_undoes_a_start_and_can_be_repeated() {
    let free = Slot::Free;
    let mut slot = serve(plan(&free)).settled(Ready::Bound, free).slot;

    let stop = mcp_stop(&mut slot).expect("a server was running");
    assert!(stop.signal);
    assert!(stop.await_calls);
    assert_eq!(slot, Slot::Free);
    assert!(!mcp_is_running(&slot));

    assert_eq!(mcp_stop(&mut slot), None);
    assert_eq!(slot, Slot::Free);
    assert_eq!(plan(&slot).bind, "127.0.0.1:8787");
}

#[test]
fn sessions_are_numbered_and_counted() {
    let mut sessions = Sessions::new();
    let host = Host(HOST);
    let (first, log) = SessionGuard::new(host, &mut sessions);
    assert_eq!(logged(log), "[MCP] client connected (session 1, 1 active)");
    let (second, log) = SessionGuard::new(host, &mut sessions);
    assert_eq!(logged(log), "[MCP] client connected (session 2, 2 active)");
    assert_eq!(
        logged(first.drop(&mut sessions)),
        "[MCP] client disconnected (session 1, 1 active)"
    );
    let (_third, log) = SessionGuard::new(host, &mut sessions);
    assert_eq!(logged(log), "[MCP] client connected (session 3, 2 active)");
    assert_eq!(
        logged(second.drop(&mut sessions)),
        "[MCP] client disconnected (session 2, 1 active)"
    );
}

#[test]
fn counters_wrap_at_their_ends() {
    let mut sessions = Sessions {
        next_id: u64::MAX,
        active: 0,
    };
    let (guard, log) = SessionGuard::new(Host(HOST), &mut sessions);
    assert_eq!(
        logged(log),
        "[MCP] client connected (session 18446744073709551615, 1 active)"
    );
    assert_eq!(sessions.next_id, 0);

    sessions.active = 0;
    assert_eq!(
        logged(guard.drop(&mut sessions)),
        "[MCP] client disconnected (session 18446744073709551615, 0 active)"
    );
    assert_eq!(sessions.active, u64::MAX);
}

#[test]
fn numbers_are_written_in_decimal() {
    for n in [0u64, 9, 10, 99, 100, 8787, 65535, u64::MAX] {
        assert_eq!(decimal_text(n), n.to_string());
    }
}
