//! Tool calls from the handler to the answer.

use mcp_bind::ffi::{from_utf16_ptr, to_utf16, Callback, Host, McpHost, McpString};
use mcp_bind::protocol::ContentBlock;
use mcp_bind::session::Sessions;
use mcp_bind::tools::{
    offload, ConsoleCommandArgs, Joined, LogTailArgs, LuaEvalArgs, Pd3Server, ToolCall, ToolReport,
};

fn server() -> Pd3Server {
    Pd3Server::new(Host(McpHost { ctx: 42 }), &mut Sessions::new()).0
}

fn text(units: &Vec<u16>) -> String {
    from_utf16_ptr(Some(units.as_slice()))
}

/// Tool, arguments and success, as they are reported.
fn reported(report: &ToolReport) -> (String, String, bool) {
    assert_eq!(report.report.ctx, 42);
    match &report.report.callback {
        Callback::OnToolCall {
            tool,
            args_json,
            ok,
        } => (text(tool), text(args_json), *ok),
        _ => panic!("not a report"),
    }
}

/// The line that the call leaves in the log.
fn logged(report: &ToolReport) -> String {
    assert_eq!(report.log.ctx, 42);
    match &report.log.callback {
        Callback::Log { msg } => text(msg),
        _ => panic!("not a log line"),
    }
}

fn answer(report: ToolReport) -> Result<String, (i32, String)> {
    match report.result {
        Ok(mut result) => {
            assert_eq!(result.is_error, Some(false));
            assert_eq!(result.content.len(), 1);
            match result.content.pop() {
                Some(ContentBlock::Text(text)) => Ok(text),
                _ => panic!("not a text"),
            }
        }
        Err(error) => Err((error.code, error.message)),
    }
}

fn finish(call: ToolCall, ok: bool, out: &str) -> ToolReport {
    let host = call.host;
    let units: Vec<u16> = out.encode_utf16().collect();
    let len = units.len();
    let reply = host.reply(
        ok,
        McpString {
            data: Some(units.clone()),
            len,
        },
    );
    assert_eq!(reply.free.ctx, 42);
    match &reply.free.callback {
        Callback::FreeString { s } => {
            assert_eq!(s.data.as_ref(), Some(&units));
            assert_eq!(s.len, len);
        }
        _ => panic!("not a release"),
    }
    call.joined(Joined::Returned(reply.result))
}

#[test]
fn lua_eval_runs_the_code_and_reports_it() {
    let args = LuaEvalArgs {
        code: "return 1 + 1 -- \u{1F600}".to_string(),
    };
    let call = server().lua_eval(&args);
    assert_eq!(call.call.ctx, 42);
    match &call.call.callback {
        Callback::LuaEval { code } => assert_eq!(*code, to_utf16(&args.code)),
        _ => panic!("wrong callback"),
    }
    let report = finish(call, true, "2");
    assert_eq!(
        reported(&report),
        ("lua_eval".to_string(), args.code, true)
    );
    assert_eq!(logged(&report), "[MCP] tool call lua_eval succeeded");
    assert_eq!(answer(report), Ok("2".to_string()));
}

#[test]
fn host_failure_becomes_an_internal_error() {
    let args = LuaEvalArgs {
        code: "error()".to_string(),
    };
    let report = finish(server().lua_eval(&args), false, "attempt to call nil");
    assert_eq!(
        reported(&report),
        ("lua_eval".to_string(), "error()".to_string(), false)
    );
    assert_eq!(logged(&report), "[MCP] tool call lua_eval failed");
    assert_eq!(
        answer(report),
        Err((-32603, "attempt to call nil".to_string()))
    );
}

#[test]
fn lost_callback_becomes_an_internal_error() {
    let report = server()
        .game_status()
        .joined(Joined::Lost("task 3 was cancelled".to_string()));
    assert_eq!(
        reported(&report),
        ("game_status".to_string(), "{}".to_string(), false)
    );
    assert_eq!(logged(&report), "[MCP] tool call game_status failed");
    assert_eq!(
        answer(report),
        Err((
            -32603,
            "host call panicked or was cancelled: task 3 was cancelled".to_string()
        ))
    );
}

#[test]
fn every_tool_call_is_logged() {
    let server = server();
    let calls = vec![
        server.lua_eval(&LuaEvalArgs {
            code: String::new(),
        }),
        server.game_status(),
        server.log_tail(&LogTailArgs {
            lines: None,
            filter: None,
        }),
        server.reload_mods(),
        server.execute_console_command(&ConsoleCommandArgs {
            command: String::new(),
        }),
    ];
    for call in calls {
        let line = format!("[MCP] tool call {} succeeded", call.tool);
        assert_eq!(logged(&finish(call, true, "")), line);
    }
}

#[test]
fn offload_keeps_the_text() {
    match offload(Joined::Returned(Ok("text".to_string()))) {
        Ok(text) => assert_eq!(text, "text"),
        Err(_) => panic!("an error"),
    }
}

#[test]
fn game_status_and_reload_mods_report_an_empty_object() {
    let call = server().game_status();
    assert!(matches!(call.call.callback, Callback::GameStatus));
    let report = finish(call, true, "{\"world\":true}");
    assert_eq!(
        reported(&report),
        ("game_status".to_string(), "{}".to_string(), true)
    );
    assert_eq!(answer(report), Ok("{\"world\":true}".to_string()));

    let call = server().reload_mods();
    assert!(matches!(call.call.callback, Callback::ReloadMods));
    let report = finish(call, true, "");
    assert_eq!(
        reported(&report),
        ("reload_mods".to_string(), "{}".to_string(), true)
    );
    assert_eq!(answer(report), Ok(String::new()));
}

#[test]
fn execute_console_command_reports_the_command() {
    let args = ConsoleCommandArgs {
        command: "stat fps".to_string(),
    };
    let call = server().execute_console_command(&args);
    match &call.call.callback {
        Callback::ExecuteConsoleCommand { command } => assert_eq!(text(command), "stat fps"),
        _ => panic!("wrong callback"),
    }
    let report = finish(call, true, "ok");
    assert_eq!(
        reported(&report),
        (
            "execute_console_command".to_string(),
            "stat fps".to_string(),
            true
        )
    );
}

#[test]
fn log_tail_defaults_to_fifty_lines() {
    let call = server().log_tail(&LogTailArgs {
        lines: None,
        filter: None,
    });
    assert_eq!(call.tool, "log_tail");
    assert_eq!(call.args_json, "{\"filter\":null,\"lines\":50}");
    match &call.call.callback {
        Callback::LogTail { lines, filter } => {
            assert_eq!(*lines, 50);
            assert!(filter.is_none());
        }
        _ => panic!("wrong callback"),
    }
}

#[test]
fn log_tail_passes_lines_and_filter() {
    let call = server().log_tail(&LogTailArgs {
        lines: Some(7),
        filter: Some("a \"quoted\"\n\u{1F600}".to_string()),
    });
    assert_eq!(
        call.args_json,
        "{\"filter\":\"a \\\"quoted\\\"\\n\u{1F600}\",\"lines\":7}"
    );
    match &call.call.callback {
        Callback::LogTail { lines, filter } => {
            assert_eq!(*lines, 7);
            assert_eq!(
                filter.as_ref(),
                Some(&to_utf16("a \"quoted\"\n\u{1F600}"))
            );
        }
        _ => panic!("wrong callback"),
    }
    let report = finish(call, true, "line");
    assert_eq!(reported(&report).0, "log_tail");
}

#[test]
fn log_tail_that_cannot_be_serialized_reports_nothing() {
    let args = LogTailArgs {
        lines: Some(0),
        filter: Some(String::new()),
    };
    let call = server().log_tail_reported(&args, None);
    assert_eq!(call.args_json, "");
    match &call.call.callback {
        Callback::LogTail { lines, filter } => {
            assert_eq!(*lines, 0);
            assert_eq!(filter.as_ref(), Some(&vec![0u16]));
        }
        _ => panic!("wrong callback"),
    }
    let call = server().log_tail_reported(&args, Some("{}".to_string()));
    assert_eq!(call.args_json, "{}");
}
