//! The MCP tool surface.
//!
//! A tool call goes through two steps. The handler composes a [`ToolCall`]: the callback
//! to run off the worker thread, since the host blocks until the game thread has run it.
//! [`ToolCall::joined`] takes what came of it and gives the line for the log, the call that
//! reports the invocation to the host, and the answer for the client.

use crate::ffi::{Host, HostCall};
use crate::protocol::{
    implementation, internal_error, object_to_json, success_result, tools_only, CallToolResult,
    ErrorData, ServerInfo,
};
use crate::session::{Sessions, SharedSession};
use vstd::prelude::*;

verus! {

/// Arguments of `lua_eval`.
#[derive(Debug)]
pub struct LuaEvalArgs {
    /// Lua source to execute inside the game. Use `return` to get a value back; anything
    /// printed is captured too.
    pub code: String,
}

/// Arguments of `log_tail`.
#[derive(Debug)]
pub struct LogTailArgs {
    /// How many lines from the end of UE4SS.log. Defaults to 50.
    pub lines: Option<u32>,
    /// Only return lines containing this substring.
    pub filter: Option<String>,
}

/// Arguments of `execute_console_command`.
#[derive(Debug)]
pub struct ConsoleCommandArgs {
    /// The console command to execute inside the game.
    pub command: String,
}

/// How many lines `log_tail` asks for where the client does not say.
pub const DEFAULT_LINES: u32 = 50;

impl LogTailArgs {
    /// How many lines are asked for.
    pub open spec fn line_count(self) -> u32 {
        match self.lines {
            Some(lines) => lines,
            None => DEFAULT_LINES,
        }
    }

    /// The substring that is asked for.
    pub open spec fn filter_text(self) -> Option<Seq<char>> {
        match self.filter {
            Some(filter) => Some(filter@),
            None => None,
        }
    }

    /// The arguments as they are reported to the host: a JSON object.
    pub open spec fn json(self) -> Seq<char> {
        crate::protocol::json_object_text(
            "lines"@,
            self.line_count(),
            "filter"@,
            self.filter_text(),
        )
    }
}

/// A tool as clients see it.
pub struct Tool {
    pub name: String,
    pub description: Option<String>,
}

/// The values of a [`Tool`].
pub struct ToolView {
    pub name: Seq<char>,
    pub description: Option<Seq<char>>,
}

impl View for Tool {
    type V = ToolView;

    open spec fn view(&self) -> ToolView {
        ToolView {
            name: self.name@,
            description: match self.description {
                Some(description) => Some(description@),
                None => None,
            },
        }
    }
}

impl Tool {
    fn new(name: &str, description: &str) -> (tool: Self)
        ensures
            tool@ == (ToolView { name: name@, description: Some(description@) }),
    {
        Tool { name: name.to_string(), description: Some(description.to_string()) }
    }

    fn copy(&self) -> (tool: Self)
        ensures
            tool@ == self@,
    {
        let description = match &self.description {
            Some(description) => Some(description.clone()),
            None => None,
        };
        Tool { name: self.name.clone(), description }
    }
}

/// The tools of a server, by name.
pub struct ToolRouter {
    tools: Vec<Tool>,
}

impl View for ToolRouter {
    type V = Seq<ToolView>;

    closed spec fn view(&self) -> Seq<ToolView> {
        self.tools@.map_values(|tool: Tool| tool@)
    }
}

impl ToolRouter {
    /// Every tool, in the order of their names.
    pub fn list_all(&self) -> (tools: Vec<Tool>)
        ensures
            tools@.map_values(|tool: Tool| tool@) == self@,
    {
        let mut tools: Vec<Tool> = Vec::new();
        for i in 0..self.tools.len()
            invariant
                tools@.len() == i,
                forall|j: int| 0 <= j < i ==> (#[trigger] tools@[j])@ == self.tools@[j]@,
        {
            tools.push(self.tools[i].copy());
        }
        assert(tools@.map_values(|tool: Tool| tool@) =~= self@);
        tools
    }
}

/// The tool surface: name and description of every tool, in the order of the names.
pub open spec fn tool_surface() -> Seq<ToolView> {
    seq![
        ToolView {
            name: "execute_console_command"@,
            description: Some(
                "Execute a console command inside the running game, returning its captured output. Use this for engine commands that have no Lua binding."@,
            ),
        },
        ToolView {
            name: "game_status"@,
            description: Some(
                "Loader and game state as JSON: UE4SS version, whether a world/heist is loaded, which mods are running, and whether UFunction dispatch (ProcessEvent) resolved correctly on this build."@,
            ),
        },
        ToolView {
            name: "log_tail"@,
            description: Some(
                "Tail UE4SS.log, optionally filtered by a substring. Use this to read mod output and diagnose errors instead of asking the user to paste it."@,
            ),
        },
        ToolView {
            name: "lua_eval"@,
            description: Some(
                "Execute Lua inside the running game on the game thread, returning captured output and the returned value. This is the primary way to inspect and manipulate live game state: FindAllOf, property reads, UFunction calls. Use `return <expr>` to get a value back."@,
            ),
        },
        ToolView {
            name: "reload_mods"@,
            description: Some(
                "Reinstall every mod, picking up edited files from disk. Blocks until the reload has finished, so a successful return means the mods are back up."@,
            ),
        },
    ]
}

/// What came of running a callback off the worker thread.
pub enum Joined {
    /// The callback returned, and its string was released.
    Returned(Result<String, String>),
    /// It panicked or was cancelled, with the reason.
    Lost(String),
}

/// The message for a callback that never returned.
pub open spec fn lost_message(reason: Seq<char>) -> Seq<char> {
    "host call panicked or was cancelled: "@ + reason
}

/// The text for the client, or the message of the internal error that it gets instead.
pub open spec fn outcome(joined: Joined) -> Result<Seq<char>, Seq<char>> {
    match joined {
        Joined::Returned(result) => crate::ffi::result_view(result),
        Joined::Lost(reason) => Err(lost_message(reason@)),
    }
}

/// What a tool asks of the host, and how the invocation will be reported.
pub struct ToolCall {
    pub host: Host,
    pub tool: String,
    pub args_json: String,
    pub call: HostCall,
}

/// The values of a [`ToolCall`].
pub struct ToolCallView {
    pub host: Host,
    pub tool: Seq<char>,
    pub args_json: Seq<char>,
    pub call: crate::ffi::HostCallView,
}

impl View for ToolCall {
    type V = ToolCallView;

    open spec fn view(&self) -> ToolCallView {
        ToolCallView {
            host: self.host,
            tool: self.tool@,
            args_json: self.args_json@,
            call: self.call@,
        }
    }
}

/// A tool call whose callback is handed the context of its host.
pub open spec fn tool_call(
    host: Host,
    tool: Seq<char>,
    args_json: Seq<char>,
    callback: crate::ffi::CallbackView,
) -> ToolCallView {
    ToolCallView {
        host,
        tool,
        args_json,
        call: crate::ffi::HostCallView { ctx: host.0.ctx, callback },
    }
}

/// The call that reports an invocation to the host, with whether it succeeded.
pub open spec fn report_call(
    ctx: usize,
    tool: Seq<char>,
    args_json: Seq<char>,
    ok: bool,
) -> crate::ffi::HostCallView {
    crate::ffi::HostCallView {
        ctx,
        callback: crate::ffi::CallbackView::OnToolCall {
            tool: crate::ffi::wide(tool),
            args_json: crate::ffi::wide(args_json),
            ok,
        },
    }
}

/// The line that every tool call leaves in the log.
pub open spec fn tool_line(tool: Seq<char>, ok: bool) -> Seq<char> {
    "[MCP] tool call "@ + tool + (if ok {
        " succeeded"@
    } else {
        " failed"@
    })
}

/// What is left to do of a tool call: log it, report it, and answer the client.
pub struct ToolReport {
    pub log: HostCall,
    pub report: HostCall,
    pub result: Result<CallToolResult, ErrorData>,
}

/// The answer is the one for the outcome: the text, or the internal error.
pub open spec fn answers(
    result: Result<CallToolResult, ErrorData>,
    outcome: Result<Seq<char>, Seq<char>>,
) -> bool {
    match outcome {
        Ok(text) => result matches Ok(result) && result.is_success(text),
        Err(message) => result matches Err(error) && error.is_internal(message),
    }
}

/// The result of a callback that was run off the worker thread. What the host reports as an
/// error, and a callback that never returned, are internal errors.
pub fn offload(joined: Joined) -> (result: Result<String, ErrorData>)
    ensures
        match outcome(joined) {
            Ok(text) => result matches Ok(value) && value@ == text,
            Err(message) => result matches Err(error) && error.is_internal(message),
        },
{
    match joined {
        Joined::Returned(Ok(value)) => Ok(value),
        Joined::Returned(Err(e)) => Err(internal_error(e)),
        Joined::Lost(e) => {
            let mut message = "host call panicked or was cancelled: ".to_string();
            message.append(e.as_str());
            Err(internal_error(message))
        },
    }
}

impl ToolCall {
    /// Goes on from what came of the callback.
    pub fn joined(&self, joined: Joined) -> (report: ToolReport)
        ensures
            report.log@ == crate::ffi::log_call(
                self.host.0.ctx,
                tool_line(self.tool@, outcome(joined) is Ok),
            ),
            report.report@ == report_call(
                self.host.0.ctx,
                self.tool@,
                self.args_json@,
                outcome(joined) is Ok,
            ),
            answers(report.result, outcome(joined)),
    {
        let result = offload(joined);
        let ok = result.is_ok();
        let mut line = "[MCP] tool call ".to_string();
        line.append(self.tool.as_str());
        line.append(
            if ok {
                " succeeded"
            } else {
                " failed"
            },
        );
        let log = self.host.log(line.as_str());
        let report = self.host.on_tool_call(self.tool.as_str(), self.args_json.as_str(), ok);
        match result {
            Ok(text) => ToolReport { log, report, result: Ok(success_result(text)) },
            Err(error) => ToolReport { log, report, result: Err(error) },
        }
    }
}

/// A session's handler: the host, the session, and the tools.
pub struct Pd3Server {
    pub host: Host,
    pub session: SharedSession,
    pub tool_router: ToolRouter,
}

impl Pd3Server {
    /// Begins a session. Hands back the line for the log as well.
    pub fn new(host: Host, sessions: &mut Sessions) -> (begun: (Self, HostCall))
        requires
            old(sessions).active < u64::MAX,
        ensures
            begun.0.host == host,
            begun.0.session.host() == host,
            begun.0.session.handles() == 1,
            begun.0.session.id() == old(sessions).next_id,
            begun.0.tool_router@ == tool_surface(),
            *final(sessions) == old(sessions).connected(),
            begun.1@ == crate::ffi::log_call(
                host.0.ctx,
                crate::session::connected_line(
                    old(sessions).next_id,
                    (old(sessions).active + 1) as u64,
                ),
            ),
    {
        let (session, log) = SharedSession::new(host, sessions);
        (Pd3Server { host, session, tool_router: Self::tool_router() }, log)
    }

    /// The tools of the server.
    pub fn tool_router() -> (router: ToolRouter)
        ensures
            router@ == tool_surface(),
    {
        let mut tools: Vec<Tool> = Vec::new();
        tools.push(
            Tool::new(
                "execute_console_command",
                "Execute a console command inside the running game, returning its captured output. Use this for engine commands that have no Lua binding.",
            ),
        );
        tools.push(
            Tool::new(
                "game_status",
                "Loader and game state as JSON: UE4SS version, whether a world/heist is loaded, which mods are running, and whether UFunction dispatch (ProcessEvent) resolved correctly on this build.",
            ),
        );
        tools.push(
            Tool::new(
                "log_tail",
                "Tail UE4SS.log, optionally filtered by a substring. Use this to read mod output and diagnose errors instead of asking the user to paste it.",
            ),
        );
        tools.push(
            Tool::new(
                "lua_eval",
                "Execute Lua inside the running game on the game thread, returning captured output and the returned value. This is the primary way to inspect and manipulate live game state: FindAllOf, property reads, UFunction calls. Use `return <expr>` to get a value back.",
            ),
        );
        tools.push(
            Tool::new(
                "reload_mods",
                "Reinstall every mod, picking up edited files from disk. Blocks until the reload has finished, so a successful return means the mods are back up.",
            ),
        );
        let router = ToolRouter { tools };
        assert(router@ =~= tool_surface());
        router
    }

    /// Execute Lua inside the running game. The code itself is reported to the host.
    pub fn lua_eval(&self, args: &LuaEvalArgs) -> (call: ToolCall)
        ensures
            call@ == lua_eval_call(self.host, args.code@),
    {
        ToolCall {
            host: self.host,
            tool: "lua_eval".to_string(),
            args_json: args.code.clone(),
            call: self.host.lua_eval(args.code.as_str()),
        }
    }

    /// Ask for the state of the loader and the game.
    pub fn game_status(&self) -> (call: ToolCall)
        ensures
            call@ == game_status_call(self.host),
    {
        ToolCall {
            host: self.host,
            tool: "game_status".to_string(),
            args_json: "{}".to_string(),
            call: self.host.game_status(),
        }
    }

    /// Tail the log. The arguments are reported to the host as JSON.
    pub fn log_tail(&self, args: &LogTailArgs) -> (call: ToolCall)
        ensures
            call@ == log_tail_call(self.host, *args, args.json()),
            call.args_json@.len() >= 2,
            call.args_json@.first() == '{',
            call.args_json@.last() == '}',
    {
        let lines: u32 = args.lines.unwrap_or(DEFAULT_LINES);
        let json = match object_to_json("lines", lines, "filter", filter_str(args)) {
            Ok(json) => Some(json),
            Err(_) => None,
        };
        self.log_tail_reported(args, json)
    }

    /// Tail the log, with the arguments as they were serialized; `None`, where that failed,
    /// is reported as the empty text.
    pub fn log_tail_reported(&self, args: &LogTailArgs, json: Option<String>) -> (call: ToolCall)
        ensures
            call@ == log_tail_call(
                self.host,
                *args,
                match json {
                    Some(json) => json@,
                    None => seq![],
                },
            ),
    {
        let lines: u32 = args.lines.unwrap_or(DEFAULT_LINES);
        let args_json = match json {
            Some(json) => json,
            None => String::new(),
        };
        ToolCall {
            host: self.host,
            tool: "log_tail".to_string(),
            args_json,
            call: self.host.log_tail(lines, filter_str(args)),
        }
    }

    /// Reinstall every mod.
    pub fn reload_mods(&self) -> (call: ToolCall)
        ensures
            call@ == reload_mods_call(self.host),
    {
        ToolCall {
            host: self.host,
            tool: "reload_mods".to_string(),
            args_json: "{}".to_string(),
            call: self.host.reload_mods(),
        }
    }

    /// Execute a console command inside the running game. The command itself is reported to
    /// the host.
    pub fn execute_console_command(&self, args: &ConsoleCommandArgs) -> (call: ToolCall)
        ensures
            call@ == execute_console_command_call(self.host, args.command@),
    {
        ToolCall {
            host: self.host,
            tool: "execute_console_command".to_string(),
            args_json: args.command.clone(),
            call: self.host.execute_console_command(args.command.as_str()),
        }
    }

    /// What a client is told when it connects. `version` is the version of the server.
    pub fn get_info(&self, version: &str) -> (info: ServerInfo)
        ensures
            info.instructions matches Some(text) && text@ == instructions(),
            info.capabilities == advertised(),
            info.server_info.name@ == "ue4ss-pd3"@,
            info.server_info.version@ == version@,
    {
        ServerInfo {
            instructions: Some(
                "Live interface to a running PAYDAY 3 process via UE4SS. `lua_eval` runs Lua on the game thread; `game_status` reports loader state; `log_tail` reads UE4SS.log. Game objects only exist while a world is loaded -- check game_status before assuming a heist is running.".to_string(),
            ),
            capabilities: tools_only(),
            server_info: implementation("ue4ss-pd3", version),
        }
    }
}

/// The filter of the arguments, borrowed.
fn filter_str(args: &LogTailArgs) -> (filter: Option<&str>)
    ensures
        crate::protocol::text_view(filter) == args.filter_text(),
{
    match &args.filter {
        Some(filter) => Some(filter.as_str()),
        None => None,
    }
}

/// What the server tells clients about itself.
pub open spec fn instructions() -> Seq<char> {
    "Live interface to a running PAYDAY 3 process via UE4SS. `lua_eval` runs Lua on the game thread; `game_status` reports loader state; `log_tail` reads UE4SS.log. Game objects only exist while a world is loaded -- check game_status before assuming a heist is running."@
}

/// What the server advertises: tools, and nothing else.
pub open spec fn advertised() -> crate::protocol::ServerCapabilities {
    crate::protocol::ServerCapabilities {
        completions: false,
        experimental: false,
        extensions: false,
        logging: false,
        prompts: false,
        resources: false,
        tasks: false,
        tools: Some(crate::protocol::ToolsCapability { list_changed: None }),
    }
}

/// The call that `lua_eval` makes.
pub open spec fn lua_eval_call(host: Host, code: Seq<char>) -> ToolCallView {
    tool_call(
        host,
        "lua_eval"@,
        code,
        crate::ffi::CallbackView::LuaEval { code: crate::ffi::wide(code) },
    )
}

/// The call that `game_status` makes.
pub open spec fn game_status_call(host: Host) -> ToolCallView {
    tool_call(host, "game_status"@, "{}"@, crate::ffi::CallbackView::GameStatus)
}

/// The call that `log_tail` makes, reported as `json`.
pub open spec fn log_tail_call(host: Host, args: LogTailArgs, json: Seq<char>) -> ToolCallView {
    tool_call(
        host,
        "log_tail"@,
        json,
        crate::ffi::CallbackView::LogTail {
            lines: args.line_count(),
            filter: match args.filter_text() {
                Some(filter) => Some(crate::ffi::wide(filter)),
                None => None,
            },
        },
    )
}

/// The call that `reload_mods` makes.
pub open spec fn reload_mods_call(host: Host) -> ToolCallView {
    tool_call(host, "reload_mods"@, "{}"@, crate::ffi::CallbackView::ReloadMods)
}

/// The call that `execute_console_command` makes.
pub open spec fn execute_console_command_call(host: Host, command: Seq<char>) -> ToolCallView {
    tool_call(
        host,
        "execute_console_command"@,
        command,
        crate::ffi::CallbackView::ExecuteConsoleCommand { command: crate::ffi::wide(command) },
    )
}

/// Whether a tool of this name is registered.
pub open spec fn is_registered(name: Seq<char>) -> bool {
    exists|i: int| 0 <= i < tool_surface().len() && (#[trigger] tool_surface()[i]).name == name
}

/// There are five tools, no two of the same name, and each is described at some length.
pub proof fn every_tool_is_described()
    ensures
        tool_surface().len() == 5,
        forall|i: int, j: int|
            0 <= i < j < 5 ==> (#[trigger] tool_surface()[i]).name != (
            #[trigger] tool_surface()[j]).name,
        forall|i: int|
            0 <= i < 5 ==> ((#[trigger] tool_surface()[i]).description matches Some(text)
                && text.len() > 20),
{
    reveal_strlit("execute_console_command");
    reveal_strlit("game_status");
    reveal_strlit("log_tail");
    reveal_strlit("lua_eval");
    reveal_strlit("reload_mods");
    reveal_strlit(
        "Execute a console command inside the running game, returning its captured output. Use this for engine commands that have no Lua binding.",
    );
    reveal_strlit(
        "Loader and game state as JSON: UE4SS version, whether a world/heist is loaded, which mods are running, and whether UFunction dispatch (ProcessEvent) resolved correctly on this build.",
    );
    reveal_strlit(
        "Tail UE4SS.log, optionally filtered by a substring. Use this to read mod output and diagnose errors instead of asking the user to paste it.",
    );
    reveal_strlit(
        "Execute Lua inside the running game on the game thread, returning captured output and the returned value. This is the primary way to inspect and manipulate live game state: FindAllOf, property reads, UFunction calls. Use `return <expr>` to get a value back.",
    );
    reveal_strlit(
        "Reinstall every mod, picking up edited files from disk. Blocks until the reload has finished, so a successful return means the mods are back up.",
    );
    assert("lua_eval"@[1] != "log_tail"@[1]);
    assert("game_status"@[0] != "reload_mods"@[0]);
}

/// Every handler makes its call under a name that is registered, into its own host, and to
/// a callback that fills in a string.
pub proof fn every_handler_is_registered(
    host: Host,
    code: Seq<char>,
    args: LogTailArgs,
    json: Seq<char>,
    command: Seq<char>,
)
    ensures
        forall|call: ToolCallView|
            {
                ||| call == lua_eval_call(host, code)
                ||| call == game_status_call(host)
                ||| call == log_tail_call(host, args, json)
                ||| call == reload_mods_call(host)
                ||| call == execute_console_command_call(host, command)
            } ==> {
                &&& is_registered(#[trigger] call.tool)
                &&& call.host == host
                &&& call.call.ctx == host.0.ctx
                &&& call.call.callback.fills_string()
            },
{
    assert(tool_surface()[0].name == "execute_console_command"@);
    assert(tool_surface()[1].name == "game_status"@);
    assert(tool_surface()[2].name == "log_tail"@);
    assert(tool_surface()[3].name == "lua_eval"@);
    assert(tool_surface()[4].name == "reload_mods"@);
}

/// A whole tool call: the calls into the host, in order, and the outcome.
pub struct ToolRun {
    pub calls: Seq<crate::ffi::HostCallView>,
    pub outcome: Result<Seq<char>, Seq<char>>,
}

/// The tool call `call` where the host returned `ok` and filled in `out`.
pub open spec fn returned_run(
    call: ToolCallView,
    ok: bool,
    out: crate::ffi::McpStringView,
) -> ToolRun {
    let outcome = crate::ffi::reply_result(ok, out);
    ToolRun {
        calls: seq![
            call.call,
            crate::ffi::free_call(call.host.0.ctx, out),
            crate::ffi::log_call(call.host.0.ctx, tool_line(call.tool, outcome is Ok)),
            report_call(call.host.0.ctx, call.tool, call.args_json, outcome is Ok),
        ],
        outcome,
    }
}

/// The tool call `call` where the callback never returned, for the given reason.
pub open spec fn lost_run(call: ToolCallView, reason: Seq<char>) -> ToolRun {
    ToolRun {
        calls: seq![
            call.call,
            crate::ffi::log_call(call.host.0.ctx, tool_line(call.tool, false)),
            report_call(call.host.0.ctx, call.tool, call.args_json, false),
        ],
        outcome: Err(lost_message(reason)),
    }
}

/// A tool call whose callback returned goes as [`returned_run`] says: its callback, what
/// [`Host::reply`] releases, and what [`ToolCall::joined`] logs, reports and answers.
pub proof fn returned_call_goes_as_stated(
    call: ToolCall,
    ok: bool,
    out: crate::ffi::McpString,
    reply: crate::ffi::HostReply,
    report: ToolReport,
)
    requires
        call_ensures(Host::reply, (&call.host, ok, out), reply),
        call_ensures(ToolCall::joined, (&call, Joined::Returned(reply.result)), report),
    ensures
        seq![call.call@, reply.free@, report.log@, report.report@] == returned_run(
            call@,
            ok,
            out@,
        ).calls,
        answers(report.result, returned_run(call@, ok, out@).outcome),
{
}

/// A tool call whose callback never returned goes as [`lost_run`] says.
pub proof fn lost_call_goes_as_stated(call: ToolCall, reason: String, report: ToolReport)
    requires
        call_ensures(ToolCall::joined, (&call, Joined::Lost(reason)), report),
    ensures
        seq![call.call@, report.log@, report.report@] == lost_run(call@, reason@).calls,
        answers(report.result, lost_run(call@, reason@).outcome),
{
}

/// What the host fills in is released once, by the struct that it filled in, before the
/// invocation is reported; nothing else is released. The text reaches the client, as a
/// result or as an error, as the host decided.
pub proof fn filled_string_is_released_once(
    call: ToolCallView,
    ok: bool,
    out: crate::ffi::McpStringView,
)
    requires
        call.call.callback.fills_string(),
    ensures
        returned_run(call, ok, out).calls.filter(
            |c: crate::ffi::HostCallView| c.callback is FreeString,
        ) == seq![crate::ffi::free_call(call.host.0.ctx, out)],
        returned_run(call, ok, out).calls.last().callback is OnToolCall,
        returned_run(call, ok, out).outcome == (if ok {
            Ok::<Seq<char>, Seq<char>>(out.text())
        } else {
            Err(out.text())
        }),
{
    let calls = returned_run(call, ok, out).calls;
    let frees = |c: crate::ffi::HostCallView| c.callback is FreeString;
    reveal_with_fuel(Seq::filter, 5);
    assert(calls.drop_last().drop_last().drop_last().drop_last() =~= seq![]);
    assert(calls.filter(frees) =~= seq![crate::ffi::free_call(call.host.0.ctx, out)]);
}

/// A tool call is reported once, after everything else, and as a success exactly where the
/// client gets a result.
pub proof fn invocation_is_reported_once(
    call: ToolCallView,
    ok: bool,
    out: crate::ffi::McpStringView,
    reason: Seq<char>,
)
    requires
        call.call.callback.fills_string(),
    ensures
        forall|run: ToolRun|
            #![trigger run.calls]
            run == returned_run(call, ok, out) || run == lost_run(call, reason) ==> {
                &&& run.calls.last() == report_call(
                    call.host.0.ctx,
                    call.tool,
                    call.args_json,
                    run.outcome is Ok,
                )
                &&& forall|i: int|
                    0 <= i < run.calls.len() - 1 ==> !((
                    #[trigger] run.calls[i]).callback is OnToolCall)
            },
{
}

/// A tool call leaves one line in the log, which names the tool and says whether the client
/// got a result.
pub proof fn invocation_is_logged_once(
    call: ToolCallView,
    ok: bool,
    out: crate::ffi::McpStringView,
    reason: Seq<char>,
)
    requires
        call.call.callback.fills_string(),
    ensures
        forall|run: ToolRun|
            #![trigger run.calls]
            run == returned_run(call, ok, out) || run == lost_run(call, reason)
                ==> run.calls.filter(|c: crate::ffi::HostCallView| c.callback is Log) == seq![
                crate::ffi::log_call(
                    call.host.0.ctx,
                    tool_line(call.tool, run.outcome is Ok),
                ),
            ],
{
    let logs = |c: crate::ffi::HostCallView| c.callback is Log;
    let returned = returned_run(call, ok, out);
    let lost = lost_run(call, reason);
    reveal_with_fuel(Seq::filter, 5);
    assert(returned.calls.drop_last().drop_last().drop_last().drop_last() =~= seq![]);
    assert(returned.calls.filter(logs) =~= seq![returned.calls[2]]);
    assert(lost.calls.drop_last().drop_last().drop_last() =~= seq![]);
    assert(lost.calls.filter(logs) =~= seq![lost.calls[1]]);
}

} // verus!
