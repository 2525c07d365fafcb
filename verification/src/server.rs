//! Starting and stopping the server.
//!
//! Binding a socket and building a runtime are done elsewhere; here is what they are done
//! with, and what follows from how they went. A start goes through three steps, each of
//! which either hands on a plan or ends in one line for the log:
//! [`mcp_start`], [`RuntimePlan::built`] and [`ServePlan::settled`].

use crate::decimal::decimal_text;
use crate::ffi::{from_utf16_ptr, Host, HostCall, McpHost};
use vstd::prelude::*;

verus! {

/// Configuration handed over from the host's settings parser.
pub struct McpConfig {
    /// Null-terminated UTF-16, e.g. "127.0.0.1": what can be read behind the host's
    /// pointer, `None` for null.
    pub bind_address: Option<Vec<u16>>,
    pub port: u16,
}

/// Where to listen: the address, loopback where it is empty, and the port.
pub open spec fn bind_text(address: Seq<char>, port: u16) -> Seq<char> {
    (if address.len() == 0 {
        "127.0.0.1"@
    } else {
        address
    }) + ":"@ + crate::decimal::decimal(port as nat)
}

impl McpConfig {
    /// The address is null, or ends where a scan ends.
    pub open spec fn valid(self) -> bool {
        self.bind_address matches Some(memory) ==> crate::ffi::scannable(memory@)
    }

    /// Where the configuration says to listen.
    pub open spec fn bind(self) -> Seq<char> {
        bind_text(
            crate::ffi::wide_text(crate::ffi::units_view(self.bind_address)),
            self.port,
        )
    }

    /// Where to listen, as a socket address. An absent or empty address means loopback.
    pub fn socket_address(&self) -> (bind: String)
        requires
            self.valid(),
        ensures
            bind@ == self.bind(),
    {
        let addr = match &self.bind_address {
            Some(memory) => from_utf16_ptr(Some(memory.as_slice())),
            None => from_utf16_ptr(None),
        };
        let mut bind = if addr.as_str().unicode_len() == 0 {
            "127.0.0.1".to_string()
        } else {
            addr
        };
        bind.append(":");
        bind.append(decimal_text(self.port as u64).as_str());
        bind
    }
}

/// A server that is running.
#[derive(Clone, Copy, Debug, PartialEq, Eq, Structural)]
pub struct ServerState {
    /// Whether the signal that ends the accept loop is still to be sent.
    pub shutdown: bool,
}

/// What the lock on the one server of the process shows.
#[derive(Clone, Copy, Debug, PartialEq, Eq, Structural)]
pub enum Slot {
    /// A thread panicked while it held the lock.
    Poisoned,
    /// No server is running.
    Free,
    Running(ServerState),
}

/// What came of binding the listener. A start waits for it, however long it takes.
pub enum Ready {
    /// It is bound, and can begin to accept connections.
    Bound,
    /// It could not be bound, for the given reason.
    Failed(String),
}

/// The runtime to build.
pub struct RuntimePlan {
    pub host: Host,
    pub bind: String,
    pub worker_threads: usize,
    pub thread_name: String,
}

/// The server to spawn on the runtime: where to bind, and the path to answer on.
pub struct ServePlan {
    pub host: Host,
    pub bind: String,
    pub path: String,
}

/// How a start ended: whether the server is up, the line for the log, and the slot that is
/// left.
pub struct StartEnd {
    pub up: bool,
    pub log: HostCall,
    pub slot: Slot,
}

/// What is left to do for a server that was stopped.
#[derive(Clone, Copy, Debug, PartialEq, Eq, Structural)]
pub struct StopPlan {
    /// Send the signal that ends the accept loop.
    pub signal: bool,
    /// Wait until every call into the host that is in flight has returned, and only then
    /// let the stop return: the host's callbacks need not stay valid after it. The host's
    /// own timeout on each call bounds the wait.
    pub await_calls: bool,
}

/// Why no start is attempted, if none is.
pub open spec fn refusal(slot: Slot) -> Option<Seq<char>> {
    match slot {
        Slot::Poisoned => Some("[MCP] internal lock poisoned; not starting"@),
        Slot::Running(_) => Some("[MCP] already running"@),
        Slot::Free => None,
    }
}

/// The line for a runtime that could not be built.
pub open spec fn runtime_failure(error: Seq<char>) -> Seq<char> {
    "[MCP] failed to create runtime: "@ + error
}

/// The line for a server that did not come up.
pub open spec fn serve_failure(bind: Seq<char>, error: Seq<char>) -> Seq<char> {
    "[MCP] failed to start on "@ + bind + ": "@ + error
}

/// The line for a server that is up.
pub open spec fn listening(bind: Seq<char>, path: Seq<char>) -> Seq<char> {
    "[MCP] listening on http://"@ + bind + path
}

/// The path that the server answers on.
pub open spec fn mcp_path() -> Seq<char> {
    "/mcp"@
}

/// The server that a successful start leaves behind.
pub open spec fn fresh_server() -> ServerState {
    ServerState { shutdown: true }
}

/// How a start ends: whether the server is up, the text of the line, and the slot.
pub struct StartRun {
    pub up: bool,
    pub line: Seq<char>,
    pub slot: Slot,
}

/// How a start ends once the bind is settled.
pub open spec fn bind_end(
    bind: Seq<char>,
    path: Seq<char>,
    slot: Slot,
    ready: Ready,
) -> StartRun {
    match ready {
        Ready::Bound => StartRun {
            up: true,
            line: listening(bind, path),
            slot: Slot::Running(fresh_server()),
        },
        Ready::Failed(error) => StartRun { up: false, line: serve_failure(bind, error@), slot },
    }
}

/// Start the server: the runtime to build, or, where the slot does not allow a start, the
/// line for the log.
pub fn mcp_start(config: &McpConfig, host: &McpHost, slot: &Slot) -> (start: Result<
    RuntimePlan,
    HostCall,
>)
    requires
        config.valid(),
    ensures
        match refusal(*slot) {
            Some(line) => start matches Err(log) && log@ == crate::ffi::log_call(host.ctx, line),
            None => {
                &&& start matches Ok(plan)
                &&& plan.host.0 == *host
                &&& plan.bind@ == config.bind()
                &&& plan.worker_threads == 2
                &&& plan.thread_name@ == "ue4ss-mcp"@
            },
        },
{
    let host = Host(*host);
    match slot {
        Slot::Poisoned => Err(host.log("[MCP] internal lock poisoned; not starting")),
        Slot::Running(_) => Err(host.log("[MCP] already running")),
        Slot::Free => {
            let bind = config.socket_address();
            // Two workers is plenty: tool calls are dominated by blocking on the game
            // thread, not by CPU.
            Ok(
                RuntimePlan {
                    host,
                    bind,
                    worker_threads: 2,
                    thread_name: "ue4ss-mcp".to_string(),
                },
            )
        },
    }
}

impl RuntimePlan {
    /// Goes on from how building the runtime went; an error is handed over as its text.
    pub fn built(self, runtime: Result<(), String>) -> (next: Result<ServePlan, HostCall>)
        ensures
            match runtime {
                Ok(_) => {
                    &&& next matches Ok(plan)
                    &&& plan.host == self.host
                    &&& plan.bind@ == self.bind@
                    &&& plan.path@ == mcp_path()
                },
                Err(error) => {
                    &&& next matches Err(log)
                    &&& log@ == crate::ffi::log_call(self.host.0.ctx, runtime_failure(error@))
                },
            },
    {
        match runtime {
            Ok(_) => Ok(
                ServePlan {
                    host: self.host,
                    bind: self.bind,
                    path: "/mcp".to_string(),
                },
            ),
            Err(error) => {
                let mut line = "[MCP] failed to create runtime: ".to_string();
                line.append(error.as_str());
                Err(self.host.log(line.as_str()))
            },
        }
    }
}

impl ServePlan {
    /// Goes on from what came of the bind: the server is up exactly where the listener is
    /// bound, and then it takes the slot.
    pub fn settled(self, ready: Ready, slot: Slot) -> (end: StartEnd)
        ensures
            end.up == bind_end(self.bind@, self.path@, slot, ready).up,
            end.log@ == crate::ffi::log_call(
                self.host.0.ctx,
                bind_end(self.bind@, self.path@, slot, ready).line,
            ),
            end.slot == bind_end(self.bind@, self.path@, slot, ready).slot,
    {
        match ready {
            Ready::Bound => {
                let mut line = "[MCP] listening on http://".to_string();
                line.append(self.bind.as_str());
                line.append(self.path.as_str());
                StartEnd {
                    up: true,
                    log: self.host.log(line.as_str()),
                    slot: Slot::Running(ServerState { shutdown: true }),
                }
            },
            Ready::Failed(error) => {
                let mut line = "[MCP] failed to start on ".to_string();
                line.append(self.bind.as_str());
                line.append(": ");
                line.append(error.as_str());
                StartEnd { up: false, log: self.host.log(line.as_str()), slot }
            },
        }
    }
}

/// The slot after a stop: a running server is taken out of it.
pub open spec fn stopped(slot: Slot) -> Slot {
    match slot {
        Slot::Running(_) => Slot::Free,
        _ => slot,
    }
}

/// Stop the server. `None` where none was running, in which case there is nothing to do;
/// otherwise what is to be done before the stop returns.
pub fn mcp_stop(slot: &mut Slot) -> (plan: Option<StopPlan>)
    ensures
        *final(slot) == stopped(*old(slot)),
        plan == (match *old(slot) {
            Slot::Running(state) => Some(StopPlan { signal: state.shutdown, await_calls: true }),
            _ => None,
        }),
{
    match *slot {
        Slot::Running(state) => {
            *slot = Slot::Free;
            Some(StopPlan { signal: state.shutdown, await_calls: true })
        },
        _ => None,
    }
}

/// Whether the server is currently running.
pub fn mcp_is_running(slot: &Slot) -> (running: bool)
    ensures
        running == (slot is Running),
{
    match slot {
        Slot::Running(_) => true,
        _ => false,
    }
}

/// A whole start from `slot` on the address `bind`, given how building the runtime went
/// and what came of the bind: the steps one after the other, up to the first
/// that ends it.
pub open spec fn start_run(
    bind: Seq<char>,
    slot: Slot,
    runtime: Result<(), Seq<char>>,
    ready: Ready,
) -> StartRun {
    match refusal(slot) {
        Some(line) => StartRun { up: false, line, slot },
        None => match runtime {
            Err(error) => StartRun { up: false, line: runtime_failure(error), slot },
            Ok(_) => bind_end(bind, mcp_path(), slot, ready),
        },
    }
}

/// A start that [`mcp_start`] refuses ends as [`start_run`] says.
pub proof fn refused_start_goes_as_stated(
    config: McpConfig,
    host: McpHost,
    slot: Slot,
    log: HostCall,
    runtime: Result<(), Seq<char>>,
    ready: Ready,
)
    requires
        call_ensures(mcp_start, (&config, &host, &slot), Err::<RuntimePlan, HostCall>(log)),
    ensures
        ({
            let run = start_run(config.bind(), slot, runtime, ready);
            &&& log@ == crate::ffi::log_call(host.ctx, run.line)
            &&& !run.up
            &&& run.slot == slot
        }),
{
}

/// A start for which no runtime could be built ends as [`start_run`] says.
pub proof fn unbuilt_start_goes_as_stated(
    config: McpConfig,
    host: McpHost,
    slot: Slot,
    plan: RuntimePlan,
    error: String,
    next: Result<ServePlan, HostCall>,
    ready: Ready,
)
    requires
        call_ensures(mcp_start, (&config, &host, &slot), Ok::<RuntimePlan, HostCall>(plan)),
        call_ensures(RuntimePlan::built, (plan, Err::<(), String>(error)), next),
    ensures
        ({
            let run = start_run(config.bind(), slot, Err(error@), ready);
            &&& next matches Err(log) && log@ == crate::ffi::log_call(host.ctx, run.line)
            &&& !run.up
            &&& run.slot == slot
        }),
{
}

/// A start that gets as far as the bind ends as [`start_run`] says.
pub proof fn settled_start_goes_as_stated(
    config: McpConfig,
    host: McpHost,
    slot: Slot,
    plan: RuntimePlan,
    serve: ServePlan,
    ready: Ready,
    end: StartEnd,
)
    requires
        call_ensures(mcp_start, (&config, &host, &slot), Ok::<RuntimePlan, HostCall>(plan)),
        call_ensures(
            RuntimePlan::built,
            (plan, Ok::<(), String>(())),
            Ok::<ServePlan, HostCall>(serve),
        ),
        call_ensures(ServePlan::settled, (serve, ready, slot), end),
    ensures
        ({
            let run = start_run(config.bind(), slot, Ok(()), ready);
            &&& end.up == run.up
            &&& end.log@ == crate::ffi::log_call(host.ctx, run.line)
            &&& end.slot == run.slot
        }),
{
}

/// A start brings the server up exactly where none was running, the runtime was built and
/// the listener is bound. In every other case the slot is as it was.
pub proof fn start_outcome(
    bind: Seq<char>,
    slot: Slot,
    runtime: Result<(), Seq<char>>,
    ready: Ready,
)
    ensures
        ({
            let run = start_run(bind, slot, runtime, ready);
            &&& run.up <==> slot is Free && runtime is Ok && ready is Bound
            &&& run.up ==> run.slot == Slot::Running(fresh_server())
            &&& !run.up ==> run.slot == slot
        }),
{
}

/// While a server is running every further start is refused as such and changes nothing.
pub proof fn second_start_is_refused(
    first: Seq<char>,
    second: Seq<char>,
    slot: Slot,
    runtime: Result<(), Seq<char>>,
    ready: Ready,
    runtime_again: Result<(), Seq<char>>,
    ready_again: Ready,
)
    requires
        start_run(first, slot, runtime, ready).up,
    ensures
        ({
            let between = start_run(first, slot, runtime, ready).slot;
            let again = start_run(second, between, runtime_again, ready_again);
            &&& !again.up
            &&& again.line == "[MCP] already running"@
            &&& again.slot == between
        }),
{
}

/// A stop undoes a start: the slot is again as it was, so the next start goes as the first
/// would have gone.
pub proof fn stop_undoes_start(
    bind: Seq<char>,
    slot: Slot,
    runtime: Result<(), Seq<char>>,
    ready: Ready,
)
    requires
        start_run(bind, slot, runtime, ready).up,
    ensures
        stopped(start_run(bind, slot, runtime, ready).slot) == slot,
{
}

/// After a stop nothing is running, and a further stop changes nothing.
pub proof fn stop_is_idempotent(slot: Slot)
    ensures
        !(stopped(slot) is Running),
        stopped(stopped(slot)) == stopped(slot),
{
}

/// Without an address, or with an empty one, the server listens on loopback only.
pub proof fn binding_defaults_to_loopback(config: McpConfig)
    requires
        config.bind_address matches Some(memory) ==> memory@.len() > 0 && memory@[0] == 0u16,
    ensures
        config.bind() == "127.0.0.1"@ + ":"@ + crate::decimal::decimal(config.port as nat),
{
    if let Some(memory) = config.bind_address {
        memory@.index_of_first_ensures(0u16);
        assert(memory@.take(0) =~= Seq::<u16>::empty());
    }
}

/// An address that the host handed over as a text is the address that is bound.
pub proof fn binding_keeps_the_address(config: McpConfig, address: Seq<char>)
    requires
        config.bind_address matches Some(memory) && memory@ == crate::ffi::wide(address),
        address.len() > 0,
        !address.contains('\0'),
        crate::utf16::encode(address).len() <= crate::ffi::SCAN_LIMIT,
    ensures
        config.bind() == address + ":"@ + crate::decimal::decimal(config.port as nat),
{
    crate::ffi::wide_reads_back(address);
}

} // verus!
