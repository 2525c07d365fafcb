//! What the operations of the library are for, said of their inputs and results.
//!
//! Each law speaks of calls: of what a function was given, what it returned, and how that
//! relates to what other calls return. Texts, units and numbers are stated as such.

use crate::decimal::decimal_text;
use crate::ffi::{
    from_utf16_ptr, to_utf16, Callback, Host, HostCall, HostReply, McpHost, McpString, WideScan,
};
use crate::protocol::{ContentBlock, ErrorData, ServerInfo};
use crate::server::{
    mcp_is_running, mcp_start, mcp_stop, McpConfig, Ready, RuntimePlan, ServePlan, ServerState,
    Slot, StartEnd, StopPlan,
};
use crate::session::{HandleEvent, SessionEvent, SessionGuard, Sessions, SharedSession};
use crate::tools::{
    offload, ConsoleCommandArgs, Joined, LogTailArgs, LuaEvalArgs, Pd3Server, Tool, ToolCall,
    ToolReport, ToolRouter,
};
use crate::utf16::{decode_units, encode_units};
use vstd::prelude::*;

verus! {

// ---- Numerals ----------------------------------------------------------------------------

/// A numeral reads back as its number: it is made of decimal digits, the most significant
/// first, without a leading zero.
pub proof fn numeral_reads_back(n: u64, text: String)
    requires
        call_ensures(decimal_text, (n,), text),
    ensures
        text@.len() > 0,
        forall|i: int| 0 <= i < text@.len() ==> '0' <= #[trigger] text@[i] <= '9',
        text@.len() > 1 ==> text@[0] != '0',
        text@.fold_left(0int, |value: int, c: char| 10 * value + (c as int - '0' as int)) == n,
{
    numeral_value(n as nat, |value: int, c: char| 10 * value + (c as int - '0' as int));
}

/// The value of a numeral, read digit by digit by `read`.
proof fn numeral_value(n: nat, read: spec_fn(int, char) -> int)
    requires
        forall|value: int, c: char|
            #[trigger] read(value, c) == 10 * value + (c as int - '0' as int),
    ensures
        crate::decimal::decimal(n).len() > 0,
        forall|i: int|
            0 <= i < crate::decimal::decimal(n).len() ==> '0'
                <= #[trigger] crate::decimal::decimal(n)[i] <= '9',
        n > 0 ==> crate::decimal::decimal(n)[0] != '0',
        n < 10 ==> crate::decimal::decimal(n).len() == 1,
        crate::decimal::decimal(n).fold_left(0int, read) == n,
    decreases n,
{
    let text = crate::decimal::decimal(n);
    if n < 10 {
        assert(text.drop_last() =~= Seq::<char>::empty());
        reveal_with_fuel(Seq::fold_left, 2);
    } else {
        numeral_value(n / 10, read);
        assert(text.drop_last() =~= crate::decimal::decimal(n / 10));
        reveal_with_fuel(Seq::fold_left, 2);
    }
}

// ---- UTF-16 ------------------------------------------------------------------------------

/// The units of a single character: its number, or the surrogate pair that stands for it.
pub proof fn units_of_one_character(text: &str, c: char, units: Vec<u16>)
    requires
        call_ensures(encode_units, (text,), units),
        text@ == seq![c],
    ensures
        (c as int) < 0x10000 ==> units@ == seq![c as u16],
        (c as int) >= 0x10000 ==> {
            &&& units@.len() == 2
            &&& 0xD800 <= units@[0] <= 0xDBFF
            &&& 0xDC00 <= units@[1] <= 0xDFFF
            &&& 0x10000 + (units@[0] - 0xD800) * 0x400 + (units@[1] - 0xDC00) == c as int
        },
{
    reveal_with_fuel(crate::utf16::encode, 2);
    assert(seq![c].drop_first() =~= Seq::<char>::empty());
    assert(units@ =~= crate::utf16::encode_char(c));
}

/// The units of a text are those of its parts, one after the other.
pub proof fn units_of_a_concatenation(
    a: &str,
    b: &str,
    both: &str,
    units_a: Vec<u16>,
    units_b: Vec<u16>,
    units_both: Vec<u16>,
)
    requires
        call_ensures(encode_units, (a,), units_a),
        call_ensures(encode_units, (b,), units_b),
        call_ensures(encode_units, (both,), units_both),
        both@ == a@ + b@,
    ensures
        units_both@ == units_a@ + units_b@,
        a@.len() == 0 ==> units_a@.len() == 0,
{
    crate::utf16::encode_concat(a@, b@);
}

/// A unit that is no surrogate is the character of that number.
pub proof fn plain_unit_is_its_character(
    unit: u16,
    units: &[u16],
    rest: &[u16],
    text: String,
    rest_text: String,
)
    requires
        call_ensures(decode_units, (units,), text),
        call_ensures(decode_units, (rest,), rest_text),
        units@ == seq![unit] + rest@,
        unit < 0xD800 || unit > 0xDFFF,
    ensures
        text@ == seq![unit as char] + rest_text@,
        rest@.len() == 0 ==> rest_text@.len() == 0,
{
    assert(units@[0] == unit);
    assert(units@.skip(1) =~= rest@);
}

/// A surrogate pair is the one character that it stands for.
pub proof fn surrogate_pair_is_one_character(
    high: u16,
    low: u16,
    units: &[u16],
    rest: &[u16],
    text: String,
    rest_text: String,
)
    requires
        call_ensures(decode_units, (units,), text),
        call_ensures(decode_units, (rest,), rest_text),
        units@ == seq![high, low] + rest@,
        0xD800 <= high <= 0xDBFF,
        0xDC00 <= low <= 0xDFFF,
    ensures
        text@ == seq![(0x10000 + (high - 0xD800) * 0x400 + (low - 0xDC00)) as char] + rest_text@,
{
    assert(units@[0] == high);
    assert(units@[1] == low);
    assert(units@.skip(2) =~= rest@);
}

/// A surrogate that is no half of a pair becomes U+FFFD, and nothing else is lost.
pub proof fn lone_surrogate_is_replaced(
    unit: u16,
    units: &[u16],
    rest: &[u16],
    text: String,
    rest_text: String,
)
    requires
        call_ensures(decode_units, (units,), text),
        call_ensures(decode_units, (rest,), rest_text),
        units@ == seq![unit] + rest@,
        0xD800 <= unit <= 0xDFFF,
        0xDC00 <= unit || rest@.len() == 0 || rest@[0] < 0xDC00 || rest@[0] > 0xDFFF,
    ensures
        text@ == seq!['\u{FFFD}'] + rest_text@,
{
    assert(units@[0] == unit);
    assert(units@.skip(1) =~= rest@);
    if units@.len() > 1 {
        assert(units@[1] == rest@[0]);
    }
}

/// Reading the units of a text gives the text.
pub proof fn reading_undoes_writing(text: &str, written: Vec<u16>, units: &[u16], read: String)
    requires
        call_ensures(encode_units, (text,), written),
        units@ == written@,
        call_ensures(decode_units, (units,), read),
    ensures
        read@ == text@,
{
    crate::utf16::decode_undoes_encode(text@);
}

// ---- Strings across the boundary ---------------------------------------------------------

/// What the host is handed is the units of the whole text, and one terminator.
pub proof fn handed_over_text_is_whole(text: &str, units: Vec<u16>, wide: Vec<u16>)
    requires
        call_ensures(encode_units, (text,), units),
        call_ensures(to_utf16, (text,), wide),
    ensures
        wide@ == units@ + seq![0u16],
{
    assert(wide@ =~= units@ + seq![0u16]);
}

/// What is handed over reads back as it was, up to the first NUL, if it fits the limit.
pub proof fn handed_over_text_reads_back(
    text: &str,
    wide: Vec<u16>,
    memory: &[u16],
    read: String,
)
    requires
        call_ensures(to_utf16, (text,), wide),
        memory@ == wide@,
        call_ensures(from_utf16_ptr, (Some::<&[u16]>(memory),), read),
        wide@.len() <= 4194306,
    ensures
        !text@.contains('\0') ==> read@ == text@,
        forall|n: int|
            0 <= n < text@.len() && text@[n] == '\0' && !(#[trigger] text@.take(n)).contains('\0')
                ==> read@ == text@.take(n),
{
    if !text@.contains('\0') {
        crate::ffi::wide_reads_back(text@);
    }
    assert forall|n: int|
        0 <= n < text@.len() && text@[n] == '\0' && !(#[trigger] text@.take(n)).contains(
            '\0',
        ) implies read@ == text@.take(n) by {
        let after = text@.skip(n + 1);
        assert(text@ =~= text@.take(n).push('\0') + after);
        crate::utf16::encode_concat(text@.take(n), seq!['\0'] + after);
        assert(text@ =~= text@.take(n) + (seq!['\0'] + after));
        crate::ffi::wide_reads_up_to_nul(text@.take(n), after);
    }
}

/// A string in memory is read up to its terminator, or up to 4194305 units where it has
/// none before.
pub proof fn memory_is_read_up_to_the_terminator(
    memory: &[u16],
    n: int,
    units: &[u16],
    text: String,
    read: String,
)
    requires
        call_ensures(from_utf16_ptr, (Some::<&[u16]>(memory),), read),
        0 <= n <= memory@.len(),
        n <= 4194305,
        forall|j: int| 0 <= j < n ==> memory@[j] != 0,
        n == 4194305 || (n < memory@.len() && memory@[n] == 0),
        units@ == memory@.take(n),
        call_ensures(decode_units, (units,), text),
    ensures
        read@ == text@,
{
    memory@.index_of_first_ensures(0u16);
    assert(crate::ffi::scan_len(memory@) == n);
}

/// A null pointer is read as the empty text.
pub proof fn null_is_read_as_empty(read: String)
    requires
        call_ensures(from_utf16_ptr, (None::<&[u16]>,), read),
    ensures
        read@.len() == 0,
{
}

/// One step of a walk: a terminator ends it where it stands; any other unit takes it one
/// further, and ends it only at 4194305 units.
pub proof fn walk_goes_unit_by_unit(
    scan: &mut WideScan,
    unit: u16,
    open_before: bool,
    len_before: usize,
    after: WideScan,
    open_after: bool,
    len_after: usize,
)
    requires
        call_ensures(WideScan::is_open, (&*scan,), open_before),
        call_ensures(WideScan::len, (&*scan,), len_before),
        open_before,
        call_ensures(WideScan::feed, (scan, unit), ()),
        after == *final(scan),
        call_ensures(WideScan::is_open, (&after,), open_after),
        call_ensures(WideScan::len, (&after,), len_after),
    ensures
        unit == 0 ==> !open_after && len_after == len_before,
        unit != 0 ==> len_after == len_before + 1,
        unit != 0 ==> (open_after <==> len_before + 1 < 4194305),
{
}

/// A walk begins at the first unit.
pub proof fn walk_begins_at_the_start(begun: WideScan, open: bool, len: usize)
    requires
        call_ensures(WideScan::new, (), begun),
        call_ensures(WideScan::is_open, (&begun,), open),
        call_ensures(WideScan::len, (&begun,), len),
    ensures
        open,
        len == 0,
{
}

/// The string of an out-parameter is what stands in its first `len` units; a null one is
/// empty.
pub proof fn host_string_is_its_units(s: McpString, units: &[u16], text: String, read: String)
    requires
        call_ensures(McpString::to_string_lossy, (&s,), read),
        s.data matches Some(data) ==> s.len <= data@.len() && units@ == data@.take(s.len as int),
        s.data is None ==> units@.len() == 0,
        call_ensures(decode_units, (units,), text),
    ensures
        read@ == text@,
{
    assert(s.data is None ==> units@ =~= Seq::<u16>::empty());
}

/// Before the host fills it in, an out-parameter is null.
pub proof fn empty_string_is_null(s: McpString)
    requires
        call_ensures(McpString::empty, (), s),
    ensures
        s.data is None,
        s.len == 0,
{
}

// ---- Calls into the host -----------------------------------------------------------------

/// A log line reaches the host whole, with the host's own context.
pub proof fn log_hands_over_the_line(host: Host, msg: &str, wide: Vec<u16>, call: HostCall)
    requires
        call_ensures(to_utf16, (msg,), wide),
        call_ensures(Host::log, (&host, msg), call),
    ensures
        call.ctx == host.0.ctx,
        call.callback matches Callback::Log { msg: units } && units@ == wide@,
{
}

/// The code reaches the host whole.
pub proof fn lua_eval_hands_over_the_code(
    host: Host,
    code: &str,
    wide: Vec<u16>,
    call: HostCall,
)
    requires
        call_ensures(to_utf16, (code,), wide),
        call_ensures(Host::lua_eval, (&host, code), call),
    ensures
        call.ctx == host.0.ctx,
        call.callback matches Callback::LuaEval { code: units } && units@ == wide@,
{
}

/// The command reaches the host whole.
pub proof fn console_command_hands_over_the_command(
    host: Host,
    command: &str,
    wide: Vec<u16>,
    call: HostCall,
)
    requires
        call_ensures(to_utf16, (command,), wide),
        call_ensures(Host::execute_console_command, (&host, command), call),
    ensures
        call.ctx == host.0.ctx,
        call.callback matches Callback::ExecuteConsoleCommand { command: units } && units@ == wide@,
{
}

/// The number of lines and the filter reach the host as they are; no filter is null.
pub proof fn log_tail_hands_over_lines_and_filter(
    host: Host,
    lines: u32,
    filter: &str,
    wide: Vec<u16>,
    filtered: HostCall,
    unfiltered: HostCall,
)
    requires
        call_ensures(to_utf16, (filter,), wide),
        call_ensures(Host::log_tail, (&host, lines, Some::<&str>(filter)), filtered),
        call_ensures(Host::log_tail, (&host, lines, None::<&str>), unfiltered),
    ensures
        filtered.ctx == host.0.ctx,
        filtered.callback matches Callback::LogTail { lines: asked, filter: Some(units) } && asked
            == lines && units@ == wide@,
        unfiltered.ctx == host.0.ctx,
        unfiltered.callback matches Callback::LogTail { lines: asked, filter: None } && asked
            == lines,
{
}

/// Asking for the state and for a reload hand over nothing but the context.
pub proof fn status_and_reload_hand_over_the_context(
    host: Host,
    status: HostCall,
    reload: HostCall,
)
    requires
        call_ensures(Host::game_status, (&host,), status),
        call_ensures(Host::reload_mods, (&host,), reload),
    ensures
        status.ctx == host.0.ctx,
        status.callback is GameStatus,
        reload.ctx == host.0.ctx,
        reload.callback is ReloadMods,
{
}

/// An invocation is recorded with its whole name and arguments and with how it went.
pub proof fn on_tool_call_hands_over_the_invocation(
    host: Host,
    tool: &str,
    args_json: &str,
    ok: bool,
    wide_tool: Vec<u16>,
    wide_args: Vec<u16>,
    call: HostCall,
)
    requires
        call_ensures(to_utf16, (tool,), wide_tool),
        call_ensures(to_utf16, (args_json,), wide_args),
        call_ensures(Host::on_tool_call, (&host, tool, args_json, ok), call),
    ensures
        call.ctx == host.0.ctx,
        call.callback matches Callback::OnToolCall { tool: t, args_json: a, ok: went } && t@
            == wide_tool@ && a@ == wide_args@ && went == ok,
{
}

/// What the host filled in is taken whole, and exactly that is released, whichever way the
/// call went; `ok` alone decides which way that is.
pub proof fn reply_takes_and_releases_what_came(
    host: Host,
    ok: bool,
    out: McpString,
    text: String,
    reply: HostReply,
    taken: (String, HostCall),
)
    requires
        call_ensures(McpString::to_string_lossy, (&out,), text),
        call_ensures(Host::reply, (&host, ok, out), reply),
        call_ensures(Host::take, (&host, out), taken),
    ensures
        ok ==> (reply.result matches Ok(got) && got@ == text@),
        !ok ==> (reply.result matches Err(got) && got@ == text@),
        taken.0@ == text@,
        forall|free: HostCall|
            #![trigger free.callback]
            free == reply.free || free == taken.1 ==> {
                &&& free.ctx == host.0.ctx
                &&& free.callback matches Callback::FreeString { s }
                &&& s.len == out.len
                &&& out.data is None ==> s.data is None
                &&& out.data matches Some(units) ==> (s.data matches Some(freed) && freed@
                    == units@)
            },
{
}

// ---- Starting and stopping ---------------------------------------------------------------

/// A port number written behind an address: a colon, and the decimal digits of the port.
proof fn port_is_written_out(port: u16, text: Seq<char>)
    requires
        text == ":"@ + crate::decimal::decimal(port as nat),
    ensures
        text.len() > 1,
        text[0] == ':',
        forall|i: int| 1 <= i < text.len() ==> '0' <= #[trigger] text[i] <= '9',
        text.len() > 2 ==> text[1] != '0',
        text.skip(1).fold_left(0int, |value: int, c: char| 10 * value + (c as int - '0' as int))
            == port,
{
    reveal_strlit(":");
    let digits = crate::decimal::decimal(port as nat);
    numeral_value(port as nat, |value: int, c: char| 10 * value + (c as int - '0' as int));
    assert(text.skip(1) =~= digits);
    assert forall|i: int| 1 <= i < text.len() implies '0' <= #[trigger] text[i] <= '9' by {
        assert(text[i] == digits[i - 1]);
    }
    assert(text[1] == digits[0]);
}

/// The server is bound to the address that the host handed over, whole and unchanged, and
/// to the port that it handed over.
pub proof fn given_address_and_port_are_bound(
    config: McpConfig,
    memory: &[u16],
    address: String,
    bind: String,
)
    requires
        config.bind_address matches Some(units) && units@ == memory@,
        call_ensures(from_utf16_ptr, (Some::<&[u16]>(memory),), address),
        address@.len() > 0,
        call_ensures(McpConfig::socket_address, (&config,), bind),
    ensures
        ({
            let n = address@.len() as int;
            &&& bind@.len() > n + 1
            &&& bind@.take(n) == address@
            &&& bind@[n] == ':'
            &&& forall|i: int| n < i < bind@.len() ==> '0' <= #[trigger] bind@[i] <= '9'
            &&& bind@.len() > n + 2 ==> bind@[n + 1] != '0'
            &&& bind@.skip(n + 1).fold_left(
                0int,
                |value: int, c: char| 10 * value + (c as int - '0' as int),
            ) == config.port
        }),
{
    let n = address@.len() as int;
    let tail = ":"@ + crate::decimal::decimal(config.port as nat);
    assert(bind@ =~= address@ + tail);
    port_is_written_out(config.port, tail);
    assert(bind@.take(n) =~= address@);
    assert(bind@.skip(n + 1) =~= tail.skip(1));
    assert forall|i: int| n < i < bind@.len() implies '0' <= #[trigger] bind@[i] <= '9' by {
        assert(bind@[i] == tail[i - n]);
    }
    assert(bind@[n] == tail[0]);
    assert(bind@[n + 1] == tail[1]);
}

/// Without an address, or with an empty one, the server is bound to 127.0.0.1 and to the
/// port that the host handed over.
pub proof fn missing_address_is_loopback(
    config: McpConfig,
    memory: &[u16],
    address: String,
    bind: String,
)
    requires
        config.bind_address matches Some(units) ==> units@ == memory@,
        call_ensures(from_utf16_ptr, (Some::<&[u16]>(memory),), address),
        config.bind_address is Some ==> address@.len() == 0,
        call_ensures(McpConfig::socket_address, (&config,), bind),
    ensures
        bind@.len() > 10,
        bind@.take(10) == seq!['1', '2', '7', '.', '0', '.', '0', '.', '1', ':'],
        forall|i: int| 10 <= i < bind@.len() ==> '0' <= #[trigger] bind@[i] <= '9',
        bind@.len() > 11 ==> bind@[10] != '0',
        bind@.skip(10).fold_left(
            0int,
            |value: int, c: char| 10 * value + (c as int - '0' as int),
        ) == config.port,
{
    reveal_strlit("127.0.0.1");
    let tail = ":"@ + crate::decimal::decimal(config.port as nat);
    assert(bind@ =~= "127.0.0.1"@ + tail);
    port_is_written_out(config.port, tail);
    assert(bind@.take(10) =~= seq!['1', '2', '7', '.', '0', '.', '0', '.', '1', ':']);
    assert(bind@.skip(10) =~= tail.skip(1));
    assert forall|i: int| 10 <= i < bind@.len() implies '0' <= #[trigger] bind@[i] <= '9' by {
        assert(bind@[i] == tail[i - 9]);
    }
    assert(bind@[10] == tail[1]);
}

/// A start is refused exactly while a server is running or the lock is poisoned, and the
/// log says which. Otherwise it goes on with the configured address on its own host.
pub proof fn start_is_refused_while_running(
    config: McpConfig,
    host: McpHost,
    slot: Slot,
    bind: String,
    start: Result<RuntimePlan, HostCall>,
)
    requires
        call_ensures(McpConfig::socket_address, (&config,), bind),
        call_ensures(mcp_start, (&config, &host, &slot), start),
    ensures
        start is Ok <==> slot == Slot::Free,
        slot is Running ==> (start matches Err(log) && log.ctx == host.ctx && (
        log.callback matches Callback::Log { msg } && msg@ == crate::utf16::encode(
            "[MCP] already running"@,
        ).push(0u16))),
        slot is Poisoned ==> (start matches Err(log) && log.ctx == host.ctx && (
        log.callback matches Callback::Log { msg } && msg@ == crate::utf16::encode(
            "[MCP] internal lock poisoned; not starting"@,
        ).push(0u16))),
        start matches Ok(plan) ==> {
            &&& plan.bind@ == bind@
            &&& plan.host.0.ctx == host.ctx
            &&& plan.worker_threads == 2
            &&& plan.thread_name@ == "ue4ss-mcp"@
        },
{
}

/// Once the runtime is built the start goes on where it was to be bound; where it could not
/// be, the start ends and the log gives the whole reason.
pub proof fn start_needs_a_runtime(
    plan: RuntimePlan,
    error: String,
    failed: Result<ServePlan, HostCall>,
    built: Result<ServePlan, HostCall>,
)
    requires
        call_ensures(RuntimePlan::built, (plan, Err::<(), String>(error)), failed),
        call_ensures(RuntimePlan::built, (plan, Ok::<(), String>(())), built),
    ensures
        failed matches Err(log) && log.ctx == plan.host.0.ctx && (
        log.callback matches Callback::Log { msg } && msg@ == crate::utf16::encode(
            "[MCP] failed to create runtime: "@ + error@,
        ).push(0u16)),
        built matches Ok(next) && next.host.0.ctx == plan.host.0.ctx && next.bind@ == plan.bind@
            && next.path@ == "/mcp"@,
{
}

/// The bind decides a start: where it succeeds the server is running and the log says where;
/// where it fails nothing changes and the log gives the whole reason.
pub proof fn bind_decides_the_start(
    plan: ServePlan,
    slot: Slot,
    error: String,
    up: StartEnd,
    down: StartEnd,
    running_up: bool,
    running_before: bool,
    running_down: bool,
)
    requires
        call_ensures(ServePlan::settled, (plan, Ready::Bound, slot), up),
        call_ensures(ServePlan::settled, (plan, Ready::Failed(error), slot), down),
        call_ensures(mcp_is_running, (&up.slot,), running_up),
        call_ensures(mcp_is_running, (&slot,), running_before),
        call_ensures(mcp_is_running, (&down.slot,), running_down),
    ensures
        up.up,
        running_up,
        up.slot == Slot::Running(ServerState { shutdown: true }),
        up.log.ctx == plan.host.0.ctx,
        up.log.callback matches Callback::Log { msg } && msg@ == crate::utf16::encode(
            "[MCP] listening on http://"@ + plan.bind@ + plan.path@,
        ).push(0u16),
        !down.up,
        running_down == running_before,
        down.slot == slot,
        down.log.ctx == plan.host.0.ctx,
        down.log.callback matches Callback::Log { msg } && msg@ == crate::utf16::encode(
            "[MCP] failed to start on "@ + plan.bind@ + ": "@ + error@,
        ).push(0u16),
{
}

/// A server is running exactly while the slot holds one.
pub proof fn running_means_the_slot_is_taken(slot: Slot, running: bool)
    requires
        call_ensures(mcp_is_running, (&slot,), running),
    ensures
        running <==> slot != Slot::Free && slot != Slot::Poisoned,
{
}

/// After a stop nothing is running. A server that was is told to end, and its calls are
/// waited for; where none was, there is nothing to do and nothing changes.
pub proof fn stop_ends_the_server(
    slot: &mut Slot,
    before: Slot,
    plan: Option<StopPlan>,
    after: Slot,
    running_before: bool,
    running_after: bool,
)
    requires
        before == *slot,
        call_ensures(mcp_is_running, (&before,), running_before),
        call_ensures(mcp_stop, (slot,), plan),
        after == *final(slot),
        call_ensures(mcp_is_running, (&after,), running_after),
    ensures
        !running_after,
        running_before <==> plan is Some,
        running_before ==> after == Slot::Free,
        !running_before ==> after == before,
        plan matches Some(todo) ==> todo.await_calls && (before matches Slot::Running(state)
            && todo.signal == state.shutdown),
{
}

// ---- Sessions ----------------------------------------------------------------------------

/// No session has begun, and the first will have the id 1.
pub proof fn sessions_begin_empty(sessions: Sessions)
    requires
        call_ensures(Sessions::new, (), sessions),
    ensures
        sessions.next_id == 1,
        sessions.active == 0,
{
}

/// A session that begins takes the next id, is counted, and logs both.
pub proof fn session_begins(
    host: Host,
    sessions: &mut Sessions,
    before: Sessions,
    after: Sessions,
    begun: (SessionGuard, HostCall),
    id_text: String,
    active_text: String,
)
    requires
        before == *sessions,
        after == *final(sessions),
        before.active < u64::MAX,
        call_ensures(SessionGuard::new, (host, sessions), begun),
        call_ensures(decimal_text, (before.next_id,), id_text),
        call_ensures(decimal_text, ((before.active + 1) as u64,), active_text),
    ensures
        begun.0.id == before.next_id,
        begun.0.host.0.ctx == host.0.ctx,
        after.active == before.active + 1,
        before.next_id < u64::MAX ==> after.next_id == before.next_id + 1,
        before.next_id == u64::MAX ==> after.next_id == 0,
        begun.1.ctx == host.0.ctx,
        begun.1.callback matches Callback::Log { msg } && msg@ == crate::utf16::encode(
            "[MCP] client connected (session "@ + id_text@ + ", "@ + active_text@ + " active)"@,
        ).push(0u16),
{
}

/// A session that ends is no longer counted, and logs its id and how many remain. No id is
/// given back.
pub proof fn session_ends(
    guard: SessionGuard,
    sessions: &mut Sessions,
    before: Sessions,
    after: Sessions,
    log: HostCall,
    id_text: String,
    left_text: String,
)
    requires
        before == *sessions,
        after == *final(sessions),
        before.active > 0,
        call_ensures(SessionGuard::drop, (guard, sessions), log),
        call_ensures(decimal_text, (guard.id,), id_text),
        call_ensures(decimal_text, ((before.active - 1) as u64,), left_text),
    ensures
        after.active == before.active - 1,
        after.next_id == before.next_id,
        log.ctx == guard.host.0.ctx,
        log.callback matches Callback::Log { msg } && msg@ == crate::utf16::encode(
            "[MCP] client disconnected (session "@ + id_text@ + ", "@ + left_text@ + " active)"@,
        ).push(0u16),
{
}

/// Over any history of sessions that begin and end, none ending that did not begin, the
/// counter is the number that began less the number that ended, and the sessions that began
/// are numbered from 1 in order.
pub proof fn sessions_are_counted(
    events: Seq<SessionEvent>,
    states: Seq<Sessions>,
    books: Seq<&mut Sessions>,
    hosts: Seq<Host>,
    begun: Seq<(SessionGuard, HostCall)>,
    ended: Seq<SessionGuard>,
    logs: Seq<HostCall>,
    at: int,
)
    requires
        events.len() < u64::MAX,
        states.len() == events.len() + 1,
        call_ensures(Sessions::new, (), states[0]),
        forall|i: int|
            0 <= i < events.len() ==> {
                &&& *(#[trigger] books[i]) == states[i]
                &&& *final(books[i]) == states[i + 1]
                &&& events[i] is Connect ==> call_ensures(
                    SessionGuard::new,
                    (hosts[i], books[i]),
                    begun[i],
                )
                &&& events[i] is Disconnect ==> call_ensures(
                    SessionGuard::drop,
                    (ended[i], books[i]),
                    logs[i],
                )
            },
        forall|i: int|
            0 <= i <= events.len() ==> (#[trigger] events.take(i)).filter(
                |e: SessionEvent| e is Disconnect,
            ).len() <= events.take(i).filter(|e: SessionEvent| e is Connect).len(),
        0 <= at <= events.len(),
    ensures
        states[at].active == events.take(at).filter(|e: SessionEvent| e is Connect).len()
            - events.take(at).filter(|e: SessionEvent| e is Disconnect).len(),
        states[at].next_id == 1 + events.take(at).filter(|e: SessionEvent| e is Connect).len(),
        at < events.len() && events[at] is Connect ==> begun[at].0.id == 1 + events.take(
            at,
        ).filter(|e: SessionEvent| e is Connect).len(),
        events.take(at).filter(|e: SessionEvent| e is Connect).len() + events.take(at).filter(
            |e: SessionEvent| e is Disconnect,
        ).len() == at,
    decreases at,
{
    let connects = |e: SessionEvent| e is Connect;
    let disconnects = |e: SessionEvent| e is Disconnect;
    reveal(Seq::filter);
    if at == 0 {
        assert(events.take(0) =~= Seq::<SessionEvent>::empty());
        assert(events.take(0).filter(connects).len() == 0);
        assert(events.take(0).filter(disconnects).len() == 0);
    } else {
        let i = at - 1;
        sessions_are_counted(events, states, books, hosts, begun, ended, logs, i);
        assert(*books[i] == states[i]);
        assert(events.take(at).drop_last() =~= events.take(i));
        assert(events.take(at).last() == events[i]);
        assert(events.take(at).filter(disconnects).len() <= events.take(at).filter(
            connects,
        ).len());
    }
    if at < events.len() {
        assert(*books[at] == states[at]);
    }
}

/// However often the handler of a session is cloned and dropped, the session ends at the
/// very event that drops the last handle: when as many were dropped as there were clones and
/// the original together. Only that event logs anything, and only it changes the count.
pub proof fn session_ends_with_its_last_handle(
    host: Host,
    first_book: &mut Sessions,
    begun: (SharedSession, HostCall),
    events: Seq<HandleEvent>,
    states: Seq<SharedSession>,
    handles: Seq<&mut SharedSession>,
    books: Seq<&mut Sessions>,
    logs: Seq<Option<HostCall>>,
    at: int,
)
    requires
        events.len() < u64::MAX,
        call_ensures(SharedSession::new, (host, first_book), begun),
        states.len() == events.len() + 1,
        states[0] == begun.0,
        forall|i: int|
            0 <= i < events.len() ==> {
                &&& *(#[trigger] handles[i]) == states[i]
                &&& *final(handles[i]) == states[i + 1]
                &&& events[i] is Clone ==> call_ensures(
                    SharedSession::clone_handle,
                    (handles[i],),
                    (),
                )
                &&& events[i] is Drop ==> call_ensures(
                    SharedSession::drop_handle,
                    (handles[i], books[i]),
                    logs[i],
                )
            },
        forall|i: int|
            0 <= i < events.len() ==> (#[trigger] events.take(i)).filter(
                |e: HandleEvent| e is Drop,
            ).len() < 1 + events.take(i).filter(|e: HandleEvent| e is Clone).len(),
        0 <= at <= events.len(),
    ensures
        states[at].handles() == 1 + events.take(at).filter(|e: HandleEvent| e is Clone).len()
            - events.take(at).filter(|e: HandleEvent| e is Drop).len(),
        events.take(at).filter(|e: HandleEvent| e is Drop).len() <= 1 + events.take(at).filter(
            |e: HandleEvent| e is Clone,
        ).len(),
        at < events.len() ==> states[at].id() == begun.0.id() && states[at].host() == host,
        at < events.len() && events[at] is Drop ==> {
            &&& logs[at] is Some <==> events.take(at).filter(|e: HandleEvent| e is Drop).len() + 1
                == 1 + events.take(at).filter(|e: HandleEvent| e is Clone).len()
            &&& logs[at] is None ==> *final(books[at]) == *books[at]
            &&& logs[at] is Some && books[at].active > 0 ==> (*final(books[at])).active
                == books[at].active - 1
            &&& logs[at] is Some && books[at].active == 0 ==> (*final(books[at])).active
                == u64::MAX
            &&& (*final(books[at])).next_id == books[at].next_id
        },
    decreases at,
{
    let clones = |e: HandleEvent| e is Clone;
    let drops = |e: HandleEvent| e is Drop;
    reveal(Seq::filter);
    if at == 0 {
        assert(events.take(0) =~= Seq::<HandleEvent>::empty());
        assert(events.take(0).filter(clones).len() == 0);
        assert(events.take(0).filter(drops).len() == 0);
    } else {
        let i = at - 1;
        session_ends_with_its_last_handle(
            host,
            first_book,
            begun,
            events,
            states,
            handles,
            books,
            logs,
            i,
        );
        assert(*handles[i] == states[i]);
        assert(events.take(i).filter(drops).len() < 1 + events.take(i).filter(clones).len());
        assert(events.take(at).drop_last() =~= events.take(i));
        assert(events.take(at).last() == events[i]);
    }
    if at < events.len() {
        assert(*handles[at] == states[at]);
        assert(events.take(at).filter(drops).len() < 1 + events.take(at).filter(clones).len());
    }
}

/// A session begins with one handle, and with the line that says so.
pub proof fn shared_session_begins(
    host: Host,
    sessions: &mut Sessions,
    before: Sessions,
    after: Sessions,
    begun: (SharedSession, HostCall),
    id_text: String,
    active_text: String,
)
    requires
        before == *sessions,
        after == *final(sessions),
        before.active < u64::MAX,
        call_ensures(SharedSession::new, (host, sessions), begun),
        call_ensures(decimal_text, (before.next_id,), id_text),
        call_ensures(decimal_text, ((before.active + 1) as u64,), active_text),
    ensures
        begun.0.handles() == 1,
        begun.0.id() == before.next_id,
        begun.0.host() == host,
        after.active == before.active + 1,
        before.next_id < u64::MAX ==> after.next_id == before.next_id + 1,
        before.next_id == u64::MAX ==> after.next_id == 0,
        begun.1.ctx == host.0.ctx,
        begun.1.callback matches Callback::Log { msg } && msg@ == crate::utf16::encode(
            "[MCP] client connected (session "@ + id_text@ + ", "@ + active_text@ + " active)"@,
        ).push(0u16),
{
}

/// The line that the last handle leaves names the session and how many remain.
pub proof fn last_handle_logs_the_session(
    session: &mut SharedSession,
    ending: SharedSession,
    sessions: &mut Sessions,
    before: Sessions,
    after: Sessions,
    log: HostCall,
    id_text: String,
    left_text: String,
)
    requires
        ending == *session,
        before == *sessions,
        after == *final(sessions),
        before.active > 0,
        call_ensures(SharedSession::drop_handle, (session, sessions), Some(log)),
        call_ensures(decimal_text, (ending.id(),), id_text),
        call_ensures(decimal_text, ((before.active - 1) as u64,), left_text),
    ensures
        after.active == before.active - 1,
        ending.handles() == 1,
        log.ctx == ending.host().0.ctx,
        log.callback matches Callback::Log { msg } && msg@ == crate::utf16::encode(
            "[MCP] client disconnected (session "@ + id_text@ + ", "@ + left_text@ + " active)"@,
        ).push(0u16),
{
}

/// Where nothing was counted, a session that ends says that none remain; the counter wraps.
pub proof fn uncounted_session_leaves_none(
    guard: SessionGuard,
    sessions: &mut Sessions,
    before: Sessions,
    after: Sessions,
    log: HostCall,
    id_text: String,
    left_text: String,
)
    requires
        before == *sessions,
        after == *final(sessions),
        before.active == 0,
        call_ensures(SessionGuard::drop, (guard, sessions), log),
        call_ensures(decimal_text, (guard.id,), id_text),
        call_ensures(decimal_text, (0u64,), left_text),
    ensures
        after.active == u64::MAX,
        after.next_id == before.next_id,
        log.ctx == guard.host.0.ctx,
        log.callback matches Callback::Log { msg } && msg@ == crate::utf16::encode(
            "[MCP] client disconnected (session "@ + id_text@ + ", "@ + left_text@ + " active)"@,
        ).push(0u16),
{
}

// ---- Tool calls --------------------------------------------------------------------------

/// `lua_eval` runs the client's code, all of it, on the server's host, and reports it.
pub proof fn lua_eval_runs_the_whole_code(server: Pd3Server, args: LuaEvalArgs, call: ToolCall)
    requires
        call_ensures(Pd3Server::lua_eval, (&server, &args), call),
    ensures
        call.call.ctx == server.host.0.ctx,
        call.call.callback matches Callback::LuaEval { code } && code@ == crate::utf16::encode(
            args.code@,
        ).push(0u16),
        call.host.0.ctx == server.host.0.ctx,
        call.tool@ == "lua_eval"@,
        call.args_json@ == args.code@,
{
}

/// `execute_console_command` runs the client's command, all of it, and reports it.
pub proof fn console_command_runs_the_whole_command(
    server: Pd3Server,
    args: ConsoleCommandArgs,
    call: ToolCall,
)
    requires
        call_ensures(Pd3Server::execute_console_command, (&server, &args), call),
    ensures
        call.call.ctx == server.host.0.ctx,
        call.call.callback matches Callback::ExecuteConsoleCommand { command } && command@
            == crate::utf16::encode(args.command@).push(0u16),
        call.host.0.ctx == server.host.0.ctx,
        call.tool@ == "execute_console_command"@,
        call.args_json@ == args.command@,
{
}

/// `game_status` asks the server's host for its state, and reports no arguments.
pub proof fn game_status_asks_the_host(server: Pd3Server, call: ToolCall)
    requires
        call_ensures(Pd3Server::game_status, (&server,), call),
    ensures
        call.call.ctx == server.host.0.ctx,
        call.call.callback is GameStatus,
        call.host.0.ctx == server.host.0.ctx,
        call.tool@ == "game_status"@,
        call.args_json@ == "{}"@,
{
}

/// `reload_mods` has the server's host reload, and reports no arguments.
pub proof fn reload_mods_asks_the_host(server: Pd3Server, call: ToolCall)
    requires
        call_ensures(Pd3Server::reload_mods, (&server,), call),
    ensures
        call.call.ctx == server.host.0.ctx,
        call.call.callback is ReloadMods,
        call.host.0.ctx == server.host.0.ctx,
        call.tool@ == "reload_mods"@,
        call.args_json@ == "{}"@,
{
}

/// `log_tail` asks for as many lines as the client says, 50 where it does not, and for those
/// that hold the client's filter, all of it, if there is one; and reports just that.
pub proof fn log_tail_asks_for_what_the_client_wants(
    server: Pd3Server,
    args: LogTailArgs,
    call: ToolCall,
    json: Option<String>,
    reported: ToolCall,
)
    requires
        call_ensures(Pd3Server::log_tail, (&server, &args), call),
        call_ensures(Pd3Server::log_tail_reported, (&server, &args, json), reported),
    ensures
        forall|made: ToolCall|
            #![trigger made.call]
            made == call || made == reported ==> {
                &&& made.call.ctx == server.host.0.ctx
                &&& made.call.callback matches Callback::LogTail { lines, filter }
                &&& args.lines matches Some(n) ==> lines == n
                &&& args.lines is None ==> lines == 50
                &&& args.filter matches Some(text) ==> (filter matches Some(units) && units@
                    == crate::utf16::encode(text@).push(0u16))
                &&& args.filter is None ==> filter is None
                &&& made.host.0.ctx == server.host.0.ctx
                &&& made.tool@ == "log_tail"@
            },
        forall|lines: u32, filter: Option<Seq<char>>|
            (args.lines matches Some(n) ==> lines == n) && (args.lines is None ==> lines == 50) && (
            args.filter matches Some(text) ==> filter == Some(text@)) && (args.filter is None
                ==> filter is None) ==> call.args_json@
                == #[trigger] crate::protocol::json_object_text(
                "lines"@,
                lines,
                "filter"@,
                filter,
            ),
        json matches Some(text) ==> reported.args_json@ == text@,
        json is None ==> reported.args_json@.len() == 0,
{
}

/// A callback that returned is passed on whole: its text, or its text as the message of an
/// internal error. One that never returned is an internal error that gives the whole reason.
pub proof fn offload_passes_everything_on(
    text: String,
    reason: String,
    good: Result<String, ErrorData>,
    bad: Result<String, ErrorData>,
    lost: Result<String, ErrorData>,
)
    requires
        call_ensures(offload, (Joined::Returned(Ok::<String, String>(text)),), good),
        call_ensures(offload, (Joined::Returned(Err::<String, String>(text)),), bad),
        call_ensures(offload, (Joined::Lost(reason),), lost),
    ensures
        good matches Ok(value) && value@ == text@,
        bad matches Err(error) && error.code == -32603 && error.message@ == text@,
        lost matches Err(error) && error.code == -32603 && error.message@
            == "host call panicked or was cancelled: "@ + reason@,
{
}

/// The client is answered with what the host filled in, whole: as the only block of a
/// successful result where the host returned true, as the message of an internal error where
/// it returned false.
pub proof fn client_gets_what_the_host_filled_in(
    call: ToolCall,
    ok: bool,
    out: McpString,
    units: &[u16],
    text: String,
    reply: HostReply,
    report: ToolReport,
)
    requires
        out.data matches Some(data) ==> out.len <= data@.len() && units@ == data@.take(
            out.len as int,
        ),
        out.data is None ==> units@.len() == 0,
        call_ensures(decode_units, (units,), text),
        call_ensures(Host::reply, (&call.host, ok, out), reply),
        call_ensures(ToolCall::joined, (&call, Joined::Returned(reply.result)), report),
    ensures
        ok ==> {
            &&& report.result matches Ok(result)
            &&& result.is_error == Some(false)
            &&& result.content@.len() == 1
            &&& result.content@[0] matches ContentBlock::Text(shown) && shown@ == text@
        },
        !ok ==> (report.result matches Err(error) && error.code == -32603 && error.message@
            == text@),
{
    assert(out.data is None ==> units@ =~= Seq::<u16>::empty());
}

/// The client is answered with the text that a callback returned, whole.
pub proof fn client_gets_what_the_callback_returned(
    call: ToolCall,
    text: String,
    good: ToolReport,
    bad: ToolReport,
)
    requires
        call_ensures(
            ToolCall::joined,
            (&call, Joined::Returned(Ok::<String, String>(text))),
            good,
        ),
        call_ensures(
            ToolCall::joined,
            (&call, Joined::Returned(Err::<String, String>(text))),
            bad,
        ),
    ensures
        good.result matches Ok(result) && result.is_error == Some(false) && result.content@.len()
            == 1 && (result.content@[0] matches ContentBlock::Text(shown) && shown@ == text@),
        bad.result matches Err(error) && error.code == -32603 && error.message@ == text@,
{
}

/// A client whose callback never returned gets an internal error with the whole reason.
pub proof fn client_learns_why_a_call_was_lost(
    call: ToolCall,
    reason: String,
    report: ToolReport,
)
    requires
        call_ensures(ToolCall::joined, (&call, Joined::Lost(reason)), report),
    ensures
        report.result matches Err(error) && error.code == -32603 && error.message@
            == "host call panicked or was cancelled: "@ + reason@,
{
}

/// Every tool call is recorded with the host under its own name and arguments, and leaves a
/// line in the log; both say that it succeeded exactly where the client gets a result.
pub proof fn tool_call_is_recorded_and_logged(
    call: ToolCall,
    joined: Joined,
    report: ToolReport,
)
    requires
        call_ensures(ToolCall::joined, (&call, joined), report),
    ensures
        report.report.ctx == call.host.0.ctx,
        report.report.callback matches Callback::OnToolCall { tool, args_json, ok } && {
            &&& tool@ == crate::utf16::encode(call.tool@).push(0u16)
            &&& args_json@ == crate::utf16::encode(call.args_json@).push(0u16)
            &&& ok <==> report.result is Ok
        },
        report.result is Ok <==> (joined matches Joined::Returned(result) && result is Ok),
        report.log.ctx == call.host.0.ctx,
        report.result is Ok ==> (report.log.callback matches Callback::Log { msg } && msg@
            == crate::utf16::encode("[MCP] tool call "@ + call.tool@ + " succeeded"@).push(0u16)),
        report.result is Err ==> (report.log.callback matches Callback::Log { msg } && msg@
            == crate::utf16::encode("[MCP] tool call "@ + call.tool@ + " failed"@).push(0u16)),
{
}

// ---- The server as clients see it --------------------------------------------------------

/// A handler begins a session of its own on its host.
pub proof fn handler_begins_a_session(
    host: Host,
    sessions: &mut Sessions,
    before: Sessions,
    after: Sessions,
    begun: (Pd3Server, HostCall),
    id_text: String,
    active_text: String,
)
    requires
        before == *sessions,
        after == *final(sessions),
        before.active < u64::MAX,
        call_ensures(Pd3Server::new, (host, sessions), begun),
        call_ensures(decimal_text, (before.next_id,), id_text),
        call_ensures(decimal_text, ((before.active + 1) as u64,), active_text),
    ensures
        begun.0.host.0.ctx == host.0.ctx,
        begun.0.session.host() == host,
        begun.0.session.id() == before.next_id,
        begun.0.session.handles() == 1,
        after.active == before.active + 1,
        before.next_id < u64::MAX ==> after.next_id == before.next_id + 1,
        before.next_id == u64::MAX ==> after.next_id == 0,
        begun.1.ctx == host.0.ctx,
        begun.1.callback matches Callback::Log { msg } && msg@ == crate::utf16::encode(
            "[MCP] client connected (session "@ + id_text@ + ", "@ + active_text@ + " active)"@,
        ).push(0u16),
{
}

/// Clients are offered the five tools that the handlers answer, each by its name and with
/// its description. Every handler has the same ones.
pub proof fn clients_are_offered_every_tool(
    host: Host,
    sessions: &mut Sessions,
    begun: (Pd3Server, HostCall),
    router: ToolRouter,
    of_router: Vec<Tool>,
    of_server: Vec<Tool>,
)
    requires
        call_ensures(Pd3Server::new, (host, sessions), begun),
        call_ensures(Pd3Server::tool_router, (), router),
        call_ensures(ToolRouter::list_all, (&begun.0.tool_router,), of_server),
        call_ensures(ToolRouter::list_all, (&router,), of_router),
    ensures
        forall|tools: Vec<Tool>|
            #![trigger tools@]
            tools == of_router || tools == of_server ==> {
                &&& tools@.len() == 5
                &&& tools@[0].name@ == "execute_console_command"@
                &&& tools@[0].description matches Some(text) && text@
                    == "Execute a console command inside the running game, returning its captured output. Use this for engine commands that have no Lua binding."@
                &&& tools@[1].name@ == "game_status"@
                &&& tools@[1].description matches Some(text) && text@
                    == "Loader and game state as JSON: UE4SS version, whether a world/heist is loaded, which mods are running, and whether UFunction dispatch (ProcessEvent) resolved correctly on this build."@
                &&& tools@[2].name@ == "log_tail"@
                &&& tools@[2].description matches Some(text) && text@
                    == "Tail UE4SS.log, optionally filtered by a substring. Use this to read mod output and diagnose errors instead of asking the user to paste it."@
                &&& tools@[3].name@ == "lua_eval"@
                &&& tools@[3].description matches Some(text) && text@
                    == "Execute Lua inside the running game on the game thread, returning captured output and the returned value. This is the primary way to inspect and manipulate live game state: FindAllOf, property reads, UFunction calls. Use `return <expr>` to get a value back."@
                &&& tools@[4].name@ == "reload_mods"@
                &&& tools@[4].description matches Some(text) && text@
                    == "Reinstall every mod, picking up edited files from disk. Blocks until the reload has finished, so a successful return means the mods are back up."@
            },
{
    assert forall|tools: Vec<Tool>|
        #![trigger tools@]
        tools == of_router || tools == of_server implies forall|i: int|
        0 <= i < 5 ==> (#[trigger] tools@[i])@ == crate::tools::tool_surface()[i]
        && tools@.len() == 5 by {
        let views = tools@.map_values(|tool: Tool| tool@);
        assert(views == crate::tools::tool_surface());
        assert(views.len() == tools@.len());
        assert forall|i: int| 0 <= i < 5 implies (#[trigger] tools@[i])@
            == crate::tools::tool_surface()[i] by {
            assert(views[i] == tools@[i]@);
        }
    }
    assert(of_router@[0]@ == crate::tools::tool_surface()[0]);
    assert(of_server@[0]@ == crate::tools::tool_surface()[0]);
}

/// A client is told what the server is, in which version, how to use it, and that it has
/// tools and nothing else.
pub proof fn client_is_told_of_the_tools(server: Pd3Server, version: &str, info: ServerInfo)
    requires
        call_ensures(Pd3Server::get_info, (&server, version), info),
    ensures
        info.server_info.name@ == "ue4ss-pd3"@,
        info.server_info.version@ == version@,
        info.capabilities.tools matches Some(tools) && tools.list_changed is None,
        !info.capabilities.completions,
        !info.capabilities.experimental,
        !info.capabilities.extensions,
        !info.capabilities.logging,
        !info.capabilities.prompts,
        !info.capabilities.resources,
        !info.capabilities.tasks,
        info.instructions matches Some(text) && text@
            == "Live interface to a running PAYDAY 3 process via UE4SS. `lua_eval` runs Lua on the game thread; `game_status` reports loader state; `log_tail` reads UE4SS.log. Game objects only exist while a world is loaded -- check game_status before assuming a heist is running."@,
{
}

} // verus!
