//! The boundary with the C++ host.
//!
//! The host hands over a table of callbacks and an opaque context. Everything that is
//! decided on this side of the boundary is here: which callback is called with which
//! arguments, what becomes of the string that comes back, and when it is released. A
//! [`HostCall`] is one call of one callback, as plain values; whoever holds the table
//! performs it.
//!
//! Ownership rule for strings crossing the boundary:
//!   * Towards the host: UTF-16, null-terminated, valid only for the duration of the call.
//!   * From the host: an [`McpString`] that the host allocated. It is copied, and then
//!     `free_string` is called on the same struct.

use crate::utf16::{decode_units, encode_units};
use vstd::prelude::*;

verus! {

/// The longest run of units that a missing terminator can lead to: one more than 1 << 22.
pub const SCAN_LIMIT: usize = 4194305;

/// A UTF-16 string allocated by the host and released through `free_string`.
///
/// `data` holds the units that can be read behind the host's pointer, `None` for null.
pub struct McpString {
    pub data: Option<Vec<u16>>,
    pub len: usize,
}

/// The values of an [`McpString`].
pub struct McpStringView {
    pub data: Option<Seq<u16>>,
    pub len: nat,
}

impl View for McpString {
    type V = McpStringView;

    open spec fn view(&self) -> McpStringView {
        McpStringView { data: units_view(self.data), len: self.len as nat }
    }
}

/// The units of a buffer that may be absent.
pub open spec fn units_view(units: Option<Vec<u16>>) -> Option<Seq<u16>> {
    match units {
        Some(units) => Some(units@),
        None => None,
    }
}

impl McpStringView {
    /// A null pointer, or at least `len` readable units.
    pub open spec fn valid(self) -> bool {
        self.data matches Some(units) ==> self.len <= units.len()
    }

    /// The units of the string: none for a null or zero-length buffer.
    pub open spec fn units(self) -> Seq<u16> {
        match self.data {
            Some(units) => units.take(self.len as int),
            None => seq![],
        }
    }

    /// The text of the string.
    pub open spec fn text(self) -> Seq<char> {
        crate::utf16::decode_lossy(self.units())
    }
}

impl McpString {
    /// The value that an out-parameter holds before the host fills it in.
    pub fn empty() -> (s: Self)
        ensures
            s@ == (McpStringView { data: None, len: 0 }),
            s@.valid(),
            s@.units() == Seq::<u16>::empty(),
    {
        McpString { data: None, len: 0 }
    }

    /// Copies the text out. A null or zero-length buffer gives the empty text.
    pub fn to_string_lossy(&self) -> (text: String)
        requires
            self@.valid(),
        ensures
            text@ == self@.text(),
    {
        match &self.data {
            None => String::new(),
            Some(units) => {
                if self.len == 0 {
                    assert(units@.take(0) =~= Seq::<u16>::empty());
                    return String::new();
                }
                decode_units(vstd::slice::slice_subrange(units.as_slice(), 0, self.len))
            },
        }
    }
}

/// One callback of the host's table, with its arguments.
pub enum Callback {
    /// Write a line to UE4SS.log. Used for server lifecycle and for every tool call, so the
    /// main log shows MCP activity alongside everything else.
    Log { msg: Vec<u16> },
    /// Run Lua on the game thread and return its captured output.
    LuaEval { code: Vec<u16> },
    /// Describe the loader and the game as JSON.
    GameStatus,
    /// The last `lines` lines of UE4SS.log, optionally only those holding a substring.
    LogTail { lines: u32, filter: Option<Vec<u16>> },
    /// Reinstall every mod, picking up edited files from disk.
    ReloadMods,
    /// Run a console command in the game and return its output.
    ExecuteConsoleCommand { command: Vec<u16> },
    /// Record a tool invocation.
    OnToolCall { tool: Vec<u16>, args_json: Vec<u16>, ok: bool },
    /// Release a string that one of the callbacks above produced.
    FreeString { s: McpString },
}

/// The values of a [`Callback`].
pub enum CallbackView {
    Log { msg: Seq<u16> },
    LuaEval { code: Seq<u16> },
    GameStatus,
    LogTail { lines: u32, filter: Option<Seq<u16>> },
    ReloadMods,
    ExecuteConsoleCommand { command: Seq<u16> },
    OnToolCall { tool: Seq<u16>, args_json: Seq<u16>, ok: bool },
    FreeString { s: McpStringView },
}

impl View for Callback {
    type V = CallbackView;

    open spec fn view(&self) -> CallbackView {
        match *self {
            Callback::Log { msg } => CallbackView::Log { msg: msg@ },
            Callback::LuaEval { code } => CallbackView::LuaEval { code: code@ },
            Callback::GameStatus => CallbackView::GameStatus,
            Callback::LogTail { lines, filter } => CallbackView::LogTail {
                lines,
                filter: units_view(filter),
            },
            Callback::ReloadMods => CallbackView::ReloadMods,
            Callback::ExecuteConsoleCommand { command } => CallbackView::ExecuteConsoleCommand {
                command: command@,
            },
            Callback::OnToolCall { tool, args_json, ok } => CallbackView::OnToolCall {
                tool: tool@,
                args_json: args_json@,
                ok,
            },
            Callback::FreeString { s } => CallbackView::FreeString { s: s@ },
        }
    }
}

impl CallbackView {
    /// Whether the callback fills in a string that has to be released.
    pub open spec fn fills_string(self) -> bool {
        ||| self is LuaEval
        ||| self is GameStatus
        ||| self is LogTail
        ||| self is ReloadMods
        ||| self is ExecuteConsoleCommand
    }
}

/// One call of a callback: the context that is handed back, and the callback.
pub struct HostCall {
    pub ctx: usize,
    pub callback: Callback,
}

/// The values of a [`HostCall`].
pub struct HostCallView {
    pub ctx: usize,
    pub callback: CallbackView,
}

impl View for HostCall {
    type V = HostCallView;

    open spec fn view(&self) -> HostCallView {
        HostCallView { ctx: self.ctx, callback: self.callback@ }
    }
}

/// A text as the host receives it: its UTF-16 units and a terminator.
pub open spec fn wide(text: Seq<char>) -> Seq<u16> {
    crate::utf16::encode(text).push(0u16)
}

/// The call that writes `line` to the log of the host with the context `ctx`.
pub open spec fn log_call(ctx: usize, line: Seq<char>) -> HostCallView {
    HostCallView { ctx, callback: CallbackView::Log { msg: wide(line) } }
}

/// The call that releases `s`.
pub open spec fn free_call(ctx: usize, s: McpStringView) -> HostCallView {
    HostCallView { ctx, callback: CallbackView::FreeString { s } }
}

/// The host: the address of the context that every callback is handed.
#[derive(Clone, Copy)]
pub struct McpHost {
    pub ctx: usize,
}

/// Composes the calls into the host.
#[derive(Clone, Copy)]
pub struct Host(pub McpHost);

/// What a callback that fills in a string amounts to: the call that releases the string,
/// and the result for the caller.
pub struct HostReply {
    pub free: HostCall,
    pub result: Result<String, String>,
}

/// The text of a result, whichever way it went.
pub open spec fn result_view(result: Result<String, String>) -> Result<Seq<char>, Seq<char>> {
    match result {
        Ok(text) => Ok(text@),
        Err(text) => Err(text@),
    }
}

/// The result of a callback that returned `ok` and filled in `out`.
pub open spec fn reply_result(ok: bool, out: McpStringView) -> Result<Seq<char>, Seq<char>> {
    if ok {
        Ok(out.text())
    } else {
        Err(out.text())
    }
}

impl Host {
    fn call(&self, callback: Callback) -> (call: HostCall)
        ensures
            call@ == (HostCallView { ctx: self.0.ctx, callback: callback@ }),
    {
        HostCall { ctx: self.0.ctx, callback }
    }

    /// Write a line to the host's log.
    pub fn log(&self, msg: &str) -> (call: HostCall)
        ensures
            call@ == log_call(self.0.ctx, msg@),
    {
        let wide = to_utf16(msg);
        self.call(Callback::Log { msg: wide })
    }

    /// Consume an out-parameter that the host filled in: its text, and the call that
    /// releases it, which is always owed.
    pub fn take(&self, s: McpString) -> (taken: (String, HostCall))
        requires
            s@.valid(),
        ensures
            taken.0@ == s@.text(),
            taken.1@ == free_call(self.0.ctx, s@),
    {
        let text = s.to_string_lossy();
        (text, self.call(Callback::FreeString { s }))
    }

    /// What the host answered to a callback that fills in a string: `Ok` with the text
    /// where it returned true, `Err` with the text where it returned false. The string is
    /// released either way.
    pub fn reply(&self, ok: bool, out: McpString) -> (reply: HostReply)
        requires
            out@.valid(),
        ensures
            reply.free@ == free_call(self.0.ctx, out@),
            result_view(reply.result) == reply_result(ok, out@),
    {
        let (text, free) = self.take(out);
        if ok {
            HostReply { free, result: Ok(text) }
        } else {
            HostReply { free, result: Err(text) }
        }
    }

    /// Run Lua on the game thread.
    pub fn lua_eval(&self, code: &str) -> (call: HostCall)
        ensures
            call@ == (HostCallView {
                ctx: self.0.ctx,
                callback: CallbackView::LuaEval { code: wide(code@) },
            }),
    {
        let wide = to_utf16(code);
        self.call(Callback::LuaEval { code: wide })
    }

    /// Ask for the state of the loader and the game.
    pub fn game_status(&self) -> (call: HostCall)
        ensures
            call@ == (HostCallView { ctx: self.0.ctx, callback: CallbackView::GameStatus }),
    {
        self.call(Callback::GameStatus)
    }

    /// Ask for the end of the log. Without a filter the host is handed a null pointer.
    pub fn log_tail(&self, lines: u32, filter: Option<&str>) -> (call: HostCall)
        ensures
            call@ == (HostCallView {
                ctx: self.0.ctx,
                callback: CallbackView::LogTail {
                    lines,
                    filter: match filter {
                        Some(filter) => Some(wide(filter@)),
                        None => None,
                    },
                },
            }),
    {
        let filter_wide = match filter {
            Some(filter) => Some(to_utf16(filter)),
            None => None,
        };
        self.call(Callback::LogTail { lines, filter: filter_wide })
    }

    /// Reinstall every mod.
    pub fn reload_mods(&self) -> (call: HostCall)
        ensures
            call@ == (HostCallView { ctx: self.0.ctx, callback: CallbackView::ReloadMods }),
    {
        self.call(Callback::ReloadMods)
    }

    /// Run a console command in the game.
    pub fn execute_console_command(&self, command: &str) -> (call: HostCall)
        ensures
            call@ == (HostCallView {
                ctx: self.0.ctx,
                callback: CallbackView::ExecuteConsoleCommand { command: wide(command@) },
            }),
    {
        let wide = to_utf16(command);
        self.call(Callback::ExecuteConsoleCommand { command: wide })
    }

    /// Record a tool invocation.
    pub fn on_tool_call(&self, tool: &str, args_json: &str, ok: bool) -> (call: HostCall)
        ensures
            call@ == (HostCallView {
                ctx: self.0.ctx,
                callback: CallbackView::OnToolCall {
                    tool: wide(tool@),
                    args_json: wide(args_json@),
                    ok,
                },
            }),
    {
        let t = to_utf16(tool);
        let a = to_utf16(args_json);
        self.call(Callback::OnToolCall { tool: t, args_json: a, ok })
    }
}

/// Null-terminated UTF-16, which is what the host's string type expects on Windows.
pub fn to_utf16(s: &str) -> (units: Vec<u16>)
    ensures
        units@ == wide(s@),
{
    let mut units = encode_units(s);
    units.push(0);
    units
}

/// How many units stand before the terminator, or [`SCAN_LIMIT`] where that is fewer.
pub open spec fn scan_len(memory: Seq<u16>) -> int {
    match memory.index_of_first(0u16) {
        Some(at) => if at <= SCAN_LIMIT {
            at
        } else {
            SCAN_LIMIT as int
        },
        None => SCAN_LIMIT as int,
    }
}

/// Memory that a scan can be let loose on: it meets a terminator or the limit in it.
pub open spec fn scannable(memory: Seq<u16>) -> bool {
    memory.contains(0u16) || memory.len() >= SCAN_LIMIT
}

/// The text that a null-terminated string in memory stands for; empty for a null pointer.
pub open spec fn wide_text(memory: Option<Seq<u16>>) -> Seq<char> {
    match memory {
        Some(memory) => crate::utf16::decode_lossy(memory.take(scan_len(memory))),
        None => seq![],
    }
}

/// A text that the host filled in arrives whole, NUL characters included, whatever lies
/// behind it in memory.
pub proof fn filled_in_text_arrives_whole(text: Seq<char>, behind: Seq<u16>)
    ensures
        ({
            let units = crate::utf16::encode(text);
            let s = McpStringView { data: Some(units + behind), len: units.len() };
            s.valid() && s.text() == text
        }),
{
    let units = crate::utf16::encode(text);
    assert((units + behind).take(units.len() as int) =~= units);
    crate::utf16::decode_undoes_encode(text);
}

/// Every string handed to the host ends in a terminator, so it can be read back.
pub proof fn wide_is_terminated(text: Seq<char>)
    ensures
        wide(text).last() == 0u16,
        scannable(wide(text)),
{
    assert(wide(text)[wide(text).len() - 1] == 0u16);
}

/// A string handed to the host reads back, on the other side of the boundary, as the text
/// up to its first NUL, unless that part is longer than the scan limit.
pub proof fn wide_reads_up_to_nul(before: Seq<char>, after: Seq<char>)
    requires
        !before.contains('\0'),
        crate::utf16::encode(before).len() <= SCAN_LIMIT,
    ensures
        wide_text(Some(wide(before.push('\0') + after))) == before,
{
    let units = crate::utf16::encode(before);
    let text = before.push('\0') + after;
    let memory = wide(text);
    assert(text =~= before + seq!['\0'] + after);
    crate::utf16::encode_concat(before + seq!['\0'], after);
    crate::utf16::encode_concat(before, seq!['\0']);
    assert(crate::utf16::encode(seq!['\0'])[0] == 0u16);
    assert(memory.take(units.len() as int) =~= units);
    assert(memory[units.len() as int] == 0u16);
    scan_stops_at(memory, before);
}

/// A text without NUL reads back whole, unless it is longer than the scan limit.
pub proof fn wide_reads_back(text: Seq<char>)
    requires
        !text.contains('\0'),
        crate::utf16::encode(text).len() <= SCAN_LIMIT,
    ensures
        wide_text(Some(wide(text))) == text,
{
    let units = crate::utf16::encode(text);
    assert(wide(text).take(units.len() as int) =~= units);
    scan_stops_at(wide(text), text);
}

/// A scan of memory that starts with the units of a text and a terminator finds that text.
proof fn scan_stops_at(memory: Seq<u16>, text: Seq<char>)
    requires
        !text.contains('\0'),
        crate::utf16::encode(text).len() <= SCAN_LIMIT,
        crate::utf16::encode(text).len() < memory.len(),
        memory.take(crate::utf16::encode(text).len() as int) == crate::utf16::encode(text),
        memory[crate::utf16::encode(text).len() as int] == 0u16,
    ensures
        wide_text(Some(memory)) == text,
{
    let units = crate::utf16::encode(text);
    let n = units.len() as int;
    crate::utf16::encode_has_zero_iff_nul(text);
    crate::utf16::decode_undoes_encode(text);
    memory.index_of_first_ensures(0u16);
    let at = memory.index_of_first(0u16)->0;
    if at < n {
        assert(memory.take(n)[at] == 0u16);
        assert(units.contains(0u16));
    }
    assert(scan_len(memory) == n);
}

/// However the memory looks, no more than the scan limit is read from it.
pub proof fn scan_is_bounded(memory: Seq<u16>)
    ensures
        0 <= scan_len(memory) <= SCAN_LIMIT,
        scannable(memory) ==> scan_len(memory) <= memory.len(),
        forall|j: int| 0 <= j < scan_len(memory) && j < memory.len() ==> memory[j] != 0u16,
{
    memory.index_of_first_ensures(0u16);
}

/// A walk along a null-terminated string of unknown length, one unit at a time.
pub struct WideScan {
    len: usize,
    open: bool,
}

impl WideScan {
    /// How many units the walk has passed.
    pub closed spec fn passed(self) -> int {
        self.len as int
    }

    /// Whether there is another unit to read.
    pub closed spec fn open(self) -> bool {
        self.open
    }

    /// The walk never goes beyond the limit, and stops when it gets there.
    #[verifier::type_invariant]
    closed spec fn well_formed(self) -> bool {
        &&& self.len <= SCAN_LIMIT
        &&& self.open ==> self.len < SCAN_LIMIT
    }

    /// The walk goes along `memory`: it has passed no terminator, and if it is over it
    /// stands before one or at the limit.
    pub open spec fn follows(self, memory: Seq<u16>) -> bool {
        &&& 0 <= self.passed() <= memory.len()
        &&& self.passed() <= SCAN_LIMIT
        &&& forall|j: int| 0 <= j < self.passed() ==> memory[j] != 0u16
        &&& self.open() ==> self.passed() < SCAN_LIMIT
        &&& !self.open() ==> self.passed() == SCAN_LIMIT || (self.passed() < memory.len()
            && memory[self.passed()] == 0u16)
    }

    /// A walk that has not read anything yet.
    pub fn new() -> (scan: Self)
        ensures
            scan.passed() == 0,
            scan.open(),
            forall|memory: Seq<u16>| #[trigger] scan.follows(memory),
    {
        WideScan { len: 0, open: true }
    }

    /// Whether the unit at the index [`WideScan::len`] is to be read next.
    pub fn is_open(&self) -> (open: bool)
        ensures
            open == self.open(),
            open ==> self.passed() < SCAN_LIMIT,
    {
        proof {
            use_type_invariant(self);
        }
        self.open
    }

    /// Takes in the unit at the index [`WideScan::len`]. A terminator ends the walk before
    /// it; the limit ends it behind the last unit that was read.
    pub fn feed(&mut self, unit: u16)
        requires
            old(self).open(),
        ensures
            unit == 0 ==> final(self).passed() == old(self).passed() && !final(self).open(),
            unit != 0 ==> final(self).passed() == old(self).passed() + 1 && final(self).open() == (
            old(self).passed() + 1 < SCAN_LIMIT),
            forall|memory: Seq<u16>|
                old(self).follows(memory) && old(self).passed() < memory.len()
                    && memory[old(self).passed()] == unit ==> #[trigger] final(self).follows(
                    memory,
                ),
    {
        proof {
            use_type_invariant(&*self);
        }
        if unit == 0 {
            self.open = false;
        } else {
            let len: usize = self.len + 1;
            *self = WideScan { len, open: len < SCAN_LIMIT };
        }
    }

    /// How many units the walk has passed: the length of the string, once it is over.
    pub fn len(&self) -> (len: usize)
        ensures
            len == self.passed(),
            len <= SCAN_LIMIT,
    {
        proof {
            use_type_invariant(self);
        }
        self.len
    }
}

/// A walk that is over has found the length of the string.
pub proof fn finished_walk_found_the_length(scan: WideScan, memory: Seq<u16>)
    requires
        scan.follows(memory),
        !scan.open(),
    ensures
        scan.passed() == scan_len(memory),
{
    memory.index_of_first_ensures(0u16);
}

/// A walk that goes on in memory fit for it has a unit to read there.
pub proof fn open_walk_has_a_unit_to_read(scan: WideScan, memory: Seq<u16>)
    requires
        scan.follows(memory),
        scan.open(),
        scannable(memory),
    ensures
        scan.passed() < memory.len(),
{
}

/// Reads a null-terminated UTF-16 string. `memory` is what can be read behind the
/// pointer, `None` for a null pointer.
pub fn from_utf16_ptr(memory: Option<&[u16]>) -> (text: String)
    requires
        memory matches Some(memory) ==> scannable(memory@),
    ensures
        text@ == wide_text(
            match memory {
                Some(memory) => Some(memory@),
                None => None,
            },
        ),
{
    match memory {
        None => String::new(),
        Some(memory) => {
            let mut scan = WideScan::new();
            while scan.is_open()
                invariant
                    scannable(memory@),
                    scan.follows(memory@),
                decreases SCAN_LIMIT - scan.passed(), (if scan.open() { 1int } else { 0int }),
            {
                proof {
                    open_walk_has_a_unit_to_read(scan, memory@);
                }
                scan.feed(memory[scan.len()]);
            }
            proof {
                finished_walk_found_the_length(scan, memory@);
            }
            decode_units(vstd::slice::slice_subrange(memory, 0, scan.len()))
        },
    }
}

} // verus!
