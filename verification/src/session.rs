//! MCP sessions: who is connected, and the two log lines of each session.
//!
//! A session is shared between all clones of its handler. It logs "connected" when it is
//! made and "disconnected" when the last handle goes away, so handles are counted here.

use crate::decimal::decimal_text;
use crate::ffi::{Host, HostCall};
use vstd::prelude::*;

verus! {

/// The sessions of the process: the id of the next one, and how many are live.
#[derive(Clone, Copy, Debug, PartialEq, Eq, Structural)]
pub struct Sessions {
    pub next_id: u64,
    pub active: u64,
}

/// The line for a session that begins, with the number of sessions that are then live.
pub open spec fn connected_line(id: u64, active: u64) -> Seq<char> {
    "[MCP] client connected (session "@ + crate::decimal::decimal(id as nat) + ", "@
        + crate::decimal::decimal(active as nat) + " active)"@
}

/// The line for a session that ends, with the number of sessions that remain.
pub open spec fn disconnected_line(id: u64, active: u64) -> Seq<char> {
    "[MCP] client disconnected (session "@ + crate::decimal::decimal(id as nat) + ", "@
        + crate::decimal::decimal(active as nat) + " active)"@
}

impl Sessions {
    /// No session yet; the first will have the id 1.
    pub fn new() -> (sessions: Self)
        ensures
            sessions == Sessions::initial(),
    {
        Sessions { next_id: 1, active: 0 }
    }

    /// The state before any session.
    pub open spec fn initial() -> Self {
        Sessions { next_id: 1, active: 0 }
    }

    /// The state after one more session begins. Ids start over after the last.
    pub open spec fn connected(self) -> Self {
        Sessions {
            next_id: if self.next_id == u64::MAX {
                0
            } else {
                (self.next_id + 1) as u64
            },
            active: (self.active + 1) as u64,
        }
    }

    /// How many sessions remain when one ends.
    pub open spec fn remaining(self) -> u64 {
        if self.active == 0 {
            0
        } else {
            (self.active - 1) as u64
        }
    }

    /// The state after a session ends. The counter wraps where nothing was counted.
    pub open spec fn disconnected(self) -> Self {
        Sessions {
            next_id: self.next_id,
            active: if self.active == 0 {
                u64::MAX
            } else {
                (self.active - 1) as u64
            },
        }
    }
}

/// Writes one of the two lines of a session.
fn session_line(what: &str, id: u64, active: u64) -> (line: String)
    ensures
        line@ == what@ + crate::decimal::decimal(id as nat) + ", "@ + crate::decimal::decimal(
            active as nat,
        ) + " active)"@,
{
    let mut line = what.to_string();
    line.append(decimal_text(id).as_str());
    line.append(", ");
    line.append(decimal_text(active).as_str());
    line.append(" active)");
    line
}

/// A live session. It cannot be copied, so it ends at most once.
pub struct SessionGuard {
    pub host: Host,
    pub id: u64,
}

impl SessionGuard {
    /// Begins a session: takes the next id, counts it, and logs that a client connected.
    pub fn new(host: Host, sessions: &mut Sessions) -> (begun: (Self, HostCall))
        requires
            old(sessions).active < u64::MAX,
        ensures
            *final(sessions) == old(sessions).connected(),
            begun.0.host == host,
            begun.0.id == old(sessions).next_id,
            begun.1@ == crate::ffi::log_call(
                host.0.ctx,
                connected_line(old(sessions).next_id, (old(sessions).active + 1) as u64),
            ),
    {
        let id: u64 = sessions.next_id;
        let active: u64 = sessions.active + 1;
        sessions.next_id = id.wrapping_add(1);
        sessions.active = active;
        let line = session_line("[MCP] client connected (session ", id, active);
        (SessionGuard { host, id }, host.log(line.as_str()))
    }

    /// Ends the session: no longer counts it, and logs that its client disconnected.
    pub fn drop(self, sessions: &mut Sessions) -> (log: HostCall)
        ensures
            *final(sessions) == old(sessions).disconnected(),
            log@ == crate::ffi::log_call(
                self.host.0.ctx,
                disconnected_line(self.id, old(sessions).remaining()),
            ),
    {
        let active: u64 = sessions.active.saturating_sub(1);
        sessions.active = sessions.active.wrapping_sub(1);
        let line = session_line("[MCP] client disconnected (session ", self.id, active);
        self.host.log(line.as_str())
    }
}

/// What can happen to the handles of a session.
pub enum HandleEvent {
    Clone,
    Drop,
}

/// What comes of one event: how many handles there are then, and whether the session ends
/// with it.
pub struct HandleStep {
    pub handles: int,
    pub disconnects: bool,
}

/// One event of a session with `handles` handles. The last handle that is dropped ends it.
pub open spec fn handle_step(handles: int, event: HandleEvent) -> HandleStep {
    match event {
        HandleEvent::Clone => HandleStep { handles: handles + 1, disconnects: false },
        HandleEvent::Drop => HandleStep { handles: handles - 1, disconnects: handles == 1 },
    }
}

/// A session and the number of handles that keep it alive.
pub struct SharedSession {
    guard: Option<SessionGuard>,
    handles: u64,
}

impl SharedSession {
    /// How many handles are left.
    pub closed spec fn handles(self) -> u64 {
        self.handles
    }

    /// The host that the session logs to.
    pub closed spec fn host(self) -> Host {
        self.guard->0.host
    }

    /// The id of the session.
    pub closed spec fn id(self) -> u64 {
        self.guard->0.id
    }

    /// The session is live exactly while a handle is left.
    #[verifier::type_invariant]
    closed spec fn well_formed(self) -> bool {
        self.handles > 0 <==> self.guard is Some
    }

    /// Begins a session with one handle.
    pub fn new(host: Host, sessions: &mut Sessions) -> (begun: (Self, HostCall))
        requires
            old(sessions).active < u64::MAX,
        ensures
            *final(sessions) == old(sessions).connected(),
            begun.0.handles() == 1,
            begun.0.host() == host,
            begun.0.id() == old(sessions).next_id,
            begun.1@ == crate::ffi::log_call(
                host.0.ctx,
                connected_line(old(sessions).next_id, (old(sessions).active + 1) as u64),
            ),
    {
        let (guard, log) = SessionGuard::new(host, sessions);
        (SharedSession { guard: Some(guard), handles: 1 }, log)
    }

    /// One more handle. Nothing is logged.
    pub fn clone_handle(&mut self)
        requires
            0 < old(self).handles() < u64::MAX,
        ensures
            final(self).handles() == handle_step(
                old(self).handles() as int,
                HandleEvent::Clone,
            ).handles,
            final(self).host() == old(self).host(),
            final(self).id() == old(self).id(),
    {
        proof {
            use_type_invariant(&*self);
        }
        self.handles = self.handles + 1;
    }

    /// One handle less. The last one ends the session, and only then is anything logged or
    /// counted.
    pub fn drop_handle(&mut self, sessions: &mut Sessions) -> (log: Option<HostCall>)
        requires
            old(self).handles() > 0,
        ensures
            final(self).handles() == handle_step(
                old(self).handles() as int,
                HandleEvent::Drop,
            ).handles,
            log is Some <==> handle_step(
                old(self).handles() as int,
                HandleEvent::Drop,
            ).disconnects,
            log is None ==> {
                &&& *final(sessions) == *old(sessions)
                &&& final(self).host() == old(self).host()
                &&& final(self).id() == old(self).id()
            },
            log is Some ==> {
                &&& *final(sessions) == old(sessions).disconnected()
                &&& log->0@ == crate::ffi::log_call(
                    old(self).host().0.ctx,
                    disconnected_line(old(self).id(), old(sessions).remaining()),
                )
            },
    {
        proof {
            use_type_invariant(&*self);
        }
        if self.handles > 1 {
            self.handles = self.handles - 1;
            None
        } else {
            let mut ended = SharedSession { guard: None, handles: 0 };
            std::mem::swap(self, &mut ended);
            proof {
                use_type_invariant(&ended);
            }
            match ended.guard {
                Some(guard) => Some(guard.drop(sessions)),
                None => None,
            }
        }
    }
}

/// How many handles are left of a session after the events.
pub open spec fn handles_after(events: Seq<HandleEvent>) -> int
    decreases events.len(),
{
    if events.len() == 0 {
        1
    } else {
        handle_step(handles_after(events.drop_last()), events.last()).handles
    }
}

/// How many "disconnected" lines the events lead to.
pub open spec fn disconnects_logged(events: Seq<HandleEvent>) -> int
    decreases events.len(),
{
    if events.len() == 0 {
        0
    } else {
        disconnects_logged(events.drop_last()) + (if handle_step(
            handles_after(events.drop_last()),
            events.last(),
        ).disconnects {
            1int
        } else {
            0int
        })
    }
}

/// Events that can happen: each is done to a handle that is there.
pub open spec fn possible(events: Seq<HandleEvent>) -> bool {
    forall|i: int| 0 <= i < events.len() ==> handles_after(#[trigger] events.take(i)) > 0
}

/// However often a session's handler is cloned and dropped, its disconnect is logged once
/// when the last handle is gone, and not before.
pub proof fn disconnect_is_logged_exactly_once(events: Seq<HandleEvent>)
    requires
        possible(events),
    ensures
        handles_after(events) >= 0,
        disconnects_logged(events) == (if handles_after(events) == 0 {
            1int
        } else {
            0int
        }),
    decreases events.len(),
{
    if events.len() > 0 {
        let before = events.drop_last();
        assert(events.take(events.len() - 1) =~= before);
        assert forall|i: int| 0 <= i < before.len() implies handles_after(
            #[trigger] before.take(i),
        ) > 0 by {
            assert(before.take(i) =~= events.take(i));
        }
        disconnect_is_logged_exactly_once(before);
    }
}

/// What can happen to the sessions of the process.
pub enum SessionEvent {
    Connect,
    Disconnect,
}

/// The sessions after the events.
pub open spec fn sessions_after(events: Seq<SessionEvent>) -> Sessions
    decreases events.len(),
{
    if events.len() == 0 {
        Sessions::initial()
    } else {
        match events.last() {
            SessionEvent::Connect => sessions_after(events.drop_last()).connected(),
            SessionEvent::Disconnect => sessions_after(events.drop_last()).disconnected(),
        }
    }
}

/// How many sessions the events begin.
pub open spec fn connects(events: Seq<SessionEvent>) -> int
    decreases events.len(),
{
    if events.len() == 0 {
        0
    } else {
        connects(events.drop_last()) + (if events.last() is Connect {
            1int
        } else {
            0int
        })
    }
}

/// Events in which no session ends that did not begin.
pub open spec fn balanced(events: Seq<SessionEvent>) -> bool {
    forall|i: int|
        0 <= i <= events.len() ==> i - connects(#[trigger] events.take(i)) <= connects(
            events.take(i),
        )
}

/// The counter says how many sessions are live: those that began less those that ended.
/// The next id counts those that began.
pub proof fn active_counts_live_sessions(events: Seq<SessionEvent>)
    requires
        balanced(events),
        events.len() < u64::MAX,
    ensures
        0 <= connects(events) <= events.len(),
        sessions_after(events).active == connects(events) - (events.len() - connects(events)),
        sessions_after(events).next_id == 1 + connects(events),
    decreases events.len(),
{
    assert(events.take(events.len() as int) =~= events);
    if events.len() > 0 {
        let before = events.drop_last();
        assert(events.take(events.len() - 1) =~= before);
        balanced_prefix(events, events.len() - 1);
        active_counts_live_sessions(before);
    }
}

/// No two sessions that begin have the same id.
pub proof fn session_ids_are_unique(events: Seq<SessionEvent>, i: int, j: int)
    requires
        balanced(events),
        events.len() < u64::MAX,
        0 <= i < j < events.len(),
        events[i] is Connect,
        events[j] is Connect,
    ensures
        sessions_after(events.take(i)).next_id < sessions_after(events.take(j)).next_id,
{
    balanced_prefix(events, i);
    balanced_prefix(events, j);
    active_counts_live_sessions(events.take(i));
    active_counts_live_sessions(events.take(j));
    assert(events.take(i + 1).drop_last() =~= events.take(i));
    assert(events.take(i + 1).last() is Connect);
    connects_grow(events, i + 1, j);
}

/// A part of the events from the beginning is balanced where they all are.
proof fn balanced_prefix(events: Seq<SessionEvent>, n: int)
    requires
        balanced(events),
        0 <= n <= events.len(),
    ensures
        balanced(events.take(n)),
{
    let prefix = events.take(n);
    assert forall|i: int| 0 <= i <= prefix.len() implies i - connects(#[trigger] prefix.take(i))
        <= connects(prefix.take(i)) by {
        assert(prefix.take(i) =~= events.take(i));
    }
}

/// More events begin no fewer sessions.
proof fn connects_grow(events: Seq<SessionEvent>, i: int, j: int)
    requires
        0 <= i <= j <= events.len(),
    ensures
        connects(events.take(i)) <= connects(events.take(j)),
    decreases j - i,
{
    if i < j {
        connects_grow(events, i, j - 1);
        assert(events.take(j).drop_last() =~= events.take(j - 1));
    }
}

} // verus!
