use vstd::prelude::*;

use crate::gfx_vendors::{is_dgpu_display, is_passthrough, GfxVendors};

verus! {

/// How long the worker waits for graphical sessions to end.
pub const SESSION_WAIT_LIMIT_SECS: u64 = 180;

/// Milliseconds between two polls of the session list.
pub const SESSION_POLL_MS: u64 = 100;

/// Milliseconds between two queries of the display manager's state.
pub const DISPLAY_MANAGER_POLL_MS: u64 = 250;

/// How many times the display manager's state is queried before the wait
/// fails (about three seconds).
pub const DISPLAY_MANAGER_POLLS: u32 = 13;

/// The class of a login session.
#[derive(Debug, Clone, Copy, PartialEq, Eq, Structural)]
pub enum SessionClass {
    User,
    Greeter,
    LockScreen,
    Manager,
}

/// The kind of display a login session runs on.
#[derive(Debug, Clone, Copy, PartialEq, Eq, Structural)]
pub enum SessionType {
    X11,
    Wayland,
    Mir,
    Tty,
    Unspecified,
}

/// The state of a login session.
#[derive(Debug, Clone, Copy, PartialEq, Eq, Structural)]
pub enum SessionState {
    Online,
    Active,
    Closing,
}

/// What the session manager reports of one login session.
#[derive(Debug, Clone, Copy, PartialEq, Eq, Structural)]
pub struct SessionInfo {
    pub class: SessionClass,
    pub kind: SessionType,
    pub state: SessionState,
}

/// A user session on X11, Wayland or Mir that is online or active.
pub open spec fn is_graphical_user_session(s: SessionInfo) -> bool {
    s.class == SessionClass::User
        && (s.kind == SessionType::X11 || s.kind == SessionType::Wayland || s.kind == SessionType::Mir)
        && (s.state == SessionState::Online || s.state == SessionState::Active)
}

impl SessionInfo {
    pub fn is_graphical_user_session(&self) -> (r: bool)
        ensures
            r == is_graphical_user_session(*self),
    {
        matches!(self.class, SessionClass::User)
            && matches!(self.kind, SessionType::X11 | SessionType::Wayland | SessionType::Mir)
            && matches!(self.state, SessionState::Online | SessionState::Active)
    }
}

/// Whether any of the sessions is a graphical user session that is online or
/// active.
pub fn graphical_user_sessions_exist(sessions: &Vec<SessionInfo>) -> (r: bool)
    ensures
        r == exists|i: int| 0 <= i < sessions@.len() && is_graphical_user_session(#[trigger] sessions@[i]),
{
    let mut i: usize = 0;
    while i < sessions.len()
        invariant
            0 <= i <= sessions@.len(),
            forall|j: int| 0 <= j < i ==> !is_graphical_user_session(#[trigger] sessions@[j]),
        decreases sessions@.len() - i,
    {
        if sessions[i].is_graphical_user_session() {
            return true;
        }
        i = i + 1;
    }
    false
}

/// What a poll of the session list decides.
#[derive(Debug, Clone, Copy, PartialEq, Eq, Structural)]
pub enum SessionWait {
    /// No graphical session is left: go on with the mode change.
    Drained,
    /// A newer request superseded this one: stop, changing nothing.
    Cancelled,
    /// Sessions stayed open past the limit: fail with `SessionWaitTimeout`.
    TimedOut,
    /// Sleep `SESSION_POLL_MS` and poll again.
    Waiting,
}

/// One poll: whether a graphical user session is open, whether the
/// transition was superseded, and the seconds since the worker started.
pub type SessionPoll = (bool, bool, u64);

pub open spec fn session_wait(graphical: bool, cancelled: bool, elapsed_secs: u64, limit_secs: u64) -> SessionWait {
    if cancelled {
        SessionWait::Cancelled
    } else if !graphical {
        SessionWait::Drained
    } else if elapsed_secs > limit_secs {
        SessionWait::TimedOut
    } else {
        SessionWait::Waiting
    }
}

/// Decides one poll of the session wait: a superseded transition stops
/// first; otherwise the wait ends when no graphical session is left, and
/// fails once more than `limit_secs` seconds have passed.
pub fn session_wait_step(graphical: bool, cancelled: bool, elapsed_secs: u64, limit_secs: u64) -> (r: SessionWait)
    ensures
        r == session_wait(graphical, cancelled, elapsed_secs, limit_secs),
{
    if cancelled {
        SessionWait::Cancelled
    } else if !graphical {
        SessionWait::Drained
    } else if elapsed_secs > limit_secs {
        SessionWait::TimedOut
    } else {
        SessionWait::Waiting
    }
}

/// The decision that ends a wait made of the given polls: the first that is
/// not `Waiting`.
pub open spec fn wait_outcome(polls: Seq<SessionPoll>, limit_secs: u64) -> SessionWait
    decreases polls.len(),
{
    if polls.len() == 0 {
        SessionWait::Waiting
    } else {
        let d = session_wait(polls[0].0, polls[0].1, polls[0].2, limit_secs);
        if d == SessionWait::Waiting {
            wait_outcome(polls.drop_first(), limit_secs)
        } else {
            d
        }
    }
}

proof fn lemma_waiting_prefix(polls: Seq<SessionPoll>, limit_secs: u64, k: int)
    requires
        0 <= k <= polls.len(),
        forall|i: int| 0 <= i < k ==> session_wait(#[trigger] polls[i].0, polls[i].1, polls[i].2, limit_secs) == SessionWait::Waiting,
    ensures
        wait_outcome(polls, limit_secs) == wait_outcome(polls.subrange(k, polls.len() as int), limit_secs),
    decreases k,
{
    if k > 0 {
        assert(session_wait(polls[0].0, polls[0].1, polls[0].2, limit_secs) == SessionWait::Waiting);
        let rest = polls.drop_first();
        assert forall|i: int| 0 <= i < k - 1 implies session_wait(#[trigger] rest[i].0, rest[i].1, rest[i].2, limit_secs) == SessionWait::Waiting by {
            assert(rest[i] == polls[i + 1]);
        }
        lemma_waiting_prefix(rest, limit_secs, k - 1);
        assert(rest.subrange(k - 1, rest.len() as int) =~= polls.subrange(k, polls.len() as int));
    } else {
        assert(polls.subrange(0, polls.len() as int) =~= polls);
    }
}

/// A worker whose transition is superseded while graphical sessions are
/// still open ends cancelled: it never reaches the point where the display
/// manager is stopped and the mode applied.
pub proof fn lemma_superseded_worker_is_cancelled(polls: Seq<SessionPoll>, limit_secs: u64, k: int)
    requires
        0 <= k < polls.len(),
        forall|i: int| 0 <= i < k ==> (#[trigger] polls[i]).0 && !polls[i].1 && polls[i].2 <= limit_secs,
        polls[k].1,
    ensures
        wait_outcome(polls, limit_secs) == SessionWait::Cancelled,
{
    lemma_waiting_prefix(polls, limit_secs, k);
    assert(polls.subrange(k, polls.len() as int)[0] == polls[k]);
}

/// A session manager that never reports the graphical sessions gone makes the
/// worker fail with a timeout at the first poll past the limit.
pub proof fn lemma_sessions_never_end_times_out(polls: Seq<SessionPoll>, limit_secs: u64, k: int)
    requires
        0 <= k < polls.len(),
        forall|i: int| 0 <= i < polls.len() ==> (#[trigger] polls[i]).0 && !polls[i].1,
        forall|i: int| 0 <= i < k ==> (#[trigger] polls[i]).2 <= limit_secs,
        polls[k].2 > limit_secs,
    ensures
        wait_outcome(polls, limit_secs) == SessionWait::TimedOut,
{
    assert forall|i: int| 0 <= i < k implies session_wait(#[trigger] polls[i].0, polls[i].1, polls[i].2, limit_secs) == SessionWait::Waiting by {
        assert(polls[i].0 && !polls[i].1 && polls[i].2 <= limit_secs);
    }
    lemma_waiting_prefix(polls, limit_secs, k);
    assert(polls.subrange(k, polls.len() as int)[0] == polls[k]);
}

/// What a query of the display manager's state decides.
#[derive(Debug, Clone, Copy, PartialEq, Eq, Structural)]
pub enum DisplayManagerWait {
    /// The awaited state was reached.
    Reached,
    /// Sleep `DISPLAY_MANAGER_POLL_MS` and query again.
    Poll,
    /// Fail with `DisplayManagerTimeout`.
    TimedOut,
}

pub open spec fn display_manager_wait(reached: bool, query: u32) -> DisplayManagerWait {
    if reached {
        DisplayManagerWait::Reached
    } else if query >= DISPLAY_MANAGER_POLLS {
        DisplayManagerWait::TimedOut
    } else {
        DisplayManagerWait::Poll
    }
}

/// Decides query number `query` (counted from 1) of the wait for the display
/// manager to reach a state: at most `DISPLAY_MANAGER_POLLS` queries are made.
pub fn display_manager_wait_step(reached: bool, query: u32) -> (r: DisplayManagerWait)
    ensures
        r == display_manager_wait(reached, query),
{
    if reached {
        DisplayManagerWait::Reached
    } else if query >= DISPLAY_MANAGER_POLLS {
        DisplayManagerWait::TimedOut
    } else {
        DisplayManagerWait::Poll
    }
}

/// The mode that a drained worker applies: `Integrated` in place of a
/// requested `Compute` or `Vfio` while the saved mode is still `Nvidia` or
/// `Hybrid`, else the requested mode.
pub open spec fn mode_to_apply(requested: GfxVendors, saved: GfxVendors) -> GfxVendors {
    if is_passthrough(requested) && is_dgpu_display(saved) {
        GfxVendors::Integrated
    } else {
        requested
    }
}

/// Chooses the mode that a drained worker applies.
pub fn worker_mode(requested: GfxVendors, saved: GfxVendors) -> (r: GfxVendors)
    ensures
        r == mode_to_apply(requested, saved),
{
    if requested.is_passthrough() && saved.is_dgpu_display() {
        GfxVendors::Integrated
    } else {
        requested
    }
}

} // verus!
