//! Match controller: the state that decides what leaves the machine.
//!
//! Only while a match created by the site is active, and no mandatory
//! update is pending, does a GSI post turn into messages for the backend.
//! Otherwise posts are answered and dropped.
use vstd::prelude::*;
use crate::events::{
    condensed, condensed_of, events_between, extract, snapshot_of, CondensedState, GameEvent,
    GsiSnapshot,
};
use crate::gsi::{posted_token, token_matches};
use crate::json::{json_parses, JsonDoc};
use crate::update::UpdateInfo;

verus! {

/// The interval between two STATE_SYNC messages, in milliseconds.
pub const SYNC_INTERVAL_MS: u64 = 10_000;

/// A message for the backend.
pub enum OutMessage {
    /// `HELLO`, sent on every connection.
    Hello { version: String },
    /// A domain event of the active match.
    Event { event: GameEvent, match_id: i64, timestamp: u64 },
    /// The condensed state of the active match.
    StateSync { match_id: i64, timestamp: u64, data: CondensedState },
    /// `MATCH_ACK`: START_MATCH received.
    MatchAck { match_id: i64 },
    /// `MATCH_ENDED_ACK`: END_MATCH received.
    MatchEndedAck,
    /// `PONG`: answer to the application-level PING.
    Pong,
}

/// The HTTP answer to a GSI post.
#[derive(PartialEq, Eq, Debug, Clone, Copy)]
pub enum GsiReply {
    /// 200: taken (or dropped on purpose).
    Accepted,
    /// 400: the body is not JSON.
    Malformed,
    /// 401: the secret token does not match.
    Unauthorized,
}

impl GsiReply {
    pub fn status_code(&self) -> (res: u16)
        ensures
            *self == GsiReply::Accepted ==> res == 200,
            *self == GsiReply::Malformed ==> res == 400,
            *self == GsiReply::Unauthorized ==> res == 401,
    {
        match self {
            GsiReply::Accepted => 200,
            GsiReply::Malformed => 400,
            GsiReply::Unauthorized => 401,
        }
    }
}

/// What the interface shows (the backend address is not part of it).
pub struct StatusPayload {
    pub logged_in: bool,
    pub ws_connected: bool,
    pub active_match: Option<i64>,
    pub gsi_path: Option<String>,
    pub gsi_listening: bool,
    pub gsi_port: u16,
    pub autostart: bool,
}

/// Whether the window shows when the process starts: always without a
/// session (first run), and with one unless started minimised (autostart).
pub fn should_show_window(logged_in: bool, minimized: bool) -> (res: bool)
    ensures
        res == (!logged_in || !minimized),
{
    !logged_in || !minimized
}

/// The match controller.
pub struct MatchController {
    /// The id of the match created by the site; `None` is standby, where
    /// every GSI post is dropped without leaving the machine.
    pub active_match: Option<i64>,
    /// The last payload of the active match, to diff against.
    pub last_snapshot: Option<GsiSnapshot>,
    /// When the last STATE_SYNC went out (monotonic milliseconds).
    pub last_sync_ms: Option<u64>,
    /// A pending mandatory update: nothing is collected until it is installed.
    pub update_required: Option<UpdateInfo>,
}

pub open spec fn snap_ref(o: &Option<GsiSnapshot>) -> Option<&GsiSnapshot> {
    match o {
        Some(s) => Some(s),
        None => None,
    }
}

/// Whether a STATE_SYNC is due at `now`: none went out yet, or the last one
/// is at least [`SYNC_INTERVAL_MS`] old (a clock that went back counts as
/// no time elapsed).
pub open spec fn sync_due(last: Option<u64>, now: u64) -> bool {
    match last {
        None => true,
        Some(t) => now >= t && now - t >= SYNC_INTERVAL_MS,
    }
}

/// The events as messages of match `id` at `ts`.
pub open spec fn event_messages(events: Seq<GameEvent>, id: i64, ts: u64) -> Seq<OutMessage> {
    events.map_values(|e: GameEvent| OutMessage::Event { event: e, match_id: id, timestamp: ts })
}

/// The controller with the match, the snapshot and the sync clock cleared.
pub open spec fn without_match(c: MatchController) -> MatchController {
    MatchController { active_match: None, last_snapshot: None, last_sync_ms: None, ..c }
}

/// The controller once START_MATCH `id` arrived.
pub open spec fn started(c: MatchController, id: i64) -> MatchController {
    MatchController { active_match: Some(id), last_snapshot: None, last_sync_ms: None, ..c }
}

/// The controller once the update requirement is set to `info`; a pending
/// update also stops the match.
pub open spec fn with_update(c: MatchController, info: Option<UpdateInfo>) -> MatchController {
    if info is Some {
        MatchController { update_required: info, ..without_match(c) }
    } else {
        MatchController { update_required: info, ..c }
    }
}

/// What handling a GSI post does: `old` and `new` are the controller before
/// and after, `body` the posted text, `token` the expected secret, `now`
/// the monotonic clock and `ts` the wall-clock timestamp in milliseconds.
pub open spec fn gsi_outcome(
    old: MatchController,
    new: MatchController,
    body: Seq<char>,
    token: Seq<char>,
    now: u64,
    ts: u64,
    reply: GsiReply,
    out: Seq<OutMessage>,
) -> bool {
    if !json_parses(body) {
        reply == GsiReply::Malformed && new == old && out.len() == 0
    } else if posted_token(body) != token {
        reply == GsiReply::Unauthorized && new == old && out.len() == 0
    } else if old.update_required is Some {
        reply == GsiReply::Accepted && new == old && out.len() == 0
    } else {
        match old.active_match {
            None => reply == GsiReply::Accepted && new == MatchController {
                last_snapshot: None,
                ..old
            } && out.len() == 0,
            Some(id) => match new.last_snapshot {
                Some(s) => {
                    let sync = s.has_map && sync_due(old.last_sync_ms, now);
                    &&& reply == GsiReply::Accepted
                    &&& snapshot_of(s, body)
                    &&& new.active_match == old.active_match
                    &&& new.update_required == old.update_required
                    &&& new.last_sync_ms == (if sync { Some(now) } else { old.last_sync_ms })
                    &&& out == event_messages(events_between(snap_ref(&old.last_snapshot), s), id, ts)
                        + if sync {
                        seq![OutMessage::StateSync { match_id: id, timestamp: ts, data: condensed_of(s) }]
                    } else {
                        Seq::empty()
                    }
                },
                None => false,
            },
        }
    }
}

fn is_sync_due(last: Option<u64>, now: u64) -> (res: bool)
    ensures
        res == sync_due(last, now),
{
    match last {
        None => true,
        Some(t) => now >= t && now - t >= SYNC_INTERVAL_MS,
    }
}

fn event_messages_of(events: Vec<GameEvent>, id: i64, ts: u64) -> (out: Vec<OutMessage>)
    ensures
        out@ == event_messages(events@, id, ts),
{
    let ghost evs = events@;
    let mut out: Vec<OutMessage> = Vec::new();
    for e in it: events
        invariant
            it.seq() == evs,
            out@ == event_messages(evs.take(it.index() as int), id, ts),
    {
        out.push(OutMessage::Event { event: e, match_id: id, timestamp: ts });
        assert(evs.take(it.index() + 1) =~= evs.take(it.index() as int).push(e));
        assert(out@ =~= event_messages(evs.take(it.index() + 1), id, ts));
    }
    assert(evs.take(evs.len() as int) =~= evs);
    out
}

impl MatchController {
    /// Standby: no match, nothing pending.
    pub fn new() -> (res: MatchController)
        ensures
            res.active_match is None,
            res.last_snapshot is None,
            res.last_sync_ms is None,
            res.update_required is None,
    {
        MatchController { active_match: None, last_snapshot: None, last_sync_ms: None, update_required: None }
    }

    /// Handles one GSI post, applying in order the checks that the platform
    /// promises: JSON, secret token, no pending update, an active match.
    pub fn handle_gsi(&mut self, body: &str, expected_token: &str, now_ms: u64, unix_ms: u64) -> (res: (
        GsiReply,
        Vec<OutMessage>,
    ))
        ensures
            gsi_outcome(*old(self), *final(self), body@, expected_token@, now_ms, unix_ms, res.0, res.1@),
    {
        let doc = match JsonDoc::parse(body) {
            Some(d) => d,
            None => return (GsiReply::Malformed, Vec::new()),
        };
        if !token_matches(&doc, expected_token) {
            return (GsiReply::Unauthorized, Vec::new());
        }
        if self.update_required.is_some() {
            return (GsiReply::Accepted, Vec::new());
        }
        let id = match self.active_match {
            Some(id) => id,
            None => {
                // Keeps the snapshot clean, so that no diff of someone else's
                // game leaks if START_MATCH arrives in the middle of it.
                self.last_snapshot = None;
                return (GsiReply::Accepted, Vec::new());
            },
        };
        let snap = GsiSnapshot::from_json(&doc);
        let prev = match &self.last_snapshot {
            Some(p) => Some(p),
            None => None,
        };
        assert(prev == snap_ref(&old(self).last_snapshot));
        let events = extract(prev, &snap);
        assert(events@ == events_between(snap_ref(&old(self).last_snapshot), snap));
        let sync = snap.has_map && is_sync_due(self.last_sync_ms, now_ms);
        let mut out = event_messages_of(events, id, unix_ms);
        if sync {
            out.push(OutMessage::StateSync { match_id: id, timestamp: unix_ms, data: condensed(&snap) });
            self.last_sync_ms = Some(now_ms);
        }
        let ghost em = event_messages(events_between(snap_ref(&old(self).last_snapshot), snap), id, unix_ms);
        assert(sync ==> out@ =~= em + seq![OutMessage::StateSync { match_id: id, timestamp: unix_ms, data: condensed_of(snap) }]);
        assert(!sync ==> out@ =~= em + Seq::empty());
        self.last_snapshot = Some(snap);
        assert(self.active_match == old(self).active_match);
        (GsiReply::Accepted, out)
    }

    /// START_MATCH: collect the events of match `id` from now on.
    pub fn start_match(&mut self, id: i64) -> (out: Vec<OutMessage>)
        ensures
            *final(self) == started(*old(self), id),
            out@ == seq![OutMessage::MatchAck { match_id: id }],
    {
        self.active_match = Some(id);
        self.last_snapshot = None;
        self.last_sync_ms = None;
        let mut out = Vec::new();
        out.push(OutMessage::MatchAck { match_id: id });
        out
    }

    /// END_MATCH: back to standby; returns the match that ended.
    pub fn end_match(&mut self) -> (res: (Option<i64>, Vec<OutMessage>))
        ensures
            *final(self) == without_match(*old(self)),
            res.0 == old(self).active_match,
            res.1@ == seq![OutMessage::MatchEndedAck],
    {
        let ended = self.active_match;
        self.active_match = None;
        self.last_snapshot = None;
        self.last_sync_ms = None;
        let mut out = Vec::new();
        out.push(OutMessage::MatchEndedAck);
        (ended, out)
    }

    /// Logout: the match and its state are dropped.
    pub fn logout(&mut self)
        ensures
            *final(self) == without_match(*old(self)),
    {
        self.active_match = None;
        self.last_snapshot = None;
        self.last_sync_ms = None;
    }

    /// The session expired for good: the match is dropped.
    pub fn drop_match(&mut self)
        ensures
            *final(self) == (MatchController { active_match: None, ..*old(self) }),
    {
        self.active_match = None;
    }

    /// Sets (or clears) the mandatory-update requirement; returns whether
    /// it changed between pending and not pending, which is when the
    /// WebSocket manager must be woken.
    pub fn set_update_required(&mut self, info: Option<UpdateInfo>) -> (changed: bool)
        ensures
            changed == (old(self).update_required.is_some() != info.is_some()),
            *final(self) == with_update(*old(self), info),
    {
        let changed = self.update_required.is_some() != info.is_some();
        if info.is_some() {
            self.active_match = None;
            self.last_snapshot = None;
            self.last_sync_ms = None;
        }
        self.update_required = info;
        changed
    }
}

// ---------------------------------------------------------------------------
// Laws
// ---------------------------------------------------------------------------

/// Without a match created by the site nothing leaves the machine, and the
/// previous snapshot is dropped.
pub proof fn standby_sends_nothing(
    c: MatchController,
    n: MatchController,
    body: Seq<char>,
    token: Seq<char>,
    now: u64,
    ts: u64,
    reply: GsiReply,
    out: Seq<OutMessage>,
)
    requires
        c.active_match is None,
        gsi_outcome(c, n, body, token, now, ts, reply, out),
    ensures
        out.len() == 0,
        n.active_match is None,
        c.update_required is None && json_parses(body) && posted_token(body) == token
            ==> n.last_snapshot is None && reply == GsiReply::Accepted,
{
}

/// While a mandatory update is pending nothing leaves the machine and the
/// controller does not change.
pub proof fn pending_update_sends_nothing(
    c: MatchController,
    n: MatchController,
    body: Seq<char>,
    token: Seq<char>,
    now: u64,
    ts: u64,
    reply: GsiReply,
    out: Seq<OutMessage>,
)
    requires
        c.update_required is Some,
        gsi_outcome(c, n, body, token, now, ts, reply, out),
    ensures
        out.len() == 0,
        n == c,
{
}

/// A post whose token is wrong is refused with 401 and changes nothing.
pub proof fn wrong_token_is_refused(
    c: MatchController,
    n: MatchController,
    body: Seq<char>,
    token: Seq<char>,
    now: u64,
    ts: u64,
    reply: GsiReply,
    out: Seq<OutMessage>,
)
    requires
        json_parses(body),
        posted_token(body) != token,
        gsi_outcome(c, n, body, token, now, ts, reply, out),
    ensures
        reply == GsiReply::Unauthorized,
        n == c,
        out.len() == 0,
{
}

/// After END_MATCH (or logout) no post leaves the machine until the next
/// START_MATCH.
pub proof fn nothing_after_end_match(
    c: MatchController,
    n: MatchController,
    body: Seq<char>,
    token: Seq<char>,
    now: u64,
    ts: u64,
    reply: GsiReply,
    out: Seq<OutMessage>,
)
    requires
        gsi_outcome(without_match(c), n, body, token, now, ts, reply, out),
    ensures
        out.len() == 0,
        n.active_match is None,
{
}

/// Every message sent after START_MATCH `id` carries that match id.
pub proof fn messages_carry_started_match(
    c: MatchController,
    id: i64,
    n: MatchController,
    body: Seq<char>,
    token: Seq<char>,
    now: u64,
    ts: u64,
    reply: GsiReply,
    out: Seq<OutMessage>,
)
    requires
        gsi_outcome(started(c, id), n, body, token, now, ts, reply, out),
    ensures
        forall|i: int|
            0 <= i < out.len() ==> match #[trigger] out[i] {
                OutMessage::Event { match_id, .. } => match_id == id,
                OutMessage::StateSync { match_id, .. } => match_id == id,
                _ => false,
            },
{
    let s0 = started(c, id);
    if json_parses(body) && posted_token(body) == token && s0.update_required is None {
        let s = n.last_snapshot->0;
        let evs = events_between(snap_ref(&s0.last_snapshot), s);
        let em = event_messages(evs, id, ts);
        assert forall|i: int| 0 <= i < out.len() implies match #[trigger] out[i] {
            OutMessage::Event { match_id, .. } => match_id == id,
            OutMessage::StateSync { match_id, .. } => match_id == id,
            _ => false,
        } by {
            if i < em.len() {
                assert(out[i] == em[i]);
            } else {
                assert(out[i] == out[em.len() as int]);
            }
        }
    }
}

/// Whether a STATE_SYNC is among the messages.
pub open spec fn has_state_sync(out: Seq<OutMessage>) -> bool {
    exists|i: int| 0 <= i < out.len() && (#[trigger] out[i]) is StateSync
}

proof fn lemma_sync_iff_sent(
    c: MatchController,
    n: MatchController,
    body: Seq<char>,
    token: Seq<char>,
    now: u64,
    ts: u64,
    reply: GsiReply,
    out: Seq<OutMessage>,
)
    requires
        gsi_outcome(c, n, body, token, now, ts, reply, out),
    ensures
        has_state_sync(out) ==> n.last_sync_ms == Some(now),
        !has_state_sync(out) ==> n.last_sync_ms == c.last_sync_ms,
{
    if json_parses(body) && posted_token(body) == token && c.update_required is None
        && c.active_match is Some {
        let id = c.active_match->0;
        let s = n.last_snapshot->0;
        let sync = s.has_map && sync_due(c.last_sync_ms, now);
        let em = event_messages(events_between(snap_ref(&c.last_snapshot), s), id, ts);
        if sync {
            assert(out[em.len() as int] is StateSync);
        } else {
            assert(out == em);
            if has_state_sync(out) {
                let i = choose|i: int| 0 <= i < out.len() && (#[trigger] out[i]) is StateSync;
                assert(out[i] == em[i]);
            }
        }
    }
}

/// STATE_SYNC goes out at most once per interval: two syncs sent by
/// consecutive posts are at least [`SYNC_INTERVAL_MS`] apart.
pub proof fn state_sync_is_throttled(
    c1: MatchController,
    c2: MatchController,
    c3: MatchController,
    body1: Seq<char>,
    body2: Seq<char>,
    token: Seq<char>,
    now1: u64,
    now2: u64,
    ts1: u64,
    ts2: u64,
    r1: GsiReply,
    r2: GsiReply,
    out1: Seq<OutMessage>,
    out2: Seq<OutMessage>,
)
    requires
        gsi_outcome(c1, c2, body1, token, now1, ts1, r1, out1),
        gsi_outcome(c2, c3, body2, token, now2, ts2, r2, out2),
        has_state_sync(out1),
        has_state_sync(out2),
    ensures
        now2 >= now1 + SYNC_INTERVAL_MS,
{
    lemma_sync_iff_sent(c1, c2, body1, token, now1, ts1, r1, out1);
    if !(json_parses(body2) && posted_token(body2) == token && c2.update_required is None
        && c2.active_match is Some) {
        let i = choose|i: int| 0 <= i < out2.len() && (#[trigger] out2[i]) is StateSync;
        assert(false);
    } else {
        let id = c2.active_match->0;
        let s = c3.last_snapshot->0;
        let sync = s.has_map && sync_due(c2.last_sync_ms, now2);
        let em = event_messages(events_between(snap_ref(&c2.last_snapshot), s), id, ts2);
        if !sync {
            assert(out2 == em);
            let i = choose|i: int| 0 <= i < out2.len() && (#[trigger] out2[i]) is StateSync;
            assert(out2[i] == em[i]);
        }
    }
}

/// A pending update stops the match: nothing is collected afterwards.
pub proof fn pending_update_stops_match(c: MatchController, info: UpdateInfo)
    ensures
        with_update(c, Some(info)).active_match is None,
        with_update(c, Some(info)).last_snapshot is None,
{
}

/// The time of a post is the wall clock given for it: every message that
/// one GSI post produces, its events and its STATE_SYNC alike, carries `ts`
/// as its timestamp; the monotonic clock `now` only decides whether a
/// STATE_SYNC is due.
pub proof fn messages_carry_wall_clock(
    c: MatchController,
    n: MatchController,
    body: Seq<char>,
    token: Seq<char>,
    now: u64,
    ts: u64,
    reply: GsiReply,
    out: Seq<OutMessage>,
)
    requires
        gsi_outcome(c, n, body, token, now, ts, reply, out),
    ensures
        forall|i: int|
            0 <= i < out.len() ==> match #[trigger] out[i] {
                OutMessage::Event { timestamp, .. } => timestamp == ts,
                OutMessage::StateSync { timestamp, .. } => timestamp == ts,
                _ => false,
            },
{
    if json_parses(body) && posted_token(body) == token && c.update_required is None
        && c.active_match is Some {
        let id = c.active_match->0;
        let s = n.last_snapshot->0;
        let em = event_messages(events_between(snap_ref(&c.last_snapshot), s), id, ts);
        assert forall|i: int| 0 <= i < out.len() implies match #[trigger] out[i] {
            OutMessage::Event { timestamp, .. } => timestamp == ts,
            OutMessage::StateSync { timestamp, .. } => timestamp == ts,
            _ => false,
        } by {
            if i < em.len() {
                assert(out[i] == em[i]);
            } else {
                assert(out[i] == out[em.len() as int]);
            }
        }
    }
}

/// Only a pending update stops the match: clearing the requirement (the
/// periodic check found the client current) keeps the match, its snapshot
/// and its sync clock as they were, while setting one drops all three.
pub proof fn only_pending_update_stops_match(c: MatchController, info: Option<UpdateInfo>)
    ensures
        with_update(c, info).update_required == info,
        info is None ==> {
            &&& with_update(c, info).active_match == c.active_match
            &&& with_update(c, info).last_snapshot == c.last_snapshot
            &&& with_update(c, info).last_sync_ms == c.last_sync_ms
        },
        info is Some ==> {
            &&& with_update(c, info).active_match is None
            &&& with_update(c, info).last_snapshot is None
            &&& with_update(c, info).last_sync_ms is None
        },
{
}

/// While a match is active, an accepted post whose payload has a map sends
/// STATE_SYNC exactly when none was sent yet or the last one is at least
/// [`SYNC_INTERVAL_MS`] old on the monotonic clock; a payload without a map
/// never does.
pub proof fn state_sync_when_due(
    c: MatchController,
    n: MatchController,
    body: Seq<char>,
    token: Seq<char>,
    now: u64,
    ts: u64,
    reply: GsiReply,
    out: Seq<OutMessage>,
)
    requires
        gsi_outcome(c, n, body, token, now, ts, reply, out),
        json_parses(body),
        posted_token(body) == token,
        c.update_required is None,
        c.active_match is Some,
    ensures
        n.last_snapshot is Some,
        has_state_sync(out) <==> (n.last_snapshot->0.has_map && (c.last_sync_ms is None
            || now >= c.last_sync_ms->0 + SYNC_INTERVAL_MS)),
{
    let id = c.active_match->0;
    let s = n.last_snapshot->0;
    let sync = s.has_map && sync_due(c.last_sync_ms, now);
    let em = event_messages(events_between(snap_ref(&c.last_snapshot), s), id, ts);
    if sync {
        assert(out[em.len() as int] is StateSync);
    } else {
        assert(out == em);
        if has_state_sync(out) {
            let i = choose|i: int| 0 <= i < out.len() && (#[trigger] out[i]) is StateSync;
            assert(out[i] == em[i]);
        }
    }
}

} // verus!
