//! The JSON text of the messages sent to the backend.
//!
//! Each message is a JSON object written without spaces, with its keys in
//! the order `serde_json`'s map writes them (sorted), absent values as
//! `null` and strings quoted by `serde_json`.
use vstd::prelude::*;
use crate::events::{kind_name, CondensedState, EventData, GameEvent, PlayerSync};
use crate::json::{json_quote, quote};
use crate::state::OutMessage;
use crate::text::{decimal, push_char, push_decimal, push_str};
use vstd::seq_lib::lemma_concat_associative;

verus! {

/// An integer as JSON writes it.
pub open spec fn json_int(n: int) -> Seq<char> {
    if n < 0 {
        seq!['-'] + decimal((-n) as nat)
    } else {
        decimal(n as nat)
    }
}

pub open spec fn json_opt_int(o: Option<i64>) -> Seq<char> {
    match o {
        Some(n) => json_int(n as int),
        None => "null"@,
    }
}

pub open spec fn json_opt_str(o: Option<String>) -> Seq<char> {
    match o {
        Some(s) => json_quote(s@),
        None => "null"@,
    }
}

/// The `data` object of an event.
pub open spec fn event_data_json(d: EventData) -> Seq<char> {
    match d {
        EventData::Empty => "{}"@,
        EventData::MapInfo { map, mode } => "{\"map\":"@ + json_opt_str(map) + ",\"mode\":"@
            + json_opt_str(mode) + "}"@,
        EventData::Phase { phase } => "{\"phase\":"@ + json_quote(phase@) + "}"@,
        EventData::Round { round } => "{\"round\":"@ + json_opt_int(round) + "}"@,
        EventData::RoundEnd { round, winner, score_ct, score_t } => "{\"round\":"@ + json_opt_int(
            round,
        ) + ",\"score_ct\":"@ + json_opt_int(score_ct) + ",\"score_t\":"@ + json_opt_int(score_t)
            + ",\"winner\":"@ + json_opt_str(winner) + "}"@,
        EventData::Score { score_ct, score_t } => "{\"score_ct\":"@ + json_opt_int(score_ct)
            + ",\"score_t\":"@ + json_opt_int(score_t) + "}"@,
        EventData::Counter { total, delta } => "{\"delta\":"@ + json_int(delta as int)
            + ",\"total\":"@ + json_int(total as int) + "}"@,
        EventData::Deaths { deaths } => "{\"deaths\":"@ + json_opt_int(deaths) + "}"@,
        EventData::Weapon { weapon } => "{\"weapon\":"@ + json_quote(weapon@) + "}"@,
        EventData::Team { team } => "{\"team\":"@ + json_quote(team@) + "}"@,
    }
}

/// The first members of the player's statistics, `armor` to `kills`.
pub open spec fn player_front(p: PlayerSync) -> Seq<char> {
    "{\"armor\":"@ + json_opt_int(p.armor) + ",\"assists\":"@ + json_opt_int(p.assists)
        + ",\"deaths\":"@ + json_opt_int(p.deaths) + ",\"health\":"@ + json_opt_int(p.health)
        + ",\"kills\":"@ + json_opt_int(p.kills)
}

/// The last members of the player's statistics, `money` to `team`.
pub open spec fn player_back(p: PlayerSync) -> Seq<char> {
    ",\"money\":"@ + json_opt_int(p.money) + ",\"mvps\":"@ + json_opt_int(p.mvps) + ",\"name\":"@
        + json_opt_str(p.name) + ",\"score\":"@ + json_opt_int(p.score) + ",\"steamid\":"@
        + json_opt_str(p.steamid) + ",\"team\":"@ + json_opt_str(p.team) + "}"@
}

/// The player's statistics in STATE_SYNC (`null` for a spectated teammate).
pub open spec fn player_json(p: Option<PlayerSync>) -> Seq<char> {
    match p {
        Some(p) => player_front(p) + player_back(p),
        None => "null"@,
    }
}

/// The first members of STATE_SYNC's `data`, `map` to `player`.
pub open spec fn condensed_front(c: CondensedState) -> Seq<char> {
    "{\"map\":"@ + json_opt_str(c.map) + ",\"map_phase\":"@ + json_opt_str(c.map_phase)
        + ",\"mode\":"@ + json_opt_str(c.mode) + ",\"player\":"@ + player_json(c.player)
}

/// The last members of STATE_SYNC's `data`, `round` to `score_t`.
pub open spec fn condensed_back(c: CondensedState) -> Seq<char> {
    ",\"round\":"@ + json_opt_int(c.round) + ",\"round_phase\":"@ + json_opt_str(c.round_phase)
        + ",\"score_ct\":"@ + json_opt_int(c.score_ct) + ",\"score_t\":"@ + json_opt_int(c.score_t)
        + "}"@
}

/// The `data` object of STATE_SYNC.
pub open spec fn condensed_json(c: CondensedState) -> Seq<char> {
    condensed_front(c) + condensed_back(c)
}

/// The JSON text of a message for the backend: `type` names it; match
/// messages carry `matchId`, `timestamp` (milliseconds) and `data`.
pub open spec fn message_json(m: OutMessage) -> Seq<char> {
    match m {
        OutMessage::Hello { version } => "{\"client\":"@ + json_quote("resenha-client"@)
            + ",\"type\":"@ + json_quote("HELLO"@) + ",\"version\":"@ + json_quote(version@)
            + "}"@,
        OutMessage::Event { event, match_id, timestamp } => "{\"data\":"@ + event_data_json(
            event.data,
        ) + ",\"matchId\":"@ + json_int(match_id as int) + ",\"timestamp\":"@ + decimal(
            timestamp as nat,
        ) + ",\"type\":"@ + json_quote(kind_name(event.kind)) + "}"@,
        OutMessage::StateSync { match_id, timestamp, data } => "{\"data\":"@ + condensed_json(data)
            + ",\"matchId\":"@ + json_int(match_id as int) + ",\"timestamp\":"@ + decimal(
            timestamp as nat,
        ) + ",\"type\":"@ + json_quote("STATE_SYNC"@) + "}"@,
        OutMessage::MatchAck { match_id } => "{\"matchId\":"@ + json_int(match_id as int)
            + ",\"type\":"@ + json_quote("MATCH_ACK"@) + "}"@,
        OutMessage::MatchEndedAck => "{\"type\":"@ + json_quote("MATCH_ENDED_ACK"@) + "}"@,
        OutMessage::Pong => "{\"type\":"@ + json_quote("PONG"@) + "}"@,
    }
}

fn push_int(out: &mut String, n: i64)
    ensures
        final(out)@ == old(out)@ + json_int(n as int),
{
    if n < 0 {
        push_char(out, '-');
        let m = (0 - (n as i128)) as u64;
        push_decimal(out, m);
        assert(final(out)@ =~= old(out)@ + json_int(n as int));
    } else {
        push_decimal(out, n as u64);
    }
}

fn push_opt_int(out: &mut String, o: Option<i64>)
    ensures
        final(out)@ == old(out)@ + json_opt_int(o),
{
    match o {
        Some(n) => push_int(out, n),
        None => push_str(out, "null"),
    }
}

fn push_quoted(out: &mut String, s: &str)
    ensures
        final(out)@ == old(out)@ + json_quote(s@),
{
    let q = quote(s);
    push_str(out, q.as_str());
}

fn push_opt_str(out: &mut String, o: &Option<String>)
    ensures
        final(out)@ == old(out)@ + json_opt_str(*o),
{
    match o {
        Some(s) => push_quoted(out, s.as_str()),
        None => push_str(out, "null"),
    }
}

fn push_event_data(out: &mut String, d: &EventData)
    ensures
        final(out)@ == old(out)@ + event_data_json(*d),
{
    match d {
        EventData::Empty => push_str(out, "{}"),
        EventData::MapInfo { map, mode } => {
            push_str(out, "{\"map\":");
            push_opt_str(out, map);
            push_str(out, ",\"mode\":");
            push_opt_str(out, mode);
            push_str(out, "}");
        },
        EventData::Phase { phase } => {
            push_str(out, "{\"phase\":");
            push_quoted(out, phase.as_str());
            push_str(out, "}");
        },
        EventData::Round { round } => {
            push_str(out, "{\"round\":");
            push_opt_int(out, *round);
            push_str(out, "}");
        },
        EventData::RoundEnd { round, winner, score_ct, score_t } => {
            push_str(out, "{\"round\":");
            push_opt_int(out, *round);
            push_str(out, ",\"score_ct\":");
            push_opt_int(out, *score_ct);
            push_str(out, ",\"score_t\":");
            push_opt_int(out, *score_t);
            push_str(out, ",\"winner\":");
            push_opt_str(out, winner);
            push_str(out, "}");
        },
        EventData::Score { score_ct, score_t } => {
            push_str(out, "{\"score_ct\":");
            push_opt_int(out, *score_ct);
            push_str(out, ",\"score_t\":");
            push_opt_int(out, *score_t);
            push_str(out, "}");
        },
        EventData::Counter { total, delta } => {
            push_str(out, "{\"delta\":");
            push_int(out, *delta);
            push_str(out, ",\"total\":");
            push_int(out, *total);
            push_str(out, "}");
        },
        EventData::Deaths { deaths } => {
            push_str(out, "{\"deaths\":");
            push_opt_int(out, *deaths);
            push_str(out, "}");
        },
        EventData::Weapon { weapon } => {
            push_str(out, "{\"weapon\":");
            push_quoted(out, weapon.as_str());
            push_str(out, "}");
        },
        EventData::Team { team } => {
            push_str(out, "{\"team\":");
            push_quoted(out, team.as_str());
            push_str(out, "}");
        },
    }
    assert(final(out)@ =~= old(out)@ + event_data_json(*d));
}

fn push_player_front(out: &mut String, p: &PlayerSync)
    ensures
        final(out)@ == old(out)@ + player_front(*p),
{
    push_str(out, "{\"armor\":");
    push_opt_int(out, p.armor);
    push_str(out, ",\"assists\":");
    push_opt_int(out, p.assists);
    push_str(out, ",\"deaths\":");
    push_opt_int(out, p.deaths);
    push_str(out, ",\"health\":");
    push_opt_int(out, p.health);
    push_str(out, ",\"kills\":");
    push_opt_int(out, p.kills);
    assert(final(out)@ =~= old(out)@ + player_front(*p));
}

fn push_player_back(out: &mut String, p: &PlayerSync)
    ensures
        final(out)@ == old(out)@ + player_back(*p),
{
    push_str(out, ",\"money\":");
    push_opt_int(out, p.money);
    push_str(out, ",\"mvps\":");
    push_opt_int(out, p.mvps);
    push_str(out, ",\"name\":");
    push_opt_str(out, &p.name);
    push_str(out, ",\"score\":");
    push_opt_int(out, p.score);
    push_str(out, ",\"steamid\":");
    push_opt_str(out, &p.steamid);
    push_str(out, ",\"team\":");
    push_opt_str(out, &p.team);
    push_str(out, "}");
    assert(final(out)@ =~= old(out)@ + player_back(*p));
}

fn push_player(out: &mut String, p: &Option<PlayerSync>)
    ensures
        final(out)@ == old(out)@ + player_json(*p),
{
    match p {
        Some(p) => {
            push_player_front(out, p);
            push_player_back(out, p);
        },
        None => push_str(out, "null"),
    }
    assert(final(out)@ =~= old(out)@ + player_json(*p));
}

fn push_condensed_front(out: &mut String, c: &CondensedState)
    ensures
        final(out)@ == old(out)@ + condensed_front(*c),
{
    push_str(out, "{\"map\":");
    push_opt_str(out, &c.map);
    push_str(out, ",\"map_phase\":");
    push_opt_str(out, &c.map_phase);
    push_str(out, ",\"mode\":");
    push_opt_str(out, &c.mode);
    push_str(out, ",\"player\":");
    push_player(out, &c.player);
    assert(final(out)@ =~= old(out)@ + condensed_front(*c));
}

fn push_condensed_back(out: &mut String, c: &CondensedState)
    ensures
        final(out)@ == old(out)@ + condensed_back(*c),
{
    push_str(out, ",\"round\":");
    push_opt_int(out, c.round);
    push_str(out, ",\"round_phase\":");
    push_opt_str(out, &c.round_phase);
    push_str(out, ",\"score_ct\":");
    push_opt_int(out, c.score_ct);
    push_str(out, ",\"score_t\":");
    push_opt_int(out, c.score_t);
    push_str(out, "}");
    assert(final(out)@ =~= old(out)@ + condensed_back(*c));
}

fn push_condensed(out: &mut String, c: &CondensedState)
    ensures
        final(out)@ == old(out)@ + condensed_json(*c),
{
    push_condensed_front(out, c);
    push_condensed_back(out, c);
    assert(final(out)@ =~= old(out)@ + condensed_json(*c));
}

fn push_event_message(out: &mut String, event: &GameEvent, match_id: i64, timestamp: u64)
    ensures
        final(out)@ == old(out)@ + message_json(
            OutMessage::Event { event: *event, match_id, timestamp },
        ),
{
    push_str(out, "{\"data\":");
    push_event_data(out, &event.data);
    push_str(out, ",\"matchId\":");
    push_int(out, match_id);
    push_str(out, ",\"timestamp\":");
    push_decimal(out, timestamp);
    push_str(out, ",\"type\":");
    push_quoted(out, event.kind.name());
    push_str(out, "}");
    assert(final(out)@ =~= old(out)@ + message_json(
        OutMessage::Event { event: *event, match_id, timestamp },
    ));
}

fn push_sync_message(out: &mut String, match_id: i64, timestamp: u64, data: &CondensedState)
    ensures
        final(out)@ == old(out)@ + message_json(
            OutMessage::StateSync { match_id, timestamp, data: *data },
        ),
{
    push_str(out, "{\"data\":");
    push_condensed(out, data);
    push_str(out, ",\"matchId\":");
    push_int(out, match_id);
    push_str(out, ",\"timestamp\":");
    push_decimal(out, timestamp);
    push_str(out, ",\"type\":");
    push_quoted(out, "STATE_SYNC");
    push_str(out, "}");
    assert(final(out)@ =~= old(out)@ + message_json(
        OutMessage::StateSync { match_id, timestamp, data: *data },
    ));
}

/// The JSON text of a message for the backend.
pub fn to_json(m: &OutMessage) -> (res: String)
    ensures
        res@ == message_json(*m),
{
    let mut out = String::new();
    match m {
        OutMessage::Hello { version } => {
            push_str(&mut out, "{\"client\":");
            push_quoted(&mut out, "resenha-client");
            push_str(&mut out, ",\"type\":");
            push_quoted(&mut out, "HELLO");
            push_str(&mut out, ",\"version\":");
            push_quoted(&mut out, version.as_str());
            push_str(&mut out, "}");
        },
        OutMessage::Event { event, match_id, timestamp } => {
            push_event_message(&mut out, event, *match_id, *timestamp);
        },
        OutMessage::StateSync { match_id, timestamp, data } => {
            push_sync_message(&mut out, *match_id, *timestamp, data);
        },
        OutMessage::MatchAck { match_id } => {
            push_str(&mut out, "{\"matchId\":");
            push_int(&mut out, *match_id);
            push_str(&mut out, ",\"type\":");
            push_quoted(&mut out, "MATCH_ACK");
            push_str(&mut out, "}");
        },
        OutMessage::MatchEndedAck => {
            push_str(&mut out, "{\"type\":");
            push_quoted(&mut out, "MATCH_ENDED_ACK");
            push_str(&mut out, "}");
        },
        OutMessage::Pong => {
            push_str(&mut out, "{\"type\":");
            push_quoted(&mut out, "PONG");
            push_str(&mut out, "}");
        },
    }
    assert(out@ =~= message_json(*m));
    out
}

// ---------------------------------------------------------------------------
// Members by name
// ---------------------------------------------------------------------------

/// The key of a member: the quoted name and the colon.
pub open spec fn member_key(name: Seq<char>) -> Seq<char> {
    seq!['"'] + name + seq!['"', ':']
}

/// At position `k` of `text` stands the member `name` with the value
/// `value`: the key follows `{` or `,`, and `,` or `}` follows the value.
pub open spec fn member_at(text: Seq<char>, k: int, name: Seq<char>, value: Seq<char>) -> bool {
    let end = k + member_key(name).len() + value.len();
    &&& 1 <= k
    &&& end < text.len()
    &&& (text[k - 1] == '{' || text[k - 1] == ',')
    &&& text.subrange(k, end) == member_key(name) + value
    &&& (text[end] == ',' || text[end] == '}')
}

/// `text` holds the member `name` with the value `value`.
pub open spec fn has_member(text: Seq<char>, name: Seq<char>, value: Seq<char>) -> bool {
    exists|k: int| member_at(text, k, name, value)
}

/// A member written as `lit` (the separator, then the key) followed by its
/// value and then by `,` or `}` is found by its name.
proof fn lemma_member(a: Seq<char>, lit: Seq<char>, name: Seq<char>, value: Seq<char>, c: Seq<char>)
    requires
        lit == seq![lit[0]] + member_key(name),
        lit[0] == '{' || lit[0] == ',',
        c.len() > 0,
        c[0] == ',' || c[0] == '}',
    ensures
        has_member(a + lit + value + c, name, value),
{
    let text = a + lit + value + c;
    let k: int = a.len() + 1int;
    let end: int = k + member_key(name).len() + value.len();
    assert(text[k - 1] == lit[0]);
    assert(text.subrange(k, end) =~= member_key(name) + value);
    assert(text[end] == c[0]);
    assert(member_at(text, k, name, value));
}

/// A member stays where it is when more text follows.
proof fn lemma_member_append(x: Seq<char>, y: Seq<char>, name: Seq<char>, value: Seq<char>)
    requires
        has_member(x, name, value),
    ensures
        has_member(x + y, name, value),
{
    let k = choose|k: int| member_at(x, k, name, value);
    let end: int = k + member_key(name).len() + value.len();
    assert((x + y).subrange(k, end) =~= x.subrange(k, end));
    assert(member_at(x + y, k, name, value));
}

/// `lit` writes the separator `{` or `,` and then the key of `name`.
pub open spec fn opens_member(lit: Seq<char>, name: Seq<char>) -> bool {
    &&& lit.len() > 0
    &&& (lit[0] == '{' || lit[0] == ',')
    &&& lit == seq![lit[0]] + member_key(name)
}

proof fn lemma_close_brace()
    ensures
        "}"@ == seq!['}'],
{
    reveal_strlit("}");
}

/// The object of the member `(l1, v1)` holds it by its name.
proof fn lemma_members_1(
    l1: Seq<char>, n1: Seq<char>, v1: Seq<char>,
)
    requires
        opens_member(l1, n1),
    ensures
        has_member(l1 + v1 + "}"@, n1, v1),
{
    lemma_close_brace();
    lemma_member(Seq::<char>::empty(), l1, n1, v1, "}"@);
    assert(Seq::<char>::empty() + l1 + v1 + "}"@ =~= l1 + v1 + "}"@);
}

/// The object of the members `(l1, v1)` to `(l2, v2)` holds each by its name.
proof fn lemma_members_2(
    l1: Seq<char>, n1: Seq<char>, v1: Seq<char>,
    l2: Seq<char>, n2: Seq<char>, v2: Seq<char>,
)
    requires
        opens_member(l1, n1),
        opens_member(l2, n2),
        l2[0] == ',',
    ensures
        has_member(l1 + v1 + l2 + v2 + "}"@, n1, v1),
        has_member(l1 + v1 + l2 + v2 + "}"@, n2, v2),
{
    lemma_close_brace();
    lemma_member(Seq::<char>::empty(), l1, n1, v1, l2);
    assert(Seq::<char>::empty() + l1 + v1 + l2 =~= l1 + v1 + l2);
    lemma_member_append(l1 + v1 + l2, v2, n1, v1);
    lemma_member_append(l1 + v1 + l2 + v2, "}"@, n1, v1);
    lemma_member(l1 + v1, l2, n2, v2, "}"@);
}

/// The object of the members `(l1, v1)` to `(l3, v3)` holds each by its name.
proof fn lemma_members_3(
    l1: Seq<char>, n1: Seq<char>, v1: Seq<char>,
    l2: Seq<char>, n2: Seq<char>, v2: Seq<char>,
    l3: Seq<char>, n3: Seq<char>, v3: Seq<char>,
)
    requires
        opens_member(l1, n1),
        opens_member(l2, n2),
        opens_member(l3, n3),
        l2[0] == ',',
        l3[0] == ',',
    ensures
        has_member(l1 + v1 + l2 + v2 + l3 + v3 + "}"@, n1, v1),
        has_member(l1 + v1 + l2 + v2 + l3 + v3 + "}"@, n2, v2),
        has_member(l1 + v1 + l2 + v2 + l3 + v3 + "}"@, n3, v3),
{
    lemma_close_brace();
    lemma_member(Seq::<char>::empty(), l1, n1, v1, l2);
    assert(Seq::<char>::empty() + l1 + v1 + l2 =~= l1 + v1 + l2);
    lemma_member_append(l1 + v1 + l2, v2, n1, v1);
    lemma_member_append(l1 + v1 + l2 + v2, l3, n1, v1);
    lemma_member_append(l1 + v1 + l2 + v2 + l3, v3, n1, v1);
    lemma_member_append(l1 + v1 + l2 + v2 + l3 + v3, "}"@, n1, v1);
    lemma_member(l1 + v1, l2, n2, v2, l3);
    lemma_member_append(l1 + v1 + l2 + v2 + l3, v3, n2, v2);
    lemma_member_append(l1 + v1 + l2 + v2 + l3 + v3, "}"@, n2, v2);
    lemma_member(l1 + v1 + l2 + v2, l3, n3, v3, "}"@);
}

/// The object of the members `(l1, v1)` to `(l4, v4)` holds each by its name.
proof fn lemma_members_4(
    l1: Seq<char>, n1: Seq<char>, v1: Seq<char>,
    l2: Seq<char>, n2: Seq<char>, v2: Seq<char>,
    l3: Seq<char>, n3: Seq<char>, v3: Seq<char>,
    l4: Seq<char>, n4: Seq<char>, v4: Seq<char>,
)
    requires
        opens_member(l1, n1),
        opens_member(l2, n2),
        opens_member(l3, n3),
        opens_member(l4, n4),
        l2[0] == ',',
        l3[0] == ',',
        l4[0] == ',',
    ensures
        has_member(l1 + v1 + l2 + v2 + l3 + v3 + l4 + v4 + "}"@, n1, v1),
        has_member(l1 + v1 + l2 + v2 + l3 + v3 + l4 + v4 + "}"@, n2, v2),
        has_member(l1 + v1 + l2 + v2 + l3 + v3 + l4 + v4 + "}"@, n3, v3),
        has_member(l1 + v1 + l2 + v2 + l3 + v3 + l4 + v4 + "}"@, n4, v4),
{
    lemma_close_brace();
    lemma_member(Seq::<char>::empty(), l1, n1, v1, l2);
    assert(Seq::<char>::empty() + l1 + v1 + l2 =~= l1 + v1 + l2);
    lemma_member_append(l1 + v1 + l2, v2, n1, v1);
    lemma_member_append(l1 + v1 + l2 + v2, l3, n1, v1);
    lemma_member_append(l1 + v1 + l2 + v2 + l3, v3, n1, v1);
    lemma_member_append(l1 + v1 + l2 + v2 + l3 + v3, l4, n1, v1);
    lemma_member_append(l1 + v1 + l2 + v2 + l3 + v3 + l4, v4, n1, v1);
    lemma_member_append(l1 + v1 + l2 + v2 + l3 + v3 + l4 + v4, "}"@, n1, v1);
    lemma_member(l1 + v1, l2, n2, v2, l3);
    lemma_member_append(l1 + v1 + l2 + v2 + l3, v3, n2, v2);
    lemma_member_append(l1 + v1 + l2 + v2 + l3 + v3, l4, n2, v2);
    lemma_member_append(l1 + v1 + l2 + v2 + l3 + v3 + l4, v4, n2, v2);
    lemma_member_append(l1 + v1 + l2 + v2 + l3 + v3 + l4 + v4, "}"@, n2, v2);
    lemma_member(l1 + v1 + l2 + v2, l3, n3, v3, l4);
    lemma_member_append(l1 + v1 + l2 + v2 + l3 + v3 + l4, v4, n3, v3);
    lemma_member_append(l1 + v1 + l2 + v2 + l3 + v3 + l4 + v4, "}"@, n3, v3);
    lemma_member(l1 + v1 + l2 + v2 + l3 + v3, l4, n4, v4, "}"@);
}

/// The object of the members `(l1, v1)` to `(l8, v8)` holds each by its name.
#[verifier::rlimit(40)]
proof fn lemma_members_8(
    l1: Seq<char>, n1: Seq<char>, v1: Seq<char>,
    l2: Seq<char>, n2: Seq<char>, v2: Seq<char>,
    l3: Seq<char>, n3: Seq<char>, v3: Seq<char>,
    l4: Seq<char>, n4: Seq<char>, v4: Seq<char>,
    l5: Seq<char>, n5: Seq<char>, v5: Seq<char>,
    l6: Seq<char>, n6: Seq<char>, v6: Seq<char>,
    l7: Seq<char>, n7: Seq<char>, v7: Seq<char>,
    l8: Seq<char>, n8: Seq<char>, v8: Seq<char>,
)
    requires
        opens_member(l1, n1),
        opens_member(l2, n2),
        opens_member(l3, n3),
        opens_member(l4, n4),
        opens_member(l5, n5),
        opens_member(l6, n6),
        opens_member(l7, n7),
        opens_member(l8, n8),
        l2[0] == ',',
        l3[0] == ',',
        l4[0] == ',',
        l5[0] == ',',
        l6[0] == ',',
        l7[0] == ',',
        l8[0] == ',',
    ensures
        has_member(l1 + v1 + l2 + v2 + l3 + v3 + l4 + v4 + l5 + v5 + l6 + v6 + l7 + v7 + l8 + v8 + "}"@, n1, v1),
        has_member(l1 + v1 + l2 + v2 + l3 + v3 + l4 + v4 + l5 + v5 + l6 + v6 + l7 + v7 + l8 + v8 + "}"@, n2, v2),
        has_member(l1 + v1 + l2 + v2 + l3 + v3 + l4 + v4 + l5 + v5 + l6 + v6 + l7 + v7 + l8 + v8 + "}"@, n3, v3),
        has_member(l1 + v1 + l2 + v2 + l3 + v3 + l4 + v4 + l5 + v5 + l6 + v6 + l7 + v7 + l8 + v8 + "}"@, n4, v4),
        has_member(l1 + v1 + l2 + v2 + l3 + v3 + l4 + v4 + l5 + v5 + l6 + v6 + l7 + v7 + l8 + v8 + "}"@, n5, v5),
        has_member(l1 + v1 + l2 + v2 + l3 + v3 + l4 + v4 + l5 + v5 + l6 + v6 + l7 + v7 + l8 + v8 + "}"@, n6, v6),
        has_member(l1 + v1 + l2 + v2 + l3 + v3 + l4 + v4 + l5 + v5 + l6 + v6 + l7 + v7 + l8 + v8 + "}"@, n7, v7),
        has_member(l1 + v1 + l2 + v2 + l3 + v3 + l4 + v4 + l5 + v5 + l6 + v6 + l7 + v7 + l8 + v8 + "}"@, n8, v8),
{
    lemma_close_brace();
    lemma_member(Seq::<char>::empty(), l1, n1, v1, l2);
    assert(Seq::<char>::empty() + l1 + v1 + l2 =~= l1 + v1 + l2);
    lemma_member_append(l1 + v1 + l2, v2, n1, v1);
    lemma_member_append(l1 + v1 + l2 + v2, l3, n1, v1);
    lemma_member_append(l1 + v1 + l2 + v2 + l3, v3, n1, v1);
    lemma_member_append(l1 + v1 + l2 + v2 + l3 + v3, l4, n1, v1);
    lemma_member_append(l1 + v1 + l2 + v2 + l3 + v3 + l4, v4, n1, v1);
    lemma_member_append(l1 + v1 + l2 + v2 + l3 + v3 + l4 + v4, l5, n1, v1);
    lemma_member_append(l1 + v1 + l2 + v2 + l3 + v3 + l4 + v4 + l5, v5, n1, v1);
    lemma_member_append(l1 + v1 + l2 + v2 + l3 + v3 + l4 + v4 + l5 + v5, l6, n1, v1);
    lemma_member_append(l1 + v1 + l2 + v2 + l3 + v3 + l4 + v4 + l5 + v5 + l6, v6, n1, v1);
    lemma_member_append(l1 + v1 + l2 + v2 + l3 + v3 + l4 + v4 + l5 + v5 + l6 + v6, l7, n1, v1);
    lemma_member_append(l1 + v1 + l2 + v2 + l3 + v3 + l4 + v4 + l5 + v5 + l6 + v6 + l7, v7, n1, v1);
    lemma_member_append(l1 + v1 + l2 + v2 + l3 + v3 + l4 + v4 + l5 + v5 + l6 + v6 + l7 + v7, l8, n1, v1);
    lemma_member_append(l1 + v1 + l2 + v2 + l3 + v3 + l4 + v4 + l5 + v5 + l6 + v6 + l7 + v7 + l8, v8, n1, v1);
    lemma_member_append(l1 + v1 + l2 + v2 + l3 + v3 + l4 + v4 + l5 + v5 + l6 + v6 + l7 + v7 + l8 + v8, "}"@, n1, v1);
    lemma_member(l1 + v1, l2, n2, v2, l3);
    lemma_member_append(l1 + v1 + l2 + v2 + l3, v3, n2, v2);
    lemma_member_append(l1 + v1 + l2 + v2 + l3 + v3, l4, n2, v2);
    lemma_member_append(l1 + v1 + l2 + v2 + l3 + v3 + l4, v4, n2, v2);
    lemma_member_append(l1 + v1 + l2 + v2 + l3 + v3 + l4 + v4, l5, n2, v2);
    lemma_member_append(l1 + v1 + l2 + v2 + l3 + v3 + l4 + v4 + l5, v5, n2, v2);
    lemma_member_append(l1 + v1 + l2 + v2 + l3 + v3 + l4 + v4 + l5 + v5, l6, n2, v2);
    lemma_member_append(l1 + v1 + l2 + v2 + l3 + v3 + l4 + v4 + l5 + v5 + l6, v6, n2, v2);
    lemma_member_append(l1 + v1 + l2 + v2 + l3 + v3 + l4 + v4 + l5 + v5 + l6 + v6, l7, n2, v2);
    lemma_member_append(l1 + v1 + l2 + v2 + l3 + v3 + l4 + v4 + l5 + v5 + l6 + v6 + l7, v7, n2, v2);
    lemma_member_append(l1 + v1 + l2 + v2 + l3 + v3 + l4 + v4 + l5 + v5 + l6 + v6 + l7 + v7, l8, n2, v2);
    lemma_member_append(l1 + v1 + l2 + v2 + l3 + v3 + l4 + v4 + l5 + v5 + l6 + v6 + l7 + v7 + l8, v8, n2, v2);
    lemma_member_append(l1 + v1 + l2 + v2 + l3 + v3 + l4 + v4 + l5 + v5 + l6 + v6 + l7 + v7 + l8 + v8, "}"@, n2, v2);
    lemma_member(l1 + v1 + l2 + v2, l3, n3, v3, l4);
    lemma_member_append(l1 + v1 + l2 + v2 + l3 + v3 + l4, v4, n3, v3);
    lemma_member_append(l1 + v1 + l2 + v2 + l3 + v3 + l4 + v4, l5, n3, v3);
    lemma_member_append(l1 + v1 + l2 + v2 + l3 + v3 + l4 + v4 + l5, v5, n3, v3);
    lemma_member_append(l1 + v1 + l2 + v2 + l3 + v3 + l4 + v4 + l5 + v5, l6, n3, v3);
    lemma_member_append(l1 + v1 + l2 + v2 + l3 + v3 + l4 + v4 + l5 + v5 + l6, v6, n3, v3);
    lemma_member_append(l1 + v1 + l2 + v2 + l3 + v3 + l4 + v4 + l5 + v5 + l6 + v6, l7, n3, v3);
    lemma_member_append(l1 + v1 + l2 + v2 + l3 + v3 + l4 + v4 + l5 + v5 + l6 + v6 + l7, v7, n3, v3);
    lemma_member_append(l1 + v1 + l2 + v2 + l3 + v3 + l4 + v4 + l5 + v5 + l6 + v6 + l7 + v7, l8, n3, v3);
    lemma_member_append(l1 + v1 + l2 + v2 + l3 + v3 + l4 + v4 + l5 + v5 + l6 + v6 + l7 + v7 + l8, v8, n3, v3);
    lemma_member_append(l1 + v1 + l2 + v2 + l3 + v3 + l4 + v4 + l5 + v5 + l6 + v6 + l7 + v7 + l8 + v8, "}"@, n3, v3);
    lemma_member(l1 + v1 + l2 + v2 + l3 + v3, l4, n4, v4, l5);
    lemma_member_append(l1 + v1 + l2 + v2 + l3 + v3 + l4 + v4 + l5, v5, n4, v4);
    lemma_member_append(l1 + v1 + l2 + v2 + l3 + v3 + l4 + v4 + l5 + v5, l6, n4, v4);
    lemma_member_append(l1 + v1 + l2 + v2 + l3 + v3 + l4 + v4 + l5 + v5 + l6, v6, n4, v4);
    lemma_member_append(l1 + v1 + l2 + v2 + l3 + v3 + l4 + v4 + l5 + v5 + l6 + v6, l7, n4, v4);
    lemma_member_append(l1 + v1 + l2 + v2 + l3 + v3 + l4 + v4 + l5 + v5 + l6 + v6 + l7, v7, n4, v4);
    lemma_member_append(l1 + v1 + l2 + v2 + l3 + v3 + l4 + v4 + l5 + v5 + l6 + v6 + l7 + v7, l8, n4, v4);
    lemma_member_append(l1 + v1 + l2 + v2 + l3 + v3 + l4 + v4 + l5 + v5 + l6 + v6 + l7 + v7 + l8, v8, n4, v4);
    lemma_member_append(l1 + v1 + l2 + v2 + l3 + v3 + l4 + v4 + l5 + v5 + l6 + v6 + l7 + v7 + l8 + v8, "}"@, n4, v4);
    lemma_member(l1 + v1 + l2 + v2 + l3 + v3 + l4 + v4, l5, n5, v5, l6);
    lemma_member_append(l1 + v1 + l2 + v2 + l3 + v3 + l4 + v4 + l5 + v5 + l6, v6, n5, v5);
    lemma_member_append(l1 + v1 + l2 + v2 + l3 + v3 + l4 + v4 + l5 + v5 + l6 + v6, l7, n5, v5);
    lemma_member_append(l1 + v1 + l2 + v2 + l3 + v3 + l4 + v4 + l5 + v5 + l6 + v6 + l7, v7, n5, v5);
    lemma_member_append(l1 + v1 + l2 + v2 + l3 + v3 + l4 + v4 + l5 + v5 + l6 + v6 + l7 + v7, l8, n5, v5);
    lemma_member_append(l1 + v1 + l2 + v2 + l3 + v3 + l4 + v4 + l5 + v5 + l6 + v6 + l7 + v7 + l8, v8, n5, v5);
    lemma_member_append(l1 + v1 + l2 + v2 + l3 + v3 + l4 + v4 + l5 + v5 + l6 + v6 + l7 + v7 + l8 + v8, "}"@, n5, v5);
    lemma_member(l1 + v1 + l2 + v2 + l3 + v3 + l4 + v4 + l5 + v5, l6, n6, v6, l7);
    lemma_member_append(l1 + v1 + l2 + v2 + l3 + v3 + l4 + v4 + l5 + v5 + l6 + v6 + l7, v7, n6, v6);
    lemma_member_append(l1 + v1 + l2 + v2 + l3 + v3 + l4 + v4 + l5 + v5 + l6 + v6 + l7 + v7, l8, n6, v6);
    lemma_member_append(l1 + v1 + l2 + v2 + l3 + v3 + l4 + v4 + l5 + v5 + l6 + v6 + l7 + v7 + l8, v8, n6, v6);
    lemma_member_append(l1 + v1 + l2 + v2 + l3 + v3 + l4 + v4 + l5 + v5 + l6 + v6 + l7 + v7 + l8 + v8, "}"@, n6, v6);
    lemma_member(l1 + v1 + l2 + v2 + l3 + v3 + l4 + v4 + l5 + v5 + l6 + v6, l7, n7, v7, l8);
    lemma_member_append(l1 + v1 + l2 + v2 + l3 + v3 + l4 + v4 + l5 + v5 + l6 + v6 + l7 + v7 + l8, v8, n7, v7);
    lemma_member_append(l1 + v1 + l2 + v2 + l3 + v3 + l4 + v4 + l5 + v5 + l6 + v6 + l7 + v7 + l8 + v8, "}"@, n7, v7);
    lemma_member(l1 + v1 + l2 + v2 + l3 + v3 + l4 + v4 + l5 + v5 + l6 + v6 + l7 + v7, l8, n8, v8, "}"@);
}

/// The object of the members `(l1, v1)` to `(l11, v11)` holds each by its name.
#[verifier::rlimit(40)]
proof fn lemma_members_11(
    l1: Seq<char>, n1: Seq<char>, v1: Seq<char>,
    l2: Seq<char>, n2: Seq<char>, v2: Seq<char>,
    l3: Seq<char>, n3: Seq<char>, v3: Seq<char>,
    l4: Seq<char>, n4: Seq<char>, v4: Seq<char>,
    l5: Seq<char>, n5: Seq<char>, v5: Seq<char>,
    l6: Seq<char>, n6: Seq<char>, v6: Seq<char>,
    l7: Seq<char>, n7: Seq<char>, v7: Seq<char>,
    l8: Seq<char>, n8: Seq<char>, v8: Seq<char>,
    l9: Seq<char>, n9: Seq<char>, v9: Seq<char>,
    l10: Seq<char>, n10: Seq<char>, v10: Seq<char>,
    l11: Seq<char>, n11: Seq<char>, v11: Seq<char>,
)
    requires
        opens_member(l1, n1),
        opens_member(l2, n2),
        opens_member(l3, n3),
        opens_member(l4, n4),
        opens_member(l5, n5),
        opens_member(l6, n6),
        opens_member(l7, n7),
        opens_member(l8, n8),
        opens_member(l9, n9),
        opens_member(l10, n10),
        opens_member(l11, n11),
        l2[0] == ',',
        l3[0] == ',',
        l4[0] == ',',
        l5[0] == ',',
        l6[0] == ',',
        l7[0] == ',',
        l8[0] == ',',
        l9[0] == ',',
        l10[0] == ',',
        l11[0] == ',',
    ensures
        has_member(l1 + v1 + l2 + v2 + l3 + v3 + l4 + v4 + l5 + v5 + l6 + v6 + l7 + v7 + l8 + v8 + l9 + v9 + l10 + v10 + l11 + v11 + "}"@, n1, v1),
        has_member(l1 + v1 + l2 + v2 + l3 + v3 + l4 + v4 + l5 + v5 + l6 + v6 + l7 + v7 + l8 + v8 + l9 + v9 + l10 + v10 + l11 + v11 + "}"@, n2, v2),
        has_member(l1 + v1 + l2 + v2 + l3 + v3 + l4 + v4 + l5 + v5 + l6 + v6 + l7 + v7 + l8 + v8 + l9 + v9 + l10 + v10 + l11 + v11 + "}"@, n3, v3),
        has_member(l1 + v1 + l2 + v2 + l3 + v3 + l4 + v4 + l5 + v5 + l6 + v6 + l7 + v7 + l8 + v8 + l9 + v9 + l10 + v10 + l11 + v11 + "}"@, n4, v4),
        has_member(l1 + v1 + l2 + v2 + l3 + v3 + l4 + v4 + l5 + v5 + l6 + v6 + l7 + v7 + l8 + v8 + l9 + v9 + l10 + v10 + l11 + v11 + "}"@, n5, v5),
        has_member(l1 + v1 + l2 + v2 + l3 + v3 + l4 + v4 + l5 + v5 + l6 + v6 + l7 + v7 + l8 + v8 + l9 + v9 + l10 + v10 + l11 + v11 + "}"@, n6, v6),
        has_member(l1 + v1 + l2 + v2 + l3 + v3 + l4 + v4 + l5 + v5 + l6 + v6 + l7 + v7 + l8 + v8 + l9 + v9 + l10 + v10 + l11 + v11 + "}"@, n7, v7),
        has_member(l1 + v1 + l2 + v2 + l3 + v3 + l4 + v4 + l5 + v5 + l6 + v6 + l7 + v7 + l8 + v8 + l9 + v9 + l10 + v10 + l11 + v11 + "}"@, n8, v8),
        has_member(l1 + v1 + l2 + v2 + l3 + v3 + l4 + v4 + l5 + v5 + l6 + v6 + l7 + v7 + l8 + v8 + l9 + v9 + l10 + v10 + l11 + v11 + "}"@, n9, v9),
        has_member(l1 + v1 + l2 + v2 + l3 + v3 + l4 + v4 + l5 + v5 + l6 + v6 + l7 + v7 + l8 + v8 + l9 + v9 + l10 + v10 + l11 + v11 + "}"@, n10, v10),
        has_member(l1 + v1 + l2 + v2 + l3 + v3 + l4 + v4 + l5 + v5 + l6 + v6 + l7 + v7 + l8 + v8 + l9 + v9 + l10 + v10 + l11 + v11 + "}"@, n11, v11),
{
    lemma_close_brace();
    lemma_member(Seq::<char>::empty(), l1, n1, v1, l2);
    assert(Seq::<char>::empty() + l1 + v1 + l2 =~= l1 + v1 + l2);
    lemma_member_append(l1 + v1 + l2, v2, n1, v1);
    lemma_member_append(l1 + v1 + l2 + v2, l3, n1, v1);
    lemma_member_append(l1 + v1 + l2 + v2 + l3, v3, n1, v1);
    lemma_member_append(l1 + v1 + l2 + v2 + l3 + v3, l4, n1, v1);
    lemma_member_append(l1 + v1 + l2 + v2 + l3 + v3 + l4, v4, n1, v1);
    lemma_member_append(l1 + v1 + l2 + v2 + l3 + v3 + l4 + v4, l5, n1, v1);
    lemma_member_append(l1 + v1 + l2 + v2 + l3 + v3 + l4 + v4 + l5, v5, n1, v1);
    lemma_member_append(l1 + v1 + l2 + v2 + l3 + v3 + l4 + v4 + l5 + v5, l6, n1, v1);
    lemma_member_append(l1 + v1 + l2 + v2 + l3 + v3 + l4 + v4 + l5 + v5 + l6, v6, n1, v1);
    lemma_member_append(l1 + v1 + l2 + v2 + l3 + v3 + l4 + v4 + l5 + v5 + l6 + v6, l7, n1, v1);
    lemma_member_append(l1 + v1 + l2 + v2 + l3 + v3 + l4 + v4 + l5 + v5 + l6 + v6 + l7, v7, n1, v1);
    lemma_member_append(l1 + v1 + l2 + v2 + l3 + v3 + l4 + v4 + l5 + v5 + l6 + v6 + l7 + v7, l8, n1, v1);
    lemma_member_append(l1 + v1 + l2 + v2 + l3 + v3 + l4 + v4 + l5 + v5 + l6 + v6 + l7 + v7 + l8, v8, n1, v1);
    lemma_member_append(l1 + v1 + l2 + v2 + l3 + v3 + l4 + v4 + l5 + v5 + l6 + v6 + l7 + v7 + l8 + v8, l9, n1, v1);
    lemma_member_append(l1 + v1 + l2 + v2 + l3 + v3 + l4 + v4 + l5 + v5 + l6 + v6 + l7 + v7 + l8 + v8 + l9, v9, n1, v1);
    lemma_member_append(l1 + v1 + l2 + v2 + l3 + v3 + l4 + v4 + l5 + v5 + l6 + v6 + l7 + v7 + l8 + v8 + l9 + v9, l10, n1, v1);
    lemma_member_append(l1 + v1 + l2 + v2 + l3 + v3 + l4 + v4 + l5 + v5 + l6 + v6 + l7 + v7 + l8 + v8 + l9 + v9 + l10, v10, n1, v1);
    lemma_member_append(l1 + v1 + l2 + v2 + l3 + v3 + l4 + v4 + l5 + v5 + l6 + v6 + l7 + v7 + l8 + v8 + l9 + v9 + l10 + v10, l11, n1, v1);
    lemma_member_append(l1 + v1 + l2 + v2 + l3 + v3 + l4 + v4 + l5 + v5 + l6 + v6 + l7 + v7 + l8 + v8 + l9 + v9 + l10 + v10 + l11, v11, n1, v1);
    lemma_member_append(l1 + v1 + l2 + v2 + l3 + v3 + l4 + v4 + l5 + v5 + l6 + v6 + l7 + v7 + l8 + v8 + l9 + v9 + l10 + v10 + l11 + v11, "}"@, n1, v1);
    lemma_member(l1 + v1, l2, n2, v2, l3);
    lemma_member_append(l1 + v1 + l2 + v2 + l3, v3, n2, v2);
    lemma_member_append(l1 + v1 + l2 + v2 + l3 + v3, l4, n2, v2);
    lemma_member_append(l1 + v1 + l2 + v2 + l3 + v3 + l4, v4, n2, v2);
    lemma_member_append(l1 + v1 + l2 + v2 + l3 + v3 + l4 + v4, l5, n2, v2);
    lemma_member_append(l1 + v1 + l2 + v2 + l3 + v3 + l4 + v4 + l5, v5, n2, v2);
    lemma_member_append(l1 + v1 + l2 + v2 + l3 + v3 + l4 + v4 + l5 + v5, l6, n2, v2);
    lemma_member_append(l1 + v1 + l2 + v2 + l3 + v3 + l4 + v4 + l5 + v5 + l6, v6, n2, v2);
    lemma_member_append(l1 + v1 + l2 + v2 + l3 + v3 + l4 + v4 + l5 + v5 + l6 + v6, l7, n2, v2);
    lemma_member_append(l1 + v1 + l2 + v2 + l3 + v3 + l4 + v4 + l5 + v5 + l6 + v6 + l7, v7, n2, v2);
    lemma_member_append(l1 + v1 + l2 + v2 + l3 + v3 + l4 + v4 + l5 + v5 + l6 + v6 + l7 + v7, l8, n2, v2);
    lemma_member_append(l1 + v1 + l2 + v2 + l3 + v3 + l4 + v4 + l5 + v5 + l6 + v6 + l7 + v7 + l8, v8, n2, v2);
    lemma_member_append(l1 + v1 + l2 + v2 + l3 + v3 + l4 + v4 + l5 + v5 + l6 + v6 + l7 + v7 + l8 + v8, l9, n2, v2);
    lemma_member_append(l1 + v1 + l2 + v2 + l3 + v3 + l4 + v4 + l5 + v5 + l6 + v6 + l7 + v7 + l8 + v8 + l9, v9, n2, v2);
    lemma_member_append(l1 + v1 + l2 + v2 + l3 + v3 + l4 + v4 + l5 + v5 + l6 + v6 + l7 + v7 + l8 + v8 + l9 + v9, l10, n2, v2);
    lemma_member_append(l1 + v1 + l2 + v2 + l3 + v3 + l4 + v4 + l5 + v5 + l6 + v6 + l7 + v7 + l8 + v8 + l9 + v9 + l10, v10, n2, v2);
    lemma_member_append(l1 + v1 + l2 + v2 + l3 + v3 + l4 + v4 + l5 + v5 + l6 + v6 + l7 + v7 + l8 + v8 + l9 + v9 + l10 + v10, l11, n2, v2);
    lemma_member_append(l1 + v1 + l2 + v2 + l3 + v3 + l4 + v4 + l5 + v5 + l6 + v6 + l7 + v7 + l8 + v8 + l9 + v9 + l10 + v10 + l11, v11, n2, v2);
    lemma_member_append(l1 + v1 + l2 + v2 + l3 + v3 + l4 + v4 + l5 + v5 + l6 + v6 + l7 + v7 + l8 + v8 + l9 + v9 + l10 + v10 + l11 + v11, "}"@, n2, v2);
    lemma_member(l1 + v1 + l2 + v2, l3, n3, v3, l4);
    lemma_member_append(l1 + v1 + l2 + v2 + l3 + v3 + l4, v4, n3, v3);
    lemma_member_append(l1 + v1 + l2 + v2 + l3 + v3 + l4 + v4, l5, n3, v3);
    lemma_member_append(l1 + v1 + l2 + v2 + l3 + v3 + l4 + v4 + l5, v5, n3, v3);
    lemma_member_append(l1 + v1 + l2 + v2 + l3 + v3 + l4 + v4 + l5 + v5, l6, n3, v3);
    lemma_member_append(l1 + v1 + l2 + v2 + l3 + v3 + l4 + v4 + l5 + v5 + l6, v6, n3, v3);
    lemma_member_append(l1 + v1 + l2 + v2 + l3 + v3 + l4 + v4 + l5 + v5 + l6 + v6, l7, n3, v3);
    lemma_member_append(l1 + v1 + l2 + v2 + l3 + v3 + l4 + v4 + l5 + v5 + l6 + v6 + l7, v7, n3, v3);
    lemma_member_append(l1 + v1 + l2 + v2 + l3 + v3 + l4 + v4 + l5 + v5 + l6 + v6 + l7 + v7, l8, n3, v3);
    lemma_member_append(l1 + v1 + l2 + v2 + l3 + v3 + l4 + v4 + l5 + v5 + l6 + v6 + l7 + v7 + l8, v8, n3, v3);
    lemma_member_append(l1 + v1 + l2 + v2 + l3 + v3 + l4 + v4 + l5 + v5 + l6 + v6 + l7 + v7 + l8 + v8, l9, n3, v3);
    lemma_member_append(l1 + v1 + l2 + v2 + l3 + v3 + l4 + v4 + l5 + v5 + l6 + v6 + l7 + v7 + l8 + v8 + l9, v9, n3, v3);
    lemma_member_append(l1 + v1 + l2 + v2 + l3 + v3 + l4 + v4 + l5 + v5 + l6 + v6 + l7 + v7 + l8 + v8 + l9 + v9, l10, n3, v3);
    lemma_member_append(l1 + v1 + l2 + v2 + l3 + v3 + l4 + v4 + l5 + v5 + l6 + v6 + l7 + v7 + l8 + v8 + l9 + v9 + l10, v10, n3, v3);
    lemma_member_append(l1 + v1 + l2 + v2 + l3 + v3 + l4 + v4 + l5 + v5 + l6 + v6 + l7 + v7 + l8 + v8 + l9 + v9 + l10 + v10, l11, n3, v3);
    lemma_member_append(l1 + v1 + l2 + v2 + l3 + v3 + l4 + v4 + l5 + v5 + l6 + v6 + l7 + v7 + l8 + v8 + l9 + v9 + l10 + v10 + l11, v11, n3, v3);
    lemma_member_append(l1 + v1 + l2 + v2 + l3 + v3 + l4 + v4 + l5 + v5 + l6 + v6 + l7 + v7 + l8 + v8 + l9 + v9 + l10 + v10 + l11 + v11, "}"@, n3, v3);
    lemma_member(l1 + v1 + l2 + v2 + l3 + v3, l4, n4, v4, l5);
    lemma_member_append(l1 + v1 + l2 + v2 + l3 + v3 + l4 + v4 + l5, v5, n4, v4);
    lemma_member_append(l1 + v1 + l2 + v2 + l3 + v3 + l4 + v4 + l5 + v5, l6, n4, v4);
    lemma_member_append(l1 + v1 + l2 + v2 + l3 + v3 + l4 + v4 + l5 + v5 + l6, v6, n4, v4);
    lemma_member_append(l1 + v1 + l2 + v2 + l3 + v3 + l4 + v4 + l5 + v5 + l6 + v6, l7, n4, v4);
    lemma_member_append(l1 + v1 + l2 + v2 + l3 + v3 + l4 + v4 + l5 + v5 + l6 + v6 + l7, v7, n4, v4);
    lemma_member_append(l1 + v1 + l2 + v2 + l3 + v3 + l4 + v4 + l5 + v5 + l6 + v6 + l7 + v7, l8, n4, v4);
    lemma_member_append(l1 + v1 + l2 + v2 + l3 + v3 + l4 + v4 + l5 + v5 + l6 + v6 + l7 + v7 + l8, v8, n4, v4);
    lemma_member_append(l1 + v1 + l2 + v2 + l3 + v3 + l4 + v4 + l5 + v5 + l6 + v6 + l7 + v7 + l8 + v8, l9, n4, v4);
    lemma_member_append(l1 + v1 + l2 + v2 + l3 + v3 + l4 + v4 + l5 + v5 + l6 + v6 + l7 + v7 + l8 + v8 + l9, v9, n4, v4);
    lemma_member_append(l1 + v1 + l2 + v2 + l3 + v3 + l4 + v4 + l5 + v5 + l6 + v6 + l7 + v7 + l8 + v8 + l9 + v9, l10, n4, v4);
    lemma_member_append(l1 + v1 + l2 + v2 + l3 + v3 + l4 + v4 + l5 + v5 + l6 + v6 + l7 + v7 + l8 + v8 + l9 + v9 + l10, v10, n4, v4);
    lemma_member_append(l1 + v1 + l2 + v2 + l3 + v3 + l4 + v4 + l5 + v5 + l6 + v6 + l7 + v7 + l8 + v8 + l9 + v9 + l10 + v10, l11, n4, v4);
    lemma_member_append(l1 + v1 + l2 + v2 + l3 + v3 + l4 + v4 + l5 + v5 + l6 + v6 + l7 + v7 + l8 + v8 + l9 + v9 + l10 + v10 + l11, v11, n4, v4);
    lemma_member_append(l1 + v1 + l2 + v2 + l3 + v3 + l4 + v4 + l5 + v5 + l6 + v6 + l7 + v7 + l8 + v8 + l9 + v9 + l10 + v10 + l11 + v11, "}"@, n4, v4);
    lemma_member(l1 + v1 + l2 + v2 + l3 + v3 + l4 + v4, l5, n5, v5, l6);
    lemma_member_append(l1 + v1 + l2 + v2 + l3 + v3 + l4 + v4 + l5 + v5 + l6, v6, n5, v5);
    lemma_member_append(l1 + v1 + l2 + v2 + l3 + v3 + l4 + v4 + l5 + v5 + l6 + v6, l7, n5, v5);
    lemma_member_append(l1 + v1 + l2 + v2 + l3 + v3 + l4 + v4 + l5 + v5 + l6 + v6 + l7, v7, n5, v5);
    lemma_member_append(l1 + v1 + l2 + v2 + l3 + v3 + l4 + v4 + l5 + v5 + l6 + v6 + l7 + v7, l8, n5, v5);
    lemma_member_append(l1 + v1 + l2 + v2 + l3 + v3 + l4 + v4 + l5 + v5 + l6 + v6 + l7 + v7 + l8, v8, n5, v5);
    lemma_member_append(l1 + v1 + l2 + v2 + l3 + v3 + l4 + v4 + l5 + v5 + l6 + v6 + l7 + v7 + l8 + v8, l9, n5, v5);
    lemma_member_append(l1 + v1 + l2 + v2 + l3 + v3 + l4 + v4 + l5 + v5 + l6 + v6 + l7 + v7 + l8 + v8 + l9, v9, n5, v5);
    lemma_member_append(l1 + v1 + l2 + v2 + l3 + v3 + l4 + v4 + l5 + v5 + l6 + v6 + l7 + v7 + l8 + v8 + l9 + v9, l10, n5, v5);
    lemma_member_append(l1 + v1 + l2 + v2 + l3 + v3 + l4 + v4 + l5 + v5 + l6 + v6 + l7 + v7 + l8 + v8 + l9 + v9 + l10, v10, n5, v5);
    lemma_member_append(l1 + v1 + l2 + v2 + l3 + v3 + l4 + v4 + l5 + v5 + l6 + v6 + l7 + v7 + l8 + v8 + l9 + v9 + l10 + v10, l11, n5, v5);
    lemma_member_append(l1 + v1 + l2 + v2 + l3 + v3 + l4 + v4 + l5 + v5 + l6 + v6 + l7 + v7 + l8 + v8 + l9 + v9 + l10 + v10 + l11, v11, n5, v5);
    lemma_member_append(l1 + v1 + l2 + v2 + l3 + v3 + l4 + v4 + l5 + v5 + l6 + v6 + l7 + v7 + l8 + v8 + l9 + v9 + l10 + v10 + l11 + v11, "}"@, n5, v5);
    lemma_member(l1 + v1 + l2 + v2 + l3 + v3 + l4 + v4 + l5 + v5, l6, n6, v6, l7);
    lemma_member_append(l1 + v1 + l2 + v2 + l3 + v3 + l4 + v4 + l5 + v5 + l6 + v6 + l7, v7, n6, v6);
    lemma_member_append(l1 + v1 + l2 + v2 + l3 + v3 + l4 + v4 + l5 + v5 + l6 + v6 + l7 + v7, l8, n6, v6);
    lemma_member_append(l1 + v1 + l2 + v2 + l3 + v3 + l4 + v4 + l5 + v5 + l6 + v6 + l7 + v7 + l8, v8, n6, v6);
    lemma_member_append(l1 + v1 + l2 + v2 + l3 + v3 + l4 + v4 + l5 + v5 + l6 + v6 + l7 + v7 + l8 + v8, l9, n6, v6);
    lemma_member_append(l1 + v1 + l2 + v2 + l3 + v3 + l4 + v4 + l5 + v5 + l6 + v6 + l7 + v7 + l8 + v8 + l9, v9, n6, v6);
    lemma_member_append(l1 + v1 + l2 + v2 + l3 + v3 + l4 + v4 + l5 + v5 + l6 + v6 + l7 + v7 + l8 + v8 + l9 + v9, l10, n6, v6);
    lemma_member_append(l1 + v1 + l2 + v2 + l3 + v3 + l4 + v4 + l5 + v5 + l6 + v6 + l7 + v7 + l8 + v8 + l9 + v9 + l10, v10, n6, v6);
    lemma_member_append(l1 + v1 + l2 + v2 + l3 + v3 + l4 + v4 + l5 + v5 + l6 + v6 + l7 + v7 + l8 + v8 + l9 + v9 + l10 + v10, l11, n6, v6);
    lemma_member_append(l1 + v1 + l2 + v2 + l3 + v3 + l4 + v4 + l5 + v5 + l6 + v6 + l7 + v7 + l8 + v8 + l9 + v9 + l10 + v10 + l11, v11, n6, v6);
    lemma_member_append(l1 + v1 + l2 + v2 + l3 + v3 + l4 + v4 + l5 + v5 + l6 + v6 + l7 + v7 + l8 + v8 + l9 + v9 + l10 + v10 + l11 + v11, "}"@, n6, v6);
    lemma_member(l1 + v1 + l2 + v2 + l3 + v3 + l4 + v4 + l5 + v5 + l6 + v6, l7, n7, v7, l8);
    lemma_member_append(l1 + v1 + l2 + v2 + l3 + v3 + l4 + v4 + l5 + v5 + l6 + v6 + l7 + v7 + l8, v8, n7, v7);
    lemma_member_append(l1 + v1 + l2 + v2 + l3 + v3 + l4 + v4 + l5 + v5 + l6 + v6 + l7 + v7 + l8 + v8, l9, n7, v7);
    lemma_member_append(l1 + v1 + l2 + v2 + l3 + v3 + l4 + v4 + l5 + v5 + l6 + v6 + l7 + v7 + l8 + v8 + l9, v9, n7, v7);
    lemma_member_append(l1 + v1 + l2 + v2 + l3 + v3 + l4 + v4 + l5 + v5 + l6 + v6 + l7 + v7 + l8 + v8 + l9 + v9, l10, n7, v7);
    lemma_member_append(l1 + v1 + l2 + v2 + l3 + v3 + l4 + v4 + l5 + v5 + l6 + v6 + l7 + v7 + l8 + v8 + l9 + v9 + l10, v10, n7, v7);
    lemma_member_append(l1 + v1 + l2 + v2 + l3 + v3 + l4 + v4 + l5 + v5 + l6 + v6 + l7 + v7 + l8 + v8 + l9 + v9 + l10 + v10, l11, n7, v7);
    lemma_member_append(l1 + v1 + l2 + v2 + l3 + v3 + l4 + v4 + l5 + v5 + l6 + v6 + l7 + v7 + l8 + v8 + l9 + v9 + l10 + v10 + l11, v11, n7, v7);
    lemma_member_append(l1 + v1 + l2 + v2 + l3 + v3 + l4 + v4 + l5 + v5 + l6 + v6 + l7 + v7 + l8 + v8 + l9 + v9 + l10 + v10 + l11 + v11, "}"@, n7, v7);
    lemma_member(l1 + v1 + l2 + v2 + l3 + v3 + l4 + v4 + l5 + v5 + l6 + v6 + l7 + v7, l8, n8, v8, l9);
    lemma_member_append(l1 + v1 + l2 + v2 + l3 + v3 + l4 + v4 + l5 + v5 + l6 + v6 + l7 + v7 + l8 + v8 + l9, v9, n8, v8);
    lemma_member_append(l1 + v1 + l2 + v2 + l3 + v3 + l4 + v4 + l5 + v5 + l6 + v6 + l7 + v7 + l8 + v8 + l9 + v9, l10, n8, v8);
    lemma_member_append(l1 + v1 + l2 + v2 + l3 + v3 + l4 + v4 + l5 + v5 + l6 + v6 + l7 + v7 + l8 + v8 + l9 + v9 + l10, v10, n8, v8);
    lemma_member_append(l1 + v1 + l2 + v2 + l3 + v3 + l4 + v4 + l5 + v5 + l6 + v6 + l7 + v7 + l8 + v8 + l9 + v9 + l10 + v10, l11, n8, v8);
    lemma_member_append(l1 + v1 + l2 + v2 + l3 + v3 + l4 + v4 + l5 + v5 + l6 + v6 + l7 + v7 + l8 + v8 + l9 + v9 + l10 + v10 + l11, v11, n8, v8);
    lemma_member_append(l1 + v1 + l2 + v2 + l3 + v3 + l4 + v4 + l5 + v5 + l6 + v6 + l7 + v7 + l8 + v8 + l9 + v9 + l10 + v10 + l11 + v11, "}"@, n8, v8);
    lemma_member(l1 + v1 + l2 + v2 + l3 + v3 + l4 + v4 + l5 + v5 + l6 + v6 + l7 + v7 + l8 + v8, l9, n9, v9, l10);
    lemma_member_append(l1 + v1 + l2 + v2 + l3 + v3 + l4 + v4 + l5 + v5 + l6 + v6 + l7 + v7 + l8 + v8 + l9 + v9 + l10, v10, n9, v9);
    lemma_member_append(l1 + v1 + l2 + v2 + l3 + v3 + l4 + v4 + l5 + v5 + l6 + v6 + l7 + v7 + l8 + v8 + l9 + v9 + l10 + v10, l11, n9, v9);
    lemma_member_append(l1 + v1 + l2 + v2 + l3 + v3 + l4 + v4 + l5 + v5 + l6 + v6 + l7 + v7 + l8 + v8 + l9 + v9 + l10 + v10 + l11, v11, n9, v9);
    lemma_member_append(l1 + v1 + l2 + v2 + l3 + v3 + l4 + v4 + l5 + v5 + l6 + v6 + l7 + v7 + l8 + v8 + l9 + v9 + l10 + v10 + l11 + v11, "}"@, n9, v9);
    lemma_member(l1 + v1 + l2 + v2 + l3 + v3 + l4 + v4 + l5 + v5 + l6 + v6 + l7 + v7 + l8 + v8 + l9 + v9, l10, n10, v10, l11);
    lemma_member_append(l1 + v1 + l2 + v2 + l3 + v3 + l4 + v4 + l5 + v5 + l6 + v6 + l7 + v7 + l8 + v8 + l9 + v9 + l10 + v10 + l11, v11, n10, v10);
    lemma_member_append(l1 + v1 + l2 + v2 + l3 + v3 + l4 + v4 + l5 + v5 + l6 + v6 + l7 + v7 + l8 + v8 + l9 + v9 + l10 + v10 + l11 + v11, "}"@, n10, v10);
    lemma_member(l1 + v1 + l2 + v2 + l3 + v3 + l4 + v4 + l5 + v5 + l6 + v6 + l7 + v7 + l8 + v8 + l9 + v9 + l10 + v10, l11, n11, v11, "}"@);
}

/// The data of an event keeps each value under its own name: `score_ct`
/// holds the CT score and `score_t` the T score, in SCORE_UPDATE and
/// GAME_OVER as in ROUND_END, and likewise for every other field.
#[verifier::rlimit(40)]
pub proof fn event_data_members(d: EventData)
    ensures
        match d {
            EventData::Empty => event_data_json(d) == "{}"@,
            EventData::MapInfo { map, mode } => {
                &&& has_member(event_data_json(d), "map"@, json_opt_str(map))
                &&& has_member(event_data_json(d), "mode"@, json_opt_str(mode))
            },
            EventData::Phase { phase } => has_member(event_data_json(d), "phase"@, json_quote(phase@)),
            EventData::Round { round } => has_member(event_data_json(d), "round"@, json_opt_int(round)),
            EventData::RoundEnd { round, winner, score_ct, score_t } => {
                &&& has_member(event_data_json(d), "round"@, json_opt_int(round))
                &&& has_member(event_data_json(d), "score_ct"@, json_opt_int(score_ct))
                &&& has_member(event_data_json(d), "score_t"@, json_opt_int(score_t))
                &&& has_member(event_data_json(d), "winner"@, json_opt_str(winner))
            },
            EventData::Score { score_ct, score_t } => {
                &&& has_member(event_data_json(d), "score_ct"@, json_opt_int(score_ct))
                &&& has_member(event_data_json(d), "score_t"@, json_opt_int(score_t))
            },
            EventData::Counter { total, delta } => {
                &&& has_member(event_data_json(d), "total"@, json_int(total as int))
                &&& has_member(event_data_json(d), "delta"@, json_int(delta as int))
            },
            EventData::Deaths { deaths } => has_member(event_data_json(d), "deaths"@, json_opt_int(deaths)),
            EventData::Weapon { weapon } => has_member(event_data_json(d), "weapon"@, json_quote(weapon@)),
            EventData::Team { team } => has_member(event_data_json(d), "team"@, json_quote(team@)),
        },
{
    match d {
        EventData::Empty => {},
        EventData::MapInfo { map, mode } => {
            reveal_strlit("{\"map\":");
            reveal_strlit("map");
            assert("{\"map\":"@ =~= seq!['{'] + member_key("map"@));
            reveal_strlit(",\"mode\":");
            reveal_strlit("mode");
            assert(",\"mode\":"@ =~= seq![','] + member_key("mode"@));
            lemma_members_2("{\"map\":"@, "map"@, json_opt_str(map), ",\"mode\":"@, "mode"@, json_opt_str(mode));
        },
        EventData::Phase { phase } => {
            reveal_strlit("{\"phase\":");
            reveal_strlit("phase");
            assert("{\"phase\":"@ =~= seq!['{'] + member_key("phase"@));
            lemma_members_1("{\"phase\":"@, "phase"@, json_quote(phase@));
        },
        EventData::Round { round } => {
            reveal_strlit("{\"round\":");
            reveal_strlit("round");
            assert("{\"round\":"@ =~= seq!['{'] + member_key("round"@));
            lemma_members_1("{\"round\":"@, "round"@, json_opt_int(round));
        },
        EventData::RoundEnd { round, winner, score_ct, score_t } => {
            reveal_strlit("{\"round\":");
            reveal_strlit("round");
            assert("{\"round\":"@ =~= seq!['{'] + member_key("round"@));
            reveal_strlit(",\"score_ct\":");
            reveal_strlit("score_ct");
            assert(",\"score_ct\":"@ =~= seq![','] + member_key("score_ct"@));
            reveal_strlit(",\"score_t\":");
            reveal_strlit("score_t");
            assert(",\"score_t\":"@ =~= seq![','] + member_key("score_t"@));
            reveal_strlit(",\"winner\":");
            reveal_strlit("winner");
            assert(",\"winner\":"@ =~= seq![','] + member_key("winner"@));
            lemma_members_4(
                "{\"round\":"@, "round"@, json_opt_int(round),
                ",\"score_ct\":"@, "score_ct"@, json_opt_int(score_ct),
                ",\"score_t\":"@, "score_t"@, json_opt_int(score_t),
                ",\"winner\":"@, "winner"@, json_opt_str(winner),
            );
        },
        EventData::Score { score_ct, score_t } => {
            reveal_strlit("{\"score_ct\":");
            reveal_strlit("score_ct");
            assert("{\"score_ct\":"@ =~= seq!['{'] + member_key("score_ct"@));
            reveal_strlit(",\"score_t\":");
            reveal_strlit("score_t");
            assert(",\"score_t\":"@ =~= seq![','] + member_key("score_t"@));
            lemma_members_2(
                "{\"score_ct\":"@, "score_ct"@, json_opt_int(score_ct),
                ",\"score_t\":"@, "score_t"@, json_opt_int(score_t),
            );
        },
        EventData::Counter { total, delta } => {
            reveal_strlit("{\"delta\":");
            reveal_strlit("delta");
            assert("{\"delta\":"@ =~= seq!['{'] + member_key("delta"@));
            reveal_strlit(",\"total\":");
            reveal_strlit("total");
            assert(",\"total\":"@ =~= seq![','] + member_key("total"@));
            lemma_members_2(
                "{\"delta\":"@, "delta"@, json_int(delta as int),
                ",\"total\":"@, "total"@, json_int(total as int),
            );
        },
        EventData::Deaths { deaths } => {
            reveal_strlit("{\"deaths\":");
            reveal_strlit("deaths");
            assert("{\"deaths\":"@ =~= seq!['{'] + member_key("deaths"@));
            lemma_members_1("{\"deaths\":"@, "deaths"@, json_opt_int(deaths));
        },
        EventData::Weapon { weapon } => {
            reveal_strlit("{\"weapon\":");
            reveal_strlit("weapon");
            assert("{\"weapon\":"@ =~= seq!['{'] + member_key("weapon"@));
            lemma_members_1("{\"weapon\":"@, "weapon"@, json_quote(weapon@));
        },
        EventData::Team { team } => {
            reveal_strlit("{\"team\":");
            reveal_strlit("team");
            assert("{\"team\":"@ =~= seq!['{'] + member_key("team"@));
            lemma_members_1("{\"team\":"@, "team"@, json_quote(team@));
        },
    }
}

/// Every event leaves with its envelope by name: `data` holds the event's
/// data, `matchId` the match, `timestamp` the time given and `type` the
/// event's wire name.
#[verifier::rlimit(40)]
pub proof fn event_message_members(event: GameEvent, match_id: i64, timestamp: u64)
    ensures
        has_member(message_json(OutMessage::Event { event, match_id, timestamp }), "data"@, event_data_json(event.data)),
        has_member(message_json(OutMessage::Event { event, match_id, timestamp }), "matchId"@, json_int(match_id as int)),
        has_member(message_json(OutMessage::Event { event, match_id, timestamp }), "timestamp"@, decimal(timestamp as nat)),
        has_member(message_json(OutMessage::Event { event, match_id, timestamp }), "type"@, json_quote(kind_name(event.kind))),
{
    reveal_strlit("{\"data\":");
    reveal_strlit("data");
    assert("{\"data\":"@ =~= seq!['{'] + member_key("data"@));
    reveal_strlit(",\"matchId\":");
    reveal_strlit("matchId");
    assert(",\"matchId\":"@ =~= seq![','] + member_key("matchId"@));
    reveal_strlit(",\"timestamp\":");
    reveal_strlit("timestamp");
    assert(",\"timestamp\":"@ =~= seq![','] + member_key("timestamp"@));
    reveal_strlit(",\"type\":");
    reveal_strlit("type");
    assert(",\"type\":"@ =~= seq![','] + member_key("type"@));
    lemma_members_4(
        "{\"data\":"@, "data"@, event_data_json(event.data),
        ",\"matchId\":"@, "matchId"@, json_int(match_id as int),
        ",\"timestamp\":"@, "timestamp"@, decimal(timestamp as nat),
        ",\"type\":"@, "type"@, json_quote(kind_name(event.kind)),
    );
}

/// STATE_SYNC leaves with its envelope by name: `data` holds the condensed
/// state, `matchId` the match, `timestamp` the time given and `type` is
/// `STATE_SYNC`.
#[verifier::rlimit(40)]
pub proof fn state_sync_members(match_id: i64, timestamp: u64, data: CondensedState)
    ensures
        has_member(message_json(OutMessage::StateSync { match_id, timestamp, data }), "data"@, condensed_json(data)),
        has_member(message_json(OutMessage::StateSync { match_id, timestamp, data }), "matchId"@, json_int(match_id as int)),
        has_member(message_json(OutMessage::StateSync { match_id, timestamp, data }), "timestamp"@, decimal(timestamp as nat)),
        has_member(message_json(OutMessage::StateSync { match_id, timestamp, data }), "type"@, json_quote("STATE_SYNC"@)),
{
    reveal_strlit("{\"data\":");
    reveal_strlit("data");
    assert("{\"data\":"@ =~= seq!['{'] + member_key("data"@));
    reveal_strlit(",\"matchId\":");
    reveal_strlit("matchId");
    assert(",\"matchId\":"@ =~= seq![','] + member_key("matchId"@));
    reveal_strlit(",\"timestamp\":");
    reveal_strlit("timestamp");
    assert(",\"timestamp\":"@ =~= seq![','] + member_key("timestamp"@));
    reveal_strlit(",\"type\":");
    reveal_strlit("type");
    assert(",\"type\":"@ =~= seq![','] + member_key("type"@));
    lemma_members_4(
        "{\"data\":"@, "data"@, condensed_json(data),
        ",\"matchId\":"@, "matchId"@, json_int(match_id as int),
        ",\"timestamp\":"@, "timestamp"@, decimal(timestamp as nat),
        ",\"type\":"@, "type"@, json_quote("STATE_SYNC"@),
    );
}

/// The condensed state keeps each value under its own name: `score_ct`
/// holds the CT score, `score_t` the T score, and so on.
#[verifier::rlimit(40)]
pub proof fn condensed_members(c: CondensedState)
    ensures
        has_member(condensed_json(c), "map"@, json_opt_str(c.map)),
        has_member(condensed_json(c), "map_phase"@, json_opt_str(c.map_phase)),
        has_member(condensed_json(c), "mode"@, json_opt_str(c.mode)),
        has_member(condensed_json(c), "player"@, player_json(c.player)),
        has_member(condensed_json(c), "round"@, json_opt_int(c.round)),
        has_member(condensed_json(c), "round_phase"@, json_opt_str(c.round_phase)),
        has_member(condensed_json(c), "score_ct"@, json_opt_int(c.score_ct)),
        has_member(condensed_json(c), "score_t"@, json_opt_int(c.score_t)),
{
    reveal_strlit("{\"map\":");
    reveal_strlit("map");
    assert("{\"map\":"@ =~= seq!['{'] + member_key("map"@));
    reveal_strlit(",\"map_phase\":");
    reveal_strlit("map_phase");
    assert(",\"map_phase\":"@ =~= seq![','] + member_key("map_phase"@));
    reveal_strlit(",\"mode\":");
    reveal_strlit("mode");
    assert(",\"mode\":"@ =~= seq![','] + member_key("mode"@));
    reveal_strlit(",\"player\":");
    reveal_strlit("player");
    assert(",\"player\":"@ =~= seq![','] + member_key("player"@));
    reveal_strlit(",\"round\":");
    reveal_strlit("round");
    assert(",\"round\":"@ =~= seq![','] + member_key("round"@));
    reveal_strlit(",\"round_phase\":");
    reveal_strlit("round_phase");
    assert(",\"round_phase\":"@ =~= seq![','] + member_key("round_phase"@));
    reveal_strlit(",\"score_ct\":");
    reveal_strlit("score_ct");
    assert(",\"score_ct\":"@ =~= seq![','] + member_key("score_ct"@));
    reveal_strlit(",\"score_t\":");
    reveal_strlit("score_t");
    assert(",\"score_t\":"@ =~= seq![','] + member_key("score_t"@));
    lemma_members_8(
        "{\"map\":"@, "map"@, json_opt_str(c.map),
        ",\"map_phase\":"@, "map_phase"@, json_opt_str(c.map_phase),
        ",\"mode\":"@, "mode"@, json_opt_str(c.mode),
        ",\"player\":"@, "player"@, player_json(c.player),
        ",\"round\":"@, "round"@, json_opt_int(c.round),
        ",\"round_phase\":"@, "round_phase"@, json_opt_str(c.round_phase),
        ",\"score_ct\":"@, "score_ct"@, json_opt_int(c.score_ct),
        ",\"score_t\":"@, "score_t"@, json_opt_int(c.score_t),
    );
    lemma_condensed_json_flat(c);
}

/// The condensed state as one run of members.
#[verifier::rlimit(40)]
proof fn lemma_condensed_json_flat(c: CondensedState)
    ensures
        condensed_json(c) == "{\"map\":"@ + json_opt_str(c.map) + ",\"map_phase\":"@ + json_opt_str(c.map_phase) + ",\"mode\":"@ + json_opt_str(c.mode) + ",\"player\":"@ + player_json(c.player) + ",\"round\":"@ + json_opt_int(c.round) + ",\"round_phase\":"@ + json_opt_str(c.round_phase) + ",\"score_ct\":"@ + json_opt_int(c.score_ct) + ",\"score_t\":"@ + json_opt_int(c.score_t) + "}"@,
{
    lemma_concat_associative(condensed_front(c), ",\"round\":"@ + json_opt_int(c.round) + ",\"round_phase\":"@ + json_opt_str(c.round_phase) + ",\"score_ct\":"@ + json_opt_int(c.score_ct) + ",\"score_t\":"@ + json_opt_int(c.score_t), "}"@);
    lemma_concat_associative(condensed_front(c), ",\"round\":"@ + json_opt_int(c.round) + ",\"round_phase\":"@ + json_opt_str(c.round_phase) + ",\"score_ct\":"@ + json_opt_int(c.score_ct) + ",\"score_t\":"@, json_opt_int(c.score_t));
    lemma_concat_associative(condensed_front(c), ",\"round\":"@ + json_opt_int(c.round) + ",\"round_phase\":"@ + json_opt_str(c.round_phase) + ",\"score_ct\":"@ + json_opt_int(c.score_ct), ",\"score_t\":"@);
    lemma_concat_associative(condensed_front(c), ",\"round\":"@ + json_opt_int(c.round) + ",\"round_phase\":"@ + json_opt_str(c.round_phase) + ",\"score_ct\":"@, json_opt_int(c.score_ct));
    lemma_concat_associative(condensed_front(c), ",\"round\":"@ + json_opt_int(c.round) + ",\"round_phase\":"@ + json_opt_str(c.round_phase), ",\"score_ct\":"@);
    lemma_concat_associative(condensed_front(c), ",\"round\":"@ + json_opt_int(c.round) + ",\"round_phase\":"@, json_opt_str(c.round_phase));
    lemma_concat_associative(condensed_front(c), ",\"round\":"@ + json_opt_int(c.round), ",\"round_phase\":"@);
    lemma_concat_associative(condensed_front(c), ",\"round\":"@, json_opt_int(c.round));
}

/// The player's statistics as one run of members.
#[verifier::rlimit(40)]
proof fn lemma_player_json_flat(p: PlayerSync)
    ensures
        player_json(Some(p)) == "{\"armor\":"@ + json_opt_int(p.armor) + ",\"assists\":"@ + json_opt_int(p.assists) + ",\"deaths\":"@ + json_opt_int(p.deaths) + ",\"health\":"@ + json_opt_int(p.health) + ",\"kills\":"@ + json_opt_int(p.kills) + ",\"money\":"@ + json_opt_int(p.money) + ",\"mvps\":"@ + json_opt_int(p.mvps) + ",\"name\":"@ + json_opt_str(p.name) + ",\"score\":"@ + json_opt_int(p.score) + ",\"steamid\":"@ + json_opt_str(p.steamid) + ",\"team\":"@ + json_opt_str(p.team) + "}"@,
{
    lemma_concat_associative(player_front(p), ",\"money\":"@ + json_opt_int(p.money) + ",\"mvps\":"@ + json_opt_int(p.mvps) + ",\"name\":"@ + json_opt_str(p.name) + ",\"score\":"@ + json_opt_int(p.score) + ",\"steamid\":"@ + json_opt_str(p.steamid) + ",\"team\":"@ + json_opt_str(p.team), "}"@);
    lemma_concat_associative(player_front(p), ",\"money\":"@ + json_opt_int(p.money) + ",\"mvps\":"@ + json_opt_int(p.mvps) + ",\"name\":"@ + json_opt_str(p.name) + ",\"score\":"@ + json_opt_int(p.score) + ",\"steamid\":"@ + json_opt_str(p.steamid) + ",\"team\":"@, json_opt_str(p.team));
    lemma_concat_associative(player_front(p), ",\"money\":"@ + json_opt_int(p.money) + ",\"mvps\":"@ + json_opt_int(p.mvps) + ",\"name\":"@ + json_opt_str(p.name) + ",\"score\":"@ + json_opt_int(p.score) + ",\"steamid\":"@ + json_opt_str(p.steamid), ",\"team\":"@);
    lemma_concat_associative(player_front(p), ",\"money\":"@ + json_opt_int(p.money) + ",\"mvps\":"@ + json_opt_int(p.mvps) + ",\"name\":"@ + json_opt_str(p.name) + ",\"score\":"@ + json_opt_int(p.score) + ",\"steamid\":"@, json_opt_str(p.steamid));
    lemma_concat_associative(player_front(p), ",\"money\":"@ + json_opt_int(p.money) + ",\"mvps\":"@ + json_opt_int(p.mvps) + ",\"name\":"@ + json_opt_str(p.name) + ",\"score\":"@ + json_opt_int(p.score), ",\"steamid\":"@);
    lemma_concat_associative(player_front(p), ",\"money\":"@ + json_opt_int(p.money) + ",\"mvps\":"@ + json_opt_int(p.mvps) + ",\"name\":"@ + json_opt_str(p.name) + ",\"score\":"@, json_opt_int(p.score));
    lemma_concat_associative(player_front(p), ",\"money\":"@ + json_opt_int(p.money) + ",\"mvps\":"@ + json_opt_int(p.mvps) + ",\"name\":"@ + json_opt_str(p.name), ",\"score\":"@);
    lemma_concat_associative(player_front(p), ",\"money\":"@ + json_opt_int(p.money) + ",\"mvps\":"@ + json_opt_int(p.mvps) + ",\"name\":"@, json_opt_str(p.name));
    lemma_concat_associative(player_front(p), ",\"money\":"@ + json_opt_int(p.money) + ",\"mvps\":"@ + json_opt_int(p.mvps), ",\"name\":"@);
    lemma_concat_associative(player_front(p), ",\"money\":"@ + json_opt_int(p.money) + ",\"mvps\":"@, json_opt_int(p.mvps));
    lemma_concat_associative(player_front(p), ",\"money\":"@ + json_opt_int(p.money), ",\"mvps\":"@);
    lemma_concat_associative(player_front(p), ",\"money\":"@, json_opt_int(p.money));
}

/// The player's statistics keep each value under its own name.
#[verifier::rlimit(40)]
pub proof fn player_members(p: PlayerSync)
    ensures
        has_member(player_json(Some(p)), "armor"@, json_opt_int(p.armor)),
        has_member(player_json(Some(p)), "assists"@, json_opt_int(p.assists)),
        has_member(player_json(Some(p)), "deaths"@, json_opt_int(p.deaths)),
        has_member(player_json(Some(p)), "health"@, json_opt_int(p.health)),
        has_member(player_json(Some(p)), "kills"@, json_opt_int(p.kills)),
        has_member(player_json(Some(p)), "money"@, json_opt_int(p.money)),
        has_member(player_json(Some(p)), "mvps"@, json_opt_int(p.mvps)),
        has_member(player_json(Some(p)), "name"@, json_opt_str(p.name)),
        has_member(player_json(Some(p)), "score"@, json_opt_int(p.score)),
        has_member(player_json(Some(p)), "steamid"@, json_opt_str(p.steamid)),
        has_member(player_json(Some(p)), "team"@, json_opt_str(p.team)),
{
    reveal_strlit("{\"armor\":");
    reveal_strlit("armor");
    assert("{\"armor\":"@ =~= seq!['{'] + member_key("armor"@));
    reveal_strlit(",\"assists\":");
    reveal_strlit("assists");
    assert(",\"assists\":"@ =~= seq![','] + member_key("assists"@));
    reveal_strlit(",\"deaths\":");
    reveal_strlit("deaths");
    assert(",\"deaths\":"@ =~= seq![','] + member_key("deaths"@));
    reveal_strlit(",\"health\":");
    reveal_strlit("health");
    assert(",\"health\":"@ =~= seq![','] + member_key("health"@));
    reveal_strlit(",\"kills\":");
    reveal_strlit("kills");
    assert(",\"kills\":"@ =~= seq![','] + member_key("kills"@));
    reveal_strlit(",\"money\":");
    reveal_strlit("money");
    assert(",\"money\":"@ =~= seq![','] + member_key("money"@));
    reveal_strlit(",\"mvps\":");
    reveal_strlit("mvps");
    assert(",\"mvps\":"@ =~= seq![','] + member_key("mvps"@));
    reveal_strlit(",\"name\":");
    reveal_strlit("name");
    assert(",\"name\":"@ =~= seq![','] + member_key("name"@));
    reveal_strlit(",\"score\":");
    reveal_strlit("score");
    assert(",\"score\":"@ =~= seq![','] + member_key("score"@));
    reveal_strlit(",\"steamid\":");
    reveal_strlit("steamid");
    assert(",\"steamid\":"@ =~= seq![','] + member_key("steamid"@));
    reveal_strlit(",\"team\":");
    reveal_strlit("team");
    assert(",\"team\":"@ =~= seq![','] + member_key("team"@));
    lemma_members_11(
        "{\"armor\":"@, "armor"@, json_opt_int(p.armor),
        ",\"assists\":"@, "assists"@, json_opt_int(p.assists),
        ",\"deaths\":"@, "deaths"@, json_opt_int(p.deaths),
        ",\"health\":"@, "health"@, json_opt_int(p.health),
        ",\"kills\":"@, "kills"@, json_opt_int(p.kills),
        ",\"money\":"@, "money"@, json_opt_int(p.money),
        ",\"mvps\":"@, "mvps"@, json_opt_int(p.mvps),
        ",\"name\":"@, "name"@, json_opt_str(p.name),
        ",\"score\":"@, "score"@, json_opt_int(p.score),
        ",\"steamid\":"@, "steamid"@, json_opt_str(p.steamid),
        ",\"team\":"@, "team"@, json_opt_str(p.team),
    );
    lemma_player_json_flat(p);
}

/// The connection's own messages name what they are: HELLO carries the
/// client and its version, MATCH_ACK the match, and each its `type`.
#[verifier::rlimit(40)]
pub proof fn control_message_members(m: OutMessage)
    ensures
        match m {
            OutMessage::Hello { version } => {
                &&& has_member(message_json(m), "client"@, json_quote("resenha-client"@))
                &&& has_member(message_json(m), "type"@, json_quote("HELLO"@))
                &&& has_member(message_json(m), "version"@, json_quote(version@))
            },
            OutMessage::MatchAck { match_id } => {
                &&& has_member(message_json(m), "matchId"@, json_int(match_id as int))
                &&& has_member(message_json(m), "type"@, json_quote("MATCH_ACK"@))
            },
            OutMessage::MatchEndedAck => has_member(message_json(m), "type"@, json_quote("MATCH_ENDED_ACK"@)),
            OutMessage::Pong => has_member(message_json(m), "type"@, json_quote("PONG"@)),
            _ => true,
        },
{
    match m {
        OutMessage::Hello { version } => {
        reveal_strlit("{\"client\":");
        reveal_strlit("client");
        assert("{\"client\":"@ =~= seq!['{'] + member_key("client"@));
        reveal_strlit(",\"type\":");
        reveal_strlit("type");
        assert(",\"type\":"@ =~= seq![','] + member_key("type"@));
        reveal_strlit(",\"version\":");
        reveal_strlit("version");
        assert(",\"version\":"@ =~= seq![','] + member_key("version"@));
        lemma_members_3(
            "{\"client\":"@, "client"@, json_quote("resenha-client"@),
            ",\"type\":"@, "type"@, json_quote("HELLO"@),
            ",\"version\":"@, "version"@, json_quote(version@),
        );
        },
        OutMessage::MatchAck { match_id } => {
        reveal_strlit("{\"matchId\":");
        reveal_strlit("matchId");
        assert("{\"matchId\":"@ =~= seq!['{'] + member_key("matchId"@));
        reveal_strlit(",\"type\":");
        reveal_strlit("type");
        assert(",\"type\":"@ =~= seq![','] + member_key("type"@));
        lemma_members_2(
            "{\"matchId\":"@, "matchId"@, json_int(match_id as int),
            ",\"type\":"@, "type"@, json_quote("MATCH_ACK"@),
        );
        },
        OutMessage::MatchEndedAck => {
        reveal_strlit("{\"type\":");
        reveal_strlit("type");
        assert("{\"type\":"@ =~= seq!['{'] + member_key("type"@));
        lemma_members_1(
            "{\"type\":"@, "type"@, json_quote("MATCH_ENDED_ACK"@),
        );
        },
        OutMessage::Pong => {
        reveal_strlit("{\"type\":");
        reveal_strlit("type");
        assert("{\"type\":"@ =~= seq!['{'] + member_key("type"@));
        lemma_members_1(
            "{\"type\":"@, "type"@, json_quote("PONG"@),
        );
        },
        _ => {},
    }
}

} // verus!
