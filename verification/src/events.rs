//! Event dispatcher: turns the difference between two Game State Integration
//! payloads into domain events (ROUND_START, PLAYER_KILL, BOMB_PLANTED, ...).
//!
//! When the player dies and spectates a teammate, the GSI "player" block
//! becomes the spectated player's. So every player event is only produced
//! when `player.steamid == provider.steamid`.
use vstd::prelude::*;
use crate::json::{json_i64_at, json_keys_at, json_parses, json_present_at, json_str_at, JsonDoc};
use crate::text::{chars_of, copy_opt, eq_opt, eq_str, is_some_str, push_char, push_str};

verus! {

/// What the dispatcher reads from one GSI payload; each field is the value
/// at the JSON pointer named in its doc (absent, or of another JSON type,
/// gives `None`).
pub struct GsiSnapshot {
    /// `/provider/steamid`: the owner of this machine.
    pub provider_steamid: Option<String>,
    /// `/map/name`
    pub map_name: Option<String>,
    /// `/map/mode`
    pub map_mode: Option<String>,
    /// `/map/phase`
    pub map_phase: Option<String>,
    /// `/map/round` (0-based while the round runs)
    pub map_round: Option<i64>,
    /// `/map/team_ct/score`
    pub score_ct: Option<i64>,
    /// `/map/team_t/score`
    pub score_t: Option<i64>,
    /// `/round/phase`
    pub round_phase: Option<String>,
    /// `/round/win_team`
    pub round_win_team: Option<String>,
    /// `/round/bomb`
    pub round_bomb: Option<String>,
    /// `/player/steamid`: whose block this is (may be a spectated teammate).
    pub player_steamid: Option<String>,
    /// `/player/name`
    pub player_name: Option<String>,
    /// `/player/team`
    pub player_team: Option<String>,
    /// `/player/state/health`
    pub health: Option<i64>,
    /// `/player/state/armor`
    pub armor: Option<i64>,
    /// `/player/state/money`
    pub money: Option<i64>,
    /// `/player/match_stats/kills`
    pub kills: Option<i64>,
    /// `/player/match_stats/assists`
    pub assists: Option<i64>,
    /// `/player/match_stats/deaths`
    pub deaths: Option<i64>,
    /// `/player/match_stats/mvps`
    pub mvps: Option<i64>,
    /// `/player/match_stats/score`
    pub score: Option<i64>,
    /// The name of the first weapon under `/player/weapons` whose `state` is
    /// `"active"`.
    pub active_weapon: Option<String>,
    /// Whether the payload has a `map` block at all.
    pub has_map: bool,
}

/// A JSON pointer token: `~` written `~0` and `/` written `~1` (RFC 6901).
pub open spec fn escape_token(k: Seq<char>) -> Seq<char>
    decreases k.len(),
{
    if k.len() == 0 {
        Seq::empty()
    } else {
        let head = if k[0] == '~' {
            seq!['~', '0']
        } else if k[0] == '/' {
            seq!['~', '1']
        } else {
            seq![k[0]]
        };
        head + escape_token(k.drop_first())
    }
}

/// The pointer to one entry of the weapons object.
pub open spec fn weapon_pointer(key: Seq<char>) -> Seq<char> {
    "/player/weapons/"@ + escape_token(key)
}

/// The name of the first weapon among `keys` whose state is `"active"`;
/// the search stops at that weapon even where it has no name.
pub open spec fn first_active_weapon(text: Seq<char>, keys: Seq<Seq<char>>) -> Option<Seq<char>>
    decreases keys.len(),
{
    if keys.len() == 0 {
        None
    } else if json_str_at(text, weapon_pointer(keys[0]) + "/state"@) == Some("active"@) {
        json_str_at(text, weapon_pointer(keys[0]) + "/name"@)
    } else {
        first_active_weapon(text, keys.drop_first())
    }
}

/// The active weapon of the payload `text`.
pub open spec fn active_weapon_of(text: Seq<char>) -> Option<Seq<char>> {
    match json_keys_at(text, "/player/weapons"@) {
        Some(keys) => first_active_weapon(text, keys),
        None => None,
    }
}

/// `snap` holds what the payload `text` says.
pub open spec fn snapshot_of(snap: GsiSnapshot, text: Seq<char>) -> bool {
    &&& snap.provider_steamid.deep_view() == json_str_at(text, "/provider/steamid"@)
    &&& snap.map_name.deep_view() == json_str_at(text, "/map/name"@)
    &&& snap.map_mode.deep_view() == json_str_at(text, "/map/mode"@)
    &&& snap.map_phase.deep_view() == json_str_at(text, "/map/phase"@)
    &&& snap.map_round == json_i64_at(text, "/map/round"@)
    &&& snap.score_ct == json_i64_at(text, "/map/team_ct/score"@)
    &&& snap.score_t == json_i64_at(text, "/map/team_t/score"@)
    &&& snap.round_phase.deep_view() == json_str_at(text, "/round/phase"@)
    &&& snap.round_win_team.deep_view() == json_str_at(text, "/round/win_team"@)
    &&& snap.round_bomb.deep_view() == json_str_at(text, "/round/bomb"@)
    &&& snap.player_steamid.deep_view() == json_str_at(text, "/player/steamid"@)
    &&& snap.player_name.deep_view() == json_str_at(text, "/player/name"@)
    &&& snap.player_team.deep_view() == json_str_at(text, "/player/team"@)
    &&& snap.health == json_i64_at(text, "/player/state/health"@)
    &&& snap.armor == json_i64_at(text, "/player/state/armor"@)
    &&& snap.money == json_i64_at(text, "/player/state/money"@)
    &&& snap.kills == json_i64_at(text, "/player/match_stats/kills"@)
    &&& snap.assists == json_i64_at(text, "/player/match_stats/assists"@)
    &&& snap.deaths == json_i64_at(text, "/player/match_stats/deaths"@)
    &&& snap.mvps == json_i64_at(text, "/player/match_stats/mvps"@)
    &&& snap.score == json_i64_at(text, "/player/match_stats/score"@)
    &&& snap.active_weapon.deep_view() == active_weapon_of(text)
    &&& snap.has_map == json_present_at(text, "/map"@)
}

fn push_escaped(out: &mut String, key: &String)
    ensures
        final(out)@ == old(out)@ + escape_token(key@),
{
    let chars = chars_of(key.as_str());
    let mut i: usize = 0;
    assert(chars@.skip(0) =~= chars@);
    while i < chars.len()
        invariant
            i <= chars@.len(),
            chars@ == key@,
            out@ + escape_token(chars@.skip(i as int)) == old(out)@ + escape_token(key@),
        decreases chars@.len() - i,
    {
        let ghost before = out@;
        let c = chars[i];
        assert(chars@.skip(i as int).drop_first() =~= chars@.skip(i + 1));
        if c == '~' {
            push_char(out, '~');
            push_char(out, '0');
        } else if c == '/' {
            push_char(out, '~');
            push_char(out, '1');
        } else {
            push_char(out, c);
        }
        proof {
            let rest = chars@.skip(i as int);
            assert(rest[0] == c);
            let head = if c == '~' { seq!['~', '0'] } else if c == '/' { seq!['~', '1'] } else { seq![c] };
            assert(out@ =~= before + head);
            assert(escape_token(rest) == head + escape_token(rest.drop_first()));
            assert(before + escape_token(rest) =~= out@ + escape_token(chars@.skip(i + 1)));
        }
        i = i + 1;
    }
    assert(chars@.skip(chars@.len() as int) =~= Seq::<char>::empty());
    assert(out@ =~= old(out)@ + escape_token(key@));
}

fn weapon_field_pointer(key: &String, field: &str) -> (res: String)
    ensures
        res@ == weapon_pointer(key@) + field@,
{
    let mut p = String::from_str("/player/weapons/");
    push_escaped(&mut p, key);
    push_str(&mut p, field);
    p
}

/// The active weapon of the payload, as [`active_weapon_of`] states it.
fn active_weapon(doc: &JsonDoc) -> (res: Option<String>)
    ensures
        res.deep_view() == active_weapon_of(doc@),
{
    let keys = match doc.keys_at("/player/weapons") {
        Some(k) => k,
        None => return None,
    };
    let ghost ks = keys.deep_view();
    let mut i: usize = 0;
    assert(ks.skip(0) =~= ks);
    while i < keys.len()
        invariant
            i <= keys@.len(),
            ks == keys.deep_view(),
            json_keys_at(doc@, "/player/weapons"@) == Some(ks),
            first_active_weapon(doc@, ks.skip(i as int)) == active_weapon_of(doc@),
        decreases keys@.len() - i,
    {
        assert(ks.skip(i as int).drop_first() =~= ks.skip(i + 1));
        assert(ks.skip(i as int)[0] == keys@[i as int]@);
        let state_ptr = weapon_field_pointer(&keys[i], "/state");
        let state = doc.str_at(state_ptr.as_str());
        if is_some_str(&state, "active") {
            let name_ptr = weapon_field_pointer(&keys[i], "/name");
            return doc.str_at(name_ptr.as_str());
        }
        i = i + 1;
    }
    assert(ks.skip(i as int) =~= Seq::<Seq<char>>::empty());
    None
}

impl GsiSnapshot {
    /// Reads everything the dispatcher needs from a parsed payload.
    pub(crate) fn from_json(doc: &JsonDoc) -> (res: GsiSnapshot)
        ensures
            snapshot_of(res, doc@),
    {
        GsiSnapshot {
            provider_steamid: doc.str_at("/provider/steamid"),
            map_name: doc.str_at("/map/name"),
            map_mode: doc.str_at("/map/mode"),
            map_phase: doc.str_at("/map/phase"),
            map_round: doc.i64_at("/map/round"),
            score_ct: doc.i64_at("/map/team_ct/score"),
            score_t: doc.i64_at("/map/team_t/score"),
            round_phase: doc.str_at("/round/phase"),
            round_win_team: doc.str_at("/round/win_team"),
            round_bomb: doc.str_at("/round/bomb"),
            player_steamid: doc.str_at("/player/steamid"),
            player_name: doc.str_at("/player/name"),
            player_team: doc.str_at("/player/team"),
            health: doc.i64_at("/player/state/health"),
            armor: doc.i64_at("/player/state/armor"),
            money: doc.i64_at("/player/state/money"),
            kills: doc.i64_at("/player/match_stats/kills"),
            assists: doc.i64_at("/player/match_stats/assists"),
            deaths: doc.i64_at("/player/match_stats/deaths"),
            mvps: doc.i64_at("/player/match_stats/mvps"),
            score: doc.i64_at("/player/match_stats/score"),
            active_weapon: active_weapon(doc),
            has_map: doc.present_at("/map"),
        }
    }
}

impl GsiSnapshot {
    /// Reads a GSI payload; `None` when it is not JSON.
    pub fn from_text(text: &str) -> (res: Option<GsiSnapshot>)
        ensures
            res is None <==> !json_parses(text@),
            res matches Some(s) ==> snapshot_of(s, text@),
    {
        match JsonDoc::parse(text) {
            Some(doc) => Some(GsiSnapshot::from_json(&doc)),
            None => None,
        }
    }
}

// ---------------------------------------------------------------------------
// Domain events
// ---------------------------------------------------------------------------

/// The kinds of domain event. There is deliberately no damage event: CS2
/// does not report damage per round.
#[derive(Clone, Copy, PartialEq, Eq, Debug)]
pub enum EventKind {
    MapChange,
    MapPhase,
    GameOver,
    Freezetime,
    RoundStart,
    RoundEnd,
    BombPlanted,
    BombDefused,
    BombExploded,
    ScoreUpdate,
    PlayerKill,
    PlayerAssist,
    PlayerMvp,
    PlayerDead,
    PlayerAlive,
    WeaponChange,
    PlayerTeam,
}

/// The wire name of each kind.
pub open spec fn kind_name(k: EventKind) -> Seq<char> {
    match k {
        EventKind::MapChange => "MAP_CHANGE"@,
        EventKind::MapPhase => "MAP_PHASE"@,
        EventKind::GameOver => "GAME_OVER"@,
        EventKind::Freezetime => "FREEZETIME"@,
        EventKind::RoundStart => "ROUND_START"@,
        EventKind::RoundEnd => "ROUND_END"@,
        EventKind::BombPlanted => "BOMB_PLANTED"@,
        EventKind::BombDefused => "BOMB_DEFUSED"@,
        EventKind::BombExploded => "BOMB_EXPLODED"@,
        EventKind::ScoreUpdate => "SCORE_UPDATE"@,
        EventKind::PlayerKill => "PLAYER_KILL"@,
        EventKind::PlayerAssist => "PLAYER_ASSIST"@,
        EventKind::PlayerMvp => "PLAYER_MVP"@,
        EventKind::PlayerDead => "PLAYER_DEAD"@,
        EventKind::PlayerAlive => "PLAYER_ALIVE"@,
        EventKind::WeaponChange => "WEAPON_CHANGE"@,
        EventKind::PlayerTeam => "PLAYER_TEAM"@,
    }
}

impl EventKind {
    /// The wire name of the kind, as the backend knows it.
    pub fn name(&self) -> (res: &'static str)
        ensures
            res@ == kind_name(*self),
    {
        match self {
            EventKind::MapChange => "MAP_CHANGE",
            EventKind::MapPhase => "MAP_PHASE",
            EventKind::GameOver => "GAME_OVER",
            EventKind::Freezetime => "FREEZETIME",
            EventKind::RoundStart => "ROUND_START",
            EventKind::RoundEnd => "ROUND_END",
            EventKind::BombPlanted => "BOMB_PLANTED",
            EventKind::BombDefused => "BOMB_DEFUSED",
            EventKind::BombExploded => "BOMB_EXPLODED",
            EventKind::ScoreUpdate => "SCORE_UPDATE",
            EventKind::PlayerKill => "PLAYER_KILL",
            EventKind::PlayerAssist => "PLAYER_ASSIST",
            EventKind::PlayerMvp => "PLAYER_MVP",
            EventKind::PlayerDead => "PLAYER_DEAD",
            EventKind::PlayerAlive => "PLAYER_ALIVE",
            EventKind::WeaponChange => "WEAPON_CHANGE",
            EventKind::PlayerTeam => "PLAYER_TEAM",
        }
    }
}

/// The `data` object of an event; every field is sent, `None` as `null`.
pub enum EventData {
    /// `{}`
    Empty,
    /// `{ map, mode }`
    MapInfo { map: Option<String>, mode: Option<String> },
    /// `{ phase }`
    Phase { phase: String },
    /// `{ round }`, 1-based
    Round { round: Option<i64> },
    /// `{ round, winner, score_ct, score_t }`
    RoundEnd { round: Option<i64>, winner: Option<String>, score_ct: Option<i64>, score_t: Option<i64> },
    /// `{ score_ct, score_t }`
    Score { score_ct: Option<i64>, score_t: Option<i64> },
    /// `{ total, delta }`
    Counter { total: i64, delta: i64 },
    /// `{ deaths }`
    Deaths { deaths: Option<i64> },
    /// `{ weapon }`
    Weapon { weapon: String },
    /// `{ team }`
    Team { team: String },
}

/// A domain event, sent to the backend with the match id and a timestamp.
pub struct GameEvent {
    pub kind: EventKind,
    pub data: EventData,
}

pub open spec fn ev(kind: EventKind, data: EventData) -> GameEvent {
    GameEvent { kind, data }
}

/// MAP_CHANGE when the map name appears or changes.
pub open spec fn map_events(prev: Option<&GsiSnapshot>, curr: GsiSnapshot) -> Seq<GameEvent> {
    if curr.map_name is Some && curr.map_name.deep_view() != match prev { Some(p) => p.map_name.deep_view(), None => None } {
        seq![ev(EventKind::MapChange, EventData::MapInfo { map: curr.map_name, mode: curr.map_mode })]
    } else {
        Seq::empty()
    }
}

/// MAP_PHASE when the phase changes to a present one, followed by GAME_OVER
/// with the score when that phase is `gameover`.
pub open spec fn phase_events(prev: Option<&GsiSnapshot>, curr: GsiSnapshot) -> Seq<GameEvent> {
    match curr.map_phase {
        Some(ph) => if curr.map_phase.deep_view() != match prev { Some(p) => p.map_phase.deep_view(), None => None } {
            seq![ev(EventKind::MapPhase, EventData::Phase { phase: ph })] + if ph@ == "gameover"@ {
                seq![ev(EventKind::GameOver, EventData::Score { score_ct: curr.score_ct, score_t: curr.score_t })]
            } else {
                Seq::empty()
            }
        } else {
            Seq::empty()
        },
        None => Seq::empty(),
    }
}

/// The 1-based round number (`map.round` is 0-based while the round runs),
/// with the wrapping addition of a release build.
pub open spec fn human_round(round: Option<i64>) -> Option<i64> {
    match round {
        Some(r) => Some(r.wrapping_add(1)),
        None => None,
    }
}

/// FREEZETIME / ROUND_START / ROUND_END when the round phase changes to
/// `freezetime`, `live` or `over`.
pub open spec fn round_events(prev: Option<&GsiSnapshot>, curr: GsiSnapshot) -> Seq<GameEvent> {
    let rp = curr.round_phase.deep_view();
    if rp != match prev { Some(p) => p.round_phase.deep_view(), None => None } {
        if rp == Some("freezetime"@) {
            seq![ev(EventKind::Freezetime, EventData::Round { round: human_round(curr.map_round) })]
        } else if rp == Some("live"@) {
            seq![ev(EventKind::RoundStart, EventData::Round { round: human_round(curr.map_round) })]
        } else if rp == Some("over"@) {
            seq![ev(EventKind::RoundEnd, EventData::RoundEnd {
                round: curr.map_round,
                winner: curr.round_win_team,
                score_ct: curr.score_ct,
                score_t: curr.score_t,
            })]
        } else {
            Seq::empty()
        }
    } else {
        Seq::empty()
    }
}

/// BOMB_PLANTED / BOMB_DEFUSED / BOMB_EXPLODED when the bomb state changes.
pub open spec fn bomb_events(prev: Option<&GsiSnapshot>, curr: GsiSnapshot) -> Seq<GameEvent> {
    let b = curr.round_bomb.deep_view();
    if b != match prev { Some(p) => p.round_bomb.deep_view(), None => None } {
        if b == Some("planted"@) {
            seq![ev(EventKind::BombPlanted, EventData::Empty)]
        } else if b == Some("defused"@) {
            seq![ev(EventKind::BombDefused, EventData::Empty)]
        } else if b == Some("exploded"@) {
            seq![ev(EventKind::BombExploded, EventData::Empty)]
        } else {
            Seq::empty()
        }
    } else {
        Seq::empty()
    }
}

/// SCORE_UPDATE when there is a previous payload, the CT score is present
/// and the pair of scores differs from the previous one.
pub open spec fn score_events(prev: Option<&GsiSnapshot>, curr: GsiSnapshot) -> Seq<GameEvent> {
    match prev {
        Some(p) => if curr.score_ct is Some && (curr.score_ct != p.score_ct || curr.score_t
            != p.score_t) {
            seq![ev(EventKind::ScoreUpdate, EventData::Score { score_ct: curr.score_ct, score_t: curr.score_t })]
        } else {
            Seq::empty()
        },
        None => Seq::empty(),
    }
}

/// Whether the player block belongs to the owner of this machine.
pub open spec fn owns_player_block(s: GsiSnapshot) -> bool {
    &&& s.provider_steamid is Some
    &&& s.player_steamid is Some
    &&& s.provider_steamid.deep_view() == s.player_steamid.deep_view()
}

/// The previous payload, kept only where its player block was the owner's.
pub open spec fn previous_own<'a>(prev: Option<&'a GsiSnapshot>, curr: GsiSnapshot) -> Option<&'a GsiSnapshot> {
    match prev {
        Some(p) => if p.player_steamid.deep_view() == curr.provider_steamid.deep_view() {
            Some(p)
        } else {
            None
        },
        None => None,
    }
}

/// A counter event when a match statistic grew.
pub open spec fn stat_event(kind: EventKind, cur: Option<i64>, before: Option<i64>) -> Seq<GameEvent> {
    match (cur, before) {
        (Some(cv), Some(pv)) => if cv > pv {
            seq![ev(kind, EventData::Counter { total: cv, delta: cv.wrapping_sub(pv) })]
        } else {
            Seq::empty()
        },
        _ => Seq::empty(),
    }
}

/// PLAYER_DEAD when health drops from above zero to zero, PLAYER_ALIVE when
/// it rises from zero.
pub open spec fn health_events(before: Option<i64>, curr: GsiSnapshot) -> Seq<GameEvent> {
    match (before, curr.health) {
        (Some(ph), Some(h)) => if h == 0 && ph > 0 {
            seq![ev(EventKind::PlayerDead, EventData::Deaths { deaths: curr.deaths })]
        } else if ph == 0 && h > 0 {
            seq![ev(EventKind::PlayerAlive, EventData::Empty)]
        } else {
            Seq::empty()
        },
        _ => Seq::empty(),
    }
}

/// WEAPON_CHANGE, only ever for the C4, when it became the active weapon.
pub open spec fn weapon_events(own: Option<&GsiSnapshot>, curr: GsiSnapshot) -> Seq<GameEvent> {
    match curr.active_weapon {
        Some(w) => if w@ == "weapon_c4"@ && curr.active_weapon.deep_view() != match own { Some(p) => p.active_weapon.deep_view(), None => None } {
            seq![ev(EventKind::WeaponChange, EventData::Weapon { weapon: w })]
        } else {
            Seq::empty()
        },
        None => Seq::empty(),
    }
}

/// PLAYER_TEAM when the side changes (at halftime).
pub open spec fn team_events(own: Option<&GsiSnapshot>, curr: GsiSnapshot) -> Seq<GameEvent> {
    match curr.player_team {
        Some(t) => if own is Some && curr.player_team.deep_view() != match own { Some(p) => p.player_team.deep_view(), None => None } {
            seq![ev(EventKind::PlayerTeam, EventData::Team { team: t })]
        } else {
            Seq::empty()
        },
        None => Seq::empty(),
    }
}

/// The owner's own events; none when the player block is someone else's.
pub open spec fn player_events(prev: Option<&GsiSnapshot>, curr: GsiSnapshot) -> Seq<GameEvent> {
    if owns_player_block(curr) {
        let own = previous_own(prev, curr);
        stat_event(EventKind::PlayerKill, curr.kills, match own { Some(p) => p.kills, None => None })
            + stat_event(EventKind::PlayerAssist, curr.assists, match own { Some(p) => p.assists, None => None })
            + stat_event(EventKind::PlayerMvp, curr.mvps, match own { Some(p) => p.mvps, None => None })
            + health_events(match own { Some(p) => p.health, None => None }, curr)
            + weapon_events(own, curr)
            + team_events(own, curr)
    } else {
        Seq::empty()
    }
}

/// Whether the payload is in warmup, where only map-level events count.
pub open spec fn in_warmup(curr: GsiSnapshot) -> bool {
    curr.map_phase.deep_view() == Some("warmup"@)
}

/// All events of one payload, in the order they are sent.
pub open spec fn events_between(prev: Option<&GsiSnapshot>, curr: GsiSnapshot) -> Seq<GameEvent> {
    map_events(prev, curr) + phase_events(prev, curr) + if in_warmup(curr) {
        Seq::empty()
    } else {
        round_events(prev, curr) + bomb_events(prev, curr) + score_events(prev, curr)
            + player_events(prev, curr)
    }
}

fn push_map_events(out: &mut Vec<GameEvent>, prev: Option<&GsiSnapshot>, curr: &GsiSnapshot)
    ensures
        final(out)@ == old(out)@ + map_events(prev, *curr),
{
    let before = match prev { Some(p) => copy_opt(&p.map_name), None => None };
    assert(before.deep_view() == match prev { Some(p) => p.map_name.deep_view(), None => None });
    if curr.map_name.is_some() && !eq_opt(&curr.map_name, &before) {
        out.push(GameEvent {
            kind: EventKind::MapChange,
            data: EventData::MapInfo { map: copy_opt(&curr.map_name), mode: copy_opt(&curr.map_mode) },
        });
    }
    assert(final(out)@ =~= old(out)@ + map_events(prev, *curr));
}

fn push_phase_events(out: &mut Vec<GameEvent>, prev: Option<&GsiSnapshot>, curr: &GsiSnapshot)
    ensures
        final(out)@ == old(out)@ + phase_events(prev, *curr),
{
    let before = match prev { Some(p) => copy_opt(&p.map_phase), None => None };
    assert(before.deep_view() == match prev { Some(p) => p.map_phase.deep_view(), None => None });
    if !eq_opt(&curr.map_phase, &before) {
        if let Some(ph) = &curr.map_phase {
            out.push(GameEvent { kind: EventKind::MapPhase, data: EventData::Phase { phase: ph.clone() } });
            if eq_str(ph, "gameover") {
                out.push(GameEvent {
                    kind: EventKind::GameOver,
                    data: EventData::Score { score_ct: curr.score_ct, score_t: curr.score_t },
                });
            }
        }
    }
    assert(final(out)@ =~= old(out)@ + phase_events(prev, *curr));
}

fn next_round(round: Option<i64>) -> (res: Option<i64>)
    ensures
        res == human_round(round),
{
    match round {
        Some(r) => Some(r.wrapping_add(1)),
        None => None,
    }
}

fn push_round_events(out: &mut Vec<GameEvent>, prev: Option<&GsiSnapshot>, curr: &GsiSnapshot)
    ensures
        final(out)@ == old(out)@ + round_events(prev, *curr),
{
    let before = match prev { Some(p) => copy_opt(&p.round_phase), None => None };
    assert(before.deep_view() == match prev { Some(p) => p.round_phase.deep_view(), None => None });
    if !eq_opt(&curr.round_phase, &before) {
        if is_some_str(&curr.round_phase, "freezetime") {
            out.push(GameEvent { kind: EventKind::Freezetime, data: EventData::Round { round: next_round(curr.map_round) } });
        } else if is_some_str(&curr.round_phase, "live") {
            out.push(GameEvent { kind: EventKind::RoundStart, data: EventData::Round { round: next_round(curr.map_round) } });
        } else if is_some_str(&curr.round_phase, "over") {
            out.push(GameEvent {
                kind: EventKind::RoundEnd,
                data: EventData::RoundEnd {
                    round: curr.map_round,
                    winner: copy_opt(&curr.round_win_team),
                    score_ct: curr.score_ct,
                    score_t: curr.score_t,
                },
            });
        }
    }
    assert(final(out)@ =~= old(out)@ + round_events(prev, *curr));
}

fn push_bomb_events(out: &mut Vec<GameEvent>, prev: Option<&GsiSnapshot>, curr: &GsiSnapshot)
    ensures
        final(out)@ == old(out)@ + bomb_events(prev, *curr),
{
    let before = match prev { Some(p) => copy_opt(&p.round_bomb), None => None };
    assert(before.deep_view() == match prev { Some(p) => p.round_bomb.deep_view(), None => None });
    if !eq_opt(&curr.round_bomb, &before) {
        if is_some_str(&curr.round_bomb, "planted") {
            out.push(GameEvent { kind: EventKind::BombPlanted, data: EventData::Empty });
        } else if is_some_str(&curr.round_bomb, "defused") {
            out.push(GameEvent { kind: EventKind::BombDefused, data: EventData::Empty });
        } else if is_some_str(&curr.round_bomb, "exploded") {
            out.push(GameEvent { kind: EventKind::BombExploded, data: EventData::Empty });
        }
    }
    assert(final(out)@ =~= old(out)@ + bomb_events(prev, *curr));
}

fn push_score_events(out: &mut Vec<GameEvent>, prev: Option<&GsiSnapshot>, curr: &GsiSnapshot)
    ensures
        final(out)@ == old(out)@ + score_events(prev, *curr),
{
    if let Some(p) = prev {
        if curr.score_ct.is_some() && (curr.score_ct != p.score_ct || curr.score_t != p.score_t) {
            out.push(GameEvent {
                kind: EventKind::ScoreUpdate,
                data: EventData::Score { score_ct: curr.score_ct, score_t: curr.score_t },
            });
        }
    }
    assert(final(out)@ =~= old(out)@ + score_events(prev, *curr));
}

fn push_stat_event(out: &mut Vec<GameEvent>, kind: EventKind, cur: Option<i64>, before: Option<i64>)
    ensures
        final(out)@ == old(out)@ + stat_event(kind, cur, before),
{
    if let (Some(cv), Some(pv)) = (cur, before) {
        if cv > pv {
            out.push(GameEvent { kind, data: EventData::Counter { total: cv, delta: cv.wrapping_sub(pv) } });
        }
    }
    assert(final(out)@ =~= old(out)@ + stat_event(kind, cur, before));
}

fn push_health_event(out: &mut Vec<GameEvent>, own: Option<&GsiSnapshot>, curr: &GsiSnapshot)
    ensures
        final(out)@ == old(out)@ + health_events(match own { Some(p) => p.health, None => None }, *curr),
{
    let ph = match own { Some(p) => p.health, None => None };
    match (ph, curr.health) {
        (Some(a), Some(h)) => {
            if h == 0 && a > 0 {
                out.push(GameEvent { kind: EventKind::PlayerDead, data: EventData::Deaths { deaths: curr.deaths } });
            } else if a == 0 && h > 0 {
                out.push(GameEvent { kind: EventKind::PlayerAlive, data: EventData::Empty });
            }
        },
        _ => {},
    }
    assert(final(out)@ =~= old(out)@ + health_events(ph, *curr));
}

fn push_weapon_event(out: &mut Vec<GameEvent>, own: Option<&GsiSnapshot>, curr: &GsiSnapshot)
    ensures
        final(out)@ == old(out)@ + weapon_events(own, *curr),
{
    let pw = match own { Some(p) => copy_opt(&p.active_weapon), None => None };
    if let Some(w) = &curr.active_weapon {
        if eq_str(w, "weapon_c4") && !eq_opt(&curr.active_weapon, &pw) {
            out.push(GameEvent { kind: EventKind::WeaponChange, data: EventData::Weapon { weapon: w.clone() } });
        }
    }
    assert(final(out)@ =~= old(out)@ + weapon_events(own, *curr));
}

fn push_team_event(out: &mut Vec<GameEvent>, own: Option<&GsiSnapshot>, curr: &GsiSnapshot)
    ensures
        final(out)@ == old(out)@ + team_events(own, *curr),
{
    let pt = match own { Some(p) => copy_opt(&p.player_team), None => None };
    if let Some(t) = &curr.player_team {
        if own.is_some() && !eq_opt(&curr.player_team, &pt) {
            out.push(GameEvent { kind: EventKind::PlayerTeam, data: EventData::Team { team: t.clone() } });
        }
    }
    assert(final(out)@ =~= old(out)@ + team_events(own, *curr));
}

fn push_player_events(out: &mut Vec<GameEvent>, prev: Option<&GsiSnapshot>, curr: &GsiSnapshot)
    ensures
        final(out)@ == old(out)@ + player_events(prev, *curr),
{
    let owner = match &curr.provider_steamid {
        Some(o) => o,
        None => return,
    };
    let pid = match &curr.player_steamid {
        Some(p) => p,
        None => return,
    };
    if !(*owner == *pid) {
        return;
    }
    let prev_pid = match prev { Some(p) => copy_opt(&p.player_steamid), None => None };
    let own: Option<&GsiSnapshot> = if eq_opt(&prev_pid, &curr.provider_steamid) {
        prev
    } else {
        None
    };
    assert(own == previous_own(prev, *curr));
    let pk = match own { Some(p) => p.kills, None => None };
    push_stat_event(out, EventKind::PlayerKill, curr.kills, pk);
    let pa = match own { Some(p) => p.assists, None => None };
    push_stat_event(out, EventKind::PlayerAssist, curr.assists, pa);
    let pm = match own { Some(p) => p.mvps, None => None };
    push_stat_event(out, EventKind::PlayerMvp, curr.mvps, pm);
    push_health_event(out, own, curr);
    push_weapon_event(out, own, curr);
    push_team_event(out, own, curr);
    assert(out@ =~= old(out)@ + player_events(prev, *curr));
}

/// The events that the payload `curr` gives after `prev` (the previous
/// payload of the same match, if any).
pub fn extract(prev: Option<&GsiSnapshot>, curr: &GsiSnapshot) -> (res: Vec<GameEvent>)
    ensures
        res@ == events_between(prev, *curr),
{
    let mut out: Vec<GameEvent> = Vec::new();
    push_map_events(&mut out, prev, curr);
    push_phase_events(&mut out, prev, curr);
    if is_some_str(&curr.map_phase, "warmup") {
        assert(out@ =~= events_between(prev, *curr));
        return out;
    }
    push_round_events(&mut out, prev, curr);
    push_bomb_events(&mut out, prev, curr);
    push_score_events(&mut out, prev, curr);
    push_player_events(&mut out, prev, curr);
    assert(out@ =~= events_between(prev, *curr));
    out
}

// ---------------------------------------------------------------------------
// Condensed state (STATE_SYNC)
// ---------------------------------------------------------------------------

/// The player's own statistics, as sent in STATE_SYNC.
pub struct PlayerSync {
    pub steamid: Option<String>,
    pub name: Option<String>,
    pub team: Option<String>,
    pub health: Option<i64>,
    pub armor: Option<i64>,
    pub money: Option<i64>,
    pub kills: Option<i64>,
    pub assists: Option<i64>,
    pub deaths: Option<i64>,
    pub mvps: Option<i64>,
    pub score: Option<i64>,
}

/// The condensed state sent periodically, so that the backend can rebuild
/// the match state even after losing single events.
pub struct CondensedState {
    pub map: Option<String>,
    pub mode: Option<String>,
    pub map_phase: Option<String>,
    pub round_phase: Option<String>,
    pub round: Option<i64>,
    pub score_ct: Option<i64>,
    pub score_t: Option<i64>,
    /// `None` (sent as `null`) when the player block is a spectated teammate's.
    pub player: Option<PlayerSync>,
}

/// The condensed state of a payload.
pub open spec fn condensed_of(v: GsiSnapshot) -> CondensedState {
    CondensedState {
        map: v.map_name,
        mode: v.map_mode,
        map_phase: v.map_phase,
        round_phase: v.round_phase,
        round: v.map_round,
        score_ct: v.score_ct,
        score_t: v.score_t,
        player: if owns_player_block(v) {
            Some(PlayerSync {
                steamid: v.player_steamid,
                name: v.player_name,
                team: v.player_team,
                health: v.health,
                armor: v.armor,
                money: v.money,
                kills: v.kills,
                assists: v.assists,
                deaths: v.deaths,
                mvps: v.mvps,
                score: v.score,
            })
        } else {
            None
        },
    }
}

fn is_own(v: &GsiSnapshot) -> (res: bool)
    ensures
        res == owns_player_block(*v),
{
    match (&v.provider_steamid, &v.player_steamid) {
        (Some(owner), Some(pid)) => *owner == *pid,
        _ => false,
    }
}

/// The condensed state of a payload; the player's statistics only where the
/// player block is the owner's.
pub fn condensed(v: &GsiSnapshot) -> (res: CondensedState)
    ensures
        res == condensed_of(*v),
{
    let player = if is_own(v) {
        Some(PlayerSync {
            steamid: copy_opt(&v.player_steamid),
            name: copy_opt(&v.player_name),
            team: copy_opt(&v.player_team),
            health: v.health,
            armor: v.armor,
            money: v.money,
            kills: v.kills,
            assists: v.assists,
            deaths: v.deaths,
            mvps: v.mvps,
            score: v.score,
        })
    } else {
        None
    };
    CondensedState {
        map: copy_opt(&v.map_name),
        mode: copy_opt(&v.map_mode),
        map_phase: copy_opt(&v.map_phase),
        round_phase: copy_opt(&v.round_phase),
        round: v.map_round,
        score_ct: v.score_ct,
        score_t: v.score_t,
        player,
    }
}

// ---------------------------------------------------------------------------
// Laws
// ---------------------------------------------------------------------------

/// The kinds that concern the player of this machine.
pub open spec fn is_player_kind(k: EventKind) -> bool {
    match k {
        EventKind::PlayerKill | EventKind::PlayerAssist | EventKind::PlayerMvp
        | EventKind::PlayerDead | EventKind::PlayerAlive | EventKind::WeaponChange
        | EventKind::PlayerTeam => true,
        _ => false,
    }
}

/// The kinds that describe the map rather than the round or the player.
pub open spec fn is_map_kind(k: EventKind) -> bool {
    match k {
        EventKind::MapChange | EventKind::MapPhase | EventKind::GameOver => true,
        _ => false,
    }
}

/// Warmup does not count: during warmup only MAP_CHANGE, MAP_PHASE and
/// GAME_OVER are produced, whatever the payloads hold.
pub proof fn warmup_yields_only_map_events(prev: Option<&GsiSnapshot>, curr: GsiSnapshot)
    requires
        in_warmup(curr),
    ensures
        forall|i: int| 0 <= i < events_between(prev, curr).len()
            ==> is_map_kind(#[trigger] events_between(prev, curr)[i].kind),
{
    let m = map_events(prev, curr);
    let p = phase_events(prev, curr);
    assert(events_between(prev, curr) =~= m + p);
    assert forall|i: int| 0 <= i < (m + p).len() implies is_map_kind(#[trigger] (m + p)[i].kind) by {
        if i < m.len() {
        } else {
            assert((m + p)[i] == p[i - m.len()]);
        }
    }
}

/// Player events belong to the owner only: when the player block is not
/// the owner's (a spectated teammate after death), no player event at all.
pub proof fn spectated_player_yields_no_player_events(prev: Option<&GsiSnapshot>, curr: GsiSnapshot)
    requires
        !owns_player_block(curr),
    ensures
        forall|i: int| 0 <= i < events_between(prev, curr).len()
            ==> !is_player_kind(#[trigger] events_between(prev, curr)[i].kind),
{
    let m = map_events(prev, curr);
    let p = phase_events(prev, curr);
    let r = round_events(prev, curr);
    let b = bomb_events(prev, curr);
    let s = score_events(prev, curr);
    assert(player_events(prev, curr) =~= Seq::<GameEvent>::empty());
    let all = events_between(prev, curr);
    if in_warmup(curr) {
        assert(all =~= m + p);
    } else {
        assert(all =~= m + p + r + b + s);
    }
    assert forall|i: int| 0 <= i < all.len() implies !is_player_kind(#[trigger] all[i].kind) by {
        if in_warmup(curr) {
            if i >= m.len() { assert(all[i] == p[i - m.len()]); }
        } else {
            let mp = m + p;
            let mpr = mp + r;
            let mprb = mpr + b;
            if i < m.len() {
                assert(all[i] == m[i]);
            } else if i < mp.len() {
                assert(all[i] == p[i - m.len()]);
            } else if i < mpr.len() {
                assert(all[i] == r[i - mp.len()]);
            } else if i < mprb.len() {
                assert(all[i] == b[i - mpr.len()]);
            } else {
                assert(all[i] == s[i - mprb.len()]);
            }
        }
    }
}

/// The event data names the C4.
pub open spec fn names_c4(d: EventData) -> bool {
    match d {
        EventData::Weapon { weapon } => weapon@ == "weapon_c4"@,
        _ => false,
    }
}

/// A WEAPON_CHANGE event, if that is what `e` is, names the C4.
pub open spec fn c4_if_weapon_change(e: GameEvent) -> bool {
    e.kind == EventKind::WeaponChange ==> names_c4(e.data)
}

pub open spec fn all_c4_if_weapon_change(s: Seq<GameEvent>) -> bool {
    forall|i: int| 0 <= i < s.len() ==> c4_if_weapon_change(#[trigger] s[i])
}

proof fn lemma_all_c4_concat(a: Seq<GameEvent>, b: Seq<GameEvent>)
    requires
        all_c4_if_weapon_change(a),
        all_c4_if_weapon_change(b),
    ensures
        all_c4_if_weapon_change(a + b),
{
    assert forall|i: int| 0 <= i < (a + b).len() implies c4_if_weapon_change(#[trigger] (a + b)[i]) by {
        if i >= a.len() {
            assert((a + b)[i] == b[i - a.len()]);
        }
    }
}

/// Only the C4 leaves the machine as WEAPON_CHANGE: every WEAPON_CHANGE
/// event names `weapon_c4`.
pub proof fn weapon_change_is_only_c4(prev: Option<&GsiSnapshot>, curr: GsiSnapshot)
    ensures
        forall|i: int| 0 <= i < events_between(prev, curr).len()
            ==> c4_if_weapon_change(#[trigger] events_between(prev, curr)[i]),
{
    let m = map_events(prev, curr);
    let p = phase_events(prev, curr);
    let r = round_events(prev, curr);
    let b = bomb_events(prev, curr);
    let s = score_events(prev, curr);
    let pl = player_events(prev, curr);
    assert(all_c4_if_weapon_change(m));
    assert(all_c4_if_weapon_change(p));
    assert(all_c4_if_weapon_change(r));
    assert(all_c4_if_weapon_change(b));
    assert(all_c4_if_weapon_change(s));
    if owns_player_block(curr) {
        let own = previous_own(prev, curr);
        let k = stat_event(EventKind::PlayerKill, curr.kills, match own { Some(q) => q.kills, None => None });
        let a = stat_event(EventKind::PlayerAssist, curr.assists, match own { Some(q) => q.assists, None => None });
        let v = stat_event(EventKind::PlayerMvp, curr.mvps, match own { Some(q) => q.mvps, None => None });
        let h = health_events(match own { Some(q) => q.health, None => None }, curr);
        let w = weapon_events(own, curr);
        let t = team_events(own, curr);
        assert(all_c4_if_weapon_change(k));
        assert(all_c4_if_weapon_change(a));
        assert(all_c4_if_weapon_change(v));
        assert(all_c4_if_weapon_change(h));
        assert(all_c4_if_weapon_change(w));
        assert(all_c4_if_weapon_change(t));
        lemma_all_c4_concat(k, a);
        lemma_all_c4_concat(k + a, v);
        lemma_all_c4_concat(k + a + v, h);
        lemma_all_c4_concat(k + a + v + h, w);
        lemma_all_c4_concat(k + a + v + h + w, t);
        assert(pl == k + a + v + h + w + t);
    } else {
        assert(pl =~= Seq::<GameEvent>::empty());
    }
    assert(all_c4_if_weapon_change(pl));
    lemma_all_c4_concat(m, p);
    if in_warmup(curr) {
        assert(events_between(prev, curr) =~= m + p);
    } else {
        lemma_all_c4_concat(r, b);
        lemma_all_c4_concat(r + b, s);
        lemma_all_c4_concat(r + b + s, pl);
        lemma_all_c4_concat(m + p, r + b + s + pl);
        assert(events_between(prev, curr) == (m + p) + (r + b + s + pl));
    }
}

/// A payload that repeats the previous one (the heartbeat) produces no
/// event at all.
pub proof fn repeated_payload_yields_nothing(s: GsiSnapshot)
    ensures
        events_between(Some(&s), s) == Seq::<GameEvent>::empty(),
{
    let own = previous_own(Some(&s), s);
    if owns_player_block(s) {
        assert(own == Some(&s));
    }
    assert(events_between(Some(&s), s) =~= Seq::<GameEvent>::empty());
}

/// STATE_SYNC carries the player's statistics exactly when the player block
/// is the owner's.
pub proof fn condensed_player_only_when_own(v: GsiSnapshot)
    ensures
        condensed_of(v).player is Some <==> owns_player_block(v),
{
}

/// No event of kind `k` among `s`.
pub open spec fn kind_free(s: Seq<GameEvent>, k: EventKind) -> bool {
    forall|i: int| 0 <= i < s.len() ==> (#[trigger] s[i]).kind != k
}

proof fn lemma_kind_free_concat(a: Seq<GameEvent>, b: Seq<GameEvent>, k: EventKind)
    requires
        kind_free(a, k),
        kind_free(b, k),
    ensures
        kind_free(a + b, k),
{
    assert forall|i: int| 0 <= i < (a + b).len() implies (#[trigger] (a + b)[i]).kind != k by {
        if i >= a.len() {
            assert((a + b)[i] == b[i - a.len()]);
        }
    }
}

proof fn lemma_player_events_score_free(prev: Option<&GsiSnapshot>, curr: GsiSnapshot)
    ensures
        kind_free(player_events(prev, curr), EventKind::ScoreUpdate),
{
    if owns_player_block(curr) {
        let own = previous_own(prev, curr);
        let k = stat_event(EventKind::PlayerKill, curr.kills, match own { Some(q) => q.kills, None => None });
        let a = stat_event(EventKind::PlayerAssist, curr.assists, match own { Some(q) => q.assists, None => None });
        let v = stat_event(EventKind::PlayerMvp, curr.mvps, match own { Some(q) => q.mvps, None => None });
        let h = health_events(match own { Some(q) => q.health, None => None }, curr);
        let w = weapon_events(own, curr);
        let t = team_events(own, curr);
        assert(kind_free(k, EventKind::ScoreUpdate));
        assert(kind_free(a, EventKind::ScoreUpdate));
        assert(kind_free(v, EventKind::ScoreUpdate));
        assert(kind_free(h, EventKind::ScoreUpdate));
        assert(kind_free(w, EventKind::ScoreUpdate));
        assert(kind_free(t, EventKind::ScoreUpdate));
        lemma_kind_free_concat(k, a, EventKind::ScoreUpdate);
        lemma_kind_free_concat(k + a, v, EventKind::ScoreUpdate);
        lemma_kind_free_concat(k + a + v, h, EventKind::ScoreUpdate);
        lemma_kind_free_concat(k + a + v + h, w, EventKind::ScoreUpdate);
        lemma_kind_free_concat(k + a + v + h + w, t, EventKind::ScoreUpdate);
        assert(player_events(prev, curr) == k + a + v + h + w + t);
    } else {
        assert(player_events(prev, curr) =~= Seq::<GameEvent>::empty());
    }
}

/// The data of event `e` holds the values of the payload `curr` that its
/// kind reports, each under its own field.
pub open spec fn data_fits(e: GameEvent, curr: GsiSnapshot) -> bool {
    match e.kind {
        EventKind::MapChange => e.data == (EventData::MapInfo { map: curr.map_name, mode: curr.map_mode }),
        EventKind::MapPhase => e.data matches EventData::Phase { phase } && curr.map_phase == Some(phase),
        EventKind::GameOver | EventKind::ScoreUpdate => e.data == (EventData::Score {
            score_ct: curr.score_ct,
            score_t: curr.score_t,
        }),
        EventKind::Freezetime | EventKind::RoundStart => e.data == (EventData::Round {
            round: human_round(curr.map_round),
        }),
        EventKind::RoundEnd => e.data == (EventData::RoundEnd {
            round: curr.map_round,
            winner: curr.round_win_team,
            score_ct: curr.score_ct,
            score_t: curr.score_t,
        }),
        EventKind::BombPlanted | EventKind::BombDefused | EventKind::BombExploded
        | EventKind::PlayerAlive => e.data == EventData::Empty,
        EventKind::PlayerKill => e.data matches EventData::Counter { total, .. } && curr.kills == Some(total),
        EventKind::PlayerAssist => e.data matches EventData::Counter { total, .. } && curr.assists == Some(total),
        EventKind::PlayerMvp => e.data matches EventData::Counter { total, .. } && curr.mvps == Some(total),
        EventKind::PlayerDead => e.data == (EventData::Deaths { deaths: curr.deaths }),
        EventKind::WeaponChange => e.data matches EventData::Weapon { weapon } && curr.active_weapon == Some(weapon),
        EventKind::PlayerTeam => e.data matches EventData::Team { team } && curr.player_team == Some(team),
    }
}

pub open spec fn all_fit(s: Seq<GameEvent>, curr: GsiSnapshot) -> bool {
    forall|i: int| 0 <= i < s.len() ==> data_fits(#[trigger] s[i], curr)
}

proof fn lemma_all_fit_concat(a: Seq<GameEvent>, b: Seq<GameEvent>, curr: GsiSnapshot)
    requires
        all_fit(a, curr),
        all_fit(b, curr),
    ensures
        all_fit(a + b, curr),
{
    assert forall|i: int| 0 <= i < (a + b).len() implies data_fits(#[trigger] (a + b)[i], curr) by {
        if i >= a.len() {
            assert((a + b)[i] == b[i - a.len()]);
        }
    }
}

proof fn lemma_player_events_fit(prev: Option<&GsiSnapshot>, curr: GsiSnapshot)
    ensures
        all_fit(player_events(prev, curr), curr),
{
    if owns_player_block(curr) {
        let own = previous_own(prev, curr);
        let k = stat_event(EventKind::PlayerKill, curr.kills, match own { Some(q) => q.kills, None => None });
        let a = stat_event(EventKind::PlayerAssist, curr.assists, match own { Some(q) => q.assists, None => None });
        let v = stat_event(EventKind::PlayerMvp, curr.mvps, match own { Some(q) => q.mvps, None => None });
        let h = health_events(match own { Some(q) => q.health, None => None }, curr);
        let w = weapon_events(own, curr);
        let t = team_events(own, curr);
        assert(all_fit(k, curr));
        assert(all_fit(a, curr));
        assert(all_fit(v, curr));
        assert(all_fit(h, curr));
        assert(all_fit(w, curr));
        assert(all_fit(t, curr));
        lemma_all_fit_concat(k, a, curr);
        lemma_all_fit_concat(k + a, v, curr);
        lemma_all_fit_concat(k + a + v, h, curr);
        lemma_all_fit_concat(k + a + v + h, w, curr);
        lemma_all_fit_concat(k + a + v + h + w, t, curr);
        assert(player_events(prev, curr) == k + a + v + h + w + t);
    } else {
        assert(player_events(prev, curr) =~= Seq::<GameEvent>::empty());
    }
}

/// Every event reports the current payload under the right names: the
/// scores of SCORE_UPDATE, GAME_OVER and ROUND_END are the CT score as
/// `score_ct` and the T score as `score_t`, the round is the payload's, the
/// counters' totals are the player's current statistics, and so on.
#[verifier::rlimit(40)]
pub proof fn events_report_current_payload(prev: Option<&GsiSnapshot>, curr: GsiSnapshot)
    ensures
        forall|i: int| 0 <= i < events_between(prev, curr).len()
            ==> data_fits(#[trigger] events_between(prev, curr)[i], curr),
{
    let m = map_events(prev, curr);
    let p = phase_events(prev, curr);
    let r = round_events(prev, curr);
    let b = bomb_events(prev, curr);
    let s = score_events(prev, curr);
    let pl = player_events(prev, curr);
    assert(all_fit(m, curr));
    assert(all_fit(p, curr)) by {
        if curr.map_phase is Some {
            let ph = curr.map_phase->0;
            if ph@ == "gameover"@ && curr.map_phase.deep_view() != match prev { Some(q) => q.map_phase.deep_view(), None => None } {
                assert(p[1] == ev(EventKind::GameOver, EventData::Score { score_ct: curr.score_ct, score_t: curr.score_t }));
            }
        }
    }
    assert(all_fit(r, curr));
    assert(all_fit(b, curr));
    assert(all_fit(s, curr));
    lemma_player_events_fit(prev, curr);
    lemma_all_fit_concat(m, p, curr);
    if in_warmup(curr) {
        assert(events_between(prev, curr) =~= m + p);
    } else {
        lemma_all_fit_concat(r, b, curr);
        lemma_all_fit_concat(r + b, s, curr);
        lemma_all_fit_concat(r + b + s, pl, curr);
        lemma_all_fit_concat(m + p, r + b + s + pl, curr);
        assert(events_between(prev, curr) == (m + p) + (r + b + s + pl));
    }
}

/// In `pre + mid + post`, where neither `pre` nor `post` holds an event of
/// kind `k`, every event of kind `k` stands in `mid`, at its own place.
proof fn lemma_kind_only_in_middle(pre: Seq<GameEvent>, mid: Seq<GameEvent>, post: Seq<GameEvent>, k: EventKind)
    requires
        kind_free(pre, k),
        kind_free(post, k),
    ensures
        forall|i: int|
            0 <= i < (pre + mid + post).len() && (#[trigger] (pre + mid + post)[i]).kind == k
                ==> pre.len() <= i < pre.len() + mid.len() && (pre + mid + post)[i] == mid[i - pre.len()],
        forall|j: int| 0 <= j < mid.len() ==> (pre + mid + post)[pre.len() + j] == #[trigger] mid[j],
{
    let all = pre + mid + post;
    assert forall|i: int| 0 <= i < all.len() && (#[trigger] all[i]).kind == k implies
        pre.len() <= i < pre.len() + mid.len() && all[i] == mid[i - pre.len()] by {
        if i < pre.len() {
            assert(all[i] == pre[i]);
        } else if i >= pre.len() + mid.len() {
            assert(all[i] == post[i - pre.len() - mid.len()]);
        }
    }
}

/// Outside warmup, the events of a payload are those before SCORE_UPDATE
/// (none of which is one), then the score events, then the player's events.
proof fn lemma_score_events_place(prev: Option<&GsiSnapshot>, curr: GsiSnapshot) -> (pre: Seq<GameEvent>)
    requires
        !in_warmup(curr),
    ensures
        events_between(prev, curr) == pre + score_events(prev, curr) + player_events(prev, curr),
        kind_free(pre, EventKind::ScoreUpdate),
        kind_free(player_events(prev, curr), EventKind::ScoreUpdate),
{
    let m = map_events(prev, curr);
    let ph = phase_events(prev, curr);
    let r = round_events(prev, curr);
    let b = bomb_events(prev, curr);
    assert(kind_free(m, EventKind::ScoreUpdate));
    assert(kind_free(ph, EventKind::ScoreUpdate));
    assert(kind_free(r, EventKind::ScoreUpdate));
    assert(kind_free(b, EventKind::ScoreUpdate));
    lemma_player_events_score_free(prev, curr);
    lemma_kind_free_concat(m, ph, EventKind::ScoreUpdate);
    lemma_kind_free_concat(m + ph, r, EventKind::ScoreUpdate);
    lemma_kind_free_concat(m + ph + r, b, EventKind::ScoreUpdate);
    let pre = m + ph + r + b;
    assert(events_between(prev, curr) =~= pre + score_events(prev, curr) + player_events(prev, curr));
    pre
}

/// The score is the pair of both sides: after a previous payload `p`, and
/// outside warmup, a payload that has the CT score gives SCORE_UPDATE exactly
/// when the CT score or the T score changed (a round won by either side), and
/// that event carries the current CT score as `score_ct` and the current T
/// score as `score_t`.
#[verifier::rlimit(40)]
pub proof fn score_update_follows_both_scores(p: GsiSnapshot, curr: GsiSnapshot)
    requires
        curr.score_ct is Some,
        curr.map_phase.deep_view() != Some("warmup"@),
    ensures
        (exists|i: int|
            0 <= i < events_between(Some(&p), curr).len()
                && (#[trigger] events_between(Some(&p), curr)[i]).kind == EventKind::ScoreUpdate)
            <==> (curr.score_ct != p.score_ct || curr.score_t != p.score_t),
        forall|i: int|
            0 <= i < events_between(Some(&p), curr).len()
                && (#[trigger] events_between(Some(&p), curr)[i]).kind == EventKind::ScoreUpdate
                ==> events_between(Some(&p), curr)[i].data == (EventData::Score {
                score_ct: curr.score_ct,
                score_t: curr.score_t,
            }),
{
    let prev = Some(&p);
    let evs = events_between(prev, curr);
    let sc = score_events(prev, curr);
    let pl = player_events(prev, curr);
    let pre = lemma_score_events_place(prev, curr);
    lemma_kind_only_in_middle(pre, sc, pl, EventKind::ScoreUpdate);
    let changed = curr.score_ct != p.score_ct || curr.score_t != p.score_t;
    let upd = ev(EventKind::ScoreUpdate, EventData::Score { score_ct: curr.score_ct, score_t: curr.score_t });
    if changed {
        assert(sc == seq![upd]);
        assert(evs[pre.len() + 0int] == sc[0]);
    } else {
        assert(sc =~= Seq::<GameEvent>::empty());
    }
}

/// STATE_SYNC keeps each value under its own name: the CT score is the one
/// read at `/map/team_ct/score`, the T score the one at `/map/team_t/score`,
/// and likewise for the map, mode, phases and round.
pub proof fn condensed_keeps_fields(v: GsiSnapshot, text: Seq<char>)
    ensures
        condensed_of(v).score_ct == v.score_ct,
        condensed_of(v).score_t == v.score_t,
        condensed_of(v).round == v.map_round,
        condensed_of(v).map == v.map_name,
        condensed_of(v).mode == v.map_mode,
        condensed_of(v).map_phase == v.map_phase,
        condensed_of(v).round_phase == v.round_phase,
        snapshot_of(v, text) ==> {
            &&& condensed_of(v).score_ct == json_i64_at(text, "/map/team_ct/score"@)
            &&& condensed_of(v).score_t == json_i64_at(text, "/map/team_t/score"@)
            &&& condensed_of(v).round == json_i64_at(text, "/map/round"@)
            &&& condensed_of(v).map.deep_view() == json_str_at(text, "/map/name"@)
        },
        condensed_of(v).player matches Some(pl) ==> {
            &&& pl.kills == v.kills && pl.assists == v.assists && pl.deaths == v.deaths
            &&& pl.mvps == v.mvps && pl.score == v.score && pl.health == v.health
            &&& pl.armor == v.armor && pl.money == v.money
            &&& pl.steamid == v.player_steamid && pl.name == v.player_name && pl.team == v.player_team
        },
{
}

/// Some event of kind `k` is among `s`.
pub open spec fn has_kind(s: Seq<GameEvent>, k: EventKind) -> bool {
    exists|i: int| 0 <= i < s.len() && (#[trigger] s[i]).kind == k
}

proof fn lemma_has_kind_concat(a: Seq<GameEvent>, b: Seq<GameEvent>, k: EventKind)
    ensures
        has_kind(a + b, k) <==> (has_kind(a, k) || has_kind(b, k)),
{
    if has_kind(a + b, k) {
        let i = choose|i: int| 0 <= i < (a + b).len() && (#[trigger] (a + b)[i]).kind == k;
        if i < a.len() {
            assert(a[i] == (a + b)[i]);
        } else {
            assert(b[i - a.len()] == (a + b)[i]);
        }
    }
    if has_kind(a, k) {
        let i = choose|i: int| 0 <= i < a.len() && (#[trigger] a[i]).kind == k;
        assert((a + b)[i] == a[i]);
    }
    if has_kind(b, k) {
        let j = choose|j: int| 0 <= j < b.len() && (#[trigger] b[j]).kind == k;
        assert((a + b)[a.len() + j] == b[j]);
    }
}

/// For at most two events, whether one is of kind `k` is read off directly.
proof fn lemma_has_kind_small(s: Seq<GameEvent>, k: EventKind)
    requires
        s.len() <= 2,
    ensures
        has_kind(s, k) <==> ((s.len() >= 1 && s[0].kind == k) || (s.len() == 2 && s[1].kind == k)),
{
    if s.len() >= 1 && s[0].kind == k {
        assert(has_kind(s, k));
    }
    if s.len() == 2 && s[1].kind == k {
        assert(has_kind(s, k));
    }
}

/// Whether an event of kind `k` comes out, piece by piece.
#[verifier::rlimit(40)]
proof fn lemma_kind_pieces(prev: Option<&GsiSnapshot>, curr: GsiSnapshot, k: EventKind)
    ensures
        has_kind(events_between(prev, curr), k) <==> {
            ||| has_kind(map_events(prev, curr), k)
            ||| has_kind(phase_events(prev, curr), k)
            ||| !in_warmup(curr) && has_kind(round_events(prev, curr), k)
            ||| !in_warmup(curr) && has_kind(bomb_events(prev, curr), k)
            ||| !in_warmup(curr) && has_kind(score_events(prev, curr), k)
            ||| !in_warmup(curr) && has_kind(player_events(prev, curr), k)
        },
        has_kind(map_events(prev, curr), k) <==> (map_events(prev, curr).len() == 1 && map_events(prev, curr)[0].kind == k),
        has_kind(phase_events(prev, curr), k) <==> ((phase_events(prev, curr).len() >= 1 && phase_events(prev, curr)[0].kind == k)
            || (phase_events(prev, curr).len() == 2 && phase_events(prev, curr)[1].kind == k)),
        has_kind(round_events(prev, curr), k) <==> (round_events(prev, curr).len() == 1 && round_events(prev, curr)[0].kind == k),
        has_kind(bomb_events(prev, curr), k) <==> (bomb_events(prev, curr).len() == 1 && bomb_events(prev, curr)[0].kind == k),
        has_kind(score_events(prev, curr), k) <==> (score_events(prev, curr).len() == 1 && score_events(prev, curr)[0].kind == k),
{
    let m = map_events(prev, curr);
    let p = phase_events(prev, curr);
    let r = round_events(prev, curr);
    let b = bomb_events(prev, curr);
    let s = score_events(prev, curr);
    let pl = player_events(prev, curr);
    lemma_has_kind_small(m, k);
    lemma_has_kind_small(p, k);
    lemma_has_kind_small(r, k);
    lemma_has_kind_small(b, k);
    lemma_has_kind_small(s, k);
    lemma_has_kind_concat(m, p, k);
    if in_warmup(curr) {
        assert(events_between(prev, curr) =~= m + p);
    } else {
        lemma_has_kind_concat(r, b, k);
        lemma_has_kind_concat(r + b, s, k);
        lemma_has_kind_concat(r + b + s, pl, k);
        lemma_has_kind_concat(m + p, r + b + s + pl, k);
        assert(events_between(prev, curr) == (m + p) + (r + b + s + pl));
    }
}

/// Map-level events follow the map: MAP_CHANGE exactly when the map name is
/// present and differs from the previous one, MAP_PHASE exactly when the map
/// phase is present and changed, GAME_OVER exactly when it changed to
/// `gameover`; warmup or not.
#[verifier::rlimit(40)]
pub proof fn map_events_follow_changes(prev: Option<&GsiSnapshot>, curr: GsiSnapshot)
    ensures
        has_kind(events_between(prev, curr), EventKind::MapChange) <==> (curr.map_name is Some
            && curr.map_name.deep_view() != match prev { Some(q) => q.map_name.deep_view(), None => None }),
        has_kind(events_between(prev, curr), EventKind::MapPhase) <==> (curr.map_phase is Some
            && curr.map_phase.deep_view() != match prev { Some(q) => q.map_phase.deep_view(), None => None }),
        has_kind(events_between(prev, curr), EventKind::GameOver) <==> (curr.map_phase.deep_view() == Some("gameover"@)
            && curr.map_phase.deep_view() != match prev { Some(q) => q.map_phase.deep_view(), None => None }),
{
    reveal_strlit("gameover");
    let m = map_events(prev, curr);
    let p = phase_events(prev, curr);
    lemma_map_kind(prev, curr, EventKind::MapChange);
    lemma_map_kind(prev, curr, EventKind::MapPhase);
    lemma_map_kind(prev, curr, EventKind::GameOver);
    lemma_has_kind_small(m, EventKind::MapChange);
    lemma_has_kind_small(m, EventKind::MapPhase);
    lemma_has_kind_small(m, EventKind::GameOver);
    lemma_has_kind_small(p, EventKind::MapChange);
    lemma_has_kind_small(p, EventKind::MapPhase);
    lemma_has_kind_small(p, EventKind::GameOver);
}

/// A map kind comes only from the map and phase pieces.
#[verifier::rlimit(40)]
proof fn lemma_map_kind(prev: Option<&GsiSnapshot>, curr: GsiSnapshot, k: EventKind)
    requires
        is_map_kind(k),
    ensures
        has_kind(events_between(prev, curr), k) <==> (has_kind(map_events(prev, curr), k) || has_kind(phase_events(prev, curr), k)),
{
    let m = map_events(prev, curr);
    let ph = phase_events(prev, curr);
    let r = round_events(prev, curr);
    let b = bomb_events(prev, curr);
    let sc = score_events(prev, curr);
    let pl = player_events(prev, curr);
    lemma_has_kind_concat(m, ph, k);
    if in_warmup(curr) {
        assert(events_between(prev, curr) =~= m + ph);
    } else {
        assert(kind_free(r, k));
        assert(kind_free(b, k));
        assert(kind_free(sc, k));
        lemma_kind_free_concat(r, b, k);
        lemma_kind_free_concat(r + b, sc, k);
        lemma_player_events_kinds(prev, curr, k);
        let rest = r + b + sc;
        assert(events_between(prev, curr) =~= (m + ph) + (rest + pl));
        lemma_has_kind_concat(rest, pl, k);
        lemma_has_kind_concat(m + ph, rest + pl, k);
        if has_kind(rest, k) {
            let i = choose|i: int| 0 <= i < rest.len() && (#[trigger] rest[i]).kind == k;
        }
    }
}

/// Whether a player event of kind `k` comes out, piece by piece.
#[verifier::rlimit(40)]
proof fn lemma_player_pieces(prev: Option<&GsiSnapshot>, curr: GsiSnapshot, k: EventKind)
    ensures
        has_kind(player_events(prev, curr), k) <==> owns_player_block(curr) && {
            let own = previous_own(prev, curr);
            let kp = stat_event(EventKind::PlayerKill, curr.kills, match own { Some(q) => q.kills, None => None });
            let ap = stat_event(EventKind::PlayerAssist, curr.assists, match own { Some(q) => q.assists, None => None });
            let vp = stat_event(EventKind::PlayerMvp, curr.mvps, match own { Some(q) => q.mvps, None => None });
            let hp = health_events(match own { Some(q) => q.health, None => None }, curr);
            let wp = weapon_events(own, curr);
            let tp = team_events(own, curr);
            ||| kp.len() == 1 && kp[0].kind == k
            ||| ap.len() == 1 && ap[0].kind == k
            ||| vp.len() == 1 && vp[0].kind == k
            ||| hp.len() == 1 && hp[0].kind == k
            ||| wp.len() == 1 && wp[0].kind == k
            ||| tp.len() == 1 && tp[0].kind == k
        },
{
    if owns_player_block(curr) {
        let own = previous_own(prev, curr);
        let kp = stat_event(EventKind::PlayerKill, curr.kills, match own { Some(q) => q.kills, None => None });
        let ap = stat_event(EventKind::PlayerAssist, curr.assists, match own { Some(q) => q.assists, None => None });
        let vp = stat_event(EventKind::PlayerMvp, curr.mvps, match own { Some(q) => q.mvps, None => None });
        let hp = health_events(match own { Some(q) => q.health, None => None }, curr);
        let wp = weapon_events(own, curr);
        let tp = team_events(own, curr);
        lemma_has_kind_small(kp, k);
        lemma_has_kind_small(ap, k);
        lemma_has_kind_small(vp, k);
        lemma_has_kind_small(hp, k);
        lemma_has_kind_small(wp, k);
        lemma_has_kind_small(tp, k);
        lemma_has_kind_concat(kp, ap, k);
        lemma_has_kind_concat(kp + ap, vp, k);
        lemma_has_kind_concat(kp + ap + vp, hp, k);
        lemma_has_kind_concat(kp + ap + vp + hp, wp, k);
        lemma_has_kind_concat(kp + ap + vp + hp + wp, tp, k);
        assert(player_events(prev, curr) == kp + ap + vp + hp + wp + tp);
    } else {
        assert(player_events(prev, curr) =~= Seq::<GameEvent>::empty());
    }
}

/// The player's events are player kinds only.
proof fn lemma_player_events_kinds(prev: Option<&GsiSnapshot>, curr: GsiSnapshot, k: EventKind)
    requires
        !is_player_kind(k),
    ensures
        !has_kind(player_events(prev, curr), k),
{
    lemma_player_pieces(prev, curr, k);
}

/// Round and bomb events follow their state, outside warmup: FREEZETIME,
/// ROUND_START and ROUND_END exactly when the round phase changed to
/// `freezetime`, `live` and `over`; BOMB_PLANTED, BOMB_DEFUSED and
/// BOMB_EXPLODED exactly when the bomb changed to `planted`, `defused` and
/// `exploded`.
#[verifier::rlimit(40)]
pub proof fn round_and_bomb_events_follow_changes(prev: Option<&GsiSnapshot>, curr: GsiSnapshot)
    requires
        !in_warmup(curr),
    ensures
        has_kind(events_between(prev, curr), EventKind::Freezetime) <==> (curr.round_phase.deep_view() == Some("freezetime"@)
            && curr.round_phase.deep_view() != match prev { Some(q) => q.round_phase.deep_view(), None => None }),
        has_kind(events_between(prev, curr), EventKind::RoundStart) <==> (curr.round_phase.deep_view() == Some("live"@)
            && curr.round_phase.deep_view() != match prev { Some(q) => q.round_phase.deep_view(), None => None }),
        has_kind(events_between(prev, curr), EventKind::RoundEnd) <==> (curr.round_phase.deep_view() == Some("over"@)
            && curr.round_phase.deep_view() != match prev { Some(q) => q.round_phase.deep_view(), None => None }),
        has_kind(events_between(prev, curr), EventKind::BombPlanted) <==> (curr.round_bomb.deep_view() == Some("planted"@)
            && curr.round_bomb.deep_view() != match prev { Some(q) => q.round_bomb.deep_view(), None => None }),
        has_kind(events_between(prev, curr), EventKind::BombDefused) <==> (curr.round_bomb.deep_view() == Some("defused"@)
            && curr.round_bomb.deep_view() != match prev { Some(q) => q.round_bomb.deep_view(), None => None }),
        has_kind(events_between(prev, curr), EventKind::BombExploded) <==> (curr.round_bomb.deep_view() == Some("exploded"@)
            && curr.round_bomb.deep_view() != match prev { Some(q) => q.round_bomb.deep_view(), None => None }),
{
    reveal_strlit("freezetime");
    reveal_strlit("live");
    reveal_strlit("over");
    reveal_strlit("planted");
    reveal_strlit("defused");
    reveal_strlit("exploded");
    assert("live"@ != "freezetime"@) by {
        assert("live"@.len() != "freezetime"@.len());
    }
    assert("over"@ != "freezetime"@) by {
        assert("over"@.len() != "freezetime"@.len());
    }
    assert("over"@ != "live"@) by {
        assert("over"@[0] != "live"@[0]);
    }
    assert("exploded"@ != "planted"@) by {
        assert("exploded"@.len() != "planted"@.len());
    }
    assert("exploded"@ != "defused"@) by {
        assert("exploded"@.len() != "defused"@.len());
    }
    assert("defused"@ != "planted"@) by {
        assert("defused"@[0] != "planted"@[0]);
    }
    lemma_round_kind(prev, curr, EventKind::Freezetime);
    lemma_round_kind(prev, curr, EventKind::RoundStart);
    lemma_round_kind(prev, curr, EventKind::RoundEnd);
    lemma_round_kind(prev, curr, EventKind::BombPlanted);
    lemma_round_kind(prev, curr, EventKind::BombDefused);
    lemma_round_kind(prev, curr, EventKind::BombExploded);
}

/// A round or bomb kind comes only from the round and bomb pieces.
proof fn lemma_round_kind(prev: Option<&GsiSnapshot>, curr: GsiSnapshot, k: EventKind)
    requires
        !in_warmup(curr),
        !is_player_kind(k),
        !is_map_kind(k),
        k != EventKind::ScoreUpdate,
    ensures
        has_kind(events_between(prev, curr), k) <==> (has_kind(round_events(prev, curr), k) || has_kind(bomb_events(prev, curr), k)),
        has_kind(round_events(prev, curr), k) <==> (round_events(prev, curr).len() == 1 && round_events(prev, curr)[0].kind == k),
        has_kind(bomb_events(prev, curr), k) <==> (bomb_events(prev, curr).len() == 1 && bomb_events(prev, curr)[0].kind == k),
{
    lemma_kind_pieces(prev, curr, k);
    lemma_player_events_kinds(prev, curr, k);
}

/// The previous payload, where it was the owner's too.
pub open spec fn owner_before(prev: Option<&GsiSnapshot>, curr: GsiSnapshot) -> Option<GsiSnapshot> {
    match prev {
        Some(q) => if q.player_steamid.deep_view() == curr.provider_steamid.deep_view() {
            Some(*q)
        } else {
            None
        },
        None => None,
    }
}

/// A statistic that is known now and before, and is larger now.
pub open spec fn grew(now: Option<i64>, before: Option<i64>) -> bool {
    now is Some && before is Some && now->0 > before->0
}

/// The owner's events follow the owner's statistics, outside warmup and
/// against the previous payload only where it was the owner's too:
/// PLAYER_KILL, PLAYER_ASSIST and PLAYER_MVP exactly when the count grew;
/// PLAYER_DEAD exactly when health fell from above zero to zero and
/// PLAYER_ALIVE when it rose from zero; WEAPON_CHANGE exactly when the C4
/// became the active weapon; PLAYER_TEAM exactly when the side changed.
#[verifier::rlimit(40)]
pub proof fn player_events_follow_changes(prev: Option<&GsiSnapshot>, curr: GsiSnapshot)
    requires
        !in_warmup(curr),
        owns_player_block(curr),
    ensures
        has_kind(events_between(prev, curr), EventKind::PlayerKill) <==> (owner_before(prev, curr) is Some
            && grew(curr.kills, owner_before(prev, curr)->0.kills)),
        has_kind(events_between(prev, curr), EventKind::PlayerAssist) <==> (owner_before(prev, curr) is Some
            && grew(curr.assists, owner_before(prev, curr)->0.assists)),
        has_kind(events_between(prev, curr), EventKind::PlayerMvp) <==> (owner_before(prev, curr) is Some
            && grew(curr.mvps, owner_before(prev, curr)->0.mvps)),
        has_kind(events_between(prev, curr), EventKind::PlayerDead) <==> (owner_before(prev, curr) is Some
            && owner_before(prev, curr)->0.health is Some && curr.health is Some
            && owner_before(prev, curr)->0.health->0 > 0 && curr.health->0 == 0),
        has_kind(events_between(prev, curr), EventKind::PlayerAlive) <==> (owner_before(prev, curr) is Some
            && owner_before(prev, curr)->0.health is Some && curr.health is Some
            && owner_before(prev, curr)->0.health->0 == 0 && curr.health->0 > 0),
        has_kind(events_between(prev, curr), EventKind::WeaponChange) <==> (curr.active_weapon.deep_view() == Some("weapon_c4"@)
            && (owner_before(prev, curr) is None
                || curr.active_weapon.deep_view() != owner_before(prev, curr)->0.active_weapon.deep_view())),
        has_kind(events_between(prev, curr), EventKind::PlayerTeam) <==> (owner_before(prev, curr) is Some
            && curr.player_team is Some
            && curr.player_team.deep_view() != owner_before(prev, curr)->0.player_team.deep_view()),
{
    lemma_player_kind(prev, curr, EventKind::PlayerKill);
    lemma_player_pieces(prev, curr, EventKind::PlayerKill);
    lemma_player_kind(prev, curr, EventKind::PlayerAssist);
    lemma_player_pieces(prev, curr, EventKind::PlayerAssist);
    lemma_player_kind(prev, curr, EventKind::PlayerMvp);
    lemma_player_pieces(prev, curr, EventKind::PlayerMvp);
    lemma_player_kind(prev, curr, EventKind::PlayerDead);
    lemma_player_pieces(prev, curr, EventKind::PlayerDead);
    lemma_player_kind(prev, curr, EventKind::PlayerAlive);
    lemma_player_pieces(prev, curr, EventKind::PlayerAlive);
    lemma_player_kind(prev, curr, EventKind::WeaponChange);
    lemma_player_pieces(prev, curr, EventKind::WeaponChange);
    lemma_player_kind(prev, curr, EventKind::PlayerTeam);
    lemma_player_pieces(prev, curr, EventKind::PlayerTeam);
}

/// A player kind comes only from the player's pieces.
#[verifier::rlimit(40)]
proof fn lemma_player_kind(prev: Option<&GsiSnapshot>, curr: GsiSnapshot, k: EventKind)
    requires
        !in_warmup(curr),
        is_player_kind(k),
    ensures
        has_kind(events_between(prev, curr), k) <==> has_kind(player_events(prev, curr), k),
{
    let m = map_events(prev, curr);
    let ph = phase_events(prev, curr);
    let r = round_events(prev, curr);
    let b = bomb_events(prev, curr);
    let sc = score_events(prev, curr);
    let pl = player_events(prev, curr);
    assert(kind_free(m, k));
    assert(kind_free(ph, k));
    assert(kind_free(r, k));
    assert(kind_free(b, k));
    assert(kind_free(sc, k));
    lemma_kind_free_concat(m, ph, k);
    lemma_kind_free_concat(m + ph, r, k);
    lemma_kind_free_concat(m + ph + r, b, k);
    lemma_kind_free_concat(m + ph + r + b, sc, k);
    let pre = m + ph + r + b + sc;
    assert(events_between(prev, curr) =~= pre + pl);
    lemma_has_kind_concat(pre, pl, k);
    if has_kind(pre, k) {
        let i = choose|i: int| 0 <= i < pre.len() && (#[trigger] pre[i]).kind == k;
    }
}

} // verus!
