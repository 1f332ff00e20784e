use resenha_client::events::{CondensedState, EventData, EventKind, GameEvent, PlayerSync};
use resenha_client::state::OutMessage;
use resenha_client::wire::to_json;

#[test]
fn simple_messages() {
    assert_eq!(to_json(&OutMessage::Pong), r#"{"type":"PONG"}"#);
    assert_eq!(to_json(&OutMessage::MatchEndedAck), r#"{"type":"MATCH_ENDED_ACK"}"#);
    assert_eq!(to_json(&OutMessage::MatchAck { match_id: 52 }), r#"{"matchId":52,"type":"MATCH_ACK"}"#);
    assert_eq!(
        to_json(&OutMessage::Hello { version: "0.3.0".to_string() }),
        r#"{"client":"resenha-client","type":"HELLO","version":"0.3.0"}"#
    );
}

#[test]
fn event_messages_carry_the_envelope() {
    let ev = GameEvent {
        kind: EventKind::RoundEnd,
        data: EventData::RoundEnd {
            round: Some(7),
            winner: Some("CT".to_string()),
            score_ct: Some(5),
            score_t: None,
        },
    };
    assert_eq!(
        to_json(&OutMessage::Event { event: ev, match_id: -3, timestamp: 1_700_000_000_123 }),
        r#"{"data":{"round":7,"score_ct":5,"score_t":null,"winner":"CT"},"matchId":-3,"timestamp":1700000000123,"type":"ROUND_END"}"#
    );
    let kill = GameEvent { kind: EventKind::PlayerKill, data: EventData::Counter { total: 5, delta: 2 } };
    assert_eq!(
        to_json(&OutMessage::Event { event: kill, match_id: i64::MIN, timestamp: 0 }),
        r#"{"data":{"delta":2,"total":5},"matchId":-9223372036854775808,"timestamp":0,"type":"PLAYER_KILL"}"#
    );
    let map = GameEvent {
        kind: EventKind::MapChange,
        data: EventData::MapInfo { map: Some("de_\"x\"".to_string()), mode: None },
    };
    assert_eq!(
        to_json(&OutMessage::Event { event: map, match_id: 1, timestamp: 2 }),
        r#"{"data":{"map":"de_\"x\"","mode":null},"matchId":1,"timestamp":2,"type":"MAP_CHANGE"}"#
    );
}

#[test]
fn state_sync_message() {
    let data = CondensedState {
        map: Some("de_mirage".to_string()),
        mode: None,
        map_phase: Some("live".to_string()),
        round_phase: None,
        round: Some(7),
        score_ct: Some(5),
        score_t: Some(3),
        player: Some(PlayerSync {
            steamid: Some("1".to_string()),
            name: None,
            team: Some("CT".to_string()),
            health: Some(100),
            armor: None,
            money: Some(800),
            kills: Some(9),
            assists: Some(2),
            deaths: Some(6),
            mvps: Some(1),
            score: None,
        }),
    };
    assert_eq!(
        to_json(&OutMessage::StateSync { match_id: 52, timestamp: 9, data }),
        [
            r#"{"data":{"map":"de_mirage","map_phase":"live","mode":null,"player":{"armor":null,"assists":2,"#,
            r#""deaths":6,"health":100,"kills":9,"money":800,"mvps":1,"name":null,"score":null,"steamid":"1","#,
            r#""team":"CT"},"round":7,"round_phase":null,"score_ct":5,"score_t":3},"matchId":52,"timestamp":9,"#,
            r#""type":"STATE_SYNC"}"#,
        ]
        .concat()
    );
    let spectating = CondensedState {
        map: None, mode: None, map_phase: None, round_phase: None, round: None,
        score_ct: None, score_t: None, player: None,
    };
    assert_eq!(
        to_json(&OutMessage::StateSync { match_id: 1, timestamp: 1, data: spectating }),
        r#"{"data":{"map":null,"map_phase":null,"mode":null,"player":null,"round":null,"round_phase":null,"score_ct":null,"score_t":null},"matchId":1,"timestamp":1,"type":"STATE_SYNC"}"#
    );
}
