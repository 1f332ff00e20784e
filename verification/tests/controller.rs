use resenha_client::events::EventKind;
use resenha_client::state::{GsiReply, MatchController, OutMessage};
use resenha_client::update::UpdateInfo;
use resenha_client::ws::{handle_server_message, parse_server_message, ServerCommand};

const TOKEN: &str = "segredo";

fn post(round_phase: &str, token: &str) -> String {
    format!(
        r#"{{ "auth": {{ "token": "{token}" }},
              "map": {{ "name": "de_mirage", "phase": "live", "round": 2 }},
              "round": {{ "phase": "{round_phase}" }} }}"#
    )
}

#[test]
fn malformed_post_is_400() {
    let mut c = MatchController::new();
    let (reply, out) = c.handle_gsi("isso não é json", TOKEN, 0, 0);
    assert_eq!(reply, GsiReply::Malformed);
    assert_eq!(reply.status_code(), 400);
    assert!(out.is_empty());
}

#[test]
fn wrong_token_is_401_and_changes_nothing() {
    let mut c = MatchController::new();
    c.start_match(52);
    let (reply, out) = c.handle_gsi(&post("live", "outro"), TOKEN, 0, 0);
    assert_eq!(reply, GsiReply::Unauthorized);
    assert_eq!(reply.status_code(), 401);
    assert!(out.is_empty());
    assert!(c.last_snapshot.is_none());
    let (reply, _) = c.handle_gsi(r#"{ "map": {} }"#, TOKEN, 0, 0);
    assert_eq!(reply, GsiReply::Unauthorized);
}

#[test]
fn standby_drops_everything() {
    let mut c = MatchController::new();
    let (reply, out) = c.handle_gsi(&post("live", TOKEN), TOKEN, 0, 0);
    assert_eq!(reply, GsiReply::Accepted);
    assert_eq!(reply.status_code(), 200);
    assert!(out.is_empty());
    assert!(c.last_snapshot.is_none());
}

#[test]
fn active_match_sends_events_and_state_sync() {
    let mut c = MatchController::new();
    let ack = c.start_match(52);
    assert!(matches!(ack.as_slice(), [OutMessage::MatchAck { match_id: 52 }]));

    let (reply, out) = c.handle_gsi(&post("freezetime", TOKEN), TOKEN, 1_000, 1_700_000_000_000);
    assert_eq!(reply, GsiReply::Accepted);
    let tipos: Vec<&str> = out
        .iter()
        .map(|m| match m {
            OutMessage::Event { event, match_id, timestamp } => {
                assert_eq!((*match_id, *timestamp), (52, 1_700_000_000_000));
                event.kind.name()
            }
            OutMessage::StateSync { match_id, .. } => {
                assert_eq!(*match_id, 52);
                "STATE_SYNC"
            }
            _ => "?",
        })
        .collect();
    assert_eq!(tipos, vec!["MAP_CHANGE", "MAP_PHASE", "FREEZETIME", "STATE_SYNC"]);
    assert_eq!(c.last_sync_ms, Some(1_000));

    // Five seconds later: a round starts, but no STATE_SYNC yet.
    let (_, out) = c.handle_gsi(&post("live", TOKEN), TOKEN, 6_000, 0);
    assert_eq!(out.len(), 1);
    assert!(matches!(&out[0], OutMessage::Event { event, .. } if event.kind == EventKind::RoundStart));

    // Ten seconds after the first sync: the next one goes out.
    let (_, out) = c.handle_gsi(&post("live", TOKEN), TOKEN, 11_000, 0);
    assert_eq!(out.len(), 1);
    assert!(matches!(&out[0], OutMessage::StateSync { .. }));
    assert_eq!(c.last_sync_ms, Some(11_000));
}

#[test]
fn no_state_sync_without_map_block() {
    let mut c = MatchController::new();
    c.start_match(1);
    let body = format!(r#"{{ "auth": {{ "token": "{TOKEN}" }}, "provider": {{ "steamid": "1" }} }}"#);
    let (_, out) = c.handle_gsi(&body, TOKEN, 50_000, 0);
    assert!(out.is_empty());
    assert_eq!(c.last_sync_ms, None);
}

#[test]
fn end_match_stops_collection() {
    let mut c = MatchController::new();
    c.start_match(7);
    c.handle_gsi(&post("live", TOKEN), TOKEN, 0, 0);
    let (ended, ack) = c.end_match();
    assert_eq!(ended, Some(7));
    assert!(matches!(ack.as_slice(), [OutMessage::MatchEndedAck]));
    assert!(c.last_snapshot.is_none() && c.last_sync_ms.is_none());
    let (reply, out) = c.handle_gsi(&post("over", TOKEN), TOKEN, 99_000, 0);
    assert_eq!(reply, GsiReply::Accepted);
    assert!(out.is_empty());
}

#[test]
fn pending_update_blocks_collection() {
    let mut c = MatchController::new();
    c.start_match(3);
    let changed = c.set_update_required(Some(UpdateInfo {
        latest: "0.3.0".to_string(),
        url: "https://resenha.gg/client.exe".to_string(),
    }));
    assert!(changed);
    assert_eq!(c.active_match, None);
    let (reply, out) = c.handle_gsi(&post("live", TOKEN), TOKEN, 0, 0);
    assert_eq!(reply, GsiReply::Accepted);
    assert!(out.is_empty());
    assert!(!c.set_update_required(Some(UpdateInfo { latest: "0.3.1".into(), url: String::new() })));
    assert!(c.set_update_required(None));
    assert!(c.update_required.is_none());
}

#[test]
fn logout_and_expired_session_drop_the_match() {
    let mut c = MatchController::new();
    c.start_match(9);
    c.handle_gsi(&post("live", TOKEN), TOKEN, 0, 0);
    c.drop_match();
    assert_eq!(c.active_match, None);
    assert!(c.last_snapshot.is_some());
    c.start_match(10);
    c.logout();
    assert!(c.active_match.is_none() && c.last_snapshot.is_none() && c.last_sync_ms.is_none());
}

#[test]
fn server_messages_are_read() {
    assert!(matches!(parse_server_message(r#"{"type":"START_MATCH","matchId":52}"#), ServerCommand::StartMatch(52)));
    assert!(matches!(parse_server_message(r#"{"type":"START_MATCH"}"#), ServerCommand::StartWithoutId));
    assert!(matches!(parse_server_message(r#"{"type":"END_MATCH"}"#), ServerCommand::EndMatch));
    assert!(matches!(parse_server_message(r#"{"type":"PING"}"#), ServerCommand::Ping));
    assert!(matches!(parse_server_message(r#"{"type":"HELLO"}"#), ServerCommand::Unknown));
    assert!(matches!(parse_server_message("não é json"), ServerCommand::Invalid));
    match parse_server_message(r#"{"type":"UPDATE_REQUIRED"}"#) {
        ServerCommand::UpdateRequired(info) => {
            assert_eq!(info.latest, "mais recente");
            assert_eq!(info.url, "");
        }
        _ => panic!("UPDATE_REQUIRED não reconhecido"),
    }
    match parse_server_message(r#"{"type":"UPDATE_REQUIRED","latest":"0.4.0","url":"https://x/y"}"#) {
        ServerCommand::UpdateRequired(info) => {
            assert_eq!(info.latest, "0.4.0");
            assert_eq!(info.url, "https://x/y");
        }
        _ => panic!("UPDATE_REQUIRED não reconhecido"),
    }
}

#[test]
fn server_messages_drive_the_controller() {
    let mut c = MatchController::new();
    let r = handle_server_message(&mut c, r#"{"type":"START_MATCH","matchId":52}"#);
    assert_eq!(c.active_match, Some(52));
    assert!(r.status_changed && !r.update_changed);
    assert!(matches!(r.outgoing.as_slice(), [OutMessage::MatchAck { match_id: 52 }]));

    let r = handle_server_message(&mut c, r#"{"type":"PING"}"#);
    assert!(matches!(r.outgoing.as_slice(), [OutMessage::Pong]));
    assert!(!r.status_changed);

    let r = handle_server_message(&mut c, r#"{"type":"START_MATCH","matchId":"53"}"#);
    assert!(r.outgoing.is_empty());
    assert_eq!(c.active_match, Some(52));

    let r = handle_server_message(&mut c, r#"{"type":"END_MATCH"}"#);
    assert_eq!(c.active_match, None);
    assert!(matches!(r.outgoing.as_slice(), [OutMessage::MatchEndedAck]));

    let r = handle_server_message(&mut c, r#"{"type":"UPDATE_REQUIRED","latest":"9.0.0"}"#);
    assert!(r.update_changed && r.status_changed && r.outgoing.is_empty());
    assert_eq!(c.update_required.as_ref().map(|u| u.latest.as_str()), Some("9.0.0"));
}
