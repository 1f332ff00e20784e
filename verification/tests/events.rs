use resenha_client::events::{
    condensed, extract, EventData, EventKind, GameEvent, GsiSnapshot, PlayerSync,
};

fn snapshot(text: &str) -> GsiSnapshot {
    GsiSnapshot::from_text(text).expect("payload de teste não é JSON")
}

/// GSI payload at the end of a round. `observado` simulates the player being
/// dead and spectating a teammate: the player block becomes the other one's.
fn payload_fim_de_round(observado: bool) -> GsiSnapshot {
    let steamid = if observado { "76561198000000002" } else { "76561198000000001" };
    let text = format!(
        r#"{{
            "provider": {{ "steamid": "76561198000000001" }},
            "map": {{ "name": "de_mirage", "phase": "live", "round": 7,
                      "team_ct": {{ "score": 5 }}, "team_t": {{ "score": 3 }} }},
            "round": {{ "phase": "over", "win_team": "CT" }},
            "player": {{
                "steamid": "{steamid}",
                "state": {{ "health": 0 }},
                "match_stats": {{ "kills": 9, "assists": 2, "deaths": 6, "mvps": 1 }}
            }}
        }}"#
    );
    snapshot(&text)
}

fn achar<'a>(eventos: &'a [GameEvent], kind: &str) -> Option<&'a GameEvent> {
    eventos.iter().find(|e| e.kind.name() == kind)
}

#[test]
fn fim_de_round_gera_round_end_com_vencedor() {
    let anterior = snapshot(r#"{ "round": { "phase": "live" } }"#);
    let eventos = extract(Some(&anterior), &payload_fim_de_round(false));

    let fim = achar(&eventos, "ROUND_END").expect("ROUND_END não foi emitido");
    match &fim.data {
        EventData::RoundEnd { round, winner, .. } => {
            assert_eq!(winner.as_deref(), Some("CT"));
            assert_eq!(*round, Some(7));
        }
        _ => panic!("ROUND_END sem os dados do fim de round"),
    }
}

/// CS2 does not report damage per round: no damage event may be invented,
/// and the condensed state has no damage field.
#[test]
fn nenhum_evento_de_dano_e_emitido() {
    let anterior = snapshot(
        r#"{
            "provider": { "steamid": "76561198000000001" },
            "map": { "phase": "live", "round": 3 },
            "round": { "phase": "live" },
            "player": { "steamid": "76561198000000001", "state": { "health": 100 },
                        "match_stats": { "kills": 1, "assists": 0, "deaths": 0, "mvps": 0 } }
        }"#,
    );
    let morreu = snapshot(
        r#"{
            "provider": { "steamid": "76561198000000001" },
            "map": { "phase": "live", "round": 3 },
            "round": { "phase": "live" },
            "player": { "steamid": "76561198000000001", "state": { "health": 0 },
                        "match_stats": { "kills": 1, "assists": 0, "deaths": 1, "mvps": 0 } }
        }"#,
    );

    let eventos = extract(Some(&anterior), &morreu);
    assert!(achar(&eventos, "PLAYER_DEAD").is_some(), "a morte tem que ser detectada");
    assert!(
        achar(&eventos, "ROUND_DAMAGE").is_none(),
        "o CS2 não fornece dano — nenhum evento de dano pode ser inventado"
    );
    let sync = condensed(&morreu);
    // The pattern names every field of the player's state: a damage field
    // would not compile here.
    let PlayerSync { steamid, name, team, health, armor, money, kills, assists, deaths, mvps, score } =
        sync.player.expect("o próprio jogador");
    assert!(
        name.is_none() && team.is_none() && armor.is_none() && money.is_none() && score.is_none(),
        "campo de dano não existe no GSI do CS2 e não pode entrar no STATE_SYNC"
    );
    assert_eq!(steamid.as_deref(), Some("76561198000000001"));
    assert_eq!((health, kills, assists, deaths, mvps), (Some(0), Some(1), Some(0), Some(1), Some(0)));
}

/// Switching weapons happens all the time and nobody reads it: only the C4
/// matters, because it attributes the plant.
#[test]
fn so_a_c4_gera_weapon_change() {
    let com_arma = |nome: &str| {
        snapshot(&format!(
            r#"{{
                "provider": {{ "steamid": "76561198000000001" }},
                "map": {{ "phase": "live", "round": 3 }},
                "round": {{ "phase": "live" }},
                "player": {{
                    "steamid": "76561198000000001",
                    "state": {{ "health": 100 }},
                    "match_stats": {{ "kills": 0, "assists": 0, "deaths": 0, "mvps": 0 }},
                    "weapons": {{ "weapon_0": {{ "name": "{nome}", "state": "active" }} }}
                }}
            }}"#
        ))
    };

    let rifle = extract(Some(&com_arma("weapon_knife")), &com_arma("weapon_ak47"));
    assert!(
        achar(&rifle, "WEAPON_CHANGE").is_none(),
        "troca para rifle não deve sair da máquina do jogador"
    );

    let c4 = extract(Some(&com_arma("weapon_ak47")), &com_arma("weapon_c4"));
    let ev = achar(&c4, "WEAPON_CHANGE").expect("a C4 precisa sair: é ela que atribui o plant");
    match &ev.data {
        EventData::Weapon { weapon } => assert_eq!(weapon, "weapon_c4"),
        _ => panic!("WEAPON_CHANGE sem a arma"),
    }
}

#[test]
fn condensed_so_leva_stats_do_proprio_jogador() {
    let proprio = condensed(&payload_fim_de_round(false));
    assert_eq!(proprio.player.expect("stats do próprio jogador").kills, Some(9));

    let observando = condensed(&payload_fim_de_round(true));
    assert!(observando.player.is_none());
}

fn kinds(eventos: &[GameEvent]) -> Vec<&'static str> {
    eventos.iter().map(|e| e.kind.name()).collect()
}

#[test]
fn warmup_only_reports_map_events() {
    let antes = snapshot(r#"{ "map": { "name": "de_dust2", "phase": "live" }, "round": { "phase": "live" } }"#);
    let agora = snapshot(
        r#"{ "map": { "name": "de_inferno", "phase": "warmup", "team_ct": { "score": 1 } },
             "round": { "phase": "over", "bomb": "planted" } }"#,
    );
    let eventos = extract(Some(&antes), &agora);
    assert_eq!(kinds(&eventos), vec!["MAP_CHANGE", "MAP_PHASE"]);
}

#[test]
fn gameover_reports_final_score() {
    let antes = snapshot(r#"{ "map": { "name": "de_nuke", "phase": "live" } }"#);
    let agora = snapshot(
        r#"{ "map": { "name": "de_nuke", "phase": "gameover",
                      "team_ct": { "score": 13 }, "team_t": { "score": 9 } } }"#,
    );
    let eventos = extract(Some(&antes), &agora);
    assert_eq!(kinds(&eventos), vec!["MAP_PHASE", "GAME_OVER", "SCORE_UPDATE"]);
    match &eventos[1].data {
        EventData::Score { score_ct, score_t } => assert_eq!((*score_ct, *score_t), (Some(13), Some(9))),
        _ => panic!("GAME_OVER sem placar"),
    }
}

#[test]
fn round_numbers_are_one_based() {
    let antes = snapshot(r#"{ "map": { "round": 4 }, "round": { "phase": "freezetime" } }"#);
    let agora = snapshot(r#"{ "map": { "round": 4 }, "round": { "phase": "live" } }"#);
    let eventos = extract(Some(&antes), &agora);
    assert_eq!(kinds(&eventos), vec!["ROUND_START"]);
    match &eventos[0].data {
        EventData::Round { round } => assert_eq!(*round, Some(5)),
        _ => panic!("ROUND_START sem round"),
    }
    let congelado = extract(None, &antes);
    assert_eq!(kinds(&congelado), vec!["FREEZETIME"]);
}

#[test]
fn bomb_states_map_to_events() {
    let viva = snapshot(r#"{ "round": { "phase": "live" } }"#);
    let plantada = snapshot(r#"{ "round": { "phase": "live", "bomb": "planted" } }"#);
    let desarmada = snapshot(r#"{ "round": { "phase": "live", "bomb": "defused" } }"#);
    let explodiu = snapshot(r#"{ "round": { "phase": "live", "bomb": "exploded" } }"#);
    assert_eq!(kinds(&extract(Some(&viva), &plantada)), vec!["BOMB_PLANTED"]);
    assert_eq!(kinds(&extract(Some(&plantada), &desarmada)), vec!["BOMB_DEFUSED"]);
    assert_eq!(kinds(&extract(Some(&plantada), &explodiu)), vec!["BOMB_EXPLODED"]);
    assert!(extract(Some(&plantada), &plantada).is_empty());
}

fn jogador(kills: i64, assists: i64, mvps: i64, health: i64, team: &str) -> GsiSnapshot {
    snapshot(&format!(
        r#"{{ "provider": {{ "steamid": "1" }},
              "player": {{ "steamid": "1", "team": "{team}", "state": {{ "health": {health} }},
                           "match_stats": {{ "kills": {kills}, "assists": {assists}, "mvps": {mvps}, "deaths": 2 }} }} }}"#
    ))
}

#[test]
fn stat_deltas_and_life_events() {
    let antes = jogador(3, 1, 0, 0, "CT");
    let agora = jogador(5, 1, 1, 100, "T");
    let eventos = extract(Some(&antes), &agora);
    assert_eq!(kinds(&eventos), vec!["PLAYER_KILL", "PLAYER_MVP", "PLAYER_ALIVE", "PLAYER_TEAM"]);
    match &eventos[0].data {
        EventData::Counter { total, delta } => assert_eq!((*total, *delta), (5, 2)),
        _ => panic!("PLAYER_KILL sem contagem"),
    }
    match &eventos[3].data {
        EventData::Team { team } => assert_eq!(team, "T"),
        _ => panic!("PLAYER_TEAM sem lado"),
    }
    let morreu = extract(Some(&agora), &jogador(5, 1, 1, 0, "T"));
    assert_eq!(kinds(&morreu), vec!["PLAYER_DEAD"]);
    match &morreu[0].data {
        EventData::Deaths { deaths } => assert_eq!(*deaths, Some(2)),
        _ => panic!("PLAYER_DEAD sem mortes"),
    }
}

#[test]
fn spectated_teammate_gives_no_player_events() {
    let antes = jogador(3, 1, 0, 100, "CT");
    let outro = snapshot(
        r#"{ "provider": { "steamid": "1" },
             "player": { "steamid": "2", "team": "T", "state": { "health": 0 },
                         "match_stats": { "kills": 20, "assists": 5, "mvps": 3 } } }"#,
    );
    let eventos = extract(Some(&antes), &outro);
    assert!(eventos.iter().all(|e| !e.kind.name().starts_with("PLAYER") && e.kind != EventKind::WeaponChange));
}

#[test]
fn repeated_payload_gives_nothing() {
    let p = payload_fim_de_round(false);
    assert!(extract(Some(&p), &p).is_empty());
}

#[test]
fn first_active_weapon_wins() {
    let s = snapshot(
        r#"{ "player": { "weapons": {
                "weapon_0": { "name": "weapon_knife", "state": "holstered" },
                "weapon_1": { "name": "weapon_c4", "state": "active" },
                "weapon_2": { "name": "weapon_ak47", "state": "active" } } } }"#,
    );
    assert_eq!(s.active_weapon.as_deref(), Some("weapon_c4"));
    let sem = snapshot(r#"{ "player": { "weapons": { "weapon_0": { "name": "x", "state": "holstered" } } } }"#);
    assert_eq!(sem.active_weapon, None);
}

#[test]
fn snapshot_reads_only_matching_types() {
    let s = snapshot(r#"{ "map": { "name": 3, "round": "7" }, "provider": { "steamid": "9" } }"#);
    assert_eq!(s.map_name, None);
    assert_eq!(s.map_round, None);
    assert_eq!(s.provider_steamid.as_deref(), Some("9"));
    assert!(s.has_map);
    assert!(!snapshot("{}").has_map);
}

#[test]
fn non_json_payload_has_no_snapshot() {
    assert!(GsiSnapshot::from_text("{ quebrado").is_none());
}
