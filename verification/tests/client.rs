use resenha_client::auth::{
    pair_request, pairing_code, refresh_request, token_status, AuthError, TokenManager, Tokens,
};
use resenha_client::config::{backend_url, random_token, AppConfig, DEFAULT_BACKEND_URL, DEFAULT_GSI_PORT};
use resenha_client::gsi::{cfg_needs_write, constant_time_eq, library_paths, render_cfg};
use resenha_client::state::{should_show_window, GsiReply, MatchController};
use resenha_client::text::{hex_encode, trimmed};
use resenha_client::update::{download_link, update_decision, versao_menor, UpdateInfo};
use resenha_client::ws::{
    connect_step, on_link_input, require_tokens, ws_gate, Backoff, ConnectAction, ConnectEvent,
    ConnectPhase, HandshakeOutcome, LinkAction, LinkInput, WsGate,
};

fn config(url: &str) -> AppConfig {
    AppConfig { backend_url: url.to_string(), gsi_port: DEFAULT_GSI_PORT, gsi_token: String::new() }
}

#[test]
fn ws_url_follows_the_scheme() {
    assert_eq!(config("http://localhost:4000").ws_url(), "ws://localhost:4000/ws/client");
    assert_eq!(config("https://api.resenha.gg/").ws_url(), "wss://api.resenha.gg/ws/client");
    assert_eq!(config("https://api.resenha.gg///").ws_url(), "wss://api.resenha.gg/ws/client");
    assert_eq!(config("api.resenha.gg").ws_url(), "ws://api.resenha.gg/ws/client");
    assert_eq!(config("").ws_url(), "ws:///ws/client");
}

#[test]
fn default_config() {
    let cfg = AppConfig::default();
    assert_eq!(cfg.backend_url, "http://localhost:4000");
    assert_eq!(cfg.gsi_port, 3210);
    assert!(cfg.gsi_token.is_empty());
}

#[test]
fn gsi_token_is_generated_once() {
    let mut cfg = AppConfig::default();
    assert!(cfg.fill_gsi_token());
    assert_eq!(cfg.gsi_token.len(), 64);
    assert!(cfg.gsi_token.chars().all(|c| c.is_ascii_hexdigit() && !c.is_ascii_uppercase()));
    let token = cfg.gsi_token.clone();
    assert!(!cfg.fill_gsi_token());
    assert_eq!(cfg.gsi_token, token);
    assert_ne!(random_token(), random_token());
}

#[test]
fn hex_is_lowercase_two_digits_per_byte() {
    assert_eq!(hex_encode(&vec![0x00, 0x0f, 0xa5, 0xff]), "000fa5ff");
    assert_eq!(hex_encode(&vec![]), "");
}

#[test]
fn versions_compare_as_numbers() {
    assert!(versao_menor("0.2.9", "0.3.0"));
    assert!(versao_menor("0.9.0", "0.10.0"));
    assert!(!versao_menor("0.3.0", "0.3.0"));
    assert!(!versao_menor("1.0.0", "0.99.99"));
    assert!(versao_menor("1", "1.0.1"));
    assert!(!versao_menor("1.0.0", "1"));
    assert!(versao_menor(" 0 . 2 ", "0.3"));
    assert!(!versao_menor("x.y.z", "0.0.0"));
    assert!(versao_menor("0.0.0", "+0.0.1"));
    assert!(!versao_menor("0.0.-1", "0.0.0"));
    assert!(!versao_menor("0.0.4294967296", "0.0.0"));
    assert!(versao_menor("0.0.0", "0.0.4294967295"));
    assert!(!versao_menor("1.2.3.9", "1.2.3"));
}

#[test]
fn update_decision_follows_the_version() {
    let pendente = update_decision("0.2.0", "0.3.0".to_string(), "https://x/setup.exe".to_string());
    let info = pendente.expect("versão velha exige atualização");
    assert_eq!((info.latest.as_str(), info.url.as_str()), ("0.3.0", "https://x/setup.exe"));
    assert!(update_decision("0.3.0", "0.3.0".to_string(), String::new()).is_none());
}

#[test]
fn download_link_must_be_web() {
    let info = |url: &str| Some(UpdateInfo { latest: "1.0.0".into(), url: url.into() });
    assert_eq!(download_link(&info("https://resenha.gg/x.exe")).unwrap(), "https://resenha.gg/x.exe");
    assert_eq!(download_link(&info("http://resenha.gg/x.exe")).unwrap(), "http://resenha.gg/x.exe");
    assert_eq!(
        download_link(&info("file:///C:/x.exe")).unwrap_err(),
        "o servidor não informou um link de download válido"
    );
    assert!(download_link(&None).is_err());
}

#[test]
fn cfg_text_is_exact() {
    let cfg = render_cfg("abc123", 3210);
    let expected = "\"Resenha Client\"\n{\n    \"uri\" \"http://127.0.0.1:3210/\"\n    \"timeout\" \"5.0\"\n    \"buffer\" \"0.1\"\n    \"throttle\" \"0.1\"\n    \"heartbeat\" \"30.0\"\n    \"auth\"\n    {\n        \"token\" \"abc123\"\n    }\n    \"data\"\n    {\n        \"provider\"            \"1\"\n        \"map\"                 \"1\"\n        \"round\"               \"1\"\n        \"player_id\"           \"1\"\n        \"player_state\"        \"1\"\n        \"player_match_stats\"  \"1\"\n        \"player_weapons\"      \"1\"\n    }\n}\n";
    assert_eq!(cfg, expected);
    assert!(render_cfg("t", 0).contains("http://127.0.0.1:0/"));
    assert!(render_cfg("t", 65535).contains("http://127.0.0.1:65535/"));
}

#[test]
fn cfg_is_only_rewritten_when_it_differs() {
    let content = render_cfg("abc", 3210);
    assert!(!cfg_needs_write(&Some(content.clone()), &content));
    assert!(cfg_needs_write(&Some(render_cfg("old", 3210)), &content));
    assert!(cfg_needs_write(&None, &content));
}

#[test]
fn steam_libraries_are_read_from_vdf() {
    let vdf = "\"libraryfolders\"\r\n{\r\n\t\"0\"\r\n\t{\r\n\t\t\"path\"\t\t\"C:\\\\Program Files (x86)\\\\Steam\"\r\n\t\t\"label\"\t\t\"\"\r\n\t}\r\n\t\"1\"\n\t{\n\t\t\"path\"\t\t\"D:\\\\SteamLibrary\"\n\t}\n\t\"pathless\" \"x\"\n\t\"path\"\n}\n";
    let libs = library_paths(vdf);
    assert_eq!(libs, vec!["C:\\Program Files (x86)\\Steam".to_string(), "D:\\SteamLibrary".to_string()]);
    assert!(library_paths("").is_empty());
}

#[test]
fn constant_time_comparison() {
    assert!(constant_time_eq(b"segredo", b"segredo"));
    assert!(!constant_time_eq(b"segredo", b"segredO"));
    assert!(!constant_time_eq(b"segredo", b"segred"));
    assert!(constant_time_eq(b"", b""));
}

#[test]
fn token_is_read_from_auth_block() {
    let mut c = MatchController::new();
    let com = r#"{ "auth": { "token": "abc" } }"#;
    assert_eq!(c.handle_gsi(com, "abc", 0, 0).0, GsiReply::Accepted);
    assert_eq!(c.handle_gsi(com, "abd", 0, 0).0, GsiReply::Unauthorized);
    let sem = r#"{ "auth": { "token": 5 } }"#;
    assert_eq!(c.handle_gsi(sem, "", 0, 0).0, GsiReply::Accepted);
    assert_eq!(c.handle_gsi(sem, "5", 0, 0).0, GsiReply::Unauthorized);
}

#[test]
fn pairing_code_is_trimmed_and_upper_case() {
    assert_eq!(pairing_code("  ab12cd \n").unwrap(), "AB12CD");
    assert_eq!(pairing_code("   ").unwrap_err(), "digite o código de conexão gerado no site");
    assert!(pairing_code("").is_err());
    assert_eq!(trimmed("\u{3000} x \u{a0}"), "x");
}

#[test]
fn token_requests() {
    let r = pair_request("https://api.resenha.gg/", "AB12");
    assert_eq!(r.url, "https://api.resenha.gg/api/client/auth/pair");
    assert_eq!(r.body, r#"{"code":"AB12"}"#);
    let r = refresh_request("http://localhost:4000", "r\"t");
    assert_eq!(r.url, "http://localhost:4000/api/client/auth/refresh");
    assert_eq!(r.body, r#"{"refresh_token":"r\"t"}"#);
}

#[test]
fn token_response_statuses() {
    assert!(token_status(200).is_ok());
    assert!(token_status(201).is_ok());
    assert!(matches!(token_status(401), Err(AuthError::Unauthorized)));
    assert!(matches!(token_status(403), Err(AuthError::Unauthorized)));
    match token_status(502) {
        Err(e) => assert_eq!(e.message(), "erro do servidor (HTTP 502)"),
        Ok(()) => panic!("502 não é sucesso"),
    }
    assert_eq!(AuthError::Unauthorized.message(), "código inválido ou expirado");
}

fn tokens(a: &str, r: &str) -> Tokens {
    Tokens { access: a.to_string(), refresh: r.to_string() }
}

#[test]
fn token_cache_follows_store_and_clear() {
    let mut m = TokenManager::new();
    assert!(!m.is_logged_in());
    assert!(m.needs_stored());
    assert!(m.load(None).is_none());
    assert!(!m.is_logged_in());
    let t = m.load(Some(tokens("a1", "r1"))).unwrap();
    assert_eq!((t.access.as_str(), t.refresh.as_str()), ("a1", "r1"));
    assert!(m.is_logged_in() && !m.needs_stored());
    m.store(tokens("a2", "r2"));
    let t = m.load(Some(tokens("x", "y"))).unwrap();
    assert_eq!(t.access, "a2");
    m.clear();
    assert!(!m.is_logged_in());
    assert!(m.load(None).is_none());
}

#[test]
fn backoff_doubles_up_to_sixty_seconds() {
    let mut b = Backoff::new();
    let mut seen = vec![b.secs()];
    for _ in 0..8 {
        b.grow();
        seen.push(b.secs());
    }
    assert_eq!(seen, vec![1, 2, 4, 8, 16, 32, 60, 60, 60]);
    b.reset();
    assert_eq!(b.secs(), 1);
}

#[test]
fn connection_decisions() {
    assert_eq!(ws_gate(false, true), WsGate::AwaitSession);
    assert_eq!(ws_gate(true, true), WsGate::AwaitUpdate);
    assert_eq!(ws_gate(true, false), WsGate::Connect);
    let hs = |o: HandshakeOutcome| ConnectEvent::Handshake(o);
    assert!(matches!(connect_step(ConnectPhase::FirstHandshake, hs(HandshakeOutcome::Connected)), (ConnectPhase::Open, ConnectAction::Open)));
    assert!(matches!(
        connect_step(ConnectPhase::FirstHandshake, hs(HandshakeOutcome::Rejected { status: 401, error: "401".into() })),
        (ConnectPhase::Renewing, ConnectAction::Renew)
    ));
    assert!(matches!(
        connect_step(ConnectPhase::SecondHandshake, hs(HandshakeOutcome::Rejected { status: 401, error: "e".into() })),
        (ConnectPhase::Ended, ConnectAction::Abort(e)) if e == "e"
    ));
    assert!(matches!(
        connect_step(ConnectPhase::FirstHandshake, hs(HandshakeOutcome::Rejected { status: 500, error: "x".into() })),
        (ConnectPhase::Ended, ConnectAction::Abort(_))
    ));
    assert!(matches!(
        connect_step(ConnectPhase::FirstHandshake, hs(HandshakeOutcome::Failed("rede".into()))),
        (ConnectPhase::Ended, ConnectAction::Abort(e)) if e == "rede"
    ));
    assert!(matches!(
        connect_step(ConnectPhase::Renewing, ConnectEvent::Renewal(Ok(tokens("a", "r")))),
        (ConnectPhase::SecondHandshake, ConnectAction::StoreAndRetry(t)) if t.access == "a"
    ));
    assert!(matches!(
        connect_step(ConnectPhase::Renewing, ConnectEvent::Renewal(Err(AuthError::Unauthorized))),
        (ConnectPhase::Ended, ConnectAction::ExpireSession)
    ));
    assert!(matches!(
        connect_step(ConnectPhase::Renewing, ConnectEvent::Renewal(Err(AuthError::Other("rede".into())))),
        (ConnectPhase::Ended, ConnectAction::Abort(e)) if e == "rede"
    ));
    assert!(matches!(connect_step(ConnectPhase::SecondHandshake, hs(HandshakeOutcome::Connected)), (ConnectPhase::Open, ConnectAction::Open)));
    assert!(matches!(
        connect_step(ConnectPhase::Open, ConnectEvent::Renewal(Ok(tokens("a", "r")))),
        (ConnectPhase::Open, ConnectAction::Ignore)
    ));
    assert!(matches!(on_link_input(LinkInput::Tick), LinkAction::SendPing));
    assert!(matches!(on_link_input(LinkInput::SessionChanged(false)), LinkAction::CloseAndEnd));
    assert!(matches!(on_link_input(LinkInput::SessionChanged(true)), LinkAction::Nothing));
    assert!(matches!(on_link_input(LinkInput::UpdateChanged(true)), LinkAction::CloseAndEnd));
    assert!(matches!(on_link_input(LinkInput::Outgoing(None)), LinkAction::End));
    assert!(matches!(on_link_input(LinkInput::Ping(vec![1, 2])), LinkAction::SendPong(d) if d == vec![1, 2]));
}

#[test]
fn backend_address_comes_from_the_build() {
    assert_eq!(backend_url(None), DEFAULT_BACKEND_URL);
    assert_eq!(backend_url(Some("https://api.resenha.gg")), "https://api.resenha.gg");
    let cfg = AppConfig::from_saved(4000, "tok".to_string(), Some("https://api.resenha.gg"));
    assert_eq!(cfg.backend_url, "https://api.resenha.gg");
    assert_eq!((cfg.gsi_port, cfg.gsi_token.as_str()), (4000, "tok"));
    assert_eq!(cfg.ws_url(), "wss://api.resenha.gg/ws/client");
}

#[test]
fn startup_window_and_tokens() {
    assert!(should_show_window(false, true));
    assert!(should_show_window(true, false));
    assert!(!should_show_window(true, true));
    assert_eq!(require_tokens(None).err().as_deref(), Some("sem tokens salvos"));
    assert_eq!(require_tokens(Some(tokens("a", "r"))).ok().map(|t| t.access), Some("a".to_string()));
}

#[test]
fn request_bodies_escape_like_json() {
    let r = pair_request("http://h", "a\\b\n\u{1}\u{8}é");
    assert_eq!(r.body, "{\"code\":\"a\\\\b\\n\\u0001\\bé\"}");
}
