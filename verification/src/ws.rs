//! WebSocket manager decisions: the backend's commands, the reconnection
//! backoff (1 s doubling up to 60 s), the token renewal on a rejected
//! handshake, and what each event of an open connection calls for.
use vstd::prelude::*;
use vstd::arithmetic::power2::{lemma_pow2_pos, lemma_pow2_unfold, pow2};
use crate::auth::{AuthError, TokenManager, Tokens};
use crate::json::{json_i64_at, json_parses, json_str_at, JsonDoc};
use crate::state::{started, with_update, without_match, MatchController, OutMessage};
use crate::text::is_some_str;
use crate::update::UpdateInfo;

verus! {

// ---------------------------------------------------------------------------
// Commands from the backend
// ---------------------------------------------------------------------------

/// A message from the backend.
pub enum ServerCommand {
    /// START_MATCH with its match id.
    StartMatch(i64),
    /// START_MATCH without a usable match id: ignored.
    StartWithoutId,
    /// END_MATCH.
    EndMatch,
    /// UPDATE_REQUIRED: this version may not run any more.
    UpdateRequired(UpdateInfo),
    /// Application-level PING.
    Ping,
    /// Any other type.
    Unknown,
    /// Not JSON.
    Invalid,
}

pub open spec fn str_or(o: Option<Seq<char>>, default: Seq<char>) -> Seq<char> {
    match o {
        Some(s) => s,
        None => default,
    }
}

/// `cmd` is how the backend message `text` reads.
pub open spec fn command_of(cmd: ServerCommand, text: Seq<char>) -> bool {
    if !json_parses(text) {
        cmd is Invalid
    } else {
        let t = json_str_at(text, "/type"@);
        if t == Some("START_MATCH"@) {
            match json_i64_at(text, "/matchId"@) {
                Some(id) => cmd == ServerCommand::StartMatch(id),
                None => cmd is StartWithoutId,
            }
        } else if t == Some("END_MATCH"@) {
            cmd is EndMatch
        } else if t == Some("UPDATE_REQUIRED"@) {
            match cmd {
                ServerCommand::UpdateRequired(info) => {
                    &&& info.latest@ == str_or(json_str_at(text, "/latest"@), "mais recente"@)
                    &&& info.url@ == str_or(json_str_at(text, "/url"@), Seq::empty())
                },
                _ => false,
            }
        } else if t == Some("PING"@) {
            cmd is Ping
        } else {
            cmd is Unknown
        }
    }
}

/// Reads a message from the backend.
pub fn parse_server_message(text: &str) -> (cmd: ServerCommand)
    ensures
        command_of(cmd, text@),
{
    let doc = match JsonDoc::parse(text) {
        Some(d) => d,
        None => return ServerCommand::Invalid,
    };
    let t = doc.str_at("/type");
    if is_some_str(&t, "START_MATCH") {
        match doc.i64_at("/matchId") {
            Some(id) => ServerCommand::StartMatch(id),
            None => ServerCommand::StartWithoutId,
        }
    } else if is_some_str(&t, "END_MATCH") {
        ServerCommand::EndMatch
    } else if is_some_str(&t, "UPDATE_REQUIRED") {
        let latest = match doc.str_at("/latest") {
            Some(l) => l,
            None => String::from_str("mais recente"),
        };
        let url = match doc.str_at("/url") {
            Some(u) => u,
            None => String::new(),
        };
        ServerCommand::UpdateRequired(UpdateInfo { latest, url })
    } else if is_some_str(&t, "PING") {
        ServerCommand::Ping
    } else {
        ServerCommand::Unknown
    }
}

/// What handling a backend message calls for beyond the state change.
pub struct Reaction {
    /// Messages to queue for the backend.
    pub outgoing: Vec<OutMessage>,
    /// Whether the mandatory-update flag changed (wake the manager).
    pub update_changed: bool,
    /// Whether the interface must be told that the status changed.
    pub status_changed: bool,
}

/// What handling `cmd` does to the controller and what it calls for.
pub open spec fn reaction_to(
    old: MatchController,
    new: MatchController,
    cmd: ServerCommand,
    out: Seq<OutMessage>,
    update_changed: bool,
    status_changed: bool,
) -> bool {
    match cmd {
        ServerCommand::StartMatch(id) => {
            &&& new == started(old, id)
            &&& out == seq![OutMessage::MatchAck { match_id: id }]
            &&& !update_changed && status_changed
        },
        ServerCommand::EndMatch => {
            &&& new == without_match(old)
            &&& out == seq![OutMessage::MatchEndedAck]
            &&& !update_changed && status_changed
        },
        ServerCommand::UpdateRequired(info) => {
            &&& new == with_update(old, Some(info))
            &&& out.len() == 0
            &&& update_changed == (old.update_required is None)
            &&& status_changed
        },
        ServerCommand::Ping => {
            &&& new == old
            &&& out == seq![OutMessage::Pong]
            &&& !update_changed && !status_changed
        },
        _ => {
            &&& new == old
            &&& out.len() == 0
            &&& !update_changed && !status_changed
        },
    }
}

impl MatchController {
    /// Applies a backend command: START_MATCH starts collecting, END_MATCH
    /// goes back to standby, UPDATE_REQUIRED blocks everything, PING is
    /// answered; anything else is ignored.
    pub fn apply_command(&mut self, cmd: ServerCommand) -> (r: Reaction)
        ensures
            reaction_to(*old(self), *final(self), cmd, r.outgoing@, r.update_changed, r.status_changed),
    {
        match cmd {
            ServerCommand::StartMatch(id) => {
                let outgoing = self.start_match(id);
                Reaction { outgoing, update_changed: false, status_changed: true }
            },
            ServerCommand::EndMatch => {
                let (_, outgoing) = self.end_match();
                Reaction { outgoing, update_changed: false, status_changed: true }
            },
            ServerCommand::UpdateRequired(info) => {
                let changed = self.set_update_required(Some(info));
                Reaction { outgoing: Vec::new(), update_changed: changed, status_changed: true }
            },
            ServerCommand::Ping => {
                let mut outgoing = Vec::new();
                outgoing.push(OutMessage::Pong);
                Reaction { outgoing, update_changed: false, status_changed: false }
            },
            _ => Reaction { outgoing: Vec::new(), update_changed: false, status_changed: false },
        }
    }
}

/// Handles a text message of the backend.
pub fn handle_server_message(controller: &mut MatchController, text: &str) -> (r: Reaction)
    ensures
        exists|cmd: ServerCommand|
            command_of(cmd, text@) && reaction_to(
                *old(controller),
                *final(controller),
                cmd,
                r.outgoing@,
                r.update_changed,
                r.status_changed,
            ),
{
    let cmd = parse_server_message(text);
    let ghost c = cmd;
    let r = controller.apply_command(cmd);
    assert(command_of(c, text@));
    r
}

// ---------------------------------------------------------------------------
// Reconnection backoff
// ---------------------------------------------------------------------------

/// The longest wait between reconnection attempts, in seconds.
pub const MAX_BACKOFF_SECS: u64 = 60;

/// The wait before the next reconnection attempt, in seconds.
pub struct Backoff {
    secs: u64,
}

impl Backoff {
    #[verifier::type_invariant]
    spec fn in_range(self) -> bool {
        1 <= self.secs <= MAX_BACKOFF_SECS
    }

    pub closed spec fn value(self) -> u64 {
        self.secs
    }

    /// The first wait: one second.
    pub fn new() -> (res: Backoff)
        ensures
            res.value() == 1,
    {
        Backoff { secs: 1 }
    }

    /// The current wait, always between 1 and 60 seconds.
    pub fn secs(&self) -> (res: u64)
        ensures
            res == self.value(),
            1 <= res <= MAX_BACKOFF_SECS,
    {
        proof {
            use_type_invariant(self);
        }
        self.secs
    }

    /// Back to one second (connected, or woken by a session or update change).
    pub fn reset(&mut self)
        ensures
            final(self).value() == 1,
    {
        self.secs = 1;
    }

    /// After a failed or closed connection: the wait doubles, up to 60 s.
    pub fn grow(&mut self)
        ensures
            final(self).value() == grown(old(self).value() as nat),
    {
        proof {
            use_type_invariant(&*self);
        }
        let doubled = self.secs * 2;
        self.secs = if doubled < MAX_BACKOFF_SECS { doubled } else { MAX_BACKOFF_SECS };
    }
}

/// One doubling, capped at 60.
pub open spec fn grown(v: nat) -> nat {
    if 2 * v < MAX_BACKOFF_SECS { 2 * v } else { MAX_BACKOFF_SECS as nat }
}

/// The wait after `n` failures in a row, starting from one second.
pub open spec fn backoff_after(n: nat) -> nat
    decreases n,
{
    if n == 0 {
        1
    } else {
        grown(backoff_after((n - 1) as nat))
    }
}

/// After `n` failures in a row the wait is `min(2^n, 60)` seconds: it
/// doubles from one second and never exceeds the cap.
pub proof fn backoff_doubles_up_to_cap(n: nat)
    ensures
        backoff_after(n) == (if pow2(n) < MAX_BACKOFF_SECS { pow2(n) } else { MAX_BACKOFF_SECS as nat }),
        1 <= backoff_after(n) <= MAX_BACKOFF_SECS,
    decreases n,
{
    lemma_pow2_pos(n);
    if n == 0 {
        assert(pow2(0) == 1) by {
            vstd::arithmetic::power2::lemma2_to64();
        }
    } else {
        backoff_doubles_up_to_cap((n - 1) as nat);
        lemma_pow2_unfold(n);
    }
}

// ---------------------------------------------------------------------------
// Connecting
// ---------------------------------------------------------------------------

/// Whether the manager may connect: it waits for a session (login) first,
/// and while a mandatory update is pending it does not connect at all.
#[derive(PartialEq, Eq, Debug, Clone, Copy)]
pub enum WsGate {
    AwaitSession,
    AwaitUpdate,
    Connect,
}

pub fn ws_gate(session: bool, update_required: bool) -> (res: WsGate)
    ensures
        !session ==> res == WsGate::AwaitSession,
        session && update_required ==> res == WsGate::AwaitUpdate,
        session && !update_required ==> res == WsGate::Connect,
{
    if !session {
        WsGate::AwaitSession
    } else if update_required {
        WsGate::AwaitUpdate
    } else {
        WsGate::Connect
    }
}

/// The tokens to connect with; without stored tokens the connection
/// attempt ends with the reason given.
pub fn require_tokens(loaded: Option<Tokens>) -> (res: Result<Tokens, String>)
    ensures
        loaded matches Some(t) ==> res == Ok::<Tokens, String>(t),
        loaded is None ==> (res matches Err(m) && m@ == "sem tokens salvos"@),
{
    match loaded {
        Some(t) => Ok(t),
        None => Err(String::from_str("sem tokens salvos")),
    }
}

/// How a WebSocket handshake ended.
pub enum HandshakeOutcome {
    Connected,
    /// The server answered the upgrade with an HTTP status.
    Rejected { status: u16, error: String },
    Failed(String),
}

/// Where a connection attempt stands.
#[derive(PartialEq, Eq, Debug, Clone, Copy)]
pub enum ConnectPhase {
    /// The first handshake, with the current access token, is under way.
    FirstHandshake,
    /// The first handshake got 401; the tokens are being renewed.
    Renewing,
    /// The handshake with the renewed token is under way.
    SecondHandshake,
    /// Connected.
    Open,
    /// The attempt is over.
    Ended,
}

/// What a connection attempt hears back.
pub enum ConnectEvent {
    Handshake(HandshakeOutcome),
    Renewal(Result<Tokens, AuthError>),
}

/// What the attempt does next.
pub enum ConnectAction {
    /// The connection is open.
    Open,
    /// Renew the tokens with the refresh token.
    Renew,
    /// Keep the new tokens and do the handshake again with them.
    StoreAndRetry(Tokens),
    /// The refresh token was rejected: the session is over.
    ExpireSession,
    /// Give up with this reason.
    Abort(String),
    /// An event that does not belong to the phase: nothing to do.
    Ignore,
}

/// One step of a connection attempt. The first handshake uses the current
/// access token; a 401 there calls for a renewal; new tokens give one more
/// handshake, which is not renewed again; a rejected refresh token ends the
/// session.
pub open spec fn connect_step_of(phase: ConnectPhase, event: ConnectEvent) -> (ConnectPhase, ConnectAction) {
    match (phase, event) {
        (ConnectPhase::FirstHandshake, ConnectEvent::Handshake(HandshakeOutcome::Connected))
        | (ConnectPhase::SecondHandshake, ConnectEvent::Handshake(HandshakeOutcome::Connected)) =>
            (ConnectPhase::Open, ConnectAction::Open),
        (ConnectPhase::FirstHandshake, ConnectEvent::Handshake(HandshakeOutcome::Rejected { status, error })) =>
            if status == 401 {
                (ConnectPhase::Renewing, ConnectAction::Renew)
            } else {
                (ConnectPhase::Ended, ConnectAction::Abort(error))
            },
        (ConnectPhase::SecondHandshake, ConnectEvent::Handshake(HandshakeOutcome::Rejected { status, error })) =>
            (ConnectPhase::Ended, ConnectAction::Abort(error)),
        (ConnectPhase::FirstHandshake, ConnectEvent::Handshake(HandshakeOutcome::Failed(e)))
        | (ConnectPhase::SecondHandshake, ConnectEvent::Handshake(HandshakeOutcome::Failed(e))) =>
            (ConnectPhase::Ended, ConnectAction::Abort(e)),
        (ConnectPhase::Renewing, ConnectEvent::Renewal(Ok(t))) =>
            (ConnectPhase::SecondHandshake, ConnectAction::StoreAndRetry(t)),
        (ConnectPhase::Renewing, ConnectEvent::Renewal(Err(AuthError::Unauthorized))) =>
            (ConnectPhase::Ended, ConnectAction::ExpireSession),
        (ConnectPhase::Renewing, ConnectEvent::Renewal(Err(AuthError::Other(e)))) =>
            (ConnectPhase::Ended, ConnectAction::Abort(e)),
        (p, _) => (p, ConnectAction::Ignore),
    }
}

pub fn connect_step(phase: ConnectPhase, event: ConnectEvent) -> (res: (ConnectPhase, ConnectAction))
    ensures
        res == connect_step_of(phase, event),
{
    match (phase, event) {
        (ConnectPhase::FirstHandshake, ConnectEvent::Handshake(HandshakeOutcome::Connected))
        | (ConnectPhase::SecondHandshake, ConnectEvent::Handshake(HandshakeOutcome::Connected)) =>
            (ConnectPhase::Open, ConnectAction::Open),
        (ConnectPhase::FirstHandshake, ConnectEvent::Handshake(HandshakeOutcome::Rejected { status, error })) =>
            if status == 401 {
                (ConnectPhase::Renewing, ConnectAction::Renew)
            } else {
                (ConnectPhase::Ended, ConnectAction::Abort(error))
            },
        (ConnectPhase::SecondHandshake, ConnectEvent::Handshake(HandshakeOutcome::Rejected { status, error })) =>
            (ConnectPhase::Ended, ConnectAction::Abort(error)),
        (ConnectPhase::FirstHandshake, ConnectEvent::Handshake(HandshakeOutcome::Failed(e)))
        | (ConnectPhase::SecondHandshake, ConnectEvent::Handshake(HandshakeOutcome::Failed(e))) =>
            (ConnectPhase::Ended, ConnectAction::Abort(e)),
        (ConnectPhase::Renewing, ConnectEvent::Renewal(Ok(t))) =>
            (ConnectPhase::SecondHandshake, ConnectAction::StoreAndRetry(t)),
        (ConnectPhase::Renewing, ConnectEvent::Renewal(Err(AuthError::Unauthorized))) =>
            (ConnectPhase::Ended, ConnectAction::ExpireSession),
        (ConnectPhase::Renewing, ConnectEvent::Renewal(Err(AuthError::Other(e)))) =>
            (ConnectPhase::Ended, ConnectAction::Abort(e)),
        (p, _) => (p, ConnectAction::Ignore),
    }
}

/// How many renewals a run of events calls for, starting at `phase`.
pub open spec fn renewals(phase: ConnectPhase, events: Seq<ConnectEvent>) -> nat
    decreases events.len(),
{
    if events.len() == 0 {
        0
    } else {
        let (next, action) = connect_step_of(phase, events[0]);
        (if action is Renew { 1nat } else { 0nat }) + renewals(next, events.drop_first())
    }
}

proof fn lemma_no_renewal_after_first(phase: ConnectPhase, events: Seq<ConnectEvent>)
    requires
        phase != ConnectPhase::FirstHandshake,
    ensures
        renewals(phase, events) == 0,
    decreases events.len(),
{
    if events.len() > 0 {
        let (next, action) = connect_step_of(phase, events[0]);
        assert(next != ConnectPhase::FirstHandshake && !(action is Renew));
        lemma_no_renewal_after_first(next, events.drop_first());
    }
}

/// A connection attempt renews the tokens at most once, whatever it hears
/// back, and a renewal can only follow the first handshake.
pub proof fn at_most_one_renewal(events: Seq<ConnectEvent>)
    ensures
        renewals(ConnectPhase::FirstHandshake, events) <= 1,
    decreases events.len(),
{
    if events.len() > 0 {
        let (next, action) = connect_step_of(ConnectPhase::FirstHandshake, events[0]);
        if next == ConnectPhase::FirstHandshake {
            assert(!(action is Renew));
            at_most_one_renewal(events.drop_first());
        } else {
            lemma_no_renewal_after_first(next, events.drop_first());
        }
    }
}

/// The session is over: the tokens are forgotten and the match dropped;
/// gives the reason the connection ends with.
pub fn expire_session(tokens: &mut TokenManager, controller: &mut MatchController) -> (reason: String)
    ensures
        final(tokens).cached() is None,
        !final(tokens).flag(),
        *final(controller) == (MatchController { active_match: None, ..*old(controller) }),
        reason@ == "sessão expirada"@,
{
    tokens.clear();
    controller.drop_match();
    String::from_str("sessão expirada")
}

// ---------------------------------------------------------------------------
// An open connection
// ---------------------------------------------------------------------------

/// Something that happened on an open connection.
pub enum LinkInput {
    /// A text frame from the backend.
    Text(String),
    /// A WebSocket ping frame with its payload.
    Ping(Vec<u8>),
    /// A close frame, or the end of the stream.
    Closed,
    /// Any other frame.
    OtherFrame,
    /// Reading failed.
    Failed(String),
    /// A message queued for the backend; `None` when the queue is gone.
    Outgoing(Option<OutMessage>),
    /// The keep-alive timer (every 30 s).
    Tick,
    /// The session flag changed to the given value.
    SessionChanged(bool),
    /// The mandatory-update flag changed to the given value.
    UpdateChanged(bool),
}

/// What an event on an open connection calls for.
pub enum LinkAction {
    HandleText(String),
    SendPong(Vec<u8>),
    Send(OutMessage),
    SendPing,
    /// Close politely and end the connection normally.
    CloseAndEnd,
    /// End the connection normally.
    End,
    /// End the connection with an error.
    EndWithError(String),
    Nothing,
}

pub fn on_link_input(input: LinkInput) -> (res: LinkAction)
    ensures
        input matches LinkInput::Text(t) ==> res == LinkAction::HandleText(t),
        input matches LinkInput::Ping(d) ==> res == LinkAction::SendPong(d),
        input is Closed ==> res is End,
        input is OtherFrame ==> res is Nothing,
        input matches LinkInput::Failed(e) ==> res == LinkAction::EndWithError(e),
        input matches LinkInput::Outgoing(Some(m)) ==> res == LinkAction::Send(m),
        input == LinkInput::Outgoing(None) ==> res is End,
        input is Tick ==> res is SendPing,
        input matches LinkInput::SessionChanged(s) ==> (if s { res is Nothing } else { res is CloseAndEnd }),
        input matches LinkInput::UpdateChanged(u) ==> (if u { res is CloseAndEnd } else { res is Nothing }),
{
    match input {
        LinkInput::Text(t) => LinkAction::HandleText(t),
        LinkInput::Ping(d) => LinkAction::SendPong(d),
        LinkInput::Closed => LinkAction::End,
        LinkInput::OtherFrame => LinkAction::Nothing,
        LinkInput::Failed(e) => LinkAction::EndWithError(e),
        LinkInput::Outgoing(Some(m)) => LinkAction::Send(m),
        LinkInput::Outgoing(None) => LinkAction::End,
        LinkInput::Tick => LinkAction::SendPing,
        LinkInput::SessionChanged(s) => if s { LinkAction::Nothing } else { LinkAction::CloseAndEnd },
        LinkInput::UpdateChanged(u) => if u { LinkAction::CloseAndEnd } else { LinkAction::Nothing },
    }
}

} // verus!
