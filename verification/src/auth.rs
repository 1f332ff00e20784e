//! Authentication: pairing by code, token renewal, and the token cache.
//! The tokens themselves are kept by the operating system's credential
//! store, which the application reads and writes around this module.
use vstd::prelude::*;
use crate::config::{trailing_slashes_start, trim_trailing_slashes};
use crate::json::{json_quote, quote};
use crate::text::{chars_of, decimal, push_chars, push_decimal, push_str, trim, trimmed};

verus! {

/// The session tokens.
pub struct Tokens {
    pub access: String,
    pub refresh: String,
}

impl Tokens {
    /// A copy of the tokens.
    pub fn copy(&self) -> (res: Tokens)
        ensures
            res == *self,
    {
        Tokens { access: self.access.clone(), refresh: self.refresh.clone() }
    }
}

/// Why pairing or renewal failed.
pub enum AuthError {
    /// Code or refresh token rejected by the backend: the session is invalid.
    Unauthorized,
    /// Network down, server error and the like: worth trying again later.
    Other(String),
}

impl AuthError {
    /// The message shown to the user.
    pub fn message(&self) -> (res: String)
        ensures
            self is Unauthorized ==> res@ == "código inválido ou expirado"@,
            self matches AuthError::Other(m) ==> res@ == m@,
    {
        match self {
            AuthError::Unauthorized => String::from_str("código inválido ou expirado"),
            AuthError::Other(m) => m.clone(),
        }
    }
}

// ---------------------------------------------------------------------------
// Token cache
// ---------------------------------------------------------------------------

/// What a load finds: the cache first, else what the credential store holds.
pub open spec fn load_outcome(cache: Option<Tokens>, stored: Option<Tokens>) -> Option<Tokens> {
    match cache {
        Some(t) => Some(t),
        None => stored,
    }
}

/// The in-memory side of the token store: a cache of the stored tokens and
/// the "logged in" flag read by the tray and the status.
pub struct TokenManager {
    cache: Option<Tokens>,
    logged_in: bool,
}

impl TokenManager {
    pub closed spec fn cached(&self) -> Option<Tokens> {
        self.cache
    }

    pub closed spec fn flag(&self) -> bool {
        self.logged_in
    }

    pub fn new() -> (res: TokenManager)
        ensures
            res.cached() is None,
            !res.flag(),
    {
        TokenManager { cache: None, logged_in: false }
    }

    /// Whether there is a session, as last established.
    pub fn is_logged_in(&self) -> (res: bool)
        ensures
            res == self.flag(),
    {
        self.logged_in
    }

    /// Whether `load` needs what the credential store holds (only the first
    /// time; afterwards the cache answers).
    pub fn needs_stored(&self) -> (res: bool)
        ensures
            res == (self.cached() is None),
    {
        self.cache.is_none()
    }

    /// Loads the tokens: from the cache when there, else from `stored`, what
    /// the credential store gave (`None` where it had none or failed). When
    /// neither has tokens nothing changes, not even the flag.
    pub fn load(&mut self, stored: Option<Tokens>) -> (res: Option<Tokens>)
        ensures
            old(self).cached() is None && stored is None ==> res is None && *final(self) == *old(
                self,
            ),
            final(self).cached() == load_outcome(old(self).cached(), stored),
            res == load_outcome(old(self).cached(), stored),
            load_outcome(old(self).cached(), stored) is Some ==> final(self).flag(),
    {
        if self.cache.is_none() {
            match stored {
                None => return None,
                Some(t) => {
                    self.cache = Some(t);
                },
            }
        }
        self.logged_in = self.cache.is_some();
        match &self.cache {
            Some(t) => Some(t.copy()),
            None => None,
        }
    }

    /// Keeps freshly issued tokens (the credential store is written by the
    /// caller) and marks the session as established.
    pub fn store(&mut self, tokens: Tokens)
        ensures
            final(self).cached() == Some(tokens),
            final(self).flag(),
    {
        self.cache = Some(tokens);
        self.logged_in = true;
    }

    /// Forgets the tokens (the credential store is cleared by the caller).
    pub fn clear(&mut self)
        ensures
            final(self).cached() is None,
            !final(self).flag(),
    {
        self.cache = None;
        self.logged_in = false;
    }
}

// ---------------------------------------------------------------------------
// Requests to the backend
// ---------------------------------------------------------------------------

/// A POST to the backend: where it goes and its JSON body.
pub struct TokenRequest {
    pub url: String,
    pub body: String,
}

fn endpoint(backend_url: &str, path: &str) -> (res: String)
    ensures
        res@ == trim_trailing_slashes(backend_url@) + path@,
{
    let chars = chars_of(backend_url);
    let end = trailing_slashes_start(&chars);
    let mut out = String::new();
    push_chars(&mut out, &chars, 0, end);
    assert(chars@.subrange(0, end as int) =~= chars@.take(end as int));
    push_str(&mut out, path);
    assert(out@ =~= trim_trailing_slashes(backend_url@) + path@);
    out
}

fn one_field_body(field: &str, value: &str) -> (res: String)
    ensures
        res@ == "{"@ + json_quote(field@) + ":"@ + json_quote(value@) + "}"@,
{
    let mut out = String::from_str("{");
    push_str(&mut out, quote(field).as_str());
    push_str(&mut out, ":");
    push_str(&mut out, quote(value).as_str());
    push_str(&mut out, "}");
    out
}

/// Pairing: `POST {backend}/api/client/auth/pair` with `{ "code": code }`.
pub fn pair_request(backend_url: &str, code: &str) -> (res: TokenRequest)
    ensures
        res.url@ == trim_trailing_slashes(backend_url@) + "/api/client/auth/pair"@,
        res.body@ == "{"@ + json_quote("code"@) + ":"@ + json_quote(code@) + "}"@,
{
    TokenRequest {
        url: endpoint(backend_url, "/api/client/auth/pair"),
        body: one_field_body("code", code),
    }
}

/// Renewal: `POST {backend}/api/client/auth/refresh` with
/// `{ "refresh_token": token }`.
pub fn refresh_request(backend_url: &str, refresh_token: &str) -> (res: TokenRequest)
    ensures
        res.url@ == trim_trailing_slashes(backend_url@) + "/api/client/auth/refresh"@,
        res.body@ == "{"@ + json_quote("refresh_token"@) + ":"@ + json_quote(refresh_token@)
            + "}"@,
{
    TokenRequest {
        url: endpoint(backend_url, "/api/client/auth/refresh"),
        body: one_field_body("refresh_token", refresh_token),
    }
}

/// What the HTTP status of a token response means: 200 and 201 carry the
/// tokens (`Ok`), 401 and 403 reject the credentials, anything else is a
/// server error.
pub fn token_status(status: u16) -> (res: Result<(), AuthError>)
    ensures
        (status == 200 || status == 201) ==> res is Ok,
        (status == 401 || status == 403) ==> res matches Err(AuthError::Unauthorized),
        !(status == 200 || status == 201 || status == 401 || status == 403) ==> (res matches Err(
            AuthError::Other(m),
        ) && m@ == "erro do servidor (HTTP "@ + decimal(status as nat) + ")"@),
{
    if status == 200 || status == 201 {
        Ok(())
    } else if status == 401 || status == 403 {
        Err(AuthError::Unauthorized)
    } else {
        let mut m = String::from_str("erro do servidor (HTTP ");
        push_decimal(&mut m, status as u64);
        push_str(&mut m, ")");
        Err(AuthError::Other(m))
    }
}

// ---------------------------------------------------------------------------
// The pairing code typed by the user
// ---------------------------------------------------------------------------

/// What `str::to_uppercase` gives for `s` (Unicode full case mapping).
pub uninterp spec fn uppercase(s: Seq<char>) -> Seq<char>;

/// `str::to_uppercase`. Claims: the result is the named mapping of `s`, and
/// it is empty exactly when `s` is (each character maps to one or more
/// characters, as the documentation of `char::to_uppercase` says).
#[verifier::external_body]
fn to_uppercase(s: &str) -> (res: String)
    ensures
        res@ == uppercase(s@),
        res@.len() == 0 <==> s@.len() == 0,
{
    s.to_uppercase()
}

/// The pairing code as sent: trimmed and in upper case; an empty code is
/// refused with the message shown to the user.
pub fn pairing_code(code: &str) -> (res: Result<String, String>)
    ensures
        trim(code@).len() == 0 ==> (res matches Err(m) && m@
            == "digite o código de conexão gerado no site"@),
        trim(code@).len() != 0 ==> (res matches Ok(c) && c@ == uppercase(trim(code@))),
        res matches Ok(c) ==> c@.len() > 0,
{
    let t = trimmed(code);
    let upper = to_uppercase(t.as_str());
    if upper.as_str().is_empty() {
        return Err(String::from_str("digite o código de conexão gerado no site"));
    }
    Ok(upper)
}

// ---------------------------------------------------------------------------
// Laws
// ---------------------------------------------------------------------------

/// What was stored is what loads: once `store(t)` has run, every `load`
/// gives `t` back, whatever the credential store answers, and the session
/// stands; after `clear`, a load finds only what the store holds.
pub proof fn load_after_store(t: Tokens, stored: Option<Tokens>)
    ensures
        load_outcome(Some(t), stored) == Some(t),
        load_outcome(None, stored) == stored,
{
}

} // verus!
