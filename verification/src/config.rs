//! Configuration: the backend address, the local GSI port and the secret
//! token shared with CS2. Session tokens are not kept here.
use vstd::prelude::*;
use crate::text::{chars_of, has_prefix, hex_encode, hex_lower, push_chars, push_str};

verus! {

/// The default port of the local GSI server.
pub const DEFAULT_GSI_PORT: u16 = 3210;

/// The backend address used when the build sets none.
pub const DEFAULT_BACKEND_URL: &'static str = "http://localhost:4000";

/// The backend address, fixed in the binary: the build setting
/// (`RESENHA_BACKEND_URL` at compile time) when there is one, else
/// [`DEFAULT_BACKEND_URL`].
pub open spec fn backend_url_of(build_setting: Option<Seq<char>>) -> Seq<char> {
    match build_setting {
        Some(s) => s,
        None => DEFAULT_BACKEND_URL@,
    }
}

/// The backend address for the given build setting.
pub fn backend_url(build_setting: Option<&str>) -> (res: String)
    ensures
        res@ == backend_url_of(match build_setting { Some(s) => Some(s@), None => None }),
{
    match build_setting {
        Some(s) => String::from_str(s),
        None => String::from_str(DEFAULT_BACKEND_URL),
    }
}

/// The application configuration. Only the GSI port and token are kept in
/// `config.json`; the backend address is fixed in the binary.
pub struct AppConfig {
    /// Base URL of the backend (REST and WebSocket), from [`backend_url`];
    /// never read from or written to `config.json`, never shown.
    pub backend_url: String,
    /// Port of the local HTTP server that receives the GSI posts.
    pub gsi_port: u16,
    /// Secret token shared with CS2 through the `.cfg`; generated once on
    /// the first run and then kept stable.
    pub gsi_token: String,
}

impl Default for AppConfig {
    fn default() -> (res: Self)
        ensures
            res.backend_url@ == DEFAULT_BACKEND_URL@,
            res.gsi_port == DEFAULT_GSI_PORT,
            res.gsi_token@ == Seq::<char>::empty(),
    {
        AppConfig {
            backend_url: String::from_str(DEFAULT_BACKEND_URL),
            gsi_port: DEFAULT_GSI_PORT,
            gsi_token: String::new(),
        }
    }
}

/// `s` without its trailing slashes (`trim_end_matches('/')`).
pub open spec fn trim_trailing_slashes(s: Seq<char>) -> Seq<char>
    decreases s.len(),
{
    if s.len() > 0 && s.last() == '/' {
        trim_trailing_slashes(s.drop_last())
    } else {
        s
    }
}

/// The end of `chars` once trailing slashes are dropped.
pub(crate) fn trailing_slashes_start(chars: &Vec<char>) -> (res: usize)
    ensures
        res <= chars@.len(),
        chars@.take(res as int) == trim_trailing_slashes(chars@),
{
    let mut j = chars.len();
    assert(chars@.take(j as int) =~= chars@);
    while j > 0 && chars[j - 1] == '/'
        invariant
            j <= chars@.len(),
            trim_trailing_slashes(chars@.take(j as int)) == trim_trailing_slashes(chars@),
        decreases j,
    {
        assert(chars@.take(j as int).drop_last() =~= chars@.take(j - 1));
        j = j - 1;
    }
    j
}

/// The WebSocket address for a backend base URL: `http://x` gives
/// `ws://x/ws/client` and `https://x` gives `wss://x/ws/client`; anything
/// else is taken as a bare host for `ws://`.
pub open spec fn ws_url_of(backend: Seq<char>) -> Seq<char> {
    let base = trim_trailing_slashes(backend);
    let ws_base = if has_prefix(base, "https://"@) {
        "wss://"@ + base.skip(8)
    } else if has_prefix(base, "http://"@) {
        "ws://"@ + base.skip(7)
    } else {
        "ws://"@ + base
    };
    ws_base + "/ws/client"@
}

impl AppConfig {
    /// The configuration from what `config.json` holds and the backend
    /// address of this build.
    pub fn from_saved(gsi_port: u16, gsi_token: String, build_setting: Option<&str>) -> (res: AppConfig)
        ensures
            res.backend_url@ == backend_url_of(match build_setting { Some(s) => Some(s@), None => None }),
            res.gsi_port == gsi_port,
            res.gsi_token == gsi_token,
    {
        AppConfig { backend_url: backend_url(build_setting), gsi_port, gsi_token }
    }

    /// Derives the WebSocket URL from the backend base URL.
    pub fn ws_url(&self) -> (res: String)
        ensures
            res@ == ws_url_of(self.backend_url@),
    {
        let chars = chars_of(self.backend_url.as_str());
        let end = trailing_slashes_start(&chars);
        let ghost base = chars@.take(end as int);
        assert(chars@.subrange(0, end as int) =~= base);
        let https = chars_of("https://");
        let http = chars_of("http://");
        proof {
            reveal_strlit("https://");
            reveal_strlit("http://");
        }
        let mut out = String::new();
        if crate::text::starts_with_at(&chars, 0, end, &https) {
            push_str(&mut out, "wss://");
            push_chars(&mut out, &chars, 8, end);
            assert(chars@.subrange(8, end as int) =~= base.skip(8));
        } else if crate::text::starts_with_at(&chars, 0, end, &http) {
            push_str(&mut out, "ws://");
            push_chars(&mut out, &chars, 7, end);
            assert(chars@.subrange(7, end as int) =~= base.skip(7));
        } else {
            push_str(&mut out, "ws://");
            push_chars(&mut out, &chars, 0, end);
        }
        push_str(&mut out, "/ws/client");
        assert(out@ =~= ws_url_of(self.backend_url@));
        out
    }

    /// Generates the secret GSI token when there is none yet; an existing
    /// token is kept as it is (the installed `.cfg` depends on it).
    /// Returns whether a token was generated (and must be saved).
    pub fn fill_gsi_token(&mut self) -> (generated: bool)
        ensures
            generated == (old(self).gsi_token@.len() == 0),
            final(self).backend_url == old(self).backend_url,
            final(self).gsi_port == old(self).gsi_port,
            !generated ==> final(self).gsi_token == old(self).gsi_token,
            generated ==> is_token_text(final(self).gsi_token@),
    {
        if self.gsi_token.as_str().is_empty() {
            self.gsi_token = random_token();
            true
        } else {
            false
        }
    }
}

/// `n` bytes from the thread-local random generator of `rand`
/// (`rand::thread_rng().fill_bytes`). Claims only the length: the bytes are
/// random.
#[verifier::external_body]
fn random_bytes(n: usize) -> (res: Vec<u8>)
    ensures
        res@.len() == n,
{
    let mut bytes = vec![0u8; n];
    rand::RngCore::fill_bytes(&mut rand::thread_rng(), &mut bytes);
    bytes
}

/// A secret token: 32 random bytes in lowercase hex.
pub open spec fn is_token_text(t: Seq<char>) -> bool {
    exists|b: Seq<u8>| b.len() == 32 && t == #[trigger] hex_lower(b)
}

pub proof fn lemma_hex_lower_len(b: Seq<u8>)
    ensures
        hex_lower(b).len() == 2 * b.len(),
    decreases b.len(),
{
    if b.len() > 0 {
        lemma_hex_lower_len(b.drop_last());
    }
}

/// A fresh secret token: 32 random bytes written as 64 lowercase hex digits.
pub fn random_token() -> (res: String)
    ensures
        is_token_text(res@),
        res@.len() == 64,
{
    let bytes = random_bytes(32);
    let res = hex_encode(&bytes);
    proof {
        lemma_hex_lower_len(bytes@);
    }
    res
}

// ---------------------------------------------------------------------------
// Laws
// ---------------------------------------------------------------------------

/// A secure backend gives a secure socket: `https://` becomes `wss://`.
pub proof fn https_backend_gives_wss(backend: Seq<char>)
    requires
        has_prefix(trim_trailing_slashes(backend), "https://"@),
    ensures
        has_prefix(ws_url_of(backend), "wss://"@),
{
    reveal_strlit("wss://");
    let w = ws_url_of(backend);
    let base = trim_trailing_slashes(backend);
    assert(w == "wss://"@ + base.skip(8) + "/ws/client"@);
    assert(w.take(6) =~= "wss://"@);
}

/// Whatever the backend address, the socket path is `/ws/client`.
pub proof fn ws_url_ends_with_client_path(backend: Seq<char>)
    ensures
        ws_url_of(backend).len() >= 10,
        ws_url_of(backend).skip(ws_url_of(backend).len() - 10) == "/ws/client"@,
{
    reveal_strlit("/ws/client");
    let w = ws_url_of(backend);
    let base = trim_trailing_slashes(backend);
    let ws_base = if has_prefix(base, "https://"@) {
        "wss://"@ + base.skip(8)
    } else if has_prefix(base, "http://"@) {
        "ws://"@ + base.skip(7)
    } else {
        "ws://"@ + base
    };
    assert(w == ws_base + "/ws/client"@);
    assert(w.skip(w.len() - 10) =~= "/ws/client"@);
}

} // verus!
