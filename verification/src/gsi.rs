//! Game State Integration: the `.cfg` file that makes CS2 post its state to
//! the local server, finding the Steam libraries that may hold CS2, and the
//! check of the secret token that every post must carry.
use vstd::prelude::*;
use crate::json::{json_str_at, JsonDoc};
use crate::text::{
    chars_of, decimal, has_prefix, push_char, push_decimal, push_str, split, split_bounds,
    starts_with_at, string_of, trim, trim_bounds,
};

verus! {

/// The name of the file placed in CS2's `csgo/cfg` folder.
pub const GSI_FILE: &'static str = "gamestate_integration_resenha.cfg";

// ---------------------------------------------------------------------------
// The .cfg file (Valve KeyValues)
// ---------------------------------------------------------------------------

pub open spec fn cfg_head() -> Seq<char> {
    "\"Resenha Client\"\n{\n    \"uri\" \"http://127.0.0.1:"@
}

pub open spec fn cfg_middle() -> Seq<char> {
    "/\"\n    \"timeout\" \"5.0\"\n    \"buffer\" \"0.1\"\n    \"throttle\" \"0.1\"\n    \"heartbeat\" \"30.0\"\n    \"auth\"\n    {\n        \"token\" \""@
}

pub open spec fn cfg_tail() -> Seq<char> {
    "\"\n    }\n    \"data\"\n    {\n        \"provider\"            \"1\"\n        \"map\"                 \"1\"\n        \"round\"               \"1\"\n        \"player_id\"           \"1\"\n        \"player_state\"        \"1\"\n        \"player_match_stats\"  \"1\"\n        \"player_weapons\"      \"1\"\n    }\n}\n"@
}

/// The text of the `.cfg`: CS2 posts to `http://127.0.0.1:{port}/` with
/// `auth.token` set to `token`.
pub open spec fn cfg_text(token: Seq<char>, port: u16) -> Seq<char> {
    cfg_head() + decimal(port as nat) + cfg_middle() + token + cfg_tail()
}

/// Renders the `.cfg` for the given secret token and local port.
pub fn render_cfg(token: &str, port: u16) -> (res: String)
    ensures
        res@ == cfg_text(token@, port),
{
    let mut out = String::new();
    push_str(&mut out, "\"Resenha Client\"\n{\n    \"uri\" \"http://127.0.0.1:");
    push_decimal(&mut out, port as u64);
    push_str(&mut out, "/\"\n    \"timeout\" \"5.0\"\n    \"buffer\" \"0.1\"\n    \"throttle\" \"0.1\"\n    \"heartbeat\" \"30.0\"\n    \"auth\"\n    {\n        \"token\" \"");
    push_str(&mut out, token);
    push_str(&mut out, "\"\n    }\n    \"data\"\n    {\n        \"provider\"            \"1\"\n        \"map\"                 \"1\"\n        \"round\"               \"1\"\n        \"player_id\"           \"1\"\n        \"player_state\"        \"1\"\n        \"player_match_stats\"  \"1\"\n        \"player_weapons\"      \"1\"\n    }\n}\n");
    assert(out@ =~= cfg_text(token@, port));
    out
}

/// Whether the file must be (re)written: the installed file is fixed and is
/// only rewritten when it is missing or its content differs.
pub fn cfg_needs_write(current: &Option<String>, content: &String) -> (res: bool)
    ensures
        res == (current.deep_view() != Some(content@)),
{
    match current {
        Some(c) => !(*c == *content),
        None => true,
    }
}

/// The `.cfg` names its token unambiguously: two texts for the same port
/// are equal only for the same token, so a changed token is always written
/// and an unchanged one never is.
pub proof fn cfg_text_determines_token(t1: Seq<char>, t2: Seq<char>, port: u16)
    requires
        cfg_text(t1, port) == cfg_text(t2, port),
    ensures
        t1 == t2,
{
    let p = cfg_head() + decimal(port as nat) + cfg_middle();
    let a = cfg_text(t1, port);
    let b = cfg_text(t2, port);
    assert(a == p + t1 + cfg_tail());
    assert(b == p + t2 + cfg_tail());
    assert(t1.len() == t2.len());
    assert forall|i: int| 0 <= i < t1.len() implies t1[i] == t2[i] by {
        assert(a[p.len() + i] == t1[i]);
        assert(b[p.len() + i] == t2[i]);
    }
    assert(t1 =~= t2);
}

// ---------------------------------------------------------------------------
// Steam libraries (libraryfolders.vdf)
// ---------------------------------------------------------------------------

/// `s` with every pair of backslashes, scanned from the left, made one
/// (`str::replace("\\\\", "\\")`).
pub open spec fn collapse_backslashes(s: Seq<char>) -> Seq<char>
    decreases s.len(),
{
    if s.len() == 0 {
        Seq::empty()
    } else if s.len() >= 2 && s[0] == '\\' && s[1] == '\\' {
        seq!['\\'] + collapse_backslashes(s.skip(2))
    } else {
        seq![s[0]] + collapse_backslashes(s.skip(1))
    }
}

/// The library path on a `"path"  "D:\\SteamLibrary"` line: the fourth
/// piece between double quotes, unescaped.
pub open spec fn vdf_line_path(line: Seq<char>) -> Option<Seq<char>> {
    let t = trim(line);
    if has_prefix(t, "\"path\""@) && split(t, '"').len() > 3 {
        Some(collapse_backslashes(split(t, '"')[3]))
    } else {
        None
    }
}

pub open spec fn paths_of_lines(lines: Seq<Seq<char>>) -> Seq<Seq<char>>
    decreases lines.len(),
{
    if lines.len() == 0 {
        Seq::empty()
    } else {
        let rest = paths_of_lines(lines.drop_last());
        match vdf_line_path(lines.last()) {
            Some(p) => rest.push(p),
            None => rest,
        }
    }
}

/// Every library path listed in a `libraryfolders.vdf`, in file order.
/// (Lines are taken between `\n`; a `\r` before it is whitespace that the
/// trimming removes, as with `str::lines`.)
pub open spec fn library_paths_of(vdf: Seq<char>) -> Seq<Seq<char>> {
    paths_of_lines(split(vdf, '\n'))
}

fn collapse_into(out: &mut String, chars: &Vec<char>, from: usize, to: usize)
    requires
        from <= to <= chars@.len(),
    ensures
        final(out)@ == old(out)@ + collapse_backslashes(chars@.subrange(from as int, to as int)),
{
    let mut i = from;
    while i < to
        invariant
            from <= i <= to <= chars@.len(),
            out@ + collapse_backslashes(chars@.subrange(i as int, to as int)) == old(out)@
                + collapse_backslashes(chars@.subrange(from as int, to as int)),
        decreases to - i,
    {
        let ghost s = chars@.subrange(i as int, to as int);
        let ghost before = out@;
        if i + 1 < to && chars[i] == '\\' && chars[i + 1] == '\\' {
            push_char(out, '\\');
            assert(s.skip(2) =~= chars@.subrange(i + 2, to as int));
            assert(before + collapse_backslashes(s) =~= out@ + collapse_backslashes(s.skip(2)));
            i = i + 2;
        } else {
            push_char(out, chars[i]);
            assert(s.skip(1) =~= chars@.subrange(i + 1, to as int));
            assert(before + collapse_backslashes(s) =~= out@ + collapse_backslashes(s.skip(1)));
            i = i + 1;
        }
    }
    assert(chars@.subrange(to as int, to as int) =~= Seq::<char>::empty());
    assert(out@ =~= old(out)@ + collapse_backslashes(chars@.subrange(from as int, to as int)));
}

fn line_path(chars: &Vec<char>, from: usize, to: usize, key: &Vec<char>) -> (res: Option<String>)
    requires
        from <= to <= chars@.len(),
        key@ == "\"path\""@,
    ensures
        res.deep_view() == vdf_line_path(chars@.subrange(from as int, to as int)),
{
    let (i, j) = trim_bounds(chars, from, to);
    if !starts_with_at(chars, i, j, key) {
        return None;
    }
    let parts = split_bounds(chars, i, j, '"');
    if parts.len() <= 3 {
        return None;
    }
    let (a, b) = parts[3];
    let mut out = String::new();
    collapse_into(&mut out, chars, a, b);
    assert(out@ =~= collapse_backslashes(chars@.subrange(a as int, b as int)));
    Some(out)
}

/// The Steam library folders listed in the text of `libraryfolders.vdf`.
pub fn library_paths(vdf: &str) -> (res: Vec<String>)
    ensures
        res.deep_view() == library_paths_of(vdf@),
{
    let chars = chars_of(vdf);
    let key = chars_of("\"path\"");
    let lines = split_bounds(&chars, 0, chars.len(), '\n');
    let ghost ls = split(chars@.subrange(0, chars@.len() as int), '\n');
    assert(chars@.subrange(0, chars@.len() as int) =~= vdf@);
    let mut res: Vec<String> = Vec::new();
    let mut k: usize = 0;
    while k < lines.len()
        invariant
            k <= lines@.len(),
            lines@.len() == ls.len(),
            ls == split(vdf@, '\n'),
            chars@ == vdf@,
            key@ == "\"path\""@,
            forall|m: int|
                0 <= m < lines@.len() ==> {
                    &&& 0 <= (#[trigger] lines@[m]).0 <= lines@[m].1 <= chars@.len()
                    &&& chars@.subrange(lines@[m].0 as int, lines@[m].1 as int) == ls[m]
                },
            res.deep_view() == paths_of_lines(ls.take(k as int)),
        decreases lines@.len() - k,
    {
        let (a, b) = lines[k];
        let p = line_path(&chars, a, b, &key);
        assert(ls.take(k + 1).drop_last() =~= ls.take(k as int));
        assert(ls.take(k + 1).last() == ls[k as int]);
        match p {
            Some(path) => {
                res.push(path);
            },
            None => {},
        }
        assert(res.deep_view() =~= paths_of_lines(ls.take(k + 1)));
        k = k + 1;
    }
    assert(ls.take(lines@.len() as int) =~= ls);
    res
}

// ---------------------------------------------------------------------------
// Local security: the secret token
// ---------------------------------------------------------------------------

/// Constant-time comparison of two byte strings (no early exit once the
/// lengths agree), so that a local process cannot time its way to the token.
pub fn constant_time_eq(a: &[u8], b: &[u8]) -> (res: bool)
    ensures
        res == (a@ == b@),
{
    if a.len() != b.len() {
        return false;
    }
    let mut diff: u8 = 0;
    let mut i: usize = 0;
    while i < a.len()
        invariant
            a@.len() == b@.len(),
            i <= a@.len(),
            (diff == 0) == (forall|k: int| 0 <= k < i ==> a@[k] == b@[k]),
        decreases a@.len() - i,
    {
        let x = a[i];
        let y = b[i];
        let d = diff | (x ^ y);
        assert((d == 0) == (diff == 0 && x == y)) by (bit_vector)
            requires
                d == diff | (x ^ y),
        ;
        diff = d;
        i = i + 1;
    }
    assert((forall|k: int| 0 <= k < a@.len() ==> a@[k] == b@[k]) ==> a@ =~= b@);
    diff == 0
}

/// The token a post carries (`auth.token`, or empty when missing).
pub open spec fn posted_token(text: Seq<char>) -> Seq<char> {
    match json_str_at(text, "/auth/token"@) {
        Some(t) => t,
        None => Seq::empty(),
    }
}

/// Whether the post carries the expected secret token.
pub(crate) fn token_matches(doc: &JsonDoc, expected: &str) -> (res: bool)
    ensures
        res == (posted_token(doc@) == expected@),
{
    let provided = match doc.str_at("/auth/token") {
        Some(t) => t,
        None => String::new(),
    };
    let pb = provided.as_str().as_bytes();
    let eb = expected.as_bytes();
    let res = constant_time_eq(pb, eb);
    proof {
        vstd::utf8::encode_utf8_decode_utf8(provided@);
        vstd::utf8::encode_utf8_decode_utf8(expected@);
    }
    res
}

} // verus!
