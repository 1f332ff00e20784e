//! Version check. The backend is the source of truth: while a mandatory
//! update is pending, the client does not connect and drops every CS2 event.
use vstd::prelude::*;
use crate::text::{
    chars_of, has_prefix, split, split_bounds, starts_with_at, trim, trim_bounds,
};

verus! {

/// A pending mandatory update: the newest version and where to get it.
pub struct UpdateInfo {
    pub latest: String,
    pub url: String,
}

// ---------------------------------------------------------------------------
// Versions: simple x.y.z
// ---------------------------------------------------------------------------

pub open spec fn is_digit(c: char) -> bool {
    '0' <= c <= '9'
}

pub open spec fn all_digits(d: Seq<char>) -> bool {
    forall|i: int| 0 <= i < d.len() ==> is_digit(#[trigger] d[i])
}

/// The value of a run of decimal digits.
pub open spec fn digits_value(d: Seq<char>) -> nat
    decreases d.len(),
{
    if d.len() == 0 {
        0
    } else {
        digits_value(d.drop_last()) * 10 + ((d.last() as int) - ('0' as int)) as nat
    }
}

/// `str::parse::<u32>`: an optional `+`, then at least one ASCII digit, and
/// a value that fits in 32 bits.
pub open spec fn parse_u32(s: Seq<char>) -> Option<u32> {
    let d = if s.len() > 0 && s[0] == '+' { s.drop_first() } else { s };
    if d.len() == 0 || !all_digits(d) || digits_value(d) > u32::MAX {
        None
    } else {
        Some(digits_value(d) as u32)
    }
}

/// Part `i` of a version: the `i`-th piece between dots, trimmed and read
/// as a number; a missing or unreadable part counts as 0.
pub open spec fn version_part(s: Seq<char>, i: int) -> u32 {
    let parts = split(s, '.');
    if i < parts.len() {
        match parse_u32(trim(parts[i])) {
            Some(n) => n,
            None => 0,
        }
    } else {
        0
    }
}

pub open spec fn version_of(s: Seq<char>) -> (u32, u32, u32) {
    (version_part(s, 0), version_part(s, 1), version_part(s, 2))
}

pub open spec fn triple_less(a: (u32, u32, u32), b: (u32, u32, u32)) -> bool {
    ||| a.0 < b.0
    ||| a.0 == b.0 && a.1 < b.1
    ||| a.0 == b.0 && a.1 == b.1 && a.2 < b.2
}

/// `a` is an older version than `b`.
pub open spec fn version_older(a: Seq<char>, b: Seq<char>) -> bool {
    triple_less(version_of(a), version_of(b))
}

proof fn lemma_saturated_step(v: nat, d: nat)
    requires
        d < 10,
    ensures
        min_cap(v * 10 + d) == min_cap(min_cap(v) * 10 + d),
{
}

pub open spec fn min_cap(v: nat) -> nat {
    if v > 0x1_0000_0000 { 0x1_0000_0000 } else { v }
}

fn parse_u32_at(chars: &Vec<char>, from: usize, to: usize) -> (res: Option<u32>)
    requires
        from <= to <= chars@.len(),
    ensures
        res == parse_u32(chars@.subrange(from as int, to as int)),
{
    let ghost s = chars@.subrange(from as int, to as int);
    let mut k = from;
    if k < to && chars[k] == '+' {
        k = k + 1;
    }
    let ghost d = chars@.subrange(k as int, to as int);
    assert(d =~= (if s.len() > 0 && s[0] == '+' { s.drop_first() } else { s }));
    if k == to {
        return None;
    }
    let start = k;
    let mut acc: u64 = 0;
    while k < to
        invariant
            start <= k <= to <= chars@.len(),
            d == chars@.subrange(start as int, to as int),
            s == chars@.subrange(from as int, to as int),
            d == (if s.len() > 0 && s[0] == '+' { s.drop_first() } else { s }),
            d.len() > 0,
            all_digits(chars@.subrange(start as int, k as int)),
            acc == min_cap(digits_value(chars@.subrange(start as int, k as int))),
        decreases to - k,
    {
        let c = chars[k];
        if !('0' <= c && c <= '9') {
            assert(d[k - start] == c);
            assert(!is_digit(d[k - start]));
            assert(!all_digits(d));
            return None;
        }
        let dv = (c as u32 - '0' as u32) as u64;
        let ghost prefix = chars@.subrange(start as int, k + 1);
        assert(prefix.drop_last() =~= chars@.subrange(start as int, k as int));
        assert(prefix.last() == c);
        proof {
            lemma_saturated_step(digits_value(prefix.drop_last()), dv as nat);
        }
        let next = acc * 10 + dv;
        acc = if next > 0x1_0000_0000 { 0x1_0000_0000 } else { next };
        assert(all_digits(prefix)) by {
            assert forall|i: int| 0 <= i < prefix.len() implies is_digit(#[trigger] prefix[i]) by {
                if i < prefix.len() - 1 {
                    assert(prefix[i] == chars@.subrange(start as int, k as int)[i]);
                }
            }
        }
        k = k + 1;
    }
    assert(chars@.subrange(start as int, to as int) == d);
    if acc > 0xffff_ffff {
        None
    } else {
        Some(acc as u32)
    }
}

fn version_triple(s: &str) -> (res: (u32, u32, u32))
    ensures
        res == version_of(s@),
{
    let chars = chars_of(s);
    let parts = split_bounds(&chars, 0, chars.len(), '.');
    assert(chars@.subrange(0, chars@.len() as int) =~= s@);
    let mut out: [u32; 3] = [0, 0, 0];
    let mut idx: usize = 0;
    while idx < 3
        invariant
            idx <= 3,
            chars@ == s@,
            parts@.len() == split(s@, '.').len(),
            forall|k: int|
                0 <= k < parts@.len() ==> {
                    &&& 0 <= (#[trigger] parts@[k]).0 <= parts@[k].1 <= chars@.len()
                    &&& chars@.subrange(parts@[k].0 as int, parts@[k].1 as int) == split(s@, '.')[k]
                },
            forall|k: int| 0 <= k < idx ==> out@[k] == #[trigger] version_part(s@, k),
        decreases 3 - idx,
    {
        let v = if idx < parts.len() {
            let (a, b) = parts[idx];
            let (i, j) = trim_bounds(&chars, a, b);
            match parse_u32_at(&chars, i, j) {
                Some(n) => n,
                None => 0,
            }
        } else {
            0
        };
        out[idx] = v;
        idx = idx + 1;
    }
    (out[0], out[1], out[2])
}

/// `a < b` as simple versions (`x.y.z`; missing parts count as 0).
pub fn versao_menor(a: &str, b: &str) -> (res: bool)
    ensures
        res == version_older(a@, b@),
{
    let x = version_triple(a);
    let y = version_triple(b);
    x.0 < y.0 || (x.0 == y.0 && x.1 < y.1) || (x.0 == y.0 && x.1 == y.1 && x.2 < y.2)
}

/// The outcome of a successful version check: an update is required exactly
/// when this binary is older than the version the backend reports.
pub fn update_decision(current: &str, latest: String, url: String) -> (res: Option<UpdateInfo>)
    ensures
        version_older(current@, latest@) ==> res == Some(UpdateInfo { latest, url }),
        !version_older(current@, latest@) ==> res is None,
{
    if versao_menor(current, latest.as_str()) {
        Some(UpdateInfo { latest, url })
    } else {
        None
    }
}

/// Whether a download link may be handed to the system: http(s) only.
pub open spec fn is_web_link(url: Seq<char>) -> bool {
    has_prefix(url, "https://"@) || has_prefix(url, "http://"@)
}

/// The link of the pending update, refused unless it is an http(s) link
/// (the value comes from the backend and is handed to the system shell).
pub fn download_link(pending: &Option<UpdateInfo>) -> (res: Result<String, String>)
    ensures
        ({
            let url = match pending { Some(u) => u.url@, None => Seq::<char>::empty() };
            &&& is_web_link(url) ==> (res matches Ok(link) && link@ == url)
            &&& !is_web_link(url) ==> (res matches Err(msg)
                && msg@ == "o servidor não informou um link de download válido"@)
        }),
{
    let url = match pending {
        Some(u) => u.url.clone(),
        None => String::new(),
    };
    let chars = chars_of(url.as_str());
    let https = chars_of("https://");
    let http = chars_of("http://");
    assert(chars@.subrange(0, chars@.len() as int) =~= chars@);
    let ok = starts_with_at(&chars, 0, chars.len(), &https) || starts_with_at(
        &chars,
        0,
        chars.len(),
        &http,
    );
    if !ok {
        return Err(String::from_str("o servidor não informou um link de download válido"));
    }
    Ok(url)
}

// ---------------------------------------------------------------------------
// Laws
// ---------------------------------------------------------------------------

/// No version is older than itself.
pub proof fn version_older_irreflexive(a: Seq<char>)
    ensures
        !version_older(a, a),
{
}

/// Of two versions, at most one is older than the other.
pub proof fn version_older_asymmetric(a: Seq<char>, b: Seq<char>)
    requires
        version_older(a, b),
    ensures
        !version_older(b, a),
{
}

/// Older-than chains: `a < b < c` gives `a < c`.
pub proof fn version_older_transitive(a: Seq<char>, b: Seq<char>, c: Seq<char>)
    requires
        version_older(a, b),
        version_older(b, c),
    ensures
        version_older(a, c),
{
}

} // verus!
