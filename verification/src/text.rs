//! Character-level text helpers shared by the other modules: Unicode
//! whitespace and trimming, splitting on a separator, decimal and hex
//! rendering, and string comparison.
use vstd::prelude::*;

verus! {

/// Appends one character to a string (`String::push`).
/// Claims: the new text is the old text with `c` appended.
#[verifier::external_body]
pub(crate) fn push_char(s: &mut String, c: char)
    ensures
        final(s)@ == old(s)@.push(c),
{
    s.push(c);
}

/// The characters of `s`, in order.
pub fn chars_of(s: &str) -> (res: Vec<char>)
    ensures
        res@ == s@,
{
    let mut res: Vec<char> = Vec::new();
    for c in it: s.chars()
        invariant
            res@ == it.seq().take(it.index() as int),
    {
        res.push(c);
    }
    res
}

/// Appends the characters `chars[from..to]` to `out`.
pub fn push_chars(out: &mut String, chars: &Vec<char>, from: usize, to: usize)
    requires
        from <= to <= chars@.len(),
    ensures
        final(out)@ == old(out)@ + chars@.subrange(from as int, to as int),
{
    let mut i = from;
    while i < to
        invariant
            from <= i <= to <= chars@.len(),
            out@ == old(out)@ + chars@.subrange(from as int, i as int),
        decreases to - i,
    {
        push_char(out, chars[i]);
        assert(chars@.subrange(from as int, i + 1) =~= chars@.subrange(from as int, i as int).push(
            chars@[i as int],
        ));
        i = i + 1;
    }
}

/// A string made of the characters `chars[from..to]`.
pub fn string_of(chars: &Vec<char>, from: usize, to: usize) -> (res: String)
    requires
        from <= to <= chars@.len(),
    ensures
        res@ == chars@.subrange(from as int, to as int),
{
    let mut res = String::new();
    push_chars(&mut res, chars, from, to);
    assert(res@ =~= chars@.subrange(from as int, to as int));
    res
}

/// Appends a string slice to `out`.
pub fn push_str(out: &mut String, s: &str)
    ensures
        final(out)@ == old(out)@ + s@,
{
    out.append(s);
}

/// Whether `s` reads exactly `lit`.
pub fn eq_str(s: &String, lit: &str) -> (res: bool)
    ensures
        res == (s@ == lit@),
{
    let other = String::from_str(lit);
    *s == other
}

/// Whether two optional strings are both absent or read the same.
pub fn eq_opt(a: &Option<String>, b: &Option<String>) -> (res: bool)
    ensures
        res == (a.deep_view() == b.deep_view()),
{
    match (a, b) {
        (Some(x), Some(y)) => *x == *y,
        (None, None) => true,
        _ => false,
    }
}

/// Whether an optional string is present and reads exactly `lit`.
pub fn is_some_str(a: &Option<String>, lit: &str) -> (res: bool)
    ensures
        res == (a.deep_view() == Some(lit@)),
{
    match a {
        Some(x) => eq_str(x, lit),
        None => false,
    }
}

/// Copies an optional string.
pub fn copy_opt(a: &Option<String>) -> (res: Option<String>)
    ensures
        res == *a,
{
    match a {
        Some(x) => Some(x.clone()),
        None => None,
    }
}

// ---------------------------------------------------------------------------
// Whitespace and trimming
// ---------------------------------------------------------------------------

/// The characters with the Unicode `White_Space` property, which is what
/// `char::is_whitespace` and `str::trim` go by.
pub open spec fn is_ws(c: char) -> bool {
    ||| ('\u{9}' <= c <= '\u{d}')
    ||| c == ' '
    ||| c == '\u{85}'
    ||| c == '\u{a0}'
    ||| c == '\u{1680}'
    ||| ('\u{2000}' <= c <= '\u{200a}')
    ||| c == '\u{2028}'
    ||| c == '\u{2029}'
    ||| c == '\u{202f}'
    ||| c == '\u{205f}'
    ||| c == '\u{3000}'
}

pub fn is_whitespace(c: char) -> (res: bool)
    ensures
        res == is_ws(c),
{
    ('\u{9}' <= c && c <= '\u{d}') || c == ' ' || c == '\u{85}' || c == '\u{a0}' || c == '\u{1680}'
        || ('\u{2000}' <= c && c <= '\u{200a}') || c == '\u{2028}' || c == '\u{2029}' || c
        == '\u{202f}' || c == '\u{205f}' || c == '\u{3000}'
}

/// `s` without its leading whitespace.
pub open spec fn trim_start(s: Seq<char>) -> Seq<char>
    decreases s.len(),
{
    if s.len() > 0 && is_ws(s[0]) {
        trim_start(s.drop_first())
    } else {
        s
    }
}

/// `s` without its trailing whitespace.
pub open spec fn trim_end(s: Seq<char>) -> Seq<char>
    decreases s.len(),
{
    if s.len() > 0 && is_ws(s.last()) {
        trim_end(s.drop_last())
    } else {
        s
    }
}

/// `s` without leading and trailing whitespace, as `str::trim` gives it.
pub open spec fn trim(s: Seq<char>) -> Seq<char> {
    trim_end(trim_start(s))
}

/// The bounds `(i, j)` of `trim(chars[from..to])` inside `chars`.
pub fn trim_bounds(chars: &Vec<char>, from: usize, to: usize) -> (res: (usize, usize))
    requires
        from <= to <= chars@.len(),
    ensures
        from <= res.0 <= res.1 <= to,
        chars@.subrange(res.0 as int, res.1 as int) == trim(
            chars@.subrange(from as int, to as int),
        ),
{
    let ghost whole = chars@.subrange(from as int, to as int);
    let mut i = from;
    while i < to && is_whitespace(chars[i])
        invariant
            from <= i <= to <= chars@.len(),
            whole == chars@.subrange(from as int, to as int),
            trim_start(chars@.subrange(i as int, to as int)) == trim_start(whole),
        decreases to - i,
    {
        assert(chars@.subrange(i as int, to as int).drop_first() =~= chars@.subrange(
            i + 1,
            to as int,
        ));
        i = i + 1;
    }
    assert(trim_start(chars@.subrange(i as int, to as int)) == chars@.subrange(i as int, to as int));
    let mut j = to;
    while j > i && is_whitespace(chars[j - 1])
        invariant
            from <= i <= j <= to <= chars@.len(),
            trim_end(chars@.subrange(i as int, j as int)) == trim(whole),
        decreases j - i,
    {
        assert(chars@.subrange(i as int, j as int).drop_last() =~= chars@.subrange(
            i as int,
            j - 1,
        ));
        j = j - 1;
    }
    (i, j)
}

/// `str::trim`, as an owned string.
pub fn trimmed(s: &str) -> (res: String)
    ensures
        res@ == trim(s@),
{
    let chars = chars_of(s);
    let (i, j) = trim_bounds(&chars, 0, chars.len());
    assert(chars@.subrange(0, chars@.len() as int) =~= chars@);
    string_of(&chars, i, j)
}

// ---------------------------------------------------------------------------
// Prefixes and splitting
// ---------------------------------------------------------------------------

/// Whether `s` begins with `prefix`.
pub open spec fn has_prefix(s: Seq<char>, prefix: Seq<char>) -> bool {
    prefix.len() <= s.len() && s.take(prefix.len() as int) == prefix
}

/// Whether `chars[from..to]` begins with `prefix`.
pub fn starts_with_at(chars: &Vec<char>, from: usize, to: usize, prefix: &Vec<char>) -> (res: bool)
    requires
        from <= to <= chars@.len(),
    ensures
        res == has_prefix(chars@.subrange(from as int, to as int), prefix@),
{
    let ghost s = chars@.subrange(from as int, to as int);
    if prefix.len() > to - from {
        return false;
    }
    let mut k: usize = 0;
    while k < prefix.len()
        invariant
            from <= to <= chars@.len(),
            prefix@.len() <= to - from,
            s == chars@.subrange(from as int, to as int),
            k <= prefix@.len(),
            forall|m: int| 0 <= m < k ==> s[m] == prefix@[m],
        decreases prefix@.len() - k,
    {
        if chars[from + k] != prefix[k] {
            assert(s.take(prefix@.len() as int)[k as int] != prefix@[k as int]);
            return false;
        }
        k = k + 1;
    }
    assert(s.take(prefix@.len() as int) =~= prefix@);
    true
}

/// The pieces of `s` between occurrences of `sep`, with `cur` standing
/// before the first piece; `str::split` with a `char` pattern.
pub open spec fn split_from(s: Seq<char>, sep: char, cur: Seq<char>) -> Seq<Seq<char>>
    decreases s.len(),
{
    if s.len() == 0 {
        seq![cur]
    } else if s[0] == sep {
        seq![cur] + split_from(s.drop_first(), sep, Seq::empty())
    } else {
        split_from(s.drop_first(), sep, cur.push(s[0]))
    }
}

/// `s.split(sep)`: never empty; one more piece than there are separators.
pub open spec fn split(s: Seq<char>, sep: char) -> Seq<Seq<char>> {
    split_from(s, sep, Seq::empty())
}

/// The pieces of `chars[from..to]` split on `sep`, each as `(start, end)`
/// bounds inside `chars`.
pub fn split_bounds(chars: &Vec<char>, from: usize, to: usize, sep: char) -> (res: Vec<(usize, usize)>)
    requires
        from <= to <= chars@.len(),
    ensures
        res@.len() == split(chars@.subrange(from as int, to as int), sep).len(),
        forall|k: int|
            0 <= k < res@.len() ==> {
                &&& from <= (#[trigger] res@[k]).0 <= res@[k].1 <= to
                &&& chars@.subrange(res@[k].0 as int, res@[k].1 as int) == split(
                    chars@.subrange(from as int, to as int),
                    sep,
                )[k]
            },
{
    let ghost whole = chars@.subrange(from as int, to as int);
    let mut res: Vec<(usize, usize)> = Vec::new();
    let mut start = from;
    let mut i = from;
    let ghost mut done: Seq<Seq<char>> = Seq::empty();
    assert(chars@.subrange(from as int, from as int) =~= Seq::<char>::empty());
    assert(done + split(whole, sep) =~= split(whole, sep));
    while i < to
        invariant
            from <= start <= i <= to <= chars@.len(),
            whole == chars@.subrange(from as int, to as int),
            res@.len() == done.len(),
            forall|k: int|
                0 <= k < res@.len() ==> {
                    &&& from <= (#[trigger] res@[k]).0 <= res@[k].1 <= to
                    &&& chars@.subrange(res@[k].0 as int, res@[k].1 as int) == done[k]
                },
            split(whole, sep) == done + split_from(
                chars@.subrange(i as int, to as int),
                sep,
                chars@.subrange(start as int, i as int),
            ),
        decreases to - i,
    {
        let ghost rest = chars@.subrange(i as int, to as int);
        assert(rest.drop_first() =~= chars@.subrange(i + 1, to as int));
        if chars[i] == sep {
            let ghost piece = chars@.subrange(start as int, i as int);
            res.push((start, i));
            proof {
                assert(split_from(rest, sep, piece) == seq![piece] + split_from(
                    rest.drop_first(),
                    sep,
                    Seq::empty(),
                ));
                assert(chars@.subrange(i + 1, i + 1) =~= Seq::<char>::empty());
                assert(done.push(piece) + split_from(rest.drop_first(), sep, Seq::empty()) =~= done
                    + (seq![piece] + split_from(rest.drop_first(), sep, Seq::empty())));
                done = done.push(piece);
            }
            i = i + 1;
            start = i;
        } else {
            proof {
                assert(chars@.subrange(start as int, i + 1) =~= chars@.subrange(
                    start as int,
                    i as int,
                ).push(chars@[i as int]));
            }
            i = i + 1;
        }
    }
    proof {
        let piece = chars@.subrange(start as int, to as int);
        assert(chars@.subrange(to as int, to as int) =~= Seq::<char>::empty());
        assert(split_from(Seq::<char>::empty(), sep, piece) == seq![piece]);
        assert(split(whole, sep) =~= done.push(piece));
    }
    res.push((start, to));
    proof {
        let piece = chars@.subrange(start as int, to as int);
        done = done.push(piece);
    }
    res
}

// ---------------------------------------------------------------------------
// Numbers as text
// ---------------------------------------------------------------------------

/// The ASCII digit for `d < 10`.
pub open spec fn digit_char(d: nat) -> char {
    if d == 0 { '0' }
    else if d == 1 { '1' }
    else if d == 2 { '2' }
    else if d == 3 { '3' }
    else if d == 4 { '4' }
    else if d == 5 { '5' }
    else if d == 6 { '6' }
    else if d == 7 { '7' }
    else if d == 8 { '8' }
    else { '9' }
}

/// The decimal digits of `n`, without leading zeros (`"0"` for zero).
pub open spec fn decimal(n: nat) -> Seq<char>
    decreases n,
{
    if n < 10 {
        seq![digit_char(n)]
    } else {
        decimal(n / 10).push(digit_char(n % 10))
    }
}

fn digit_of(d: u64) -> (c: char)
    requires
        d < 10,
    ensures
        c == digit_char(d as nat),
{
    if d == 0 { '0' }
    else if d == 1 { '1' }
    else if d == 2 { '2' }
    else if d == 3 { '3' }
    else if d == 4 { '4' }
    else if d == 5 { '5' }
    else if d == 6 { '6' }
    else if d == 7 { '7' }
    else if d == 8 { '8' }
    else { '9' }
}

/// Appends the decimal digits of `n` to `out`.
pub fn push_decimal(out: &mut String, n: u64)
    ensures
        final(out)@ == old(out)@ + decimal(n as nat),
    decreases n,
{
    if n >= 10 {
        push_decimal(out, n / 10);
    }
    push_char(out, digit_of(n % 10));
    assert(final(out)@ =~= old(out)@ + decimal(n as nat));
}

/// The lowercase hex digit for `d < 16`.
pub open spec fn hex_char(d: nat) -> char {
    if d < 10 {
        digit_char(d)
    } else if d == 10 { 'a' }
    else if d == 11 { 'b' }
    else if d == 12 { 'c' }
    else if d == 13 { 'd' }
    else if d == 14 { 'e' }
    else { 'f' }
}

/// Two lowercase hex digits per byte, high nibble first (`{:02x}` per byte).
pub open spec fn hex_lower(bytes: Seq<u8>) -> Seq<char>
    decreases bytes.len(),
{
    if bytes.len() == 0 {
        Seq::empty()
    } else {
        hex_lower(bytes.drop_last()) + seq![
            hex_char((bytes.last() / 16) as nat),
            hex_char((bytes.last() % 16) as nat),
        ]
    }
}

fn hex_digit_of(d: u8) -> (c: char)
    requires
        d < 16,
    ensures
        c == hex_char(d as nat),
{
    if d < 10 {
        digit_of(d as u64)
    } else if d == 10 { 'a' }
    else if d == 11 { 'b' }
    else if d == 12 { 'c' }
    else if d == 13 { 'd' }
    else if d == 14 { 'e' }
    else { 'f' }
}

/// Lowercase hex encoding of `bytes`.
pub fn hex_encode(bytes: &Vec<u8>) -> (res: String)
    ensures
        res@ == hex_lower(bytes@),
{
    let mut res = String::new();
    let mut i: usize = 0;
    while i < bytes.len()
        invariant
            i <= bytes@.len(),
            res@ == hex_lower(bytes@.take(i as int)),
        decreases bytes@.len() - i,
    {
        let b = bytes[i];
        push_char(&mut res, hex_digit_of(b / 16));
        push_char(&mut res, hex_digit_of(b % 16));
        assert(bytes@.take(i + 1).drop_last() =~= bytes@.take(i as int));
        i = i + 1;
    }
    assert(bytes@.take(bytes@.len() as int) =~= bytes@);
    res
}

} // verus!
