//! Character-level helpers: whitespace trimming, comma splitting, ASCII
//! upper-casing and decimal rendering, each stated over `Seq<char>`.
use vstd::prelude::*;

verus! {

/// The characters that `char::is_whitespace` accepts (the Unicode
/// `White_Space` property).
pub open spec fn is_ws(c: char) -> bool {
    ('\u{9}' <= c && c <= '\u{d}') || c == ' ' || c == '\u{85}' || c == '\u{a0}'
        || c == '\u{1680}' || ('\u{2000}' <= c && c <= '\u{200a}') || c == '\u{2028}'
        || c == '\u{2029}' || c == '\u{202f}' || c == '\u{205f}' || c == '\u{3000}'
}

/// `s` without its leading whitespace.
pub open spec fn trim_start(s: Seq<char>) -> Seq<char>
    decreases s.len(),
{
    if s.len() > 0 && is_ws(s[0]) {
        trim_start(s.drop_first())
    } else {
        s
    }
}

/// `s` without its trailing whitespace.
pub open spec fn trim_end(s: Seq<char>) -> Seq<char>
    decreases s.len(),
{
    if s.len() > 0 && is_ws(s.last()) {
        trim_end(s.drop_last())
    } else {
        s
    }
}

/// `s` without leading and trailing whitespace.
pub open spec fn trim(s: Seq<char>) -> Seq<char> {
    trim_end(trim_start(s))
}

pub fn is_whitespace(c: char) -> (r: bool)
    ensures
        r == is_ws(c),
{
    ('\u{9}' <= c && c <= '\u{d}') || c == ' ' || c == '\u{85}' || c == '\u{a0}'
        || c == '\u{1680}' || ('\u{2000}' <= c && c <= '\u{200a}') || c == '\u{2028}'
        || c == '\u{2029}' || c == '\u{202f}' || c == '\u{205f}' || c == '\u{3000}'
}

/// Relies on `String::push`: appends one character.
#[verifier::external_body]
pub(crate) fn push_char(s: &mut String, c: char)
    ensures
        final(s)@ == old(s)@.push(c),
{
    s.push(c)
}

/// Relies on `String::push_str`: appends the characters of `t`.
#[verifier::external_body]
pub(crate) fn push_str(s: &mut String, t: &str)
    ensures
        final(s)@ == old(s)@ + t@,
{
    s.push_str(t)
}

/// The characters of `s`, in order.
pub fn chars_of(s: &str) -> (r: Vec<char>)
    ensures
        r@ == s@,
{
    let mut r: Vec<char> = Vec::new();
    for c in it: s.chars()
        invariant
            it.seq() == s@,
            r@ == it.seq().subrange(0, it.index() as int),
    {
        r.push(c);
    }
    r
}

/// `c` with ASCII `a`..=`z` mapped to `A`..=`Z`, as `char::to_ascii_uppercase`.
pub open spec fn upper_char(c: char) -> char {
    if 'a' <= c && c <= 'z' {
        ((c as u8) - 32) as char
    } else {
        c
    }
}

pub open spec fn upper_seq(s: Seq<char>) -> Seq<char> {
    s.map_values(|c: char| upper_char(c))
}

pub fn to_upper_ascii(c: char) -> (r: char)
    ensures
        r == upper_char(c),
{
    if 'a' <= c && c <= 'z' {
        ((c as u8) - 32) as char
    } else {
        c
    }
}

/// A token as it is kept: upper-cased when `upper` holds.
pub open spec fn canon(t: Seq<char>, upper: bool) -> Seq<char> {
    if upper {
        upper_seq(t)
    } else {
        t
    }
}

/// The views of a sequence of strings.
pub open spec fn strs(v: Seq<String>) -> Seq<Seq<char>> {
    v.map_values(|s: String| s@)
}

/// The pieces of `s` between commas (one more than the commas it holds).
pub open spec fn fields(s: Seq<char>) -> Seq<Seq<char>>
    decreases s.len(),
{
    if s.len() == 0 {
        seq![Seq::<char>::empty()]
    } else {
        let p = fields(s.drop_last());
        if s.last() == ',' {
            p.push(Seq::<char>::empty())
        } else {
            p.update(p.len() - 1, p.last().push(s.last()))
        }
    }
}

/// The trimmed, non-empty pieces of `fs`, in order, each in canonical case.
pub open spec fn keep_tokens(fs: Seq<Seq<char>>, upper: bool) -> Seq<Seq<char>>
    decreases fs.len(),
{
    if fs.len() == 0 {
        Seq::empty()
    } else {
        let prev = keep_tokens(fs.drop_last(), upper);
        let t = trim(fs.last());
        if t.len() == 0 {
            prev
        } else {
            prev.push(canon(t, upper))
        }
    }
}

/// The tokens of a comma-separated list: split on commas, each piece
/// trimmed, empty pieces dropped.
pub open spec fn csv_tokens(s: Seq<char>, upper: bool) -> Seq<Seq<char>> {
    keep_tokens(fields(s), upper)
}

pub proof fn lemma_fields_nonempty(s: Seq<char>)
    ensures
        fields(s).len() >= 1,
    decreases s.len(),
{
    if s.len() > 0 {
        lemma_fields_nonempty(s.drop_last());
    }
}

/// The string made of `cs[lo..hi]`, upper-cased when `upper` holds.
pub fn string_of(cs: &Vec<char>, lo: usize, hi: usize, upper: bool) -> (r: String)
    requires
        lo <= hi <= cs.len(),
    ensures
        r@ == canon(cs@.subrange(lo as int, hi as int), upper),
{
    let mut r = String::new();
    let mut i: usize = lo;
    while i < hi
        invariant
            lo <= i <= hi <= cs.len(),
            r@ == canon(cs@.subrange(lo as int, i as int), upper),
        decreases hi - i,
    {
        let c = if upper {
            to_upper_ascii(cs[i])
        } else {
            cs[i]
        };
        push_char(&mut r, c);
        i = i + 1;
        assert(cs@.subrange(lo as int, i as int) =~= cs@.subrange(lo as int, i - 1).push(cs@[i - 1]));
        assert(r@ =~= canon(cs@.subrange(lo as int, i as int), upper));
    }
    r
}

/// The bounds of `cs` without its leading and trailing whitespace.
pub fn trim_bounds(cs: &Vec<char>) -> (r: (usize, usize))
    ensures
        r.0 <= r.1 <= cs.len(),
        cs@.subrange(r.0 as int, r.1 as int) == trim(cs@),
{
    let n = cs.len();
    let mut lo: usize = 0;
    assert(cs@.subrange(0, n as int) =~= cs@);
    while lo < n && is_whitespace(cs[lo])
        invariant
            lo <= n == cs.len(),
            trim_start(cs@) == trim_start(cs@.subrange(lo as int, n as int)),
        decreases n - lo,
    {
        assert(cs@.subrange(lo as int, n as int).drop_first() =~= cs@.subrange(lo + 1, n as int));
        lo = lo + 1;
    }
    let ghost u = cs@.subrange(lo as int, n as int);
    assert(trim_start(cs@) == u);
    let mut hi: usize = n;
    while hi > lo && is_whitespace(cs[hi - 1])
        invariant
            lo <= hi <= n == cs.len(),
            u == cs@.subrange(lo as int, n as int),
            trim_end(u) == trim_end(cs@.subrange(lo as int, hi as int)),
        decreases hi,
    {
        assert(cs@.subrange(lo as int, hi as int).drop_last() =~= cs@.subrange(lo as int, hi - 1));
        hi = hi - 1;
    }
    (lo, hi)
}

/// Appends the canonical form of `trim(cur)` to `out` when it is not empty.
fn keep_token(out: &mut Vec<String>, cur: &Vec<char>, upper: bool)
    ensures
        trim(cur@).len() == 0 ==> strs(final(out)@) == strs(old(out)@),
        trim(cur@).len() > 0 ==> strs(final(out)@) == strs(old(out)@).push(
            canon(trim(cur@), upper),
        ),
{
    let (lo, hi) = trim_bounds(cur);
    if lo < hi {
        let t = string_of(cur, lo, hi, upper);
        out.push(t);
        assert(strs(final(out)@) =~= strs(old(out)@).push(canon(trim(cur@), upper)));
    }
}

/// The tokens of the comma-separated list `raw`.
pub fn split_csv(raw: &str, upper: bool) -> (r: Vec<String>)
    ensures
        strs(r@) == csv_tokens(raw@, upper),
{
    let cs = chars_of(raw);
    let mut out: Vec<String> = Vec::new();
    let mut cur: Vec<char> = Vec::new();
    let mut i: usize = 0;
    assert(cs@.subrange(0, 0) =~= Seq::<char>::empty());
    while i < cs.len()
        invariant
            i <= cs.len(),
            fields(cs@.subrange(0, i as int)).len() >= 1,
            fields(cs@.subrange(0, i as int)).last() == cur@,
            strs(out@) == keep_tokens(fields(cs@.subrange(0, i as int)).drop_last(), upper),
        decreases cs.len() - i,
    {
        let ghost pre = cs@.subrange(0, i as int);
        let ghost post = cs@.subrange(0, i + 1);
        assert(post.drop_last() =~= pre);
        proof {
            lemma_fields_nonempty(pre);
        }
        let c = cs[i];
        if c == ',' {
            keep_token(&mut out, &cur, upper);
            cur = Vec::new();
            assert(fields(post).drop_last() =~= fields(pre));
            assert(fields(pre) =~= fields(pre).drop_last().push(fields(pre).last()));
        } else {
            cur.push(c);
            assert(fields(post).drop_last() =~= fields(pre).drop_last());
        }
        i = i + 1;
    }
    keep_token(&mut out, &cur, upper);
    assert(cs@.subrange(0, cs.len() as int) =~= cs@);
    let ghost fs = fields(cs@);
    assert(fs =~= fs.drop_last().push(fs.last()));
    out
}

/// The decimal digit for `d < 10`.
pub open spec fn digit(d: nat) -> char {
    ((d + 48) as u8) as char
}

/// The decimal digits of `n`, most significant first, without leading zeros.
pub open spec fn digits(n: nat) -> Seq<char>
    decreases n,
{
    if n < 10 {
        seq![digit(n)]
    } else {
        digits(n / 10).push(digit(n % 10))
    }
}

/// `n` in decimal, with a leading `-` when negative.
pub open spec fn decimal(n: int) -> Seq<char> {
    if n < 0 {
        seq!['-'] + digits((-n) as nat)
    } else {
        digits(n as nat)
    }
}

fn push_digits(s: &mut String, n: u64)
    ensures
        final(s)@ == old(s)@ + digits(n as nat),
    decreases n,
{
    if n >= 10 {
        push_digits(s, n / 10);
    }
    let d = ((n % 10) as u8 + 48) as char;
    push_char(s, d);
    assert(final(s)@ =~= old(s)@ + digits(n as nat));
}

/// `n` written in decimal.
pub fn render_i64(n: i64) -> (r: String)
    ensures
        r@ == decimal(n as int),
{
    let mut r = String::new();
    if n < 0 {
        push_char(&mut r, '-');
        let m: u64 = (-(n as i128)) as u64;
        push_digits(&mut r, m);
    } else {
        push_digits(&mut r, n as u64);
    }
    assert(r@ =~= decimal(n as int));
    r
}

} // verus!
