//! String handling over sequences of characters.
//!
//! Every function here is stated over the `Seq<char>` view of its arguments, so
//! the modules above can reason about names, paths and messages without looking
//! at an encoding.

use vstd::prelude::*;

verus! {

// ── Whitespace ───────────────────────────────────────────────────────────────

/// The Unicode `White_Space` property.
pub open spec fn white(c: char) -> bool {
    ||| '\u{9}' <= c <= '\u{d}'
    ||| c == ' '
    ||| c == '\u{85}'
    ||| c == '\u{a0}'
    ||| c == '\u{1680}'
    ||| '\u{2000}' <= c <= '\u{200a}'
    ||| c == '\u{2028}'
    ||| c == '\u{2029}'
    ||| c == '\u{202f}'
    ||| c == '\u{205f}'
    ||| c == '\u{3000}'
}

/// Whether `c` has the Unicode `White_Space` property.
pub fn is_white(c: char) -> (r: bool)
    ensures
        r == white(c),
{
    ('\u{9}' <= c && c <= '\u{d}') || c == ' ' || c == '\u{85}' || c == '\u{a0}' || c == '\u{1680}'
        || ('\u{2000}' <= c && c <= '\u{200a}') || c == '\u{2028}' || c == '\u{2029}' || c
        == '\u{202f}' || c == '\u{205f}' || c == '\u{3000}'
}

/// `s` without its leading whitespace.
pub open spec fn trimmed_start(s: Seq<char>) -> Seq<char>
    decreases s.len(),
{
    if s.len() > 0 && white(s[0]) {
        trimmed_start(s.drop_first())
    } else {
        s
    }
}

/// `s` without its trailing whitespace.
pub open spec fn trimmed_end(s: Seq<char>) -> Seq<char>
    decreases s.len(),
{
    if s.len() > 0 && white(s.last()) {
        trimmed_end(s.drop_last())
    } else {
        s
    }
}

/// `s` without leading and trailing whitespace.
pub open spec fn trimmed(s: Seq<char>) -> Seq<char> {
    trimmed_end(trimmed_start(s))
}

// ── Prefixes, suffixes, positions ────────────────────────────────────────────

/// `s` begins with `p`.
pub open spec fn starts_with(s: Seq<char>, p: Seq<char>) -> bool {
    p.len() <= s.len() && s.subrange(0, p.len() as int) == p
}

/// `s` ends with `p`.
pub open spec fn ends_with(s: Seq<char>, p: Seq<char>) -> bool {
    p.len() <= s.len() && s.subrange(s.len() - p.len(), s.len() as int) == p
}

/// `s` without its first `n` characters.
pub open spec fn skip(s: Seq<char>, n: int) -> Seq<char> {
    s.subrange(n, s.len() as int)
}

/// The index of the first `c` in `s`, or the length of `s` when there is none.
pub open spec fn position(s: Seq<char>, c: char) -> int
    decreases s.len(),
{
    if s.len() == 0 || s[0] == c {
        0
    } else {
        1 + position(s.drop_first(), c)
    }
}

/// The index just past the last `c` in `s`, or 0 when there is none.
pub open spec fn past_last(s: Seq<char>, c: char) -> int
    decreases s.len(),
{
    if s.len() == 0 || s.last() == c {
        s.len() as int
    } else {
        past_last(s.drop_last(), c)
    }
}

pub proof fn lemma_position_bounds(s: Seq<char>, c: char)
    ensures
        0 <= position(s, c) <= s.len(),
        forall|i: int| 0 <= i < position(s, c) ==> s[i] != c,
        position(s, c) < s.len() ==> s[position(s, c)] == c,
    decreases s.len(),
{
    if s.len() > 0 && s[0] != c {
        let rest = s.drop_first();
        lemma_position_bounds(rest, c);
        assert forall|i: int| 0 <= i < position(s, c) implies s[i] != c by {
            if i > 0 {
                assert(s[i] == rest[i - 1]);
            }
        }
    }
}

pub proof fn lemma_position_is(s: Seq<char>, c: char, i: int)
    requires
        0 <= i <= s.len(),
        forall|j: int| 0 <= j < i ==> s[j] != c,
        i < s.len() ==> s[i] == c,
    ensures
        position(s, c) == i,
{
    lemma_position_bounds(s, c);
}

pub proof fn lemma_past_last_bounds(s: Seq<char>, c: char)
    ensures
        0 <= past_last(s, c) <= s.len(),
        forall|i: int| past_last(s, c) <= i < s.len() ==> s[i] != c,
        past_last(s, c) > 0 ==> s[past_last(s, c) - 1] == c,
    decreases s.len(),
{
    if s.len() > 0 && s.last() != c {
        let rest = s.drop_last();
        lemma_past_last_bounds(rest, c);
        assert forall|i: int| past_last(s, c) <= i < s.len() implies s[i] != c by {
            if i < rest.len() {
                assert(s[i] == rest[i]);
            }
        }
    }
}

pub proof fn lemma_past_last_is(s: Seq<char>, c: char, i: int)
    requires
        0 <= i <= s.len(),
        forall|j: int| i <= j < s.len() ==> s[j] != c,
        i > 0 ==> s[i - 1] == c,
    ensures
        past_last(s, c) == i,
{
    lemma_past_last_bounds(s, c);
}

pub proof fn lemma_trimmed_start_is(s: Seq<char>, i: int)
    requires
        0 <= i <= s.len(),
        forall|j: int| 0 <= j < i ==> white(s[j]),
        i < s.len() ==> !white(s[i]),
    ensures
        trimmed_start(s) == skip(s, i),
    decreases i,
{
    if i > 0 {
        let rest = s.drop_first();
        assert forall|j: int| 0 <= j < i - 1 implies white(rest[j]) by {
            assert(rest[j] == s[j + 1]);
        }
        lemma_trimmed_start_is(rest, i - 1);
        assert(skip(rest, i - 1) =~= skip(s, i));
    } else {
        assert(skip(s, 0) =~= s);
    }
}

pub proof fn lemma_trimmed_end_is(s: Seq<char>, i: int)
    requires
        0 <= i <= s.len(),
        forall|j: int| i <= j < s.len() ==> white(s[j]),
        i > 0 ==> !white(s[i - 1]),
    ensures
        trimmed_end(s) == s.subrange(0, i),
    decreases s.len() - i,
{
    if i < s.len() {
        lemma_trimmed_end_is(s.drop_last(), i);
        assert(s.drop_last().subrange(0, i) =~= s.subrange(0, i));
    } else {
        assert(s.subrange(0, i) =~= s);
    }
}

/// A trimmed text has no whitespace at its ends.
pub proof fn lemma_trimmed_ends(s: Seq<char>)
    requires
        trimmed(s).len() > 0,
    ensures
        !white(trimmed(s)[0]),
        !white(trimmed(s).last()),
{
    lemma_trimmed_start_head(s);
    let t = trimmed_start(s);
    lemma_trimmed_end_prefix(t);
}

proof fn lemma_trimmed_start_head(s: Seq<char>)
    ensures
        trimmed_start(s).len() > 0 ==> !white(trimmed_start(s)[0]),
    decreases s.len(),
{
    if s.len() > 0 && white(s[0]) {
        lemma_trimmed_start_head(s.drop_first());
    }
}

proof fn lemma_trimmed_end_prefix(s: Seq<char>)
    ensures
        trimmed_end(s).len() <= s.len(),
        trimmed_end(s) == s.subrange(0, trimmed_end(s).len() as int),
        trimmed_end(s).len() > 0 ==> !white(trimmed_end(s).last()),
    decreases s.len(),
{
    if s.len() > 0 && white(s.last()) {
        lemma_trimmed_end_prefix(s.drop_last());
        assert(trimmed_end(s) =~= s.subrange(0, trimmed_end(s).len() as int));
    } else {
        assert(s.subrange(0, s.len() as int) =~= s);
    }
}

/// The characters of `s`.
pub fn chars_of(s: &str) -> (r: Vec<char>)
    ensures
        r@ == s@,
{
    let mut v: Vec<char> = Vec::new();
    for c in it: s.chars()
        invariant
            it.seq() == s@,
            v@ == s@.take(it.index()),
    {
        v.push(c);
    }
    assert(s@.take(s@.len() as int) =~= s@);
    v
}

/// Whether `a` and `b` hold the same characters.
pub fn same(a: &str, b: &str) -> (r: bool)
    ensures
        r == (a@ == b@),
{
    let x = chars_of(a);
    let y = chars_of(b);
    if x.len() != y.len() {
        return false;
    }
    let mut i: usize = 0;
    while i < x.len()
        invariant
            i <= x.len(),
            x.len() == y.len(),
            x@ == a@,
            y@ == b@,
            forall|j: int| 0 <= j < i ==> x@[j] == y@[j],
        decreases x.len() - i,
    {
        if x[i] != y[i] {
            assert(a@[i as int] != b@[i as int]);
            return false;
        }
        i += 1;
    }
    assert(a@ =~= b@);
    true
}

/// Whether `s` begins with `p`.
pub fn has_prefix(s: &str, p: &str) -> (r: bool)
    ensures
        r == starts_with(s@, p@),
{
    let n: usize = p.unicode_len();
    if n > s.unicode_len() {
        return false;
    }
    same(s.substring_char(0, n), p)
}

/// Whether `s` ends with `p`.
pub fn has_suffix(s: &str, p: &str) -> (r: bool)
    ensures
        r == ends_with(s@, p@),
{
    let n: usize = p.unicode_len();
    let m: usize = s.unicode_len();
    if n > m {
        return false;
    }
    same(s.substring_char(m - n, m), p)
}

/// What follows the prefix `p` of `s`.
pub fn strip_prefix<'a>(s: &'a str, p: &str) -> (r: Option<&'a str>)
    ensures
        match r {
            Some(t) => starts_with(s@, p@) && t@ == skip(s@, p@.len() as int),
            None => !starts_with(s@, p@),
        },
{
    if has_prefix(s, p) {
        Some(s.substring_char(p.unicode_len(), s.unicode_len()))
    } else {
        None
    }
}

/// What precedes the suffix `p` of `s`.
pub fn strip_suffix<'a>(s: &'a str, p: &str) -> (r: Option<&'a str>)
    ensures
        match r {
            Some(t) => ends_with(s@, p@) && t@ == s@.subrange(0, s@.len() - p@.len()),
            None => !ends_with(s@, p@),
        },
{
    if has_suffix(s, p) {
        Some(s.substring_char(0, s.unicode_len() - p.unicode_len()))
    } else {
        None
    }
}

/// The index of the first `c` in `s`, or the number of characters of `s`.
pub fn find(s: &str, c: char) -> (r: usize)
    ensures
        r == position(s@, c),
        r <= s@.len(),
{
    let x = chars_of(s);
    let mut i: usize = 0;
    while i < x.len()
        invariant
            i <= x.len(),
            x@ == s@,
            forall|j: int| 0 <= j < i ==> s@[j] != c,
        decreases x.len() - i,
    {
        if x[i] == c {
            proof {
                lemma_position_is(s@, c, i as int);
            }
            return i;
        }
        i += 1;
    }
    proof {
        lemma_position_is(s@, c, i as int);
    }
    i
}

/// The index just past the last `c` in `s`, or 0.
pub fn find_past_last(s: &str, c: char) -> (r: usize)
    ensures
        r == past_last(s@, c),
        r <= s@.len(),
{
    let x = chars_of(s);
    let mut i: usize = x.len();
    while i > 0
        invariant
            i <= x.len(),
            x@ == s@,
            forall|j: int| i <= j < s@.len() ==> s@[j] != c,
        decreases i,
    {
        if x[i - 1] == c {
            proof {
                lemma_past_last_is(s@, c, i as int);
            }
            return i;
        }
        i -= 1;
    }
    proof {
        lemma_past_last_is(s@, c, 0);
    }
    0
}

/// The two parts of `s` around its first `c`.
pub fn split_once<'a>(s: &'a str, c: char) -> (r: Option<(&'a str, &'a str)>)
    ensures
        match r {
            Some((a, b)) => {
                &&& position(s@, c) < s@.len()
                &&& a@ == s@.subrange(0, position(s@, c))
                &&& b@ == skip(s@, position(s@, c) + 1)
            },
            None => position(s@, c) == s@.len(),
        },
{
    let i: usize = find(s, c);
    let n: usize = s.unicode_len();
    if i == n {
        None
    } else {
        Some((s.substring_char(0, i), s.substring_char(i + 1, n)))
    }
}

/// The two parts of `s` around its last `c`.
pub fn rsplit_once<'a>(s: &'a str, c: char) -> (r: Option<(&'a str, &'a str)>)
    ensures
        match r {
            Some((a, b)) => {
                &&& past_last(s@, c) > 0
                &&& a@ == s@.subrange(0, past_last(s@, c) - 1)
                &&& b@ == skip(s@, past_last(s@, c))
            },
            None => past_last(s@, c) == 0,
        },
{
    let i: usize = find_past_last(s, c);
    if i == 0 {
        None
    } else {
        Some((s.substring_char(0, i - 1), s.substring_char(i, s.unicode_len())))
    }
}

/// `s` without leading and trailing whitespace.
pub fn trim(s: &str) -> (r: &str)
    ensures
        r@ == trimmed(s@),
{
    let x = chars_of(s);
    let mut i: usize = 0;
    while i < x.len() && is_white(x[i])
        invariant
            i <= x.len(),
            x@ == s@,
            forall|k: int| 0 <= k < i ==> white(s@[k]),
        decreases x.len() - i,
    {
        i += 1;
    }
    proof {
        lemma_trimmed_start_is(s@, i as int);
    }
    let ghost t = trimmed_start(s@);
    let mut j: usize = x.len();
    while j > i && is_white(x[j - 1])
        invariant
            i <= j <= x.len(),
            x@ == s@,
            t == skip(s@, i as int),
            forall|k: int| j <= k < s@.len() ==> white(s@[k]),
        decreases j,
    {
        j -= 1;
    }
    proof {
        assert forall|k: int| j - i <= k < t.len() implies white(t[k]) by {
            assert(t[k] == s@[k + i]);
        }
        lemma_trimmed_end_is(t, j - i);
        assert(t.subrange(0, j - i) =~= s@.subrange(i as int, j as int));
    }
    s.substring_char(i, j)
}

// ── Building strings ─────────────────────────────────────────────────────────

/// `a` followed by `b`.
pub fn cat(a: &str, b: &str) -> (r: String)
    ensures
        r@ == a@ + b@,
{
    let mut s = a.to_owned();
    s.append(b);
    s
}

/// `a`, `b` and `c` one after the other.
pub fn cat3(a: &str, b: &str, c: &str) -> (r: String)
    ensures
        r@ == a@ + b@ + c@,
{
    let mut s = a.to_owned();
    s.append(b);
    s.append(c);
    s
}

/// `a`, `b`, `c` and `d` one after the other.
pub fn cat4(a: &str, b: &str, c: &str, d: &str) -> (r: String)
    ensures
        r@ == a@ + b@ + c@ + d@,
{
    let mut s = cat3(a, b, c);
    s.append(d);
    s
}

/// `a`, `b`, `c`, `d` and `e` one after the other.
pub fn cat5(a: &str, b: &str, c: &str, d: &str, e: &str) -> (r: String)
    ensures
        r@ == a@ + b@ + c@ + d@ + e@,
{
    let mut s = cat4(a, b, c, d);
    s.append(e);
    s
}

/// The characters of a decimal digit.
pub open spec fn digit(d: nat) -> Seq<char> {
    if d == 0 {
        "0"@
    } else if d == 1 {
        "1"@
    } else if d == 2 {
        "2"@
    } else if d == 3 {
        "3"@
    } else if d == 4 {
        "4"@
    } else if d == 5 {
        "5"@
    } else if d == 6 {
        "6"@
    } else if d == 7 {
        "7"@
    } else if d == 8 {
        "8"@
    } else {
        "9"@
    }
}

/// `n` in decimal notation, without leading zeros.
pub open spec fn decimal(n: nat) -> Seq<char>
    decreases n,
{
    if n < 10 {
        digit(n)
    } else {
        decimal(n / 10) + digit(n % 10)
    }
}

/// `n` in decimal notation, with a leading minus sign when it is negative.
pub open spec fn signed_decimal(n: int) -> Seq<char> {
    if n < 0 {
        "-"@ + decimal((-n) as nat)
    } else {
        decimal(n as nat)
    }
}

fn digit_str(d: u64) -> (r: &'static str)
    requires
        d < 10,
    ensures
        r@ == digit(d as nat),
{
    if d == 0 {
        "0"
    } else if d == 1 {
        "1"
    } else if d == 2 {
        "2"
    } else if d == 3 {
        "3"
    } else if d == 4 {
        "4"
    } else if d == 5 {
        "5"
    } else if d == 6 {
        "6"
    } else if d == 7 {
        "7"
    } else if d == 8 {
        "8"
    } else {
        "9"
    }
}

/// `n` in decimal notation.
pub fn to_decimal(n: u64) -> (r: String)
    ensures
        r@ == decimal(n as nat),
    decreases n,
{
    if n < 10 {
        digit_str(n).to_owned()
    } else {
        let mut s = to_decimal(n / 10);
        s.append(digit_str(n % 10));
        s
    }
}

/// `n` in decimal notation, with its sign.
pub fn to_signed_decimal(n: i64) -> (r: String)
    ensures
        r@ == signed_decimal(n as int),
{
    if n < 0 {
        let m: u64 = (-(n as i128)) as u64;
        cat("-", to_decimal(m).as_str())
    } else {
        to_decimal(n as u64)
    }
}

// ── Splitting and joining ────────────────────────────────────────────────────

/// The parts of `s` between occurrences of `c`; always at least one.
pub open spec fn split_spec(s: Seq<char>, c: char) -> Seq<Seq<char>>
    decreases s.len(),
    via split_spec_decreases
{
    let p = position(s, c);
    if p >= s.len() {
        seq![s]
    } else {
        seq![s.subrange(0, p)] + split_spec(skip(s, p + 1), c)
    }
}

#[via_fn]
proof fn split_spec_decreases(s: Seq<char>, c: char) {
    lemma_position_bounds(s, c);
}

/// `parts` with `sep` between neighbours.
pub open spec fn joined(parts: Seq<Seq<char>>, sep: Seq<char>) -> Seq<char>
    decreases parts.len(),
{
    if parts.len() == 0 {
        Seq::empty()
    } else if parts.len() == 1 {
        parts[0]
    } else {
        parts[0] + sep + joined(parts.drop_first(), sep)
    }
}

/// The views of a vector of strings.
pub open spec fn views(v: Seq<String>) -> Seq<Seq<char>> {
    Seq::new(v.len(), |i: int| v[i]@)
}

/// The text of an optional string.
pub open spec fn opt_view(s: Option<String>) -> Option<Seq<char>> {
    match s {
        Some(t) => Some(t@),
        None => None,
    }
}

/// A line without the carriage return that may end it.
pub open spec fn chomp(s: Seq<char>) -> Seq<char> {
    if s.len() > 0 && s.last() == '\r' {
        s.drop_last()
    } else {
        s
    }
}

/// The lines of `s`: each ends in a line feed, or a carriage return and a line
/// feed, neither of which belongs to it; the last may end with `s` instead.
pub open spec fn lines_spec(s: Seq<char>) -> Seq<Seq<char>>
    decreases s.len(),
    via lines_spec_decreases
{
    let p = position(s, '\n');
    if s.len() == 0 {
        Seq::empty()
    } else if p >= s.len() {
        seq![s]
    } else {
        seq![chomp(s.subrange(0, p))] + lines_spec(skip(s, p + 1))
    }
}

#[via_fn]
proof fn lines_spec_decreases(s: Seq<char>) {
    lemma_position_bounds(s, '\n');
}

/// A copy of an optional string.
pub fn opt_clone(s: &Option<String>) -> (r: Option<String>)
    ensures
        opt_view(r) == opt_view(*s),
        r == *s,
{
    match s {
        Some(t) => Some(t.clone()),
        None => None,
    }
}

/// Whether `v` holds the text `s`.
pub fn contains(v: &Vec<String>, s: &str) -> (r: bool)
    ensures
        r == views(v@).contains(s@),
{
    let mut i: usize = 0;
    while i < v.len()
        invariant
            i <= v.len(),
            forall|j: int| 0 <= j < i ==> views(v@)[j] != s@,
        decreases v.len() - i,
    {
        if same(v[i].as_str(), s) {
            assert(views(v@)[i as int] == s@);
            return true;
        }
        i += 1;
    }
    false
}

/// The lines of `s`.
pub fn lines(s: &str) -> (r: Vec<String>)
    ensures
        views(r@) == lines_spec(s@),
{
    let mut out: Vec<String> = Vec::new();
    let mut rest = s;
    while rest.unicode_len() > 0
        invariant
            lines_spec(s@) == views(out@) + lines_spec(rest@),
        decreases rest@.len(),
    {
        let ghost before = views(out@);
        let ghost whole = rest@;
        match split_once(rest, '\n') {
            None => {
                out.push(rest.to_owned());
                proof {
                    assert(lines_spec(whole) =~= seq![whole]);
                    assert(lines_spec(Seq::<char>::empty()) =~= Seq::empty());
                    assert(views(out@) =~= before + seq![whole]);
                }
                return out;
            },
            Some((line, tail)) => {
                let n: usize = line.unicode_len();
                let cut: usize = if n > 0 && line.get_char(n - 1) == '\r' {
                    n - 1
                } else {
                    n
                };
                let l = line.substring_char(0, cut);
                proof {
                    lemma_position_bounds(whole, '\n');
                    assert(l@ =~= chomp(line@));
                }
                out.push(l.to_owned());
                rest = tail;
                proof {
                    assert(views(out@) =~= before + seq![chomp(line@)]);
                    assert(lines_spec(whole) == seq![chomp(line@)] + lines_spec(rest@));
                    assert(before + (seq![chomp(line@)] + lines_spec(rest@)) =~= (before + seq![
                        chomp(line@),
                    ]) + lines_spec(rest@));
                }
            },
        }
    }
    proof {
        assert(rest@ =~= Seq::<char>::empty());
        assert(views(out@) + lines_spec(rest@) =~= views(out@));
    }
    out
}

/// The parts of `s` between occurrences of `c`.
pub fn split(s: &str, c: char) -> (r: Vec<String>)
    ensures
        views(r@) == split_spec(s@, c),
        r@.len() > 0,
{
    let mut out: Vec<String> = Vec::new();
    let mut rest = s;
    loop
        invariant
            split_spec(s@, c) == views(out@) + split_spec(rest@, c),
        decreases rest@.len(),
    {
        let ghost before = views(out@);
        let ghost whole = rest@;
        match split_once(rest, c) {
            None => {
                out.push(rest.to_owned());
                proof {
                    assert(views(out@) =~= before + seq![whole]);
                }
                return out;
            },
            Some((part, tail)) => {
                out.push(part.to_owned());
                rest = tail;
                proof {
                    lemma_position_bounds(whole, c);
                    assert(views(out@) =~= before + seq![part@]);
                    assert(before + (seq![part@] + split_spec(rest@, c)) =~= (before + seq![part@])
                        + split_spec(rest@, c));
                }
            },
        }
    }
}

proof fn lemma_joined_push(parts: Seq<Seq<char>>, last: Seq<char>, sep: Seq<char>)
    ensures
        joined(parts.push(last), sep) == if parts.len() == 0 {
            last
        } else {
            joined(parts, sep) + sep + last
        },
    decreases parts.len(),
{
    if parts.len() > 0 {
        let tail = parts.drop_first();
        lemma_joined_push(tail, last, sep);
        assert(parts.push(last).drop_first() =~= tail.push(last));
        assert(parts.push(last)[0] == parts[0]);
        if parts.len() == 1 {
            assert(joined(parts.push(last), sep) =~= parts[0] + sep + last);
        } else {
            assert(joined(parts.push(last), sep) =~= joined(parts, sep) + sep + last);
        }
    }
}

/// `parts` with `sep` between neighbours.
pub fn join(parts: &Vec<String>, sep: &str) -> (r: String)
    ensures
        r@ == joined(views(parts@), sep@),
{
    let mut out = String::new();
    let mut i: usize = 0;
    proof {
        assert(views(parts@).take(0) =~= Seq::<Seq<char>>::empty());
    }
    while i < parts.len()
        invariant
            i <= parts.len(),
            out@ == joined(views(parts@).take(i as int), sep@),
        decreases parts.len() - i,
    {
        proof {
            lemma_joined_push(views(parts@).take(i as int), parts@[i as int]@, sep@);
            assert(views(parts@).take(i as int).push(parts@[i as int]@) =~= views(parts@).take(
                i as int + 1,
            ));
        }
        if i > 0 {
            out.append(sep);
        }
        out.append(parts[i].as_str());
        proof {
            if i == 0 {
                assert(out@ =~= parts@[0]@);
            }
        }
        i += 1;
    }
    proof {
        assert(views(parts@).take(i as int) =~= views(parts@));
    }
    out
}

/// `s` without every `c` at its end.
pub open spec fn without_trailing(s: Seq<char>, c: char) -> Seq<char>
    decreases s.len(),
{
    if s.len() > 0 && s.last() == c {
        without_trailing(s.drop_last(), c)
    } else {
        s
    }
}

pub(crate) proof fn lemma_without_trailing_is(s: Seq<char>, c: char, i: int)
    requires
        0 <= i <= s.len(),
        forall|j: int| i <= j < s.len() ==> s[j] == c,
        i > 0 ==> s[i - 1] != c,
    ensures
        without_trailing(s, c) == s.subrange(0, i),
    decreases s.len() - i,
{
    if i < s.len() {
        lemma_without_trailing_is(s.drop_last(), c, i);
        assert(s.drop_last().subrange(0, i) =~= s.subrange(0, i));
    } else {
        assert(s.subrange(0, i) =~= s);
    }
}

/// `s` without every `c` at its end.
pub fn trim_end_char(s: &str, c: char) -> (r: &str)
    ensures
        r@ == without_trailing(s@, c),
{
    let x = chars_of(s);
    let mut i: usize = x.len();
    while i > 0 && x[i - 1] == c
        invariant
            i <= x.len(),
            x@ == s@,
            forall|j: int| i <= j < s@.len() ==> s@[j] == c,
        decreases i,
    {
        i -= 1;
    }
    proof {
        lemma_without_trailing_is(s@, c, i as int);
    }
    s.substring_char(0, i)
}

/// `s` without every `p` at its beginning.
pub open spec fn without_leading(s: Seq<char>, p: Seq<char>) -> Seq<char>
    decreases s.len(),
{
    if p.len() > 0 && starts_with(s, p) {
        without_leading(skip(s, p.len() as int), p)
    } else {
        s
    }
}

/// `s` without every `p` at its beginning.
pub fn trim_start_text<'a>(s: &'a str, p: &str) -> (r: &'a str)
    requires
        p@.len() > 0,
    ensures
        r@ == without_leading(s@, p@),
{
    let mut rest = s;
    loop
        invariant
            p@.len() > 0,
            without_leading(s@, p@) == without_leading(rest@, p@),
        decreases rest@.len(),
    {
        match strip_prefix(rest, p) {
            Some(t) => {
                rest = t;
            },
            None => {
                return rest;
            },
        }
    }
}

/// `p` occurs in `s`.
pub open spec fn occurs(s: Seq<char>, p: Seq<char>) -> bool {
    exists|i: int|
        0 <= i && i + p.len() <= s.len() && #[trigger] s.subrange(i, i + p.len()) == p
}

/// Whether `p` occurs in `s`.
pub fn contains_text(s: &str, p: &str) -> (r: bool)
    ensures
        r == occurs(s@, p@),
{
    let n: usize = s.unicode_len();
    let m: usize = p.unicode_len();
    if m > n {
        return false;
    }
    let last: usize = n - m;
    let mut i: usize = 0;
    while i < last
        invariant
            i <= last,
            last == n - m,
            m <= n,
            n == s@.len(),
            m == p@.len(),
            forall|j: int| 0 <= j < i ==> #[trigger] s@.subrange(j, j + p@.len()) != p@,
        decreases last - i,
    {
        if same(s.substring_char(i, i + m), p) {
            assert(s@.subrange(i as int, i + p@.len()) == p@);
            return true;
        }
        i += 1;
    }
    let r = same(s.substring_char(last, n), p);
    proof {
        assert(s@.subrange(last as int, last + p@.len()) == s@.subrange(last as int, n as int));
        if !r && occurs(s@, p@) {
            let j = choose|j: int|
                0 <= j && j + p@.len() <= s@.len() && #[trigger] s@.subrange(j, j + p@.len()) == p@;
            assert(j == last);
        }
    }
    r
}

/// The number of characters before the first whitespace of `s`.
pub open spec fn word_len(s: Seq<char>) -> int
    decreases s.len(),
{
    if s.len() == 0 || white(s[0]) {
        0
    } else {
        1 + word_len(s.drop_first())
    }
}

proof fn lemma_word_len(s: Seq<char>)
    ensures
        0 <= word_len(s) <= s.len(),
        s.len() > 0 && !white(s[0]) ==> word_len(s) > 0,
    decreases s.len(),
{
    if s.len() > 0 && !white(s[0]) {
        lemma_word_len(s.drop_first());
    }
}

proof fn lemma_trimmed_start_len(s: Seq<char>)
    ensures
        trimmed_start(s).len() <= s.len(),
    decreases s.len(),
{
    if s.len() > 0 && white(s[0]) {
        lemma_trimmed_start_len(s.drop_first());
    }
}

/// The words of `s`, separated by whitespace.
pub open spec fn words(s: Seq<char>) -> Seq<Seq<char>>
    decreases s.len(),
    via words_decreases
{
    let t = trimmed_start(s);
    if t.len() == 0 {
        Seq::empty()
    } else {
        seq![t.subrange(0, word_len(t))] + words(skip(t, word_len(t)))
    }
}

#[via_fn]
proof fn words_decreases(s: Seq<char>) {
    let t = trimmed_start(s);
    lemma_trimmed_start_head(s);
    lemma_trimmed_start_len(s);
    lemma_word_len(t);
}

proof fn lemma_word_len_is(s: Seq<char>, i: int)
    requires
        0 <= i <= s.len(),
        forall|j: int| 0 <= j < i ==> !white(s[j]),
        i < s.len() ==> white(s[i]),
    ensures
        word_len(s) == i,
    decreases s.len(),
{
    if i > 0 {
        let t = s.drop_first();
        assert forall|j: int| 0 <= j < i - 1 implies !white(t[j]) by {
            assert(t[j] == s[j + 1]);
        }
        lemma_word_len_is(t, i - 1);
    }
}

fn find_white(s: &str) -> (r: usize)
    ensures
        r == word_len(s@),
        r <= s@.len(),
{
    let x = chars_of(s);
    let mut i: usize = 0;
    while i < x.len() && !is_white(x[i])
        invariant
            i <= x.len(),
            x@ == s@,
            forall|j: int| 0 <= j < i ==> !white(s@[j]),
        decreases x.len() - i,
    {
        i += 1;
    }
    proof {
        lemma_word_len_is(s@, i as int);
    }
    i
}

fn trim_start(s: &str) -> (r: &str)
    ensures
        r@ == trimmed_start(s@),
{
    let x = chars_of(s);
    let mut i: usize = 0;
    while i < x.len() && is_white(x[i])
        invariant
            i <= x.len(),
            x@ == s@,
            forall|j: int| 0 <= j < i ==> white(s@[j]),
        decreases x.len() - i,
    {
        i += 1;
    }
    proof {
        lemma_trimmed_start_is(s@, i as int);
    }
    s.substring_char(i, x.len())
}

/// The words of `s`, separated by whitespace.
pub fn split_whitespace(s: &str) -> (r: Vec<String>)
    ensures
        views(r@) == words(s@),
{
    let mut out: Vec<String> = Vec::new();
    let mut rest = trim_start(s);
    assert(views(out@) =~= Seq::<Seq<char>>::empty());
    proof {
        lemma_trimmed_start_head(s@);
        lemma_trimmed_start_twice(s@);
        assert(views(out@) + words(rest@) =~= words(rest@));
    }
    while rest.unicode_len() > 0
        invariant
            words(s@) == views(out@) + words(rest@),
            trimmed_start(rest@) == rest@,
            rest@.len() > 0 ==> !white(rest@[0]),
        decreases rest@.len(),
    {
        let ghost before = views(out@);
        let ghost whole = rest@;
        let n: usize = find_white(rest);
        let word = rest.substring_char(0, n);
        let tail = rest.substring_char(n, rest.unicode_len());
        out.push(word.to_owned());
        rest = trim_start(tail);
        proof {
            lemma_word_len(whole);
            lemma_trimmed_start_len(tail@);
            lemma_trimmed_start_head(tail@);
            lemma_trimmed_start_twice(tail@);
            assert(words(whole) == seq![word@] + words(tail@));
            assert(words(tail@) == words(rest@)) by {
                lemma_words_of_trimmed(tail@);
            }
            assert(views(out@) =~= before + seq![word@]);
            assert(before + (seq![word@] + words(rest@)) =~= (before + seq![word@]) + words(rest@));
        }
    }
    proof {
        assert(words(rest@) =~= Seq::<Seq<char>>::empty());
        assert(views(out@) + words(rest@) =~= views(out@));
    }
    out
}

proof fn lemma_trimmed_start_twice(s: Seq<char>)
    ensures
        trimmed_start(trimmed_start(s)) == trimmed_start(s),
        words(trimmed_start(s)) == words(s),
    decreases s.len(),
{
    lemma_trimmed_start_head(s);
    if s.len() > 0 && white(s[0]) {
        lemma_trimmed_start_twice(s.drop_first());
    }
    lemma_words_of_trimmed(s);
}

proof fn lemma_words_of_trimmed(s: Seq<char>)
    ensures
        words(trimmed_start(s)) == words(s),
{
    lemma_trimmed_start_head(s);
    let t = trimmed_start(s);
    assert(trimmed_start(t) == t);
}

/// A text without whitespace is trimmed already.
pub proof fn lemma_trimmed_of_unspaced(s: Seq<char>)
    requires
        forall|i: int| 0 <= i < s.len() ==> !white(#[trigger] s[i]),
    ensures
        trimmed(s) == s,
{
    assert(trimmed_start(s) == s);
    assert(trimmed_end(s) == s);
}

// ── Laws ─────────────────────────────────────────────────────────────────────

/// Of the printable ASCII characters only the space is whitespace; the tab and the line breaks
/// are, too.
pub proof fn law_ascii_whitespace(c: char)
    ensures
        c == ' ' || c == '\t' || c == '\n' || c == '\r' || c == '\u{b}' || c == '\u{c}'
            ==> white(c),
        '!' <= c <= '~' ==> !white(c),
        c <= '\u{8}' || '\u{e}' <= c <= '\u{1f}' ==> !white(c),
{
}

/// Trimming drops the whitespace around a text and nothing else: what is left begins and ends
/// with no whitespace, and stays as it is.
pub proof fn law_trimming(before: Seq<char>, s: Seq<char>, after: Seq<char>)
    requires
        forall|i: int| 0 <= i < before.len() ==> white(#[trigger] before[i]),
        forall|i: int| 0 <= i < after.len() ==> white(#[trigger] after[i]),
        s.len() > 0 ==> !white(s[0]) && !white(s.last()),
    ensures
        trimmed(before + s + after) == s,
        s.len() > 0 ==> trimmed_start(before + s + after) == s + after,
        s.len() > 0 ==> trimmed_end(before + s + after) == before + s,
{
    let whole = before + s + after;
    let n = before.len() as int;
    assert forall|j: int| n + s.len() <= j < whole.len() implies white(whole[j]) by {
        assert(whole[j] == after[j - n - s.len()]);
    }
    assert forall|j: int| 0 <= j < n implies white(whole[j]) by {
        assert(whole[j] == before[j]);
    }
    if s.len() == 0 {
        lemma_trimmed_start_is(whole, whole.len() as int);
        assert(skip(whole, whole.len() as int) =~= s);
    } else {
        assert(whole[n] == s[0]);
        lemma_trimmed_start_is(whole, n);
        let rest = skip(whole, n);
        assert(rest =~= s + after);
        assert(rest[s.len() - 1] == s.last());
        assert forall|j: int| s.len() <= j < rest.len() implies white(rest[j]) by {
            assert(rest[j] == after[j - s.len()]);
        }
        lemma_trimmed_end_is(rest, s.len() as int);
        assert(rest.subrange(0, s.len() as int) =~= s);
        assert(whole[n + s.len() - 1] == s.last());
        lemma_trimmed_end_is(whole, n + s.len());
        assert(whole.subrange(0, n + s.len()) =~= before + s);
    }
}

/// What is left of a trimmed text is a part of it.
pub proof fn lemma_trimmed_is_part(s: Seq<char>)
    ensures
        exists|lo: int, hi: int|
            0 <= lo <= hi <= s.len() && trimmed(s) == #[trigger] s.subrange(lo, hi),
    decreases s.len(),
{
    if s.len() > 0 && white(s[0]) {
        let t = s.drop_first();
        lemma_trimmed_is_part(t);
        let (lo, hi) = choose|lo: int, hi: int|
            0 <= lo <= hi <= t.len() && trimmed(t) == #[trigger] t.subrange(lo, hi);
        assert(t.subrange(lo, hi) =~= s.subrange(lo + 1, hi + 1));
    } else {
        lemma_trimmed_end_prefix(s);
        assert(trimmed(s) == s.subrange(0, trimmed_end(s).len() as int));
    }
}

/// A text without line feed is one line, if it is not empty. A line feed ends a line, and a
/// carriage return before it belongs to the end.
pub proof fn law_lines(line: Seq<char>, rest: Seq<char>)
    requires
        forall|i: int| 0 <= i < line.len() ==> line[i] != '\n',
    ensures
        line.len() > 0 ==> lines_spec(line) == seq![line],
        line.len() == 0 ==> lines_spec(line).len() == 0,
        line.len() == 0 || line.last() != '\r' ==> lines_spec(line + seq!['\n'] + rest)
            == seq![line] + lines_spec(rest),
        line.len() > 0 && line.last() == '\r' ==> lines_spec(line + seq!['\n'] + rest)
            == seq![line.drop_last()] + lines_spec(rest),
{
    lemma_position_is(line, '\n', line.len() as int);
    let whole = line + seq!['\n'] + rest;
    assert forall|j: int| 0 <= j < line.len() implies whole[j] != '\n' by {
        assert(whole[j] == line[j]);
    }
    assert(whole[line.len() as int] == '\n');
    lemma_position_is(whole, '\n', line.len() as int);
    assert(whole.subrange(0, line.len() as int) =~= line);
    assert(skip(whole, line.len() as int + 1) =~= rest);
}

/// A text without the separator is one part; the separator ends a part, and the rest is split
/// likewise.
pub proof fn law_splitting(part: Seq<char>, c: char, rest: Seq<char>)
    requires
        forall|i: int| 0 <= i < part.len() ==> part[i] != c,
    ensures
        split_spec(part, c) == seq![part],
        split_spec(part + seq![c] + rest, c) == seq![part] + split_spec(rest, c),
{
    lemma_position_is(part, c, part.len() as int);
    let whole = part + seq![c] + rest;
    assert forall|j: int| 0 <= j < part.len() implies whole[j] != c by {
        assert(whole[j] == part[j]);
    }
    assert(whole[part.len() as int] == c);
    lemma_position_is(whole, c, part.len() as int);
    assert(whole.subrange(0, part.len() as int) =~= part);
    assert(skip(whole, part.len() as int + 1) =~= rest);
}

/// Joining puts the separator between neighbours, and only there.
pub proof fn law_joining(part: Seq<char>, rest: Seq<Seq<char>>, sep: Seq<char>)
    ensures
        joined(Seq::<Seq<char>>::empty(), sep).len() == 0,
        joined(seq![part], sep) == part,
        rest.len() > 0 ==> joined(seq![part] + rest, sep) == part + sep + joined(rest, sep),
{
    let all = seq![part] + rest;
    assert(all.drop_first() =~= rest);
}

/// The digits of a number: the last one is its remainder by ten, what is before it its quotient.
pub proof fn law_decimal(n: nat)
    ensures
        decimal(0) == "0"@,
        decimal(1) == "1"@,
        decimal(2) == "2"@,
        decimal(3) == "3"@,
        decimal(4) == "4"@,
        decimal(5) == "5"@,
        decimal(6) == "6"@,
        decimal(7) == "7"@,
        decimal(8) == "8"@,
        decimal(9) == "9"@,
        n >= 10 ==> decimal(n) == decimal(n / 10) + decimal(n % 10),
        n > 0 ==> signed_decimal(-(n as int)) == "-"@ + decimal(n),
        signed_decimal(n as int) == decimal(n),
{
    if n >= 10 {
        assert(n % 10 < 10);
        assert(decimal(n % 10) == digit(n % 10));
    }
}

/// The words of a text: whitespace separates them, however much of it there is, and belongs to
/// none.
pub proof fn law_words(
    w: Seq<char>,
    c: char,
    rest: Seq<char>,
)
    requires
        forall|i: int| 0 <= i < w.len() ==> !white(#[trigger] w[i]),
        white(c),
    ensures
        words(Seq::<char>::empty()).len() == 0,
        words(seq![c] + rest) == words(rest),
        w.len() > 0 ==> words(w) == seq![w],
        w.len() > 0 ==> words(w + seq![c] + rest) == seq![w] + words(rest),
{
    let led = seq![c] + rest;
    assert(led.drop_first() =~= rest);
    assert(trimmed_start(led) == trimmed_start(rest));
    if w.len() > 0 {
        lemma_word_len_is(w, w.len() as int);
        assert(w.subrange(0, w.len() as int) =~= w);
        assert(skip(w, w.len() as int) =~= Seq::<char>::empty());
        assert(!white(w[0]));
        assert(trimmed_start(w) == w);
        assert(words(Seq::<char>::empty()) =~= Seq::<Seq<char>>::empty());
        assert(words(w) == seq![w] + words(Seq::<char>::empty()));
        assert(words(w) =~= seq![w]);
        let whole = w + seq![c] + rest;
        assert(whole[0] == w[0]);
        assert(trimmed_start(whole) == whole);
        assert forall|j: int| 0 <= j < w.len() implies !white(whole[j]) by {
            assert(whole[j] == w[j]);
        }
        assert(whole[w.len() as int] == c);
        lemma_word_len_is(whole, w.len() as int);
        assert(whole.subrange(0, w.len() as int) =~= w);
        assert(skip(whole, w.len() as int) =~= led);
    }
}

/// Texts that are put together are taken apart again: what precedes and what follows a
/// character that only one side may hold, a prefix, a suffix.
pub proof fn law_cutting(
    a: &str,
    b: &str,
    c: char,
    whole: &str,
    first: Option<(&str, &str)>,
    last: Option<(&str, &str)>,
    at: usize,
    past: usize,
    ab: &str,
    head: Option<&str>,
    tail: Option<&str>,
    joined: String,
)
    requires
        whole@ == a@ + seq![c] + b@,
        ab@ == a@ + b@,
        call_ensures(split_once, (whole, c), first),
        call_ensures(rsplit_once, (whole, c), last),
        call_ensures(find, (whole, c), at),
        call_ensures(find_past_last, (whole, c), past),
        call_ensures(strip_suffix, (ab, b), head),
        call_ensures(strip_prefix, (ab, a), tail),
        call_ensures(cat, (a, b), joined),
    ensures
        (forall|i: int| 0 <= i < a@.len() ==> a@[i] != c)
            ==> (first matches Some((x, y)) && x@ == a@ && y@ == b@ && at == a@.len()),
        (forall|i: int| 0 <= i < b@.len() ==> b@[i] != c)
            ==> (last matches Some((x, y)) && x@ == a@ && y@ == b@ && past == a@.len() + 1),
        head is Some && head->0@ == a@,
        tail is Some && tail->0@ == b@,
        joined@ == ab@,
{
    let n = a@.len() as int;
    assert(whole@[n] == c);
    assert(whole@.subrange(0, n) =~= a@);
    assert(skip(whole@, n + 1) =~= b@);
    if forall|i: int| 0 <= i < a@.len() ==> a@[i] != c {
        assert forall|j: int| 0 <= j < n implies whole@[j] != c by {
            assert(whole@[j] == a@[j]);
        }
        lemma_position_is(whole@, c, n);
    }
    if forall|i: int| 0 <= i < b@.len() ==> b@[i] != c {
        assert forall|j: int| n + 1 <= j < whole@.len() implies whole@[j] != c by {
            assert(whole@[j] == b@[j - n - 1]);
        }
        lemma_past_last_is(whole@, c, n + 1);
    }
    assert(ab@.subrange(0, n) =~= a@);
    assert(skip(ab@, n) =~= b@);
    assert(ab@.subrange(ab@.len() - b@.len(), ab@.len() as int) =~= b@);
}

/// A text has a prefix, a suffix or a part exactly when it can be written with it, and is the
/// same as another exactly when they are equal.
pub proof fn law_parts_of_texts(
    s: &str,
    p: &str,
    rest: Seq<char>,
    before: Seq<char>,
    pre: bool,
    suf: bool,
    part: bool,
    eq: bool,
)
    requires
        call_ensures(has_prefix, (s, p), pre),
        call_ensures(has_suffix, (s, p), suf),
        call_ensures(contains_text, (s, p), part),
        call_ensures(same, (s, p), eq),
    ensures
        s@ == p@ + rest ==> pre,
        s@ == rest + p@ ==> suf,
        s@ == before + p@ + rest ==> part,
        pre ==> s@ == p@ + skip(s@, p@.len() as int),
        suf ==> s@ == s@.subrange(0, s@.len() - p@.len()) + p@,
        part ==> exists|i: int| 0 <= i && i + p@.len() <= s@.len()
            && #[trigger] s@.subrange(i, i + p@.len()) == p@,
        eq <==> s@ == p@,
{
    let n = p@.len() as int;
    if s@ == p@ + rest {
        assert(s@.subrange(0, n) =~= p@);
    }
    if s@ == rest + p@ {
        assert(s@.subrange(s@.len() - n, s@.len() as int) =~= p@);
    }
    if s@ == before + p@ + rest {
        let i = before.len() as int;
        assert(s@.subrange(i, i + p@.len()) =~= p@);
    }
    if pre {
        assert(s@ =~= s@.subrange(0, n) + skip(s@, n));
    }
    if suf {
        assert(s@ =~= s@.subrange(0, s@.len() - n) + s@.subrange(s@.len() - n, s@.len() as int));
    }
}

/// Cutting off every character of a kind at the end, or every copy of a text at the start,
/// leaves what stands between.
pub proof fn law_cutting_off_repeats(
    s: Seq<char>,
    c: char,
    k: nat,
    long: &str,
    r: &str,
    p: &str,
    text: &str,
    t: &str,
    again: &str,
    u: &str,
)
    requires
        long@ == s + Seq::new(k, |i: int| c),
        s.len() == 0 || s.last() != c,
        call_ensures(trim_end_char, (long, c), r),
        p@.len() > 0,
        again@ == p@ + text@,
        call_ensures(trim_start_text, (text, p), t),
        call_ensures(trim_start_text, (again, p), u),
    ensures
        r@ == s,
        u@ == t@,
        !starts_with(text@, p@) ==> t@ == text@,
{
    lemma_without_trailing_is(long@, c, s.len() as int);
    assert(long@.subrange(0, s.len() as int) =~= s);
    assert(again@.subrange(0, p@.len() as int) =~= p@);
    assert(skip(again@, p@.len() as int) =~= text@);
}

/// A number below zero is a dash and its size; every other one is its digits. A list holds the
/// texts that are in it.
pub proof fn law_signs_and_membership(
    n: i64,
    r: String,
    m: u64,
    d: String,
    v: Vec<String>,
    s: &str,
    has: bool,
    i: int,
)
    requires
        call_ensures(to_signed_decimal, (n,), r),
        call_ensures(to_decimal, (m,), d),
        call_ensures(contains, (&v, s), has),
    ensures
        n >= 0 && m == n ==> r@ == d@,
        n < 0 && m == -n ==> r@ == "-"@ + d@,
        0 <= i < v@.len() && v@[i]@ == s@ ==> has,
        has ==> exists|k: int| 0 <= k < v@.len() && (#[trigger] v@[k])@ == s@,
{
    if 0 <= i < v@.len() && v@[i]@ == s@ {
        assert(views(v@)[i] == s@);
    }
    if has {
        let k = choose|k: int| 0 <= k < views(v@).len() && views(v@)[k] == s@;
        assert(v@[k]@ == s@);
    }
}

} // verus!
