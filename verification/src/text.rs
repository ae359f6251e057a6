//! Operations on strings, stated over sequences of characters.
//!
//! Every function here says what it returns as a `Seq<char>`, so that the
//! modules built on top can state the text they produce exactly.

use vstd::prelude::*;
use vstd::string::StrSliceExecFns;
use vstd::string::StringExecFns;

verus! {

/// `pat` occurs in `s` starting at position `at`.
pub open spec fn occurs_at(s: Seq<char>, pat: Seq<char>, at: int) -> bool {
    &&& 0 <= at
    &&& at + pat.len() <= s.len()
    &&& s.subrange(at, at + pat.len()) == pat
}

/// `pat` occurs somewhere in `s`.
pub open spec fn contains_text(s: Seq<char>, pat: Seq<char>) -> bool {
    exists|at: int| occurs_at(s, pat, at)
}

/// `s` with every occurrence of `pat` replaced by `to`, scanning from the
/// left; occurrences do not overlap, and text that a replacement put in is
/// not scanned again. An empty `pat` replaces nothing.
pub open spec fn replaced(s: Seq<char>, pat: Seq<char>, to: Seq<char>) -> Seq<char>
    decreases s.len(),
{
    if s.len() == 0 {
        s
    } else if pat.len() > 0 && occurs_at(s, pat, 0) {
        to + replaced(s.skip(pat.len() as int), pat, to)
    } else {
        seq![s[0]] + replaced(s.skip(1), pat, to)
    }
}

/// The `parts` written one after the other with `sep` between neighbours.
pub open spec fn joined(parts: Seq<Seq<char>>, sep: Seq<char>) -> Seq<char>
    decreases parts.len(),
{
    if parts.len() == 0 {
        Seq::empty()
    } else if parts.len() == 1 {
        parts[0]
    } else {
        joined(parts.drop_last(), sep) + sep + parts.last()
    }
}

/// The views of a vector of strings.
pub open spec fn views(parts: Seq<String>) -> Seq<Seq<char>> {
    Seq::new(parts.len(), |i: int| parts[i]@)
}

/// The characters of `s`, for indexing.
pub fn chars_of(s: &str) -> (chars: Vec<char>)
    ensures
        chars@ == s@,
{
    let mut chars: Vec<char> = Vec::new();
    for c in it: s.chars()
        invariant
            chars@ == s@.take(it.index() as int),
            it.seq() == s@,
    {
        chars.push(c);
    }
    chars
}

/// Whether two strings hold the same characters.
pub fn same_text(a: &str, b: &str) -> (same: bool)
    ensures
        same == (a@ == b@),
{
    let a = a.to_owned();
    let b = b.to_owned();
    a == b
}

/// Whether `pat` occurs in `s` at `at`.
pub fn matches_at(s: &Vec<char>, pat: &Vec<char>, at: usize) -> (found: bool)
    ensures
        found == occurs_at(s@, pat@, at as int),
{
    if at > s.len() || pat.len() > s.len() - at {
        return false;
    }
    let mut k: usize = 0;
    while k < pat.len()
        invariant
            k <= pat.len(),
            at + pat.len() <= s.len(),
            forall|j: int| 0 <= j < k ==> s@[at + j] == pat@[j],
        decreases pat.len() - k,
    {
        if s[at + k] != pat[k] {
            assert(s@.subrange(at as int, at + pat.len())[k as int] != pat@[k as int]);
            return false;
        }
        k += 1;
    }
    assert(s@.subrange(at as int, at + pat.len()) =~= pat@);
    true
}

/// Whether `s` begins with `prefix`.
pub fn starts_with(s: &str, prefix: &str) -> (found: bool)
    ensures
        found == prefix@.is_prefix_of(s@),
{
    let text = chars_of(s);
    let wanted = chars_of(prefix);
    let found = matches_at(&text, &wanted, 0);
    proof {
        if prefix@.is_prefix_of(s@) {
            assert(s@.subrange(0, prefix@.len() as int) =~= prefix@);
        }
    }
    found
}

/// Whether `pat` occurs in `s`.
pub fn contains(s: &str, pat: &str) -> (found: bool)
    ensures
        found == contains_text(s@, pat@),
{
    let text = chars_of(s);
    let wanted = chars_of(pat);
    let mut at: usize = 0;
    while at < text.len()
        invariant
            text@ == s@,
            wanted@ == pat@,
            at <= text.len(),
            forall|j: int| 0 <= j < at ==> !occurs_at(text@, wanted@, j),
        decreases text.len() - at,
    {
        if matches_at(&text, &wanted, at) {
            return true;
        }
        at += 1;
    }
    matches_at(&text, &wanted, at)
}

/// `s` without its first `from` characters.
pub fn tail(s: &str, from: usize) -> (rest: &str)
    requires
        from <= s@.len(),
    ensures
        rest@ == s@.skip(from as int),
{
    let len = s.unicode_len();
    s.substring_char(from, len)
}

/// `s` with every occurrence of `pat` replaced by `to`.
pub fn replace_all(s: &str, pat: &str, to: &str) -> (out: String)
    ensures
        out@ == replaced(s@, pat@, to@),
{
    let text = chars_of(s);
    let wanted = chars_of(pat);
    let mut out = String::new();
    // `text[kept..at]` has been scanned, holds no occurrence and is not yet written.
    let mut kept: usize = 0;
    let mut at: usize = 0;
    assert(s@.skip(0) =~= s@);
    assert(out@ + s@.subrange(0, 0) =~= Seq::empty());
    while at < text.len()
        invariant
            text@ == s@,
            wanted@ == pat@,
            kept <= at <= text.len(),
            replaced(s@, pat@, to@) == out@ + s@.subrange(kept as int, at as int) + replaced(
                s@.skip(at as int),
                pat@,
                to@,
            ),
        decreases text.len() - at,
    {
        let ghost rest = s@.skip(at as int);
        assert(occurs_at(rest, pat@, 0) <==> occurs_at(s@, pat@, at as int)) by {
            if at + pat@.len() <= s@.len() {
                assert(rest.subrange(0, pat@.len() as int) =~= s@.subrange(
                    at as int,
                    at + pat@.len(),
                ));
            }
        }
        if wanted.len() > 0 && matches_at(&text, &wanted, at) {
            out.append(s.substring_char(kept, at));
            out.append(to);
            assert(rest.skip(pat@.len() as int) =~= s@.skip(at + pat@.len()));
            at = at + wanted.len();
            kept = at;
            assert(s@.subrange(kept as int, at as int) =~= Seq::empty());
        } else {
            assert(rest.skip(1) =~= s@.skip(at + 1));
            assert(s@.subrange(kept as int, at as int) + seq![rest[0]] =~= s@.subrange(
                kept as int,
                at + 1,
            ));
            at = at + 1;
        }
    }
    out.append(s.substring_char(kept, at));
    out
}

/// The `parts` written one after the other with `sep` between neighbours.
pub fn join(parts: &Vec<String>, sep: &str) -> (out: String)
    ensures
        out@ == joined(views(parts@), sep@),
{
    let mut out = String::new();
    let mut n: usize = 0;
    while n < parts.len()
        invariant
            n <= parts.len(),
            out@ == joined(views(parts@).take(n as int), sep@),
        decreases parts.len() - n,
    {
        let ghost before = views(parts@).take(n as int);
        let ghost after = views(parts@).take(n + 1);
        assert(after.drop_last() =~= before);
        assert(after.last() == parts@[n as int]@);
        if n > 0 {
            out.append(sep);
        }
        out.append(parts[n].as_str());
        n = n + 1;
    }
    assert(views(parts@).take(n as int) =~= views(parts@));
    out
}

/// The character that stands for a digit.
pub open spec fn digit_char(d: nat) -> char {
    if d == 0 {
        '0'
    } else if d == 1 {
        '1'
    } else if d == 2 {
        '2'
    } else if d == 3 {
        '3'
    } else if d == 4 {
        '4'
    } else if d == 5 {
        '5'
    } else if d == 6 {
        '6'
    } else if d == 7 {
        '7'
    } else if d == 8 {
        '8'
    } else {
        '9'
    }
}

/// A number written in decimal, without leading zeros.
pub open spec fn decimal(n: nat) -> Seq<char>
    decreases n,
{
    if n < 10 {
        seq![digit_char(n)]
    } else {
        decimal(n / 10).push(digit_char(n % 10))
    }
}

/// The text of a digit.
fn digit_text(d: u8) -> (text: &'static str)
    requires
        d < 10,
    ensures
        text@ == seq![digit_char(d as nat)],
{
    proof {
        reveal_strlit("0");
        reveal_strlit("1");
        reveal_strlit("2");
        reveal_strlit("3");
        reveal_strlit("4");
        reveal_strlit("5");
        reveal_strlit("6");
        reveal_strlit("7");
        reveal_strlit("8");
        reveal_strlit("9");
    }
    let text = if d == 0 {
        "0"
    } else if d == 1 {
        "1"
    } else if d == 2 {
        "2"
    } else if d == 3 {
        "3"
    } else if d == 4 {
        "4"
    } else if d == 5 {
        "5"
    } else if d == 6 {
        "6"
    } else if d == 7 {
        "7"
    } else if d == 8 {
        "8"
    } else {
        "9"
    };
    assert(text@ =~= seq![digit_char(d as nat)]);
    text
}

/// `n` written in decimal.
pub fn decimal_text(n: u8) -> (out: String)
    ensures
        out@ == decimal(n as nat),
{
    let mut out = String::new();
    if n >= 100 {
        out.append(digit_text(n / 100));
    }
    if n >= 10 {
        out.append(digit_text((n / 10) % 10));
    }
    out.append(digit_text(n % 10));
    proof {
        reveal_with_fuel(decimal, 3);
        assert(out@ =~= decimal(n as nat));
    }
    out
}

} // verus!
