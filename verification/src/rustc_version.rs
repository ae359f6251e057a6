//! Versions of the Rust compiler.

use crate::text::{chars_of, decimal, decimal_text};
use core::cmp::Ordering;
use vstd::prelude::*;
use vstd::string::StringExecFns;

verus! {

/// A version of the rustc compiler: major, minor and patch.
#[derive(Debug, Clone, Copy, PartialEq, Eq, Structural, Ord)]
pub struct RustcVersion {
    major: u8,
    minor: u8,
    patch: u8,
}

impl View for RustcVersion {
    type V = (nat, nat, nat);

    closed spec fn view(&self) -> (nat, nat, nat) {
        (self.major as nat, self.minor as nat, self.patch as nat)
    }
}

/// Whether version `a` comes before version `b`: by major, then by minor,
/// then by patch.
pub open spec fn precedes(a: (nat, nat, nat), b: (nat, nat, nat)) -> bool {
    a.0 < b.0 || (a.0 == b.0 && (a.1 < b.1 || (a.1 == b.1 && a.2 < b.2)))
}

impl PartialOrd for RustcVersion {
    fn partial_cmp(&self, other: &Self) -> (order: Option<Ordering>) {
        if self.major < other.major {
            Some(Ordering::Less)
        } else if self.major > other.major {
            Some(Ordering::Greater)
        } else if self.minor < other.minor {
            Some(Ordering::Less)
        } else if self.minor > other.minor {
            Some(Ordering::Greater)
        } else if self.patch < other.patch {
            Some(Ordering::Less)
        } else if self.patch > other.patch {
            Some(Ordering::Greater)
        } else {
            Some(Ordering::Equal)
        }
    }
}

impl vstd::std_specs::cmp::PartialOrdSpecImpl for RustcVersion {
    open spec fn obeys_partial_cmp_spec() -> bool {
        true
    }

    open spec fn partial_cmp_spec(&self, other: &Self) -> Option<Ordering> {
        if precedes(self@, other@) {
            Some(Ordering::Less)
        } else if precedes(other@, self@) {
            Some(Ordering::Greater)
        } else {
            Some(Ordering::Equal)
        }
    }
}

impl RustcVersion {
    /// Define a rustc version with the given major.minor.patch.
    pub fn new(major: u8, minor: u8, patch: u8) -> (version: Self)
        ensures
            version@ == (major as nat, minor as nat, patch as nat),
    {
        RustcVersion { major, minor, patch }
    }

    /// Whether this version comes before `other`.
    pub fn is_before(&self, other: &Self) -> (before: bool)
        ensures
            before == precedes(self@, other@),
    {
        *self < *other
    }

    /// The version as text: `RustcVersion(major, minor, patch)`.
    pub fn text(&self) -> (out: String)
        ensures
            out@ == "RustcVersion("@ + decimal(self@.0) + ", "@ + decimal(self@.1) + ", "@
                + decimal(self@.2) + ")"@,
    {
        let mut out = "RustcVersion(".to_string();
        out.append(decimal_text(self.major).as_str());
        out.append(", ");
        out.append(decimal_text(self.minor).as_str());
        out.append(", ");
        out.append(decimal_text(self.patch).as_str());
        out.append(")");
        out
    }
}

/// Two versions of the same numbers are the same version.
pub proof fn lemma_same_numbers_same_version(a: RustcVersion, b: RustcVersion)
    requires
        a@ == b@,
    ensures
        a == b,
{
}

/// No version comes before itself, and of two different versions one comes
/// before the other.
pub proof fn lemma_versions_are_ordered(a: (nat, nat, nat), b: (nat, nat, nat))
    ensures
        !precedes(a, a),
        a != b ==> (precedes(a, b) <==> !precedes(b, a)),
{
}

/// What comes before a version that comes before a third comes before the
/// third.
pub proof fn lemma_precedes_is_transitive(a: (nat, nat, nat), b: (nat, nat, nat), c: (nat, nat, nat))
    requires
        precedes(a, b),
        precedes(b, c),
    ensures
        precedes(a, c),
{
}

/// Why the output of `rustc --version` holds no version.
#[derive(Debug, Clone, Copy, PartialEq, Eq, Structural)]
pub enum VersionError {
    /// The output has no second word.
    MissingVersion,
    /// One of the first three parts of the version does not begin with a
    /// number up to 255.
    NotANumber,
    /// The version has fewer than three parts.
    Incomplete,
}

/// Whether a character is white space, as Unicode defines it.
pub open spec fn is_space(c: char) -> bool {
    let n = c as u32;
    n == 0x20 || (0x09 <= n <= 0x0d) || n == 0x85 || n == 0xa0 || n == 0x1680 || (0x2000 <= n
        <= 0x200a) || n == 0x2028 || n == 0x2029 || n == 0x202f || n == 0x205f || n == 0x3000
}

/// Whether a character is one of the digits `0` to `9`.
pub open spec fn is_digit(c: char) -> bool {
    0x30 <= c as u32 <= 0x39
}

/// The position of the first character of `s` at or after `from` that is
/// not white space; the length of `s` if there is none.
pub open spec fn skip_spaces(s: Seq<char>, from: int) -> int
    decreases s.len() - from,
{
    if 0 <= from < s.len() && is_space(s[from]) {
        skip_spaces(s, from + 1)
    } else {
        from
    }
}

/// The position of the first character of `s` at or after `from` that is
/// white space; the length of `s` if there is none.
pub open spec fn skip_word(s: Seq<char>, from: int) -> int
    decreases s.len() - from,
{
    if 0 <= from < s.len() && !is_space(s[from]) {
        skip_word(s, from + 1)
    } else {
        from
    }
}

/// The position of the first character of `s` at or after `from` that is
/// no digit; the length of `s` if there is none.
pub open spec fn skip_digits(s: Seq<char>, from: int) -> int
    decreases s.len() - from,
{
    if 0 <= from < s.len() && is_digit(s[from]) {
        skip_digits(s, from + 1)
    } else {
        from
    }
}

/// The position of the first dot of `s` at or after `from`; the length
/// of `s` if there is none.
pub open spec fn skip_to_dot(s: Seq<char>, from: int) -> int
    decreases s.len() - from,
{
    if 0 <= from < s.len() && s[from] != '.' {
        skip_to_dot(s, from + 1)
    } else {
        from
    }
}

/// The second of the words of `s` that white space parts, if it has two.
pub open spec fn second_word(s: Seq<char>) -> Option<Seq<char>> {
    let start = skip_spaces(s, skip_word(s, skip_spaces(s, 0)));
    let end = skip_word(s, start);
    if 0 <= start < end <= s.len() {
        Some(s.subrange(start, end))
    } else {
        None
    }
}

/// The number that a sequence of digits stands for.
pub open spec fn number(digits: Seq<char>) -> nat
    decreases digits.len(),
{
    if digits.len() == 0 {
        0
    } else {
        (number(digits.drop_last()) * 10 + (digits.last() as u32 - 0x30)) as nat
    }
}

/// The number that the part of a version beginning at `from` begins
/// with; none where it begins with no digit or the number is over 255.
/// What follows the digits is left aside.
pub open spec fn component(word: Seq<char>, from: int) -> Option<nat> {
    let end = skip_digits(word, from);
    if 0 <= from < end <= word.len() && number(word.subrange(from, end)) <= 255 {
        Some(number(word.subrange(from, end)))
    } else {
        None
    }
}

/// Where the part after the one beginning at `from` begins: behind the
/// next dot, if there is one.
pub open spec fn next_part(word: Seq<char>, from: int) -> Option<int> {
    let dot = skip_to_dot(word, from);
    if dot < word.len() {
        Some(dot + 1)
    } else {
        None
    }
}

/// The version that `word` holds: the numbers that its first three parts
/// begin with, the parts being parted by dots.
pub open spec fn version_in(word: Seq<char>) -> Result<(nat, nat, nat), VersionError> {
    match component(word, 0) {
        None => Err(VersionError::NotANumber),
        Some(major) => match next_part(word, 0) {
            None => Err(VersionError::Incomplete),
            Some(second) => match component(word, second) {
                None => Err(VersionError::NotANumber),
                Some(minor) => match next_part(word, second) {
                    None => Err(VersionError::Incomplete),
                    Some(third) => match component(word, third) {
                        None => Err(VersionError::NotANumber),
                        Some(patch) => Ok((major, minor, patch)),
                    },
                },
            },
        },
    }
}

/// The version that the output of `rustc --version` holds: that of its
/// second word, as in `rustc 1.87.0-nightly (17067e9ac 2025-05-09)`.
pub open spec fn parsed_version(output: Seq<char>) -> Result<(nat, nat, nat), VersionError> {
    match second_word(output) {
        None => Err(VersionError::MissingVersion),
        Some(word) => version_in(word),
    }
}

/// Whether a character is white space.
fn white_space(c: char) -> (space: bool)
    ensures
        space == is_space(c),
{
    let n = c as u32;
    n == 0x20 || (0x09 <= n && n <= 0x0d) || n == 0x85 || n == 0xa0 || n == 0x1680 || (0x2000 <= n
        && n <= 0x200a) || n == 0x2028 || n == 0x2029 || n == 0x202f || n == 0x205f || n == 0x3000
}

/// The position behind the white space that begins at `from`.
fn after_spaces(s: &Vec<char>, from: usize) -> (to: usize)
    requires
        from <= s.len(),
    ensures
        to == skip_spaces(s@, from as int),
        from <= to <= s.len(),
{
    let mut i: usize = from;
    while i < s.len() && white_space(s[i])
        invariant
            from <= i <= s.len(),
            skip_spaces(s@, from as int) == skip_spaces(s@, i as int),
        decreases s.len() - i,
    {
        i = i + 1;
    }
    i
}

/// The position behind the word that begins at `from`.
fn after_word(s: &Vec<char>, from: usize) -> (to: usize)
    requires
        from <= s.len(),
    ensures
        to == skip_word(s@, from as int),
        from <= to <= s.len(),
{
    let mut i: usize = from;
    while i < s.len() && !white_space(s[i])
        invariant
            from <= i <= s.len(),
            skip_word(s@, from as int) == skip_word(s@, i as int),
        decreases s.len() - i,
    {
        i = i + 1;
    }
    i
}

/// The number that the part beginning at `from` begins with.
fn component_at(word: &Vec<char>, from: usize) -> (value: Option<u8>)
    requires
        from <= word.len(),
    ensures
        match value {
            Some(value) => component(word@, from as int) == Some(value as nat),
            None => component(word@, from as int) is None,
        },
{
    let mut i: usize = from;
    let mut value: u32 = 0;
    let mut fits = true;
    assert(word@.subrange(from as int, from as int) =~= Seq::empty());
    while i < word.len() && 0x30 <= word[i] as u32 && word[i] as u32 <= 0x39
        invariant
            from <= i <= word.len(),
            skip_digits(word@, from as int) == skip_digits(word@, i as int),
            fits ==> value == number(word@.subrange(from as int, i as int)) && value <= 255,
            !fits ==> number(word@.subrange(from as int, i as int)) > 255,
        decreases word.len() - i,
    {
        let digit = word[i] as u32 - 0x30;
        assert(word@.subrange(from as int, i + 1).drop_last() =~= word@.subrange(
            from as int,
            i as int,
        ));
        if fits {
            value = value * 10 + digit;
            if value > 255 {
                fits = false;
            }
        }
        i = i + 1;
    }
    if i > from && fits {
        Some(value as u8)
    } else {
        None
    }
}

/// Where the part after the one beginning at `from` begins.
fn part_after(word: &Vec<char>, from: usize) -> (next: Option<usize>)
    requires
        from <= word.len(),
    ensures
        match next {
            Some(next) => next_part(word@, from as int) == Some(next as int) && next <= word.len(),
            None => next_part(word@, from as int) is None,
        },
{
    let mut i: usize = from;
    while i < word.len() && word[i] != '.'
        invariant
            from <= i <= word.len(),
            skip_to_dot(word@, from as int) == skip_to_dot(word@, i as int),
        decreases word.len() - i,
    {
        i = i + 1;
    }
    if i < word.len() {
        Some(i + 1)
    } else {
        None
    }
}

/// Reads the version out of the output of `rustc --version`.
pub fn parse_version(output: &str) -> (parsed: Result<RustcVersion, VersionError>)
    ensures
        match parsed {
            Ok(version) => parsed_version(output@) == Ok::<(nat, nat, nat), VersionError>(version@),
            Err(e) => parsed_version(output@) == Err::<(nat, nat, nat), VersionError>(e),
        },
{
    let text = chars_of(output);
    let start = after_spaces(&text, after_word(&text, after_spaces(&text, 0)));
    let end = after_word(&text, start);
    if start >= end {
        return Err(VersionError::MissingVersion);
    }
    let mut word: Vec<char> = Vec::new();
    let mut i: usize = start;
    while i < end
        invariant
            start <= i <= end <= text.len(),
            word@ == text@.subrange(start as int, i as int),
        decreases end - i,
    {
        word.push(text[i]);
        assert(word@ =~= text@.subrange(start as int, i + 1));
        i = i + 1;
    }
    let major = match component_at(&word, 0) {
        Some(major) => major,
        None => { return Err(VersionError::NotANumber); },
    };
    let second = match part_after(&word, 0) {
        Some(second) => second,
        None => { return Err(VersionError::Incomplete); },
    };
    let minor = match component_at(&word, second) {
        Some(minor) => minor,
        None => { return Err(VersionError::NotANumber); },
    };
    let third = match part_after(&word, second) {
        Some(third) => third,
        None => { return Err(VersionError::Incomplete); },
    };
    let patch = match component_at(&word, third) {
        Some(patch) => patch,
        None => { return Err(VersionError::NotANumber); },
    };
    Ok(RustcVersion::new(major, minor, patch))
}

} // verus!
