//! Semantic versions declared by extension modules.
//!
//! A version is a triple `major.minor.patch`. The textual form accepted
//! here is exactly three non-empty runs of ASCII digits separated by single
//! dots, each run denoting a number that fits in 64 bits.

use vstd::prelude::*;
use vstd::string::StrSliceExecFns;

verus! {

/// A semantic version triple, ordered by major, then minor, then patch.
#[derive(Debug, Clone, Copy, PartialEq, Eq, Structural)]
pub struct SemanticVersion {
    pub major: u64,
    pub minor: u64,
    pub patch: u64,
}

/// Whether `c` is one of the ten ASCII digits.
pub open spec fn is_digit(c: char) -> bool {
    '0' <= c && c <= '9'
}

/// The number a digit stands for.
pub open spec fn digit_value(c: char) -> nat {
    (c as nat - '0' as nat) as nat
}

/// The number written by a run of digits, most significant digit first.
/// The empty run denotes zero.
pub open spec fn decimal_value(digits: Seq<char>) -> nat
    decreases digits.len(),
{
    if digits.len() == 0 {
        0
    } else {
        decimal_value(digits.drop_last()) * 10 + digit_value(digits.last())
    }
}

/// The end of the longest run of digits of `s` that begins at `start`:
/// the first position at or after `start` that holds no digit, or the
/// length of `s` when there is none.
pub open spec fn digits_end(s: Seq<char>, start: int) -> int
    decreases s.len() - start,
{
    if 0 <= start < s.len() && is_digit(s[start]) {
        digits_end(s, start + 1)
    } else {
        start
    }
}

/// One component of a version text: the digit run that begins at `start`,
/// as `(value, end)`, or `None` when the run is empty or its value does not
/// fit in 64 bits.
pub open spec fn component_at(s: Seq<char>, start: int) -> Option<(u64, int)> {
    let end = digits_end(s, start);
    let value = decimal_value(s.subrange(start, end));
    if 0 <= start < end && value <= u64::MAX {
        Some((value as u64, end))
    } else {
        None
    }
}

/// The version that a text denotes, or `None` when the text is not of the
/// form `digits.digits.digits` with each number within 64 bits.
pub open spec fn parse_version(s: Seq<char>) -> Option<SemanticVersion> {
    match component_at(s, 0) {
        Some((major, i)) => if i < s.len() && s[i] == '.' {
            match component_at(s, i + 1) {
                Some((minor, j)) => if j < s.len() && s[j] == '.' {
                    match component_at(s, j + 1) {
                        Some((patch, k)) => if k == s.len() {
                            Some(SemanticVersion { major, minor, patch })
                        } else {
                            None
                        },
                        None => None,
                    }
                } else {
                    None
                },
                None => None,
            }
        } else {
            None
        },
        None => None,
    }
}

/// The end of a digit run lies between its start and the end of the text,
/// every position before it holds a digit, and the position itself does not.
pub proof fn lemma_digits_end(s: Seq<char>, start: int)
    requires
        0 <= start <= s.len(),
    ensures
        start <= digits_end(s, start) <= s.len(),
        forall|i: int| start <= i < digits_end(s, start) ==> is_digit(#[trigger] s[i]),
        digits_end(s, start) < s.len() ==> !is_digit(s[digits_end(s, start)]),
    decreases s.len() - start,
{
    if start < s.len() && is_digit(s[start]) {
        lemma_digits_end(s, start + 1);
    }
}

/// A run of digits that stops at a non-digit or at the end of the text is
/// the longest run from its start.
pub proof fn lemma_digits_end_is(s: Seq<char>, start: int, end: int)
    requires
        0 <= start <= end <= s.len(),
        forall|i: int| start <= i < end ==> is_digit(#[trigger] s[i]),
        end < s.len() ==> !is_digit(s[end]),
    ensures
        digits_end(s, start) == end,
    decreases end - start,
{
    if start < end {
        lemma_digits_end_is(s, start + 1, end);
    }
}

/// Whether a text is a non-empty run of digits.
pub open spec fn is_number(digits: Seq<char>) -> bool {
    digits.len() > 0 && forall|i: int| 0 <= i < digits.len() ==> is_digit(#[trigger] digits[i])
}

/// Three texts joined by dots.
pub open spec fn dotted(major: Seq<char>, minor: Seq<char>, patch: Seq<char>) -> Seq<char> {
    major + seq!['.'] + minor + seq!['.'] + patch
}

/// A digit run that is followed by a dot or by the end of the text is read
/// as one component, with the value it denotes.
proof fn lemma_component_at(s: Seq<char>, start: int, digits: Seq<char>)
    requires
        0 <= start,
        start + digits.len() <= s.len(),
        is_number(digits),
        s.subrange(start, start + digits.len()) == digits,
        start + digits.len() < s.len() ==> s[start + digits.len()] == '.',
    ensures
        digits_end(s, start) == start + digits.len(),
        decimal_value(digits) <= u64::MAX ==> component_at(s, start) == Some(
            (decimal_value(digits) as u64, start + digits.len()),
        ),
        decimal_value(digits) > u64::MAX ==> component_at(s, start) is None,
{
    let end = start + digits.len();
    assert forall|i: int| start <= i < end implies is_digit(#[trigger] s[i]) by {
        assert(s[i] == s.subrange(start, end)[i - start]);
    }
    lemma_digits_end_is(s, start, end);
}

/// Three digit runs joined by dots are read as the version of the numbers
/// they denote, provided each number fits in 64 bits, and as no version
/// otherwise.
pub proof fn lemma_parse_dotted(major: Seq<char>, minor: Seq<char>, patch: Seq<char>)
    requires
        is_number(major),
        is_number(minor),
        is_number(patch),
    ensures
        parse_version(dotted(major, minor, patch)) == if decimal_value(major) <= u64::MAX
            && decimal_value(minor) <= u64::MAX && decimal_value(patch) <= u64::MAX {
            Some(
                SemanticVersion {
                    major: decimal_value(major) as u64,
                    minor: decimal_value(minor) as u64,
                    patch: decimal_value(patch) as u64,
                },
            )
        } else {
            None
        },
{
    let s = dotted(major, minor, patch);
    let i = major.len() as int;
    let j = i + 1 + minor.len();
    let k = j + 1 + patch.len();
    assert(s.len() == k);
    assert(s[i] == '.');
    assert(s[j] == '.');
    assert(s.subrange(0, i) =~= major);
    assert(s.subrange(i + 1, j) =~= minor);
    assert(s.subrange(j + 1, k) =~= patch);
    lemma_component_at(s, 0, major);
    lemma_component_at(s, i + 1, minor);
    lemma_component_at(s, j + 1, patch);
}

/// A text that is read as a version is three digit runs joined by dots,
/// and the version holds the numbers they denote.
pub proof fn lemma_parsed_is_dotted(s: Seq<char>)
    requires
        parse_version(s) is Some,
    ensures
        exists|major: Seq<char>, minor: Seq<char>, patch: Seq<char>|
            #![trigger dotted(major, minor, patch)]
            s == dotted(major, minor, patch) && is_number(major) && is_number(minor)
                && is_number(patch) && parse_version(s) == Some(
                SemanticVersion {
                    major: decimal_value(major) as u64,
                    minor: decimal_value(minor) as u64,
                    patch: decimal_value(patch) as u64,
                },
            ),
{
    let i = digits_end(s, 0);
    lemma_digits_end(s, 0);
    let j = digits_end(s, i + 1);
    lemma_digits_end(s, i + 1);
    let k = digits_end(s, j + 1);
    lemma_digits_end(s, j + 1);
    let major = s.subrange(0, i);
    let minor = s.subrange(i + 1, j);
    let patch = s.subrange(j + 1, k);
    assert(s =~= dotted(major, minor, patch));
}

impl SemanticVersion {
    /// Version order: `self` is lower than or equal to `other`.
    pub open spec fn spec_le(self, other: SemanticVersion) -> bool {
        self.major < other.major || (self.major == other.major && (self.minor < other.minor || (
        self.minor == other.minor && self.patch <= other.patch)))
    }

    /// Version order: `self` is strictly lower than `other`.
    pub open spec fn spec_lt(self, other: SemanticVersion) -> bool {
        self.spec_le(other) && self != other
    }

    /// Builds a version from its three components.
    pub fn new(major: u64, minor: u64, patch: u64) -> (v: SemanticVersion)
        ensures
            v == (SemanticVersion { major, minor, patch }),
    {
        SemanticVersion { major, minor, patch }
    }

    /// Tells whether `self` is lower than or equal to `other`.
    pub fn le(&self, other: &SemanticVersion) -> (r: bool)
        ensures
            r == self.spec_le(*other),
    {
        if self.major != other.major {
            self.major < other.major
        } else if self.minor != other.minor {
            self.minor < other.minor
        } else {
            self.patch <= other.patch
        }
    }

    /// Tells whether `self` is strictly lower than `other`.
    pub fn lt(&self, other: &SemanticVersion) -> (r: bool)
        ensures
            r == self.spec_lt(*other),
    {
        if self.major != other.major {
            self.major < other.major
        } else if self.minor != other.minor {
            self.minor < other.minor
        } else {
            self.patch < other.patch
        }
    }

    /// Reads a version from its text. Returns `None` unless the text is
    /// three digit runs separated by dots, each within 64 bits.
    pub fn parse(text: &str) -> (r: Option<SemanticVersion>)
        ensures
            r == parse_version(text@),
    {
        let len = text.unicode_len();
        let (major, i) = match read_component(text, len, 0) {
            Some(found) => found,
            None => { return None; },
        };
        if i >= len || text.get_char(i) != '.' {
            return None;
        }
        let (minor, j) = match read_component(text, len, i + 1) {
            Some(found) => found,
            None => { return None; },
        };
        if j >= len || text.get_char(j) != '.' {
            return None;
        }
        let (patch, k) = match read_component(text, len, j + 1) {
            Some(found) => found,
            None => { return None; },
        };
        if k != len {
            return None;
        }
        Some(SemanticVersion { major, minor, patch })
    }
}

/// Version order is reflexive.
pub proof fn lemma_le_reflexive(a: SemanticVersion)
    ensures
        a.spec_le(a),
{
}

/// Version order is transitive.
pub proof fn lemma_le_transitive(a: SemanticVersion, b: SemanticVersion, c: SemanticVersion)
    requires
        a.spec_le(b),
        b.spec_le(c),
    ensures
        a.spec_le(c),
{
}

/// Version order is total: of two versions one is lower than or equal to
/// the other, and both hold only of equal versions.
pub proof fn lemma_le_total(a: SemanticVersion, b: SemanticVersion)
    ensures
        a.spec_le(b) || b.spec_le(a),
        a.spec_le(b) && b.spec_le(a) ==> a == b,
        a.spec_lt(b) <==> !b.spec_le(a),
{
}

/// Tells whether `c` is an ASCII digit, and which.
fn digit_of(c: char) -> (r: Option<u64>)
    ensures
        r is Some == is_digit(c),
        r matches Some(d) ==> d == digit_value(c) && d <= 9,
{
    if '0' <= c && c <= '9' {
        Some((c as u64) - ('0' as u64))
    } else {
        None
    }
}

/// Reads the digit run of `text` that begins at `start`.
fn read_component(text: &str, len: usize, start: usize) -> (r: Option<(u64, usize)>)
    requires
        len == text@.len(),
        start <= len,
    ensures
        match component_at(text@, start as int) {
            Some((value, end)) => r == Some((value, end as usize)) && end <= len,
            None => r is None,
        },
{
    let ghost s = text@;
    let mut pos: usize = start;
    let mut value: u64 = 0;
    let mut fits: bool = true;
    let mut running: bool = true;
    while running
        invariant
            s == text@,
            len == s.len(),
            start <= pos <= len,
            forall|i: int| start <= i < pos ==> is_digit(#[trigger] s[i]),
            fits ==> value == decimal_value(s.subrange(start as int, pos as int)),
            !fits ==> decimal_value(s.subrange(start as int, pos as int)) > u64::MAX,
            !running ==> (pos < len ==> !is_digit(s[pos as int])),
            running ==> pos <= len,
        decreases (len - pos) + (if running { 1int } else { 0int }),
    {
        if pos >= len {
            running = false;
        } else {
            let c = text.get_char(pos);
            match digit_of(c) {
                None => {
                    running = false;
                },
                Some(d) => {
                    proof {
                        let before = s.subrange(start as int, pos as int);
                        let after = s.subrange(start as int, pos as int + 1);
                        assert(after.drop_last() =~= before);
                        assert(after.last() == c);
                        assert(decimal_value(after) == decimal_value(before) * 10 + digit_value(c));
                    }
                    if fits && value <= (u64::MAX - d) / 10 {
                        value = value * 10 + d;
                    } else {
                        fits = false;
                    }
                    pos = pos + 1;
                },
            }
        }
    }
    proof {
        lemma_digits_end_is(s, start as int, pos as int);
    }
    if pos > start && fits {
        Some((value, pos))
    } else {
        None
    }
}

} // verus!
