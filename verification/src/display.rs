//! Class names of style utilities.
//!
//! A utility is an enum or a wrapper around one value. A variant's class
//! name is the variant's name in kebab case, without leading underscores,
//! behind the prefix of the utility and followed by the variant's argument
//! where it has one: `InOut` of the `ease` utility is `ease-in-out`, `_75`
//! of `duration` is `duration-75`. A utility may also have one text
//! replaced by another in the names of its variants.

use vstd::prelude::*;
use vstd::string::StrSliceExecFns;

verus! {

/// Whether a character has the Unicode property `Uppercase`.
pub uninterp spec fn is_uppercase(c: char) -> bool;

/// Whether a character counts as uppercase: among the ASCII characters the
/// capitals `A` to `Z`, beyond them the characters with the Unicode
/// property.
pub open spec fn uppercase(c: char) -> bool {
    if (c as u32) < 128 {
        'A' <= c && c <= 'Z'
    } else {
        is_uppercase(c)
    }
}

/// A character with the ASCII capitals mapped to their small letters and
/// every other character unchanged.
pub open spec fn ascii_lowercase(c: char) -> char {
    if 'A' <= c && c <= 'Z' {
        ((c as u32) + 32) as char
    } else {
        c
    }
}

/// Calls `char::is_uppercase`. The contract names the outcome, and states
/// of it that among the ASCII characters the capitals `A` to `Z` are the
/// uppercase ones.
#[verifier::external_body]
fn char_is_uppercase(c: char) -> (r: bool)
    ensures
        r == is_uppercase(c),
        (c as u32) < 128 ==> r == ('A' <= c && c <= 'Z'),
{
    c.is_uppercase()
}

/// Calls `char::to_ascii_lowercase`: `A` to `Z` become `a` to `z`, every
/// other character is returned as it is.
#[verifier::external_body]
fn char_to_ascii_lowercase(c: char) -> (r: char)
    ensures
        r == ascii_lowercase(c),
{
    c.to_ascii_lowercase()
}

/// Calls `String::push`: the character is appended.
#[verifier::external_body]
fn push_char(text: &mut String, c: char)
    ensures
        final(text)@ == old(text)@.push(c),
{
    text.push(c)
}

/// A text with every match of `from` replaced by `to`, matches taken from
/// left to right without overlap.
pub uninterp spec fn replaced(text: Seq<char>, from: Seq<char>, to: Seq<char>) -> Seq<char>;

/// Calls `str::replace` with a string pattern. The contract only names
/// the outcome: it is `replaced` of the three texts.
#[verifier::external_body]
fn replace_all(text: &str, from: &str, to: &str) -> (r: String)
    ensures
        r@ == replaced(text@, from@, to@),
{
    text.replace(from, to)
}

/// A replacement made in the names of a utility's variants.
#[derive(Debug, Clone, PartialEq, Eq)]
pub struct Replace {
    pub from: String,
    pub to: String,
}

/// How the class names of a utility are formed.
#[derive(Debug, Clone, PartialEq, Eq)]
pub struct DisplayOpts {
    /// What every class name of the utility begins with, before a hyphen.
    pub prefix: Option<String>,
    /// What is replaced in the kebab-case name of a variant.
    pub replace: Option<Replace>,
}

impl Default for DisplayOpts {
    /// No prefix and no replacement.
    fn default() -> (opts: DisplayOpts)
        ensures
            opts.prefix is None,
            opts.replace is None,
    {
        DisplayOpts { prefix: None, replace: None }
    }
}

impl DisplayOpts {
    /// The options of a utility that has a prefix and no replacement.
    pub fn with_prefix(prefix: &str) -> (opts: DisplayOpts)
        ensures
            opts.prefix matches Some(p) && p@ == prefix@,
            opts.replace is None,
    {
        DisplayOpts { prefix: Some(prefix.to_owned()), replace: None }
    }
}

/// What one character contributes to a kebab-case name: its lowercase
/// form, behind a hyphen when it is uppercase and not the first character.
pub open spec fn kebab_piece(c: char, first: bool) -> Seq<char> {
    if uppercase(c) && !first {
        seq!['-', ascii_lowercase(c)]
    } else {
        seq![ascii_lowercase(c)]
    }
}

/// A name in kebab case: the pieces of its characters, in order.
pub open spec fn kebab_case(name: Seq<char>) -> Seq<char>
    decreases name.len(),
{
    if name.len() == 0 {
        Seq::empty()
    } else {
        kebab_case(name.drop_last()) + kebab_piece(name.last(), name.len() == 1)
    }
}

/// The number of underscores a name begins with.
pub open spec fn leading_underscores(name: Seq<char>) -> nat
    decreases name.len(),
{
    if name.len() > 0 && name[0] == '_' {
        1 + leading_underscores(name.skip(1))
    } else {
        0
    }
}

/// A name without the underscores it begins with.
pub open spec fn without_leading_underscores(name: Seq<char>) -> Seq<char> {
    name.skip(leading_underscores(name) as int)
}

/// The name of a variant in its class: the variant's name without
/// leading underscores, in kebab case, with the replacement made where
/// there is one.
pub open spec fn variant_text(opts: DisplayOpts, variant: Seq<char>) -> Seq<char> {
    let kebab = kebab_case(without_leading_underscores(variant));
    match opts.replace {
        Some(replace) => replaced(kebab, replace.from@, replace.to@),
        None => kebab,
    }
}

/// A text behind the prefix of a utility and a hyphen, or the text alone
/// where the utility has no prefix.
pub open spec fn prefixed(opts: DisplayOpts, text: Seq<char>) -> Seq<char> {
    match opts.prefix {
        Some(prefix) => prefix@ + seq!['-'] + text,
        None => text,
    }
}

/// The class name of a variant: the variant's text behind the prefix,
/// followed by a hyphen and the argument where the variant has one.
pub open spec fn class_name(
    opts: DisplayOpts,
    variant: Seq<char>,
    argument: Option<Seq<char>>,
) -> Seq<char> {
    prefixed(
        opts,
        match argument {
            Some(a) => variant_text(opts, variant) + seq!['-'] + a,
            None => variant_text(opts, variant),
        },
    )
}

/// Underscores counted from the front: a name whose first `count`
/// characters are underscores and whose next one is not begins with
/// exactly `count` of them.
pub proof fn lemma_leading_underscores(name: Seq<char>, count: int)
    requires
        0 <= count <= name.len(),
        forall|i: int| 0 <= i < count ==> name[i] == '_',
        count < name.len() ==> name[count] != '_',
    ensures
        leading_underscores(name) == count,
    decreases count,
{
    if count > 0 {
        let rest = name.skip(1);
        assert forall|i: int| 0 <= i < count - 1 implies rest[i] == '_' by {
            assert(rest[i] == name[i + 1]);
        }
        lemma_leading_underscores(rest, count - 1);
    }
}

/// Writes a name in kebab case: every character in its ASCII lowercase
/// form, with a hyphen before each uppercase character but the first.
pub fn to_kebab_case(s: &str) -> (r: String)
    ensures
        r@ == kebab_case(s@),
{
    let len = s.unicode_len();
    let mut out = String::new();
    let mut pos: usize = 0;
    assert(s@.take(0) =~= Seq::<char>::empty());
    while pos < len
        invariant
            len == s@.len(),
            pos <= len,
            out@ == kebab_case(s@.take(pos as int)),
        decreases len - pos,
    {
        let c = s.get_char(pos);
        proof {
            let before = s@.take(pos as int);
            let after = s@.take(pos as int + 1);
            assert(after.drop_last() =~= before);
            assert(after.last() == c);
        }
        let upper = char_is_uppercase(c);
        assert(upper == uppercase(c));
        if upper && pos > 0 {
            push_char(&mut out, '-');
            push_char(&mut out, char_to_ascii_lowercase(c));
            assert(out@ =~= kebab_case(s@.take(pos as int)) + seq!['-', ascii_lowercase(c)]);
        } else {
            push_char(&mut out, char_to_ascii_lowercase(c));
            assert(out@ =~= kebab_case(s@.take(pos as int)) + seq![ascii_lowercase(c)]);
        }
        pos = pos + 1;
    }
    assert(s@.take(pos as int) =~= s@);
    out
}

/// Removes the underscores a name begins with.
pub fn trim_leading_underscores(name: &str) -> (r: &str)
    ensures
        r@ == without_leading_underscores(name@),
{
    let len = name.unicode_len();
    let mut count: usize = 0;
    let mut running: bool = true;
    while running
        invariant
            len == name@.len(),
            count <= len,
            forall|i: int| 0 <= i < count ==> name@[i] == '_',
            !running ==> (count < len ==> name@[count as int] != '_'),
        decreases (len - count) + (if running { 1int } else { 0int }),
    {
        if count < len && name.get_char(count) == '_' {
            count = count + 1;
        } else {
            running = false;
        }
    }
    proof {
        lemma_leading_underscores(name@, count as int);
        assert(name@.subrange(count as int, len as int) =~= name@.skip(count as int));
    }
    name.substring_char(count, len)
}

/// Puts a text behind the prefix of a utility.
pub fn with_prefix(opts: &DisplayOpts, text: &str) -> (r: String)
    ensures
        r@ == prefixed(*opts, text@),
{
    let mut out = String::new();
    match &opts.prefix {
        Some(prefix) => {
            out.append(prefix.as_str());
            push_char(&mut out, '-');
            out.append(text);
            assert(out@ =~= prefix@ + seq!['-'] + text@);
        },
        None => {
            out.append(text);
            assert(out@ =~= text@);
        },
    }
    out
}

/// Writes the class name of a variant of an enum utility.
pub fn display_variant(opts: &DisplayOpts, variant: &str, argument: Option<&str>) -> (r: String)
    ensures
        r@ == class_name(
            *opts,
            variant@,
            match argument {
                Some(a) => Some(a@),
                None => None,
            },
        ),
{
    let kebab = to_kebab_case(trim_leading_underscores(variant));
    let mut body = match &opts.replace {
        Some(replace) => replace_all(kebab.as_str(), replace.from.as_str(), replace.to.as_str()),
        None => kebab,
    };
    match argument {
        Some(a) => {
            push_char(&mut body, '-');
            body.append(a);
        },
        None => {},
    }
    with_prefix(opts, body.as_str())
}

/// Writes the class name of a utility that wraps one value: the value
/// behind the prefix.
pub fn display_wrapped(opts: &DisplayOpts, value: &str) -> (r: String)
    ensures
        r@ == prefixed(*opts, value@),
{
    with_prefix(opts, value)
}

} // verus!
