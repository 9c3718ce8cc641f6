//! Byte-level substring search and whitespace trimming.

use vstd::prelude::*;
use vstd::string::*;
use vstd::utf8::encode_utf8;

verus! {

/// `needle` stands in `hay` at offset `at`.
pub open spec fn occurs_at(hay: Seq<u8>, needle: Seq<u8>, at: int) -> bool {
    &&& 0 <= at
    &&& at + needle.len() <= hay.len()
    &&& hay.subrange(at, at + needle.len()) == needle
}

/// `needle` stands somewhere in `hay`.
pub open spec fn contains_seq(hay: Seq<u8>, needle: Seq<u8>) -> bool {
    exists|at: int| occurs_at(hay, needle, at)
}

/// `needle` stands somewhere in `hay`, both taken as their UTF-8 bytes.
pub open spec fn text_contains(hay: Seq<char>, needle: Seq<char>) -> bool {
    contains_seq(encode_utf8(hay), encode_utf8(needle))
}

/// `hay` starts with `prefix`.
pub open spec fn starts_with_seq(hay: Seq<u8>, prefix: Seq<u8>) -> bool {
    occurs_at(hay, prefix, 0)
}

fn matches_at(hay: &[u8], needle: &[u8], at: usize) -> (r: bool)
    requires
        at + needle@.len() <= hay@.len(),
    ensures
        r == occurs_at(hay@, needle@, at as int),
{
    let total: usize = hay.len();
    let mut j: usize = 0;
    while j < needle.len()
        invariant
            j <= needle@.len(),
            total == hay@.len(),
            at + needle@.len() <= hay@.len(),
            forall|k: int| 0 <= k < j ==> hay@[at + k] == needle@[k],
        decreases needle@.len() - j,
    {
        if hay[at + j] != needle[j] {
            assert(hay@.subrange(at as int, at + needle@.len())[j as int] == hay@[at + j]);
            return false;
        }
        j += 1;
    }
    assert(hay@.subrange(at as int, at + needle@.len()) =~= needle@);
    true
}

/// Tells whether `hay` starts with `prefix`.
pub fn starts_with_bytes(hay: &[u8], prefix: &[u8]) -> (r: bool)
    ensures
        r == starts_with_seq(hay@, prefix@),
{
    if prefix.len() > hay.len() {
        return false;
    }
    matches_at(hay, prefix, 0)
}

/// Tells whether `needle` stands somewhere in `hay`.
pub fn contains_bytes(hay: &[u8], needle: &[u8]) -> (r: bool)
    ensures
        r == contains_seq(hay@, needle@),
{
    if needle.len() > hay.len() {
        return false;
    }
    let last: usize = hay.len() - needle.len();
    let mut i: usize = 0;
    while i < last
        invariant
            last == hay@.len() - needle@.len(),
            i <= last,
            forall|k: int| 0 <= k < i ==> !occurs_at(hay@, needle@, k),
        decreases last - i,
    {
        if matches_at(hay, needle, i) {
            return true;
        }
        i += 1;
    }
    matches_at(hay, needle, last)
}

/// Tells whether the text `needle` stands somewhere in the text `hay`.
pub fn str_contains(hay: &str, needle: &str) -> (r: bool)
    ensures
        r == text_contains(hay@, needle@),
{
    contains_bytes(hay.as_bytes(), needle.as_bytes())
}

/// The characters with the Unicode property White_Space.
pub open spec fn is_white_space(c: char) -> bool {
    let n = c as u32;
    ||| 0x09 <= n <= 0x0D
    ||| n == 0x20
    ||| n == 0x85
    ||| n == 0xA0
    ||| n == 0x1680
    ||| 0x2000 <= n <= 0x200A
    ||| n == 0x2028
    ||| n == 0x2029
    ||| n == 0x202F
    ||| n == 0x205F
    ||| n == 0x3000
}

/// `s` without its leading white space.
pub open spec fn trimmed_start(s: Seq<char>) -> Seq<char>
    decreases s.len(),
{
    if s.len() > 0 && is_white_space(s[0]) {
        trimmed_start(s.drop_first())
    } else {
        s
    }
}

/// `s` without its trailing white space.
pub open spec fn trimmed_end(s: Seq<char>) -> Seq<char>
    decreases s.len(),
{
    if s.len() > 0 && is_white_space(s.last()) {
        trimmed_end(s.drop_last())
    } else {
        s
    }
}

/// `s` without leading and trailing white space.
pub open spec fn trimmed(s: Seq<char>) -> Seq<char> {
    trimmed_end(trimmed_start(s))
}

/// Calls `str::trim`: the result is the text with the leading and the
/// trailing run of White_Space characters removed. Believed, not proved.
#[verifier::external_body]
pub(crate) fn trim_text(s: &str) -> (r: String)
    ensures
        r@ == trimmed(s@),
{
    s.trim().to_string()
}

/// Calls `String::from_utf8_lossy`: the result is a function of the bytes
/// alone, named by [`utf8_lossy`]. Believed, not proved.
#[verifier::external_body]
pub(crate) fn lossy_text(bytes: &[u8]) -> (r: String)
    ensures
        r@ == utf8_lossy(bytes@),
{
    String::from_utf8_lossy(bytes).into_owned()
}

/// The text that lossy UTF-8 decoding makes of a byte string.
pub uninterp spec fn utf8_lossy(bytes: Seq<u8>) -> Seq<char>;

/// `s` with every occurrence of the character `from` replaced by the text
/// `to`.
pub open spec fn replaced(s: Seq<char>, from: char, to: Seq<char>) -> Seq<char>
    decreases s.len(),
{
    if s.len() == 0 {
        Seq::empty()
    } else if s[0] == from {
        to + replaced(s.drop_first(), from, to)
    } else {
        seq![s[0]] + replaced(s.drop_first(), from, to)
    }
}

/// Calls `str::replace` with a character as the pattern: every occurrence of
/// the character gives way to the replacement text, the rest stays as it is.
/// Believed, not proved.
#[verifier::external_body]
pub(crate) fn replace_char(s: &str, from: char, to: &str) -> (r: String)
    ensures
        r@ == replaced(s@, from, to@),
{
    s.replace(from, to)
}

} // verus!
