//! Character-wise rewriting of text.

use vstd::prelude::*;
use vstd::string::*;

verus! {

pub open spec fn is_ascii_lowercase(c: char) -> bool {
    'a' <= c <= 'z'
}

/// The upper-case form of an ASCII lower-case letter; any other character
/// stays as it is.
pub open spec fn ascii_uppercase_char(c: char) -> char {
    if is_ascii_lowercase(c) {
        ((c as u8) - 32) as char
    } else {
        c
    }
}

/// `s` with each ASCII lower-case letter replaced by its upper-case form.
pub open spec fn ascii_uppercase(s: Seq<char>) -> Seq<char> {
    s.map_values(|c: char| ascii_uppercase_char(c))
}

/// `s` with each occurrence of `from` replaced by `to`.
pub open spec fn replaced(s: Seq<char>, from: char, to: char) -> Seq<char> {
    s.map_values(
        |c: char|
            if c == from {
                to
            } else {
                c
            },
    )
}

/// Upper-casing keeps the length of a text and every character that is no ASCII
/// lower-case letter; it puts each such letter as far behind `A` as it stood
/// behind `a`, so that none is left; and it changes nothing when done again.
pub proof fn lemma_ascii_uppercase(s: Seq<char>)
    ensures
        ascii_uppercase(s).len() == s.len(),
        forall|i: int|
            0 <= i < s.len() && !is_ascii_lowercase(s[i]) ==> #[trigger] ascii_uppercase(s)[i]
                == s[i],
        forall|i: int|
            0 <= i < s.len() && is_ascii_lowercase(s[i]) ==> (#[trigger] ascii_uppercase(s)[i])
                as int - 'A' as int == s[i] as int - 'a' as int,
        forall|i: int|
            0 <= i < s.len() ==> !is_ascii_lowercase(#[trigger] ascii_uppercase(s)[i]),
        ascii_uppercase(ascii_uppercase(s)) == ascii_uppercase(s),
{
    assert(ascii_uppercase(ascii_uppercase(s)) =~= ascii_uppercase(s));
}

/// `String::push`: the one character `c` is appended to `s`.
#[verifier::external_body]
pub(crate) fn push_char(s: &mut String, c: char)
    ensures
        final(s)@ == old(s)@.push(c),
{
    s.push(c)
}

/// The upper-case form of `c`, if `c` is an ASCII lower-case letter, else `c`.
pub fn to_ascii_uppercase_char(c: char) -> (upper: char)
    ensures
        upper == ascii_uppercase_char(c),
{
    if 'a' <= c && c <= 'z' {
        ((c as u8) - 32) as char
    } else {
        c
    }
}

/// `s` in upper case, as far as its letters are ASCII.
pub fn to_ascii_uppercase(s: &str) -> (upper: String)
    ensures
        upper@ == ascii_uppercase(s@),
{
    let mut upper = String::new();
    for c in it: s.chars()
        invariant
            it.seq() == s@,
            upper@ == ascii_uppercase(s@.take(it.index())),
    {
        assert(s@.take(it.index() + 1) == s@.take(it.index()).push(c));
        push_char(&mut upper, to_ascii_uppercase_char(c));
    }
    assert(s@.take(s@.len() as int) == s@);
    upper
}

/// `s` with `to` in place of each `from`.
pub fn replace_char(s: &str, from: char, to: char) -> (out: String)
    ensures
        out@ == replaced(s@, from, to),
{
    let mut out = String::new();
    for c in it: s.chars()
        invariant
            it.seq() == s@,
            out@ == replaced(s@.take(it.index()), from, to),
    {
        assert(s@.take(it.index() + 1) == s@.take(it.index()).push(c));
        push_char(&mut out, if c == from { to } else { c });
    }
    assert(s@.take(s@.len() as int) == s@);
    out
}

} // verus!
