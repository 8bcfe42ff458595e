//! Identifier rules, and the identifier under which a flag is looked up at run
//! time.

use vstd::prelude::*;
use vstd::string::*;
use crate::text::is_ascii_lowercase;

verus! {

pub open spec fn is_ascii_digit(c: char) -> bool {
    '0' <= c <= '9'
}

/// A character that may follow the first one of a name.
pub open spec fn is_name_char(c: char) -> bool {
    is_ascii_lowercase(c) || is_ascii_digit(c) || c == '_'
}

/// A name is a lower-case letter followed by lower-case letters, digits and
/// underscores.
pub open spec fn valid_name_ident(s: Seq<char>) -> bool {
    &&& s.len() > 0
    &&& is_ascii_lowercase(s[0])
    &&& forall|i: int| 0 <= i < s.len() ==> is_name_char(#[trigger] s[i])
}

/// `s[lo..hi]` is one of the pieces into which the dots cut `s`: it holds no
/// dot and is bounded on each side by a dot or by an end of `s`.
pub open spec fn is_segment(s: Seq<char>, lo: int, hi: int) -> bool {
    &&& 0 <= lo <= hi <= s.len()
    &&& (lo == 0 || s[lo - 1] == '.')
    &&& (hi == s.len() || s[hi] == '.')
    &&& forall|k: int| lo <= k < hi ==> #[trigger] s[k] != '.'
}

/// A package name is a dot-separated list of names.
pub open spec fn valid_package_ident(s: Seq<char>) -> bool {
    forall|lo: int, hi: int| #[trigger]
        is_segment(s, lo, hi) ==> valid_name_ident(s.subrange(lo, hi))
}

/// The identifier of the flag `flag_name` of `package`.
pub open spec fn device_config_ident(package: Seq<char>, flag_name: Seq<char>) -> Seq<char> {
    package + seq!['.'] + flag_name
}

/// Why a pair of package and flag name has no identifier.
#[derive(Clone, Copy, Debug, PartialEq, Eq, Structural)]
pub enum IdentError {
    BadPackage,
    BadFlagName,
}

/// Where the segment that holds position `i` ends: at the first dot at or after
/// `i`, or at the end of `s`.
spec fn segment_end(s: Seq<char>, i: int) -> int
    decreases s.len() - i,
{
    if i < 0 || i >= s.len() || s[i] == '.' {
        i
    } else {
        segment_end(s, i + 1)
    }
}

proof fn lemma_segment_end(s: Seq<char>, i: int)
    requires
        0 <= i <= s.len(),
    ensures
        i <= segment_end(s, i) <= s.len(),
        segment_end(s, i) == s.len() || s[segment_end(s, i)] == '.',
        forall|k: int| i <= k < segment_end(s, i) ==> #[trigger] s[k] != '.',
    decreases s.len() - i,
{
    if i < s.len() && s[i] != '.' {
        lemma_segment_end(s, i + 1);
    }
}

/// A package name starts with a name: it is not empty, and its first character
/// is a lower-case letter.
pub proof fn lemma_package_starts_with_name(s: Seq<char>)
    requires
        valid_package_ident(s),
    ensures
        s.len() > 0,
        is_ascii_lowercase(s[0]),
{
    let hi = segment_end(s, 0);
    lemma_segment_end(s, 0);
    assert(is_segment(s, 0, hi));
    assert(s.subrange(0, hi)[0] == s[0]);
}

/// A segment that starts at `lo` and holds a character that no name may hold
/// there makes `s` an invalid package name.
proof fn lemma_bad_segment(s: Seq<char>, lo: int, i: int)
    requires
        0 <= lo <= i <= s.len(),
        lo == 0 || s[lo - 1] == '.',
        forall|k: int| lo <= k < i ==> #[trigger] s[k] != '.',
        ({
            ||| i == s.len() && lo == i
            ||| i < s.len() && s[i] == '.' && lo == i
            ||| i < s.len() && s[i] != '.' && lo == i && !is_ascii_lowercase(s[i])
            ||| i < s.len() && s[i] != '.' && !is_name_char(s[i])
        }),
    ensures
        !valid_package_ident(s),
{
    let hi = segment_end(s, i);
    lemma_segment_end(s, i);
    assert(is_segment(s, lo, hi));
    let piece = s.subrange(lo, hi);
    if i < s.len() && s[i] != '.' {
        assert(piece[i - lo] == s[i]);
    }
    assert(!valid_name_ident(piece));
}

/// Two segments that overlap or touch are the same segment.
proof fn lemma_segment_bounds(s: Seq<char>, start: int, end: int, lo: int, hi: int)
    requires
        is_segment(s, start, end),
        is_segment(s, lo, hi),
        start <= hi <= end,
    ensures
        lo == start,
        hi == end,
{
    if hi < end {
        assert(s[hi] != '.');
    }
    if lo < start {
        assert(s[start - 1] != '.');
    }
    if lo > start {
        assert(s[lo - 1] != '.');
    }
}

/// A non-empty run of name characters that begins with a lower-case letter is
/// a name.
proof fn lemma_name_segment(s: Seq<char>, start: int, end: int)
    requires
        0 <= start < end <= s.len(),
        is_ascii_lowercase(s[start]),
        forall|k: int| start <= k < end ==> is_name_char(#[trigger] s[k]),
    ensures
        valid_name_ident(s.subrange(start, end)),
{
    let piece = s.subrange(start, end);
    assert(piece[0] == s[start]);
    assert forall|i: int| 0 <= i < piece.len() implies is_name_char(#[trigger] piece[i]) by {
        assert(piece[i] == s[start + i]);
    }
}

/// Whether `s` is a name.
pub fn is_valid_name_ident(s: &str) -> (valid: bool)
    ensures
        valid == valid_name_ident(s@),
{
    let mut first = true;
    for c in it: s.chars()
        invariant
            it.seq() == s@,
            first == (it.index() == 0),
            !first ==> is_ascii_lowercase(s@[0]),
            forall|i: int| 0 <= i < it.index() ==> is_name_char(#[trigger] s@[i]),
    {
        let lower = 'a' <= c && c <= 'z';
        if first {
            if !lower {
                return false;
            }
            first = false;
        } else if !(lower || ('0' <= c && c <= '9') || c == '_') {
            return false;
        }
    }
    !first
}

/// Whether `s` is a package name. One pass over `s`: a segment ends at each dot
/// and at the end of `s`, and each has to be a name.
pub fn is_valid_package_ident(s: &str) -> (valid: bool)
    ensures
        valid == valid_package_ident(s@),
{
    // `start` is where the segment that is being read began.
    let ghost mut start: int = 0;
    let mut first = true;
    for c in it: s.chars()
        invariant
            it.seq() == s@,
            0 <= start <= it.index(),
            first == (start == it.index()),
            start == 0 || s@[start - 1] == '.',
            forall|k: int| start <= k < it.index() ==> #[trigger] s@[k] != '.',
            !first ==> is_ascii_lowercase(s@[start]),
            forall|k: int| start <= k < it.index() ==> is_name_char(#[trigger] s@[k]),
            forall|lo: int, hi: int| #[trigger]
                is_segment(s@, lo, hi) && hi < start ==> valid_name_ident(s@.subrange(lo, hi)),
    {
        let ghost i = it.index();
        let lower = 'a' <= c && c <= 'z';
        if c == '.' {
            if first {
                proof {
                    lemma_bad_segment(s@, start, i);
                }
                return false;
            }
            proof {
                assert forall|lo: int, hi: int| #[trigger]
                    is_segment(s@, lo, hi) && hi < i + 1 implies valid_name_ident(
                    s@.subrange(lo, hi),
                ) by {
                    if hi >= start {
                        lemma_segment_bounds(s@, start, i, lo, hi);
                        lemma_name_segment(s@, start, i);
                    }
                }
                start = i + 1;
            }
            first = true;
        } else if first {
            if !lower {
                proof {
                    lemma_bad_segment(s@, start, i);
                }
                return false;
            }
            first = false;
        } else if !(lower || ('0' <= c && c <= '9') || c == '_') {
            proof {
                lemma_bad_segment(s@, start, i);
            }
            return false;
        }
    }
    proof {
        let n = s@.len() as int;
        if first {
            lemma_bad_segment(s@, start, n);
        } else {
            assert forall|lo: int, hi: int| #[trigger] is_segment(s@, lo, hi) implies valid_name_ident(
                s@.subrange(lo, hi),
            ) by {
                if hi >= start {
                    lemma_segment_bounds(s@, start, n, lo, hi);
                    lemma_name_segment(s@, start, n);
                }
            }
        }
    }
    !first
}

/// The identifier of the flag `flag_name` of `package`: the two joined by a dot.
/// Both must be well formed, the package first.
pub fn create_device_config_ident(package: &str, flag_name: &str) -> (ident: Result<
    String,
    IdentError,
>)
    ensures
        match ident {
            Ok(ident) => {
                &&& valid_package_ident(package@)
                &&& valid_name_ident(flag_name@)
                &&& ident@ == device_config_ident(package@, flag_name@)
            },
            Err(IdentError::BadPackage) => !valid_package_ident(package@),
            Err(IdentError::BadFlagName) => {
                &&& valid_package_ident(package@)
                &&& !valid_name_ident(flag_name@)
            },
        },
{
    if !is_valid_package_ident(package) {
        return Err(IdentError::BadPackage);
    }
    if !is_valid_name_ident(flag_name) {
        return Err(IdentError::BadFlagName);
    }
    let mut ident = String::from_str(package);
    ident.append(".");
    ident.append(flag_name);
    proof {
        reveal_strlit(".");
        assert("."@ == seq!['.']);
    }
    Ok(ident)
}

} // verus!
