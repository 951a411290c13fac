//! Verified text building blocks: concatenation with exact contracts,
//! substring search over character sequences, and the few outside text
//! operations the classifiers rely on.

use vstd::prelude::*;
use vstd::string::*;

verus! {

/// Concatenation of two pieces, with the exact resulting view.
pub fn concat2(pre: &str, post: &str) -> (r: String)
    ensures
        r@ == pre@ + post@,
{
    let mut s = String::from_str(pre);
    s.append(post);
    s
}

/// Concatenation of three pieces, with the exact resulting view.
pub fn concat3(pre: &str, mid: &str, post: &str) -> (r: String)
    ensures
        r@ == pre@ + mid@ + post@,
{
    let mut s = String::from_str(pre);
    s.append(mid);
    s.append(post);
    s
}

/// `needle` occurs as a contiguous run of characters inside `hay`.
pub open spec fn seq_contains_sub(hay: Seq<char>, needle: Seq<char>) -> bool {
    exists|i: int|
        0 <= i && i + needle.len() <= hay.len() && #[trigger] hay.subrange(
            i,
            i + needle.len() as int,
        ) == needle
}

/// Whether `needle` matches `hay` exactly at character position `i`.
pub fn str_matches_at(hay: &str, needle: &str, i: usize) -> (r: bool)
    requires
        i + needle@.len() <= hay@.len(),
        hay@.len() <= usize::MAX,
    ensures
        r == (hay@.subrange(i as int, i as int + needle@.len() as int) == needle@),
{
    let n = needle.unicode_len();
    let mut j: usize = 0;
    while j < n
        invariant
            j <= n,
            n as nat == needle@.len(),
            i + n <= hay@.len() <= usize::MAX,
            forall|m: int| 0 <= m < j ==> hay@[i + m] == needle@[m],
        decreases n - j,
    {
        if hay.get_char(i + j) != needle.get_char(j) {
            proof {
                let sub = hay@.subrange(i as int, i as int + needle@.len() as int);
                assert(sub[j as int] == hay@[i + j]);
                assert(sub != needle@);
            }
            return false;
        }
        j += 1;
    }
    proof {
        assert(hay@.subrange(i as int, i as int + needle@.len() as int) =~= needle@);
    }
    true
}

/// Substring search with an exact contract over the character sequences.
pub fn str_contains_sub(hay: &str, needle: &str) -> (r: bool)
    ensures
        r == seq_contains_sub(hay@, needle@),
{
    let hay_len = hay.unicode_len();
    let needle_len = needle.unicode_len();
    if needle_len > hay_len {
        return false;
    }
    if needle_len == 0 {
        proof {
            assert(hay@.subrange(0, 0 + needle@.len() as int) =~= needle@);
        }
        return true;
    }
    let mut i: usize = 0;
    while i <= hay_len - needle_len
        invariant
            1 <= needle_len <= hay_len,
            hay_len as nat == hay@.len(),
            needle_len as nat == needle@.len(),
            i <= hay_len - needle_len + 1,
            forall|k: int|
                0 <= k < i ==> #[trigger] hay@.subrange(k, k + needle@.len() as int) != needle@,
        decreases hay_len - needle_len + 1 - i,
    {
        if str_matches_at(hay, needle, i) {
            return true;
        }
        i += 1;
    }
    false
}

/// Character-for-character equality of two text slices.
pub fn str_eq(a: &str, b: &str) -> (r: bool)
    ensures
        r == (a@ == b@),
{
    let al = a.unicode_len();
    let bl = b.unicode_len();
    if al != bl {
        return false;
    }
    let r = str_matches_at(a, b, 0);
    proof {
        assert(a@.subrange(0, 0 + b@.len() as int) =~= a@);
    }
    r
}

/// What `str::to_lowercase` returns: a function of the characters alone.
pub uninterp spec fn lower_of(s: Seq<char>) -> Seq<char>;

/// Relies on `str::to_lowercase` of std: the result depends on the
/// characters of the input alone.
#[verifier::external_body]
pub fn lowercase(s: &str) -> (r: String)
    ensures
        r@ == lower_of(s@),
{
    s.to_lowercase()
}

/// What stripping the leading list marker from a poll option line leaves:
/// a function of the line's characters alone.
pub uninterp spec fn list_marker_stripped(line: Seq<char>) -> Seq<char>;

/// Relies on `regex::Regex::replace` with the fixed list-marker pattern:
/// it removes the leftmost match, leaving a result that depends on the
/// line alone. The pattern is valid, so compiling it cannot fail.
#[verifier::external_body]
pub fn strip_list_marker(line: &str) -> (r: String)
    ensures
        r@ == list_marker_stripped(line@),
{
    let pattern = regex::Regex::new(r"\s*-|^\s*\d\.|^\s*\*").unwrap();
    pattern.replace(line, "").to_string()
}

/// What `humantime::format_duration` renders for a whole number of seconds:
/// a function of the duration alone.
pub uninterp spec fn human_duration_of(secs: u64) -> Seq<char>;

/// Relies on `humantime::format_duration`: the rendering of a duration of
/// `secs` whole seconds depends on that duration alone.
#[verifier::external_body]
pub fn format_secs(secs: u64) -> (r: String)
    ensures
        r@ == human_duration_of(secs),
{
    humantime::format_duration(std::time::Duration::from_secs(secs)).to_string()
}

} // verus!
