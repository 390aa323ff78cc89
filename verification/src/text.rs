//! Predicates on names: prefix and substring tests over the characters of a
//! string.

use vstd::prelude::*;

verus! {

/// `needle` occurs in `hay` starting at position `at`.
pub open spec fn occurs_at(hay: Seq<char>, needle: Seq<char>, at: int) -> bool {
    &&& 0 <= at
    &&& at + needle.len() <= hay.len()
    &&& hay.subrange(at, at + needle.len()) == needle
}

/// `needle` occurs somewhere in `hay` as a contiguous run of characters. The
/// empty sequence occurs in every sequence.
pub open spec fn is_substring(needle: Seq<char>, hay: Seq<char>) -> bool {
    exists|at: int| occurs_at(hay, needle, at)
}

/// The characters of `s`, in order.
pub fn chars_of(s: &str) -> (chars: Vec<char>)
    ensures
        chars@ == s@,
{
    let mut chars: Vec<char> = Vec::new();
    let n = s.unicode_len();
    let mut i: usize = 0;
    while i < n
        invariant
            n == s@.len(),
            i <= n,
            chars@ == s@.subrange(0, i as int),
        decreases n - i,
    {
        let c = s.get_char(i);
        chars.push(c);
        i = i + 1;
    }
    chars
}

/// Whether `hay` holds `needle` at position `at`.
fn matches_at(hay: &Vec<char>, needle: &Vec<char>, at: usize) -> (found: bool)
    requires
        at + needle@.len() <= hay@.len(),
    ensures
        found == occurs_at(hay@, needle@, at as int),
{
    let width = needle.len();
    let limit = hay.len();
    let mut k: usize = 0;
    while k < width
        invariant
            width == needle@.len(),
            limit == hay@.len(),
            at + width <= limit,
            k <= width,
            forall|j: int| 0 <= j < k ==> hay@[at + j] == needle@[j],
        decreases width - k,
    {
        if hay[at + k] != needle[k] {
            return false;
        }
        k = k + 1;
    }
    assert(hay@.subrange(at as int, at + width) =~= needle@);
    true
}

/// Whether `s` begins with `prefix`.
pub fn has_prefix(s: &str, prefix: &str) -> (found: bool)
    ensures
        found == prefix@.is_prefix_of(s@),
{
    let text = chars_of(s);
    let start = chars_of(prefix);
    if start.len() > text.len() {
        return false;
    }
    matches_at(&text, &start, 0)
}

/// Whether `needle` occurs in `hay`.
pub fn has_substring(hay: &str, needle: &str) -> (found: bool)
    ensures
        found == is_substring(needle@, hay@),
{
    let text = chars_of(hay);
    let wanted = chars_of(needle);
    if wanted.len() > text.len() {
        return false;
    }
    let last: usize = text.len() - wanted.len();
    let mut at: usize = 0;
    loop
        invariant
            text@ == hay@,
            wanted@ == needle@,
            last == text@.len() - wanted@.len(),
            at <= last,
            forall|j: int| 0 <= j < at ==> !occurs_at(text@, wanted@, j),
        decreases last - at,
    {
        if matches_at(&text, &wanted, at) {
            return true;
        }
        if at == last {
            return false;
        }
        at = at + 1;
    }
}

} // verus!
