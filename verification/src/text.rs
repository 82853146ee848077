//! Character-level string utilities: equality and substring containment,
//! verified against their sequence-of-characters views.

use vstd::prelude::*;
use vstd::string::StrSliceExecFns;

verus! {

/// `needle` occurs contiguously somewhere inside `hay`.
pub open spec fn is_substring(needle: Seq<char>, hay: Seq<char>) -> bool {
    exists|i: int|
        0 <= i && i + needle.len() <= hay.len() && #[trigger] hay.subrange(
            i,
            i + needle.len() as int,
        ) == needle
}

/// The two strings hold the same characters.
pub fn str_eq(a: &str, b: &str) -> (r: bool)
    ensures
        r == (a@ == b@),
{
    let a_len = a.unicode_len();
    let b_len = b.unicode_len();
    if a_len != b_len {
        return false;
    }
    let mut i: usize = 0;
    while i < a_len
        invariant
            a_len == a@.len(),
            b_len == b@.len(),
            a_len == b_len,
            i <= a_len,
            forall|j: int| 0 <= j < i ==> a@[j] == b@[j],
        decreases a_len - i,
    {
        if a.get_char(i) != b.get_char(i) {
            return false;
        }
        i += 1;
    }
    proof {
        assert(a@ =~= b@);
    }
    true
}

/// `needle` matches the characters of `hay` starting at position `start`.
fn matches_at(hay: &str, needle: &str, start: usize, needle_len: usize) -> (r: bool)
    requires
        needle_len == needle@.len(),
        start + needle_len <= hay@.len(),
        hay@.len() <= usize::MAX,
    ensures
        r == (hay@.subrange(start as int, start as int + needle@.len() as int) == needle@),
{
    let mut j: usize = 0;
    while j < needle_len
        invariant
            needle_len == needle@.len(),
            start + needle_len <= hay@.len(),
            hay@.len() <= usize::MAX,
            j <= needle_len,
            forall|k: int| 0 <= k < j ==> hay@[start + k] == needle@[k],
        decreases needle_len - j,
    {
        if hay.get_char(start + j) != needle.get_char(j) {
            proof {
                let sub = hay@.subrange(start as int, start as int + needle@.len() as int);
                assert(sub[j as int] == hay@[start + j]);
            }
            return false;
        }
        j += 1;
    }
    proof {
        assert(hay@.subrange(start as int, start as int + needle@.len() as int) =~= needle@);
    }
    true
}

/// `needle` occurs as a contiguous substring of `hay`.
pub fn contains_substring(hay: &str, needle: &str) -> (r: bool)
    ensures
        r == is_substring(needle@, hay@),
{
    let hay_len = hay.unicode_len();
    let needle_len = needle.unicode_len();
    if needle_len > hay_len {
        proof {
            if is_substring(needle@, hay@) {
                let i = choose|i: int|
                    0 <= i && i + needle@.len() <= hay@.len() && #[trigger] hay@.subrange(
                        i,
                        i + needle@.len() as int,
                    ) == needle@;
                assert(false);
            }
        }
        return false;
    }
    let mut start: usize = 0;
    while start <= hay_len - needle_len
        invariant
            hay_len == hay@.len(),
            needle_len == needle@.len(),
            needle_len <= hay_len,
            start <= hay_len - needle_len + 1,
            forall|s: int|
                0 <= s < start ==> #[trigger] hay@.subrange(s, s + needle@.len() as int)
                    != needle@,
        decreases hay_len - needle_len - start + 1,
    {
        if matches_at(hay, needle, start, needle_len) {
            proof {
                assert(0 <= start as int && start as int + needle@.len() <= hay@.len()
                    && hay@.subrange(start as int, start as int + needle@.len() as int)
                    == needle@);
            }
            return true;
        }
        proof {
            if needle@.len() == 0 {
                assert(hay@.subrange(start as int, start as int) =~= needle@);
            }
        }
        start += 1;
    }
    proof {
        if is_substring(needle@, hay@) {
            let i = choose|i: int|
                0 <= i && i + needle@.len() <= hay@.len() && #[trigger] hay@.subrange(
                    i,
                    i + needle@.len() as int,
                ) == needle@;
            assert(i < start);
            assert(false);
        }
    }
    false
}

} // verus!
