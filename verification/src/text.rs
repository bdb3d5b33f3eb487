//! Character-level text helpers: the trusted bridge between `String` and
//! `Vec<char>`, Unicode lowercasing behind a named result, and a verified
//! substring search.

use vstd::prelude::*;

verus! {

/// The character sequence that `str::to_lowercase` produces for the given
/// one. Unicode lowercasing takes pages to state; the result is a function
/// of the characters alone.
pub uninterp spec fn lower_of(s: Seq<char>) -> Seq<char>;

/// Relies on `str::to_lowercase`: the result depends on the characters
/// alone, and an empty string stays empty.
#[verifier::external_body]
pub fn lowercase(s: &str) -> (r: String)
    ensures
        r@ == lower_of(s@),
        s@.len() == 0 ==> r@.len() == 0,
{
    s.to_lowercase()
}

/// Relies on `str::chars` (collected): the characters of the string, in
/// order.
#[verifier::external_body]
pub fn chars_of(s: &str) -> (r: Vec<char>)
    ensures
        r@ == s@,
{
    s.chars().collect()
}

/// Relies on `String: FromIterator<char>`: builds the string holding
/// exactly the given characters.
#[verifier::external_body]
pub fn string_from_chars(chars: &Vec<char>) -> (r: String)
    ensures
        r@ == chars@,
{
    chars.iter().collect()
}

/// `needle` occurs in `haystack` starting at position `i`.
pub open spec fn spec_match_at(haystack: Seq<char>, needle: Seq<char>, i: int) -> bool {
    &&& 0 <= i
    &&& i + needle.len() <= haystack.len()
    &&& haystack.subrange(i, i + needle.len()) == needle
}

/// `needle` occurs somewhere in `haystack`. The empty needle occurs in
/// everything.
pub open spec fn spec_contains(haystack: Seq<char>, needle: Seq<char>) -> bool {
    exists|i: int| spec_match_at(haystack, needle, i)
}

fn match_at(haystack: &Vec<char>, needle: &Vec<char>, i: usize) -> (r: bool)
    requires
        i + needle@.len() <= haystack@.len(),
    ensures
        r == spec_match_at(haystack@, needle@, i as int),
{
    let n = needle.len();
    let h = haystack.len();
    let mut k: usize = 0;
    while k < n
        invariant
            n == needle@.len(),
            h == haystack@.len(),
            i + n <= h,
            k <= n,
            forall|j: int| 0 <= j < k ==> haystack@[i + j] == needle@[j],
        decreases n - k,
    {
        if haystack[i + k] != needle[k] {
            proof {
                let sub = haystack@.subrange(i as int, i + needle@.len());
                assert(sub.len() == needle@.len());
                assert(sub[k as int] == haystack@[i + k]);
            }
            return false;
        }
        k = k + 1;
    }
    proof {
        assert(haystack@.subrange(i as int, i + needle@.len()) =~= needle@);
    }
    true
}

/// Whether the characters of `needle` occur, contiguously and in order,
/// within the characters of `haystack`.
pub fn contains_chars(haystack: &Vec<char>, needle: &Vec<char>) -> (r: bool)
    ensures
        r == spec_contains(haystack@, needle@),
{
    let h = haystack.len();
    let n = needle.len();
    if n > h {
        proof {
            assert(forall|i: int| !spec_match_at(haystack@, needle@, i));
        }
        return false;
    }
    if n == 0 {
        proof {
            assert(haystack@.subrange(0, 0) =~= needle@);
            assert(spec_match_at(haystack@, needle@, 0));
        }
        return true;
    }
    let mut i: usize = 0;
    loop
        invariant
            h == haystack@.len(),
            n == needle@.len(),
            1 <= n <= h,
            i <= h - n + 1,
            forall|j: int| 0 <= j < i ==> !spec_match_at(haystack@, needle@, j),
        decreases h - n + 1 - i,
    {
        if i > h - n {
            proof {
                assert(forall|j: int| !spec_match_at(haystack@, needle@, j));
            }
            return false;
        }
        if match_at(haystack, needle, i) {
            return true;
        }
        i = i + 1;
    }
}

/// Character-wise equality of two strings.
pub fn str_eq(a: &str, b: &str) -> (r: bool)
    ensures
        r == (a@ == b@),
{
    let av = chars_of(a);
    let bv = chars_of(b);
    let n = av.len();
    if n != bv.len() {
        proof {
            assert(a@.len() != b@.len());
        }
        return false;
    }
    let mut k: usize = 0;
    while k < n
        invariant
            n == av@.len(),
            n == bv@.len(),
            av@ == a@,
            bv@ == b@,
            k <= n,
            forall|j: int| 0 <= j < k ==> a@[j] == b@[j],
        decreases n - k,
    {
        if av[k] != bv[k] {
            return false;
        }
        k = k + 1;
    }
    proof {
        assert(a@ =~= b@);
    }
    true
}

} // verus!
