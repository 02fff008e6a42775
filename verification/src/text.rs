//! Character-level text operations used by the validator and the alert
//! detector: equality, substring search, and case folding.
//!
//! Equality and substring search are verified here character by
//! character; only case folding is delegated to the standard library.

use vstd::prelude::*;
use vstd::string::StrSliceExecFns;

verus! {

/// The characters of `needle` occur in `hay` starting at position `i`.
pub open spec fn matches_at(hay: Seq<char>, needle: Seq<char>, i: int) -> bool {
    0 <= i && i + needle.len() <= hay.len() && hay.subrange(i, i + needle.len()) == needle
}

/// `needle` occurs somewhere in `hay` as a contiguous run of characters.
pub open spec fn has_substring(hay: Seq<char>, needle: Seq<char>) -> bool {
    exists|i: int| matches_at(hay, needle, i)
}

/// A character that can stand inside a word: an ASCII letter or digit, or
/// any character beyond ASCII (accented letters among them).
pub open spec fn spec_is_word_char(c: char) -> bool {
    (97 <= c as u32 && c as u32 <= 122) || (65 <= c as u32 && c as u32 <= 90) || (48 <= c as u32
        && c as u32 <= 57) || c as u32 > 127
}

/// `needle` occurs in `hay` at position `i` as a whole word: the
/// occurrence is not glued to word characters on either side.
pub open spec fn word_at(hay: Seq<char>, needle: Seq<char>, i: int) -> bool {
    &&& matches_at(hay, needle, i)
    &&& (i == 0 || !spec_is_word_char(hay[i - 1]))
    &&& (i + needle.len() == hay.len() || !spec_is_word_char(hay[i + needle.len()]))
}

/// `needle` occurs somewhere in `hay` as a whole word.
pub open spec fn has_word(hay: Seq<char>, needle: Seq<char>) -> bool {
    exists|i: int| word_at(hay, needle, i)
}

/// What `str::to_lowercase` returns: a function of the characters alone.
pub uninterp spec fn lower_of(s: Seq<char>) -> Seq<char>;

/// Relies on `str::to_lowercase`: the result depends on the characters of
/// the input alone, and an empty input stays empty.
#[verifier::external_body]
pub fn lowercase(s: &str) -> (r: String)
    ensures
        r@ == lower_of(s@),
        s@.len() == 0 ==> r@.len() == 0,
{
    s.to_lowercase()
}

/// Character-for-character equality of two string slices.
pub fn str_eq(a: &str, b: &str) -> (r: bool)
    ensures
        r == (a@ == b@),
{
    let a_len = a.unicode_len();
    let b_len = b.unicode_len();
    if a_len != b_len {
        return false;
    }
    let mut i: usize = 0;
    while i < a_len
        invariant
            a_len == a@.len(),
            b_len == b@.len(),
            a_len == b_len,
            i <= a_len,
            forall|j: int| 0 <= j < i ==> a@[j] == b@[j],
        decreases a_len - i,
    {
        if a.get_char(i) != b.get_char(i) {
            return false;
        }
        i += 1;
    }
    proof {
        assert(a@ =~= b@);
    }
    true
}

/// Whether `needle` occurs in `hay` starting exactly at position `i`.
fn matches_prefix_at(hay: &str, needle: &str, i: usize) -> (r: bool)
    requires
        i + needle@.len() <= hay@.len(),
        hay@.len() <= usize::MAX,
    ensures
        r == matches_at(hay@, needle@, i as int),
{
    let n_len = needle.unicode_len();
    let mut j: usize = 0;
    while j < n_len
        invariant
            n_len == needle@.len(),
            i + n_len <= hay@.len(),
            hay@.len() <= usize::MAX,
            j <= n_len,
            forall|k: int| 0 <= k < j ==> hay@[i + k] == needle@[k],
        decreases n_len - j,
    {
        if hay.get_char(i + j) != needle.get_char(j) {
            proof {
                if matches_at(hay@, needle@, i as int) {
                    assert(hay@.subrange(i as int, i + needle@.len())[j as int]
                        == needle@[j as int]);
                }
            }
            return false;
        }
        j += 1;
    }
    proof {
        assert(hay@.subrange(i as int, i + needle@.len()) =~= needle@);
    }
    true
}

/// Whether the character at a position can stand inside a word.
fn is_word_char(c: char) -> (word: bool)
    ensures
        word == spec_is_word_char(c),
{
    let u = c as u32;
    (97 <= u && u <= 122) || (65 <= u && u <= 90) || (48 <= u && u <= 57) || u > 127
}

/// Whether an occurrence starting at `i` would sit on word boundaries.
fn boundary_ok(hay: &str, i: usize, n_len: usize, h_len: usize) -> (free: bool)
    requires
        h_len == hay@.len(),
        i + n_len <= h_len,
    ensures
        free == ((i == 0 || !spec_is_word_char(hay@[i - 1])) && (i + n_len == h_len
            || !spec_is_word_char(hay@[i + n_len]))),
{
    let left = i == 0 || !is_word_char(hay.get_char(i - 1));
    let right = i + n_len == h_len || !is_word_char(hay.get_char(i + n_len));
    left && right
}

/// Verified whole-word search: scans every candidate position of `hay`
/// and accepts only occurrences that sit on word boundaries.
#[verifier::loop_isolation(false)]
pub fn contains_word(hay: &str, needle: &str) -> (found: bool)
    ensures
        found == has_word(hay@, needle@),
{
    let h_len = hay.unicode_len();
    let n_len = needle.unicode_len();
    if n_len > h_len {
        return false;
    }
    let last = h_len - n_len;
    let mut i: usize = 0;
    while i < last
        invariant
            i <= last,
            forall|k: int| 0 <= k < i ==> !word_at(hay@, needle@, k),
        decreases last - i,
    {
        if matches_prefix_at(hay, needle, i) && boundary_ok(hay, i, n_len, h_len) {
            proof {
                assert(word_at(hay@, needle@, i as int));
            }
            return true;
        }
        proof {
            assert(!word_at(hay@, needle@, i as int));
        }
        i += 1;
    }
    if matches_prefix_at(hay, needle, last) && boundary_ok(hay, last, n_len, h_len) {
        proof {
            assert(word_at(hay@, needle@, last as int));
        }
        return true;
    }
    proof {
        assert(!word_at(hay@, needle@, last as int));
        assert(forall|k: int| word_at(hay@, needle@, k) ==> 0 <= k <= last);
    }
    false
}

/// Verified substring search: scans every candidate position of `hay`.
pub fn contains_str(hay: &str, needle: &str) -> (r: bool)
    ensures
        r == has_substring(hay@, needle@),
{
    let h_len = hay.unicode_len();
    let n_len = needle.unicode_len();
    if n_len > h_len {
        return false;
    }
    if n_len == 0 {
        proof {
            assert(matches_at(hay@, needle@, 0)) by {
                assert(hay@.subrange(0, 0) =~= needle@);
            }
        }
        return true;
    }
    let mut i: usize = 0;
    while i <= h_len - n_len
        invariant
            h_len == hay@.len(),
            n_len == needle@.len(),
            1 <= n_len <= h_len,
            i <= h_len - n_len + 1,
            forall|k: int| 0 <= k < i ==> !matches_at(hay@, needle@, k),
        decreases h_len - n_len + 1 - i,
    {
        if matches_prefix_at(hay, needle, i) {
            return true;
        }
        i += 1;
    }
    false
}

} // verus!
