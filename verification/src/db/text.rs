//! Case-insensitive substring matching over UTF-8 bytes.
//!
//! Free-text search compares ASCII letters without regard to case and every
//! other byte exactly, which is how the store's `LIKE`-style matching behaves
//! on UTF-8 text: ASCII bytes never occur inside a multi-byte encoding, so
//! folding only the bytes `A`..=`Z` is safe on whole strings.

use vstd::prelude::*;

verus! {

/// The case-folded value of one byte: ASCII upper-case letters map to their
/// lower-case counterparts, every other byte is left alone.
pub open spec fn lower_byte(b: u8) -> u8 {
    if 65 <= b <= 90 {
        (b + 32) as u8
    } else {
        b
    }
}

/// The UTF-8 bytes of a string view; search predicates are stated over these.
pub open spec fn utf8(s: Seq<char>) -> Seq<u8> {
    vstd::utf8::encode_utf8(s)
}

/// Byte sequences equal up to ASCII case.
pub open spec fn bytes_eq_ci(a: Seq<u8>, b: Seq<u8>) -> bool {
    a.len() == b.len() && forall|i: int| 0 <= i < a.len() ==> lower_byte(a[i]) == lower_byte(b[i])
}

/// The needle occurs at offset `k` of the haystack, up to ASCII case.
pub open spec fn matches_at(hay: Seq<u8>, needle: Seq<u8>, k: int) -> bool {
    &&& 0 <= k
    &&& k + needle.len() <= hay.len()
    &&& bytes_eq_ci(hay.subrange(k, k + needle.len() as int), needle)
}

/// The needle occurs somewhere in the haystack, up to ASCII case.
/// An empty needle occurs in every haystack.
pub open spec fn contains_ci(hay: Seq<u8>, needle: Seq<u8>) -> bool {
    exists|k: int| matches_at(hay, needle, k)
}

fn lower_byte_exec(b: u8) -> (r: u8)
    ensures
        r == lower_byte(b),
{
    if 65 <= b && b <= 90 {
        b + 32
    } else {
        b
    }
}

/// Whether the needle occurs at offset `k` of the haystack, up to ASCII case.
fn match_at_exec(hay: &[u8], needle: &[u8], k: usize) -> (r: bool)
    requires
        k + needle@.len() <= hay@.len(),
    ensures
        r == matches_at(hay@, needle@, k as int),
{
    let hay_len: usize = hay.len();
    let mut j: usize = 0;
    while j < needle.len()
        invariant
            hay@.len() == hay_len,
            0 <= j <= needle@.len(),
            k + needle@.len() <= hay@.len(),
            hay@.len() <= usize::MAX,
            forall|j0: int| 0 <= j0 < j ==> lower_byte(hay@[k + j0]) == lower_byte(needle@[j0]),
        decreases needle@.len() - j,
    {
        if lower_byte_exec(hay[k + j]) != lower_byte_exec(needle[j]) {
            assert(!matches_at(hay@, needle@, k as int)) by {
                let sub = hay@.subrange(k as int, k + needle@.len() as int);
                assert(sub[j as int] == hay@[k + j]);
            }
            return false;
        }
        j += 1;
    }
    assert(matches_at(hay@, needle@, k as int)) by {
        let sub = hay@.subrange(k as int, k + needle@.len() as int);
        assert(forall|i: int| 0 <= i < sub.len() ==> lower_byte(sub[i]) == lower_byte(needle@[i]));
    }
    true
}

/// Whether `needle` occurs in `hay` up to ASCII case, by direct scan.
pub fn bytes_contain_ci(hay: &[u8], needle: &[u8]) -> (r: bool)
    ensures
        r == contains_ci(hay@, needle@),
{
    if needle.len() == 0 {
        assert(matches_at(hay@, needle@, 0));
        return true;
    }
    if needle.len() > hay.len() {
        assert(!contains_ci(hay@, needle@));
        return false;
    }
    let end: usize = hay.len() - needle.len();
    let mut k: usize = 0;
    while k <= end
        invariant
            0 <= k <= end + 1,
            1 <= needle@.len() <= hay@.len(),
            hay@.len() <= usize::MAX,
            end == hay@.len() - needle@.len(),
            forall|k0: int| 0 <= k0 < k ==> !matches_at(hay@, needle@, k0),
        decreases end + 1 - k,
    {
        if match_at_exec(hay, needle, k) {
            return true;
        }
        k += 1;
    }
    assert(forall|k0: int| matches_at(hay@, needle@, k0) ==> 0 <= k0 <= end);
    false
}

/// Whether `needle` occurs in `hay` up to ASCII case, stated over the
/// strings' UTF-8 bytes.
pub fn str_contains_ci(hay: &str, needle: &str) -> (r: bool)
    ensures
        r == contains_ci(utf8(hay@), utf8(needle@)),
{
    bytes_contain_ci(hay.as_bytes(), needle.as_bytes())
}

} // verus!
