//! Verified text helpers: ASCII case folding (for header names) and
//! substring search (for the containment matchers).

use vstd::prelude::*;

verus! {

/// ASCII lower-casing of one character; characters outside `A..=Z` are
/// unchanged.
pub open spec fn lower_char(c: char) -> char {
    if 65 <= c as u32 && c as u32 <= 90 {
        ((c as u32 + 32) as u8) as char
    } else {
        c
    }
}

/// ASCII lower-casing of a character sequence.
pub open spec fn lower_seq(s: Seq<char>) -> Seq<char> {
    s.map_values(|c: char| lower_char(c))
}

/// Lower-case one ASCII character.
pub fn lower_char_exec(c: char) -> (r: char)
    ensures
        r == lower_char(c),
{
    let u = c as u32;
    if 65 <= u && u <= 90 {
        ((u + 32) as u8) as char
    } else {
        c
    }
}

/// Case-insensitive (ASCII) equality of two strings, as HTTP header names
/// are compared.
pub fn eq_ignore_case(a: &str, b: &str) -> (r: bool)
    ensures
        r == (lower_seq(a@) == lower_seq(b@)),
{
    let alen = a.unicode_len();
    let blen = b.unicode_len();
    if alen != blen {
        assert(lower_seq(a@).len() != lower_seq(b@).len());
        return false;
    }
    let mut i: usize = 0;
    while i < alen
        invariant
            i <= alen,
            alen == a@.len(),
            alen == b@.len(),
            forall|j: int| 0 <= j < i ==> lower_char(a@[j]) == lower_char(b@[j]),
        decreases alen - i,
    {
        let ca = a.get_char(i);
        let cb = b.get_char(i);
        if lower_char_exec(ca) != lower_char_exec(cb) {
            assert(lower_seq(a@)[i as int] != lower_seq(b@)[i as int]);
            return false;
        }
        i += 1;
    }
    proof {
        assert(lower_seq(a@) =~= lower_seq(b@));
    }
    true
}

/// True when `needle` occurs in `hay` starting at position `i`.
pub open spec fn matches_at(hay: Seq<char>, needle: Seq<char>, i: int) -> bool {
    &&& 0 <= i
    &&& i + needle.len() <= hay.len()
    &&& hay.subrange(i, i + needle.len() as int) == needle
}

/// Substring containment over character sequences; the empty needle occurs
/// in every string.
pub open spec fn contains_seq(hay: Seq<char>, needle: Seq<char>) -> bool {
    exists|i: int| matches_at(hay, needle, i)
}

fn check_match(hay: &str, needle: &str, i: usize, hlen: usize, nlen: usize) -> (r: bool)
    requires
        hlen == hay@.len(),
        nlen == needle@.len(),
        i + nlen <= hlen,
    ensures
        r == matches_at(hay@, needle@, i as int),
{
    let ghost sub = hay@.subrange(i as int, i + nlen as int);
    let mut j: usize = 0;
    while j < nlen
        invariant
            j <= nlen,
            i + nlen <= hlen,
            hlen == hay@.len(),
            nlen == needle@.len(),
            sub == hay@.subrange(i as int, i + nlen as int),
            forall|k: int| 0 <= k < j ==> hay@[i + k] == needle@[k],
        decreases nlen - j,
    {
        if hay.get_char(i + j) != needle.get_char(j) {
            proof {
                assert(sub[j as int] == hay@[i + j]);
                assert(sub != needle@);
            }
            return false;
        }
        j += 1;
    }
    proof {
        assert forall|k: int| 0 <= k < nlen implies sub[k] == needle@[k] by {
            assert(sub[k] == hay@[i + k]);
        }
        assert(sub =~= needle@);
    }
    true
}

/// True when `needle` occurs anywhere in `hay`.
pub fn contains_str(hay: &str, needle: &str) -> (r: bool)
    ensures
        r == contains_seq(hay@, needle@),
{
    let hlen = hay.unicode_len();
    let nlen = needle.unicode_len();
    if nlen > hlen {
        assert(!contains_seq(hay@, needle@));
        return false;
    }
    let limit = hlen - nlen;
    let mut i: usize = 0;
    loop
        invariant
            nlen <= hlen,
            hlen == hay@.len(),
            nlen == needle@.len(),
            limit == hlen - nlen,
            i <= limit,
            forall|k: int| 0 <= k < i ==> !matches_at(hay@, needle@, k),
        decreases limit - i,
    {
        if check_match(hay, needle, i, hlen, nlen) {
            return true;
        }
        if i == limit {
            proof {
                assert forall|k: int| !matches_at(hay@, needle@, k) by {
                    if matches_at(hay@, needle@, k) {
                        assert(0 <= k <= hlen - nlen);
                    }
                }
            }
            return false;
        }
        i += 1;
    }
}

} // verus!
