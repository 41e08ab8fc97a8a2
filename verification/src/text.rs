//! Case folding and substring containment over question text.
//!
//! Rule predicates in this crate are substring tests on the lowercased
//! question, so everything is stated over `Seq<char>` views.

use vstd::prelude::*;

verus! {

/// `n` occurs as a contiguous run of characters somewhere in `h`.
pub open spec fn contains_substring(h: Seq<char>, n: Seq<char>) -> bool {
    exists|i: int| 0 <= i && i + n.len() <= h.len() && #[trigger] h.subrange(i, i + n.len()) == n
}

/// The character sequence that `str::to_lowercase` yields for `s`.
/// The folding depends on the characters alone, so it is only named here;
/// the trusted wrapper `lowercase` below ties it to the library call.
pub uninterp spec fn lower_of(s: Seq<char>) -> Seq<char>;

/// Relies on `str::to_lowercase` for Unicode case folding; the result is a
/// function of the input characters alone.
#[verifier::external_body]
pub(crate) fn lowercase(s: &str) -> (r: String)
    ensures
        r@ == lower_of(s@),
{
    s.to_lowercase()
}

/// `n` matches `h` character for character starting at position `i`.
fn match_at(h: &str, n: &str, i: usize) -> (r: bool)
    requires
        i + n@.len() <= h@.len(),
    ensures
        r == (h@.subrange(i as int, i as int + n@.len()) == n@),
{
    let nlen: usize = n.unicode_len();
    let hlen: usize = h.unicode_len();
    let mut j: usize = 0;
    while j < nlen
        invariant
            nlen == n@.len(),
            hlen == h@.len(),
            i + nlen <= hlen,
            j <= nlen,
            forall|k: int| 0 <= k < j ==> h@[i + k] == n@[k],
        decreases nlen - j,
    {
        if h.get_char(i + j) != n.get_char(j) {
            proof {
                assert(h@.subrange(i as int, i as int + nlen as int)[j as int] != n@[j as int]);
            }
            return false;
        }
        j += 1;
    }
    proof {
        assert(h@.subrange(i as int, i as int + nlen as int) =~= n@);
    }
    true
}

/// Substring containment test: does `n` occur anywhere in `h`?
pub fn contains_str(h: &str, n: &str) -> (r: bool)
    ensures
        r == contains_substring(h@, n@),
{
    let hlen: usize = h.unicode_len();
    let nlen: usize = n.unicode_len();
    if nlen == 0 {
        proof {
            assert(h@.subrange(0, 0 + n@.len() as int) =~= n@);
        }
        return true;
    }
    if nlen > hlen {
        return false;
    }
    let mut i: usize = 0;
    while i <= hlen - nlen
        invariant
            hlen == h@.len(),
            nlen == n@.len(),
            0 < nlen <= hlen,
            i <= hlen - nlen + 1,
            forall|k: int| 0 <= k < i ==> #[trigger] h@.subrange(k, k + nlen as int) != n@,
        decreases hlen - nlen + 1 - i,
    {
        if match_at(h, n, i) {
            return true;
        }
        i += 1;
    }
    false
}

} // verus!
