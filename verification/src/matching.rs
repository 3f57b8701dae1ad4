//! Case-insensitive prefix/suffix matching.
//!
//! The match predicate is stated over the UTF-8 bytes of the lowercase form
//! of each string: an address matches when its lowercase bytes begin with the
//! lowercase bytes of the prefix and end with those of the suffix.

use vstd::prelude::*;

verus! {

use vstd::utf8::encode_utf8;

/// What `str::to_lowercase` returns for a given character sequence; the
/// result depends on the characters alone.
pub uninterp spec fn lower_of(s: Seq<char>) -> Seq<char>;

/// The UTF-8 bytes of the lowercase form of a string: the representation the
/// match predicate compares.
pub open spec fn folded(s: Seq<char>) -> Seq<u8> {
    encode_utf8(lower_of(s))
}

/// Relies on `str::to_lowercase`: the result depends on the characters
/// alone, and an empty string stays empty.
#[verifier::external_body]
pub(crate) fn lowercase(s: &str) -> (r: String)
    ensures
        r@ == lower_of(s@),
        s@.len() == 0 ==> r@.len() == 0,
{
    s.to_lowercase()
}

/// `p` is an initial run of `a`.
pub open spec fn is_prefix(a: Seq<u8>, p: Seq<u8>) -> bool {
    p.len() <= a.len() && a.subrange(0, p.len() as int) == p
}

/// `s` is a final run of `a`.
pub open spec fn is_suffix(a: Seq<u8>, s: Seq<u8>) -> bool {
    s.len() <= a.len() && a.subrange(a.len() - s.len(), a.len() as int) == s
}

/// The match predicate on byte strings: `a` begins with `p` and ends with
/// `s`.
pub open spec fn is_match(a: Seq<u8>, p: Seq<u8>, s: Seq<u8>) -> bool {
    is_prefix(a, p) && is_suffix(a, s)
}

/// The vanity-match predicate: prefix and suffix are compared
/// case-insensitively against the address, all three in lowercase byte form.
pub open spec fn vanity_match(addr: Seq<char>, pre: Seq<char>, suf: Seq<char>) -> bool {
    is_match(folded(addr), folded(pre), folded(suf))
}

/// Empty affixes match every address.
pub proof fn lemma_empty_affixes_match(a: Seq<u8>)
    ensures
        is_match(a, Seq::<u8>::empty(), Seq::<u8>::empty()),
{
    assert(a.subrange(0, 0) =~= Seq::<u8>::empty());
    assert(a.subrange(a.len() - 0, a.len() as int) =~= Seq::<u8>::empty());
}

/// An affix longer than the address never matches, whatever it holds: a
/// prefix or suffix that cannot fit leaves the predicate false.
pub proof fn lemma_oversized_affix_never_matches(a: Seq<u8>, p: Seq<u8>, s: Seq<u8>)
    requires
        p.len() > a.len() || s.len() > a.len(),
    ensures
        !is_match(a, p, s),
{
}

fn bytes_is_prefix(a: &[u8], p: &[u8]) -> (r: bool)
    ensures
        r == is_prefix(a@, p@),
{
    if p.len() > a.len() {
        return false;
    }
    let mut i: usize = 0;
    while i < p.len()
        invariant
            i <= p@.len() <= a@.len(),
            forall|j: int| 0 <= j < i ==> a@[j] == p@[j],
        decreases p@.len() - i,
    {
        if a[i] != p[i] {
            proof {
                assert(a@.subrange(0, p@.len() as int)[i as int] == a@[i as int]);
            }
            return false;
        }
        i = i + 1;
    }
    proof {
        assert(a@.subrange(0, p@.len() as int) =~= p@);
    }
    true
}

fn bytes_is_suffix(a: &[u8], s: &[u8]) -> (r: bool)
    ensures
        r == is_suffix(a@, s@),
{
    if s.len() > a.len() {
        return false;
    }
    let d: usize = a.len() - s.len();
    let mut i: usize = 0;
    while i < s.len()
        invariant
            i <= s@.len() <= a@.len() <= usize::MAX,
            d == a@.len() - s@.len(),
            forall|j: int| 0 <= j < i ==> a@[d + j] == s@[j],
        decreases s@.len() - i,
    {
        if a[d + i] != s[i] {
            proof {
                assert(a@.subrange(a@.len() - s@.len(), a@.len() as int)[i as int] == a@[d + i]);
            }
            return false;
        }
        i = i + 1;
    }
    proof {
        assert(a@.subrange(a@.len() - s@.len(), a@.len() as int) =~= s@);
    }
    true
}

/// Whether the byte string `a` begins with `p` and ends with `s`.
pub fn bytes_match(a: &[u8], p: &[u8], s: &[u8]) -> (r: bool)
    ensures
        r == is_match(a@, p@, s@),
{
    let pre_ok = bytes_is_prefix(a, p);
    let suf_ok = bytes_is_suffix(a, s);
    pre_ok && suf_ok
}

/// Case-insensitive test whether `address` begins with `prefix` and ends
/// with `suffix`; empty affixes match every address.
pub fn matches_vanity(address: &str, prefix: &str, suffix: &str) -> (r: bool)
    ensures
        r == vanity_match(address@, prefix@, suffix@),
        prefix@.len() == 0 && suffix@.len() == 0 ==> r,
{
    let a = lowercase(address);
    let p = lowercase(prefix);
    let s = lowercase(suffix);
    let r = bytes_match(a.as_str().as_bytes(), p.as_str().as_bytes(), s.as_str().as_bytes());
    proof {
        if prefix@.len() == 0 && suffix@.len() == 0 {
            assert(folded(prefix@) =~= Seq::<u8>::empty());
            assert(folded(suffix@) =~= Seq::<u8>::empty());
            lemma_empty_affixes_match(folded(address@));
        }
    }
    r
}

} // verus!
