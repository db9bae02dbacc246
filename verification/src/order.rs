//! Lexicographic ordering of titles.
//!
//! Playlist titles are compared character by character, by Unicode scalar
//! value, which matches ordinary string comparison.

use vstd::prelude::*;
use vstd::string::StrSliceExecFns;

verus! {

/// `a` is lexicographically less than or equal to `b`, comparing
/// characters by their Unicode scalar values.
pub open spec fn lex_leq(a: Seq<char>, b: Seq<char>) -> bool
    decreases a.len(),
{
    if a.len() == 0 {
        true
    } else if b.len() == 0 {
        false
    } else if (a[0] as u32) < (b[0] as u32) {
        true
    } else if (b[0] as u32) < (a[0] as u32) {
        false
    } else {
        lex_leq(a.drop_first(), b.drop_first())
    }
}

/// The order is reflexive.
pub proof fn lemma_lex_refl(a: Seq<char>)
    ensures
        lex_leq(a, a),
    decreases a.len(),
{
    if a.len() != 0 {
        lemma_lex_refl(a.drop_first());
    }
}

/// The order is total: any two character sequences are comparable.
pub proof fn lemma_lex_total(a: Seq<char>, b: Seq<char>)
    ensures
        lex_leq(a, b) || lex_leq(b, a),
    decreases a.len(),
{
    if a.len() != 0 && b.len() != 0 && (a[0] as u32) == (b[0] as u32) {
        lemma_lex_total(a.drop_first(), b.drop_first());
    }
}

/// The order is transitive.
pub proof fn lemma_lex_trans(a: Seq<char>, b: Seq<char>, c: Seq<char>)
    requires
        lex_leq(a, b),
        lex_leq(b, c),
    ensures
        lex_leq(a, c),
    decreases a.len(),
{
    if a.len() != 0 && b.len() != 0 && c.len() != 0 && (a[0] as u32) == (b[0] as u32) && (b[0]
        as u32) == (c[0] as u32) {
        lemma_lex_trans(a.drop_first(), b.drop_first(), c.drop_first());
    }
}

/// Decides `lex_leq` on two strings.
pub fn lex_le(a: &str, b: &str) -> (r: bool)
    ensures
        r == lex_leq(a@, b@),
    decreases a@.len(),
{
    let alen = a.unicode_len();
    let blen = b.unicode_len();
    if alen == 0 {
        true
    } else if blen == 0 {
        false
    } else {
        let ca = a.get_char(0) as u32;
        let cb = b.get_char(0) as u32;
        if ca < cb {
            true
        } else if cb < ca {
            false
        } else {
            let a1 = a.substring_char(1, alen);
            let b1 = b.substring_char(1, blen);
            proof {
                assert(a1@ =~= a@.drop_first());
                assert(b1@ =~= b@.drop_first());
            }
            lex_le(a1, b1)
        }
    }
}

} // verus!
