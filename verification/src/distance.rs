use vstd::prelude::*;

verus! {

/// The smaller of two natural numbers.
pub open spec fn min_nat(a: nat, b: nat) -> nat {
    if a <= b {
        a
    } else {
        b
    }
}

/// The Levenshtein edit distance over Unicode scalar sequences: the least
/// number of single-character insertions, deletions and substitutions
/// (unit cost each) that turn `a` into `b`.
pub open spec fn lev(a: Seq<char>, b: Seq<char>) -> nat
    decreases a.len() + b.len(),
{
    if a.len() == 0 {
        b.len()
    } else if b.len() == 0 {
        a.len()
    } else {
        let del: nat = lev(a.drop_first(), b) + 1;
        let ins: nat = lev(a, b.drop_first()) + 1;
        let sub: nat = lev(a.drop_first(), b.drop_first()) + (if a[0] == b[0] {
            0nat
        } else {
            1nat
        });
        min_nat(del, min_nat(ins, sub))
    }
}

/// A sequence is at edit distance zero from itself.
pub proof fn lemma_lev_self(a: Seq<char>)
    ensures
        lev(a, a) == 0,
    decreases a.len(),
{
    if a.len() > 0 {
        lemma_lev_self(a.drop_first());
    }
}

/// Edit distance zero holds only between equal sequences.
pub proof fn lemma_lev_zero(a: Seq<char>, b: Seq<char>)
    requires
        lev(a, b) == 0,
    ensures
        a == b,
    decreases a.len() + b.len(),
{
    if a.len() == 0 {
        assert(b.len() == 0);
        assert(a =~= b);
    } else if b.len() == 0 {
        assert(false);
    } else {
        assert(a[0] == b[0]);
        lemma_lev_zero(a.drop_first(), b.drop_first());
        assert(a.len() == b.len());
        assert forall|k: int| 0 <= k < a.len() implies a[k] == b[k] by {
            if k > 0 {
                assert(a[k] == a.drop_first()[k - 1]);
                assert(b[k] == b.drop_first()[k - 1]);
            }
        }
        assert(a =~= b);
    }
}

/// Relies on edit_distance::edit_distance: returns the Levenshtein edit
/// distance between the two strings, computed over Unicode scalar values.
#[verifier::external_body]
pub(crate) fn str_edit_distance(a: &str, b: &str) -> (r: usize)
    ensures
        r as nat == lev(a@, b@),
{
    ::edit_distance::edit_distance(a, b)
}

} // verus!
