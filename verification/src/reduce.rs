//! Minimum-reduction over per-entity step bounds.
//!
//! The adaptive time-step policy reduces a collection of per-vertex scalar
//! bounds into a single running minimum. The engine may hand the collection
//! over in chunks and reduce the chunks independently, so the fold must not
//! care how the collection was partitioned; the laws at the end of this
//! module say exactly that. The identity of the fold is `None`
//! ("no bound yet"), playing the role a largest-representable sentinel
//! plays in a fixed-width setting.

use vstd::prelude::*;
use crate::rat::{rwf, r_eq, r_le, r_min};

verus! {

/// Folds one bound into a running minimum.
pub open spec fn omin(acc: Option<(int, int)>, b: (int, int)) -> Option<(int, int)> {
    match acc {
        None => Some(b),
        Some(a) => Some(r_min(a, b)),
    }
}

/// Sequential minimum of a collection of bounds, folded from the left onto
/// `acc`.
pub open spec fn fold_min(s: Seq<(int, int)>, acc: Option<(int, int)>) -> Option<(int, int)>
    decreases s.len(),
{
    if s.len() == 0 {
        acc
    } else {
        fold_min(s.drop_first(), omin(acc, s.first()))
    }
}

/// Combines the results of two partial reductions.
pub open spec fn merge_bounds(a: Option<(int, int)>, b: Option<(int, int)>) -> Option<(int, int)> {
    match b {
        None => a,
        Some(x) => omin(a, x),
    }
}

/// The chunks, concatenated in order.
pub open spec fn flatten_chunks(cs: Seq<Seq<(int, int)>>) -> Seq<(int, int)>
    decreases cs.len(),
{
    if cs.len() == 0 {
        Seq::empty()
    } else {
        cs.first() + flatten_chunks(cs.drop_first())
    }
}

/// Reduces every chunk on its own, then combines the partial results in
/// chunk order, starting from `acc`.
pub open spec fn combine_chunks_from(
    cs: Seq<Seq<(int, int)>>,
    acc: Option<(int, int)>,
) -> Option<(int, int)>
    decreases cs.len(),
{
    if cs.len() == 0 {
        acc
    } else {
        combine_chunks_from(cs.drop_first(), merge_bounds(acc, fold_min(cs.first(), None)))
    }
}

/// Chunk-wise-then-combined minimum of a partitioned collection.
pub open spec fn combine_chunks(cs: Seq<Seq<(int, int)>>) -> Option<(int, int)> {
    combine_chunks_from(cs, None)
}

pub open spec fn all_rwf(s: Seq<(int, int)>) -> bool {
    forall|i: int| 0 <= i < s.len() ==> rwf(#[trigger] s[i])
}

pub open spec fn chunks_rwf(cs: Seq<Seq<(int, int)>>) -> bool {
    forall|i: int| 0 <= i < cs.len() ==> all_rwf(#[trigger] cs[i])
}

pub open spec fn owf(a: Option<(int, int)>) -> bool {
    a matches Some(x) ==> rwf(x)
}

pub proof fn lemma_r_le_trans(a: (int, int), b: (int, int), c: (int, int)) by (nonlinear_arith)
    requires
        rwf(a),
        rwf(b),
        rwf(c),
        r_le(a, b),
        r_le(b, c),
    ensures
        r_le(a, c),
{
}

/// `r_min` keeps the leftmost of equal values, which makes it associative
/// on the nose, not merely up to value equality.
pub proof fn lemma_min_assoc(a: (int, int), b: (int, int), c: (int, int))
    requires
        rwf(a),
        rwf(b),
        rwf(c),
    ensures
        r_min(r_min(a, b), c) == r_min(a, r_min(b, c)),
{
    if r_le(a, b) {
        if r_le(b, c) {
            lemma_r_le_trans(a, b, c);
        }
    } else {
        if !r_le(b, c) {
            if r_le(a, c) {
                lemma_r_le_trans(a, c, b);
            }
        }
    }
}

/// Law: a single combining step is commutative up to value equality (on a
/// tie the two orders keep different representatives of the same value).
pub proof fn lemma_min_comm(a: (int, int), b: (int, int))
    requires
        rwf(a),
        rwf(b),
    ensures
        r_eq(r_min(a, b), r_min(b, a)),
{
}

proof fn lemma_fold_min_wf(s: Seq<(int, int)>, acc: Option<(int, int)>)
    requires
        all_rwf(s),
        owf(acc),
    ensures
        owf(fold_min(s, acc)),
    decreases s.len(),
{
    if s.len() > 0 {
        assert(all_rwf(s.drop_first()));
        lemma_fold_min_wf(s.drop_first(), omin(acc, s.first()));
    }
}

proof fn lemma_fold_min_concat(s1: Seq<(int, int)>, s2: Seq<(int, int)>, acc: Option<(int, int)>)
    ensures
        fold_min(s1 + s2, acc) == fold_min(s2, fold_min(s1, acc)),
    decreases s1.len(),
{
    if s1.len() == 0 {
        assert(s1 + s2 =~= s2);
    } else {
        assert((s1 + s2).drop_first() =~= s1.drop_first() + s2);
        assert((s1 + s2).first() == s1.first());
        lemma_fold_min_concat(s1.drop_first(), s2, omin(acc, s1.first()));
    }
}

proof fn lemma_merge_fold(c: Seq<(int, int)>, a: Option<(int, int)>, b: Option<(int, int)>)
    requires
        all_rwf(c),
        owf(a),
        owf(b),
    ensures
        merge_bounds(a, fold_min(c, b)) == fold_min(c, merge_bounds(a, b)),
    decreases c.len(),
{
    if c.len() > 0 {
        let x = c.first();
        assert(all_rwf(c.drop_first()));
        lemma_merge_fold(c.drop_first(), a, omin(b, x));
        match (a, b) {
            (Some(av), Some(bv)) => lemma_min_assoc(av, bv, x),
            _ => (),
        }
        assert(merge_bounds(a, omin(b, x)) == omin(merge_bounds(a, b), x));
    }
}

proof fn lemma_chunked_min_from(cs: Seq<Seq<(int, int)>>, acc: Option<(int, int)>)
    requires
        chunks_rwf(cs),
        owf(acc),
    ensures
        combine_chunks_from(cs, acc) == fold_min(flatten_chunks(cs), acc),
    decreases cs.len(),
{
    if cs.len() > 0 {
        let c0 = cs.first();
        assert(all_rwf(c0));
        assert(chunks_rwf(cs.drop_first()));
        lemma_merge_fold(c0, acc, None);
        assert(merge_bounds(acc, None) == acc);
        lemma_fold_min_wf(c0, acc);
        lemma_chunked_min_from(cs.drop_first(), fold_min(c0, acc));
        lemma_fold_min_concat(c0, flatten_chunks(cs.drop_first()), acc);
    }
}

/// Value equality of two optional bounds.
pub open spec fn o_eq(a: Option<(int, int)>, b: Option<(int, int)>) -> bool {
    match (a, b) {
        (None, None) => true,
        (Some(x), Some(y)) => r_eq(x, y),
        _ => false,
    }
}

proof fn lemma_fold_min_bounds(s: Seq<(int, int)>, acc: Option<(int, int)>)
    requires
        all_rwf(s),
        owf(acc),
    ensures
        match fold_min(s, acc) {
            None => acc is None && s.len() == 0,
            Some(x) => {
                &&& rwf(x)
                &&& ((exists|i: int| 0 <= i < s.len() && s[i] == x) || acc == Some(x))
                &&& (acc matches Some(a) ==> r_le(x, a))
                &&& forall|j: int| 0 <= j < s.len() ==> r_le(x, #[trigger] s[j])
            },
        },
    decreases s.len(),
{
    if s.len() > 0 {
        let x0 = s.first();
        let acc2 = omin(acc, x0);
        let v = acc2->Some_0;
        assert(r_le(v, x0));
        assert(all_rwf(s.drop_first()));
        lemma_fold_min_bounds(s.drop_first(), acc2);
        match fold_min(s.drop_first(), acc2) {
            Some(x) => {
                lemma_r_le_trans(x, v, x0);
                match acc {
                    Some(a) => {
                        assert(r_le(v, a));
                        lemma_r_le_trans(x, v, a);
                    },
                    None => (),
                }
                if exists|i: int| 0 <= i < s.drop_first().len() && s.drop_first()[i] == x {
                    let i = choose|i: int| 0 <= i < s.drop_first().len() && s.drop_first()[i]
                        == x;
                    assert(s[i + 1] == x);
                } else {
                    assert(acc2 == Some(x));
                    if acc is None {
                        assert(s[0] == x);
                    }
                }
                assert forall|j: int| 0 <= j < s.len() implies r_le(x, #[trigger] s[j]) by {
                    if j > 0 {
                        assert(s.drop_first()[j - 1] == s[j]);
                    }
                }
            },
            None => {
                assert(false);
            },
        }
    }
}

/// Law: a pairwise reduction that returned an element `m` that is a lower
/// bound of the whole collection agrees in value, once folded onto `acc`,
/// with the sequential fold over the collection — so any valid reduction
/// outcome, whatever its grouping, leaves a policy's running bound at the
/// same value as a sequential pass.
pub proof fn lemma_reduced_element_matches_fold(
    s: Seq<(int, int)>,
    m: (int, int),
    acc: Option<(int, int)>,
)
    requires
        all_rwf(s),
        rwf(m),
        owf(acc),
        s.len() > 0,
        exists|i: int| 0 <= i < s.len() && s[i] == m,
        forall|j: int| 0 <= j < s.len() ==> r_le(m, #[trigger] s[j]),
    ensures
        o_eq(omin(acc, m), fold_min(s, acc)),
{
    lemma_fold_min_bounds(s, acc);
    let im = choose|i: int| 0 <= i < s.len() && s[i] == m;
    match fold_min(s, acc) {
        Some(x) => {
            assert(r_le(x, s[im]));
            match acc {
                None => {
                    if exists|k: int| 0 <= k < s.len() && s[k] == x {
                        let k = choose|k: int| 0 <= k < s.len() && s[k] == x;
                        assert(r_le(m, s[k]));
                    }
                },
                Some(a) => {
                    if r_le(a, m) {
                        if exists|k: int| 0 <= k < s.len() && s[k] == x {
                            let k = choose|k: int| 0 <= k < s.len() && s[k] == x;
                            lemma_r_le_trans(a, m, s[k]);
                        }
                    } else {
                        if exists|k: int| 0 <= k < s.len() && s[k] == x {
                            let k = choose|k: int| 0 <= k < s.len() && s[k] == x;
                            assert(r_le(m, s[k]));
                        } else {
                            assert(acc == Some(x));
                        }
                    }
                },
            }
        },
        None => {
            assert(false);
        },
    }
}

/// Law (reduction order-independence): for any partition of a collection of
/// bounds into chunks, reducing every chunk on its own and combining the
/// partial minima gives exactly the sequential minimum of the whole
/// collection.
pub proof fn lemma_reduction_partition_independent(cs: Seq<Seq<(int, int)>>)
    requires
        chunks_rwf(cs),
    ensures
        combine_chunks(cs) == fold_min(flatten_chunks(cs), None),
{
    lemma_chunked_min_from(cs, None);
}

} // verus!
