//! Basic 3-vector algebra: the cross product and the laws it obeys.
//! Components here are integers; the laws are ring identities, so they
//! carry over to the real-valued vectors the force models work on.

use vstd::prelude::*;

verus! {

/// The mathematical cross product of two 3-vectors, componentwise.
pub open spec fn spec_cross(a: Seq<int>, b: Seq<int>) -> Seq<int>
    recommends
        a.len() == 3,
        b.len() == 3,
{
    seq![
        a[1] * b[2] - a[2] * b[1],
        a[2] * b[0] - a[0] * b[2],
        a[0] * b[1] - a[1] * b[0],
    ]
}

/// The view of an integer 3-vector as a sequence of mathematical integers.
pub open spec fn vec3_int(v: [i64; 3]) -> Seq<int> {
    seq![v[0] as int, v[1] as int, v[2] as int]
}

/// Bound on each component under which every cross-product term fits in
/// an `i64`.
pub open spec fn vec3_bounded(v: [i64; 3]) -> bool {
    forall|i: int| 0 <= i < 3 ==> -1_000_000_000 <= #[trigger] v[i] <= 1_000_000_000
}

proof fn lemma_prod_bound(x: int, y: int)
    requires
        -1_000_000_000 <= x <= 1_000_000_000,
        -1_000_000_000 <= y <= 1_000_000_000,
    ensures
        -1_000_000_000_000_000_000 <= x * y <= 1_000_000_000_000_000_000,
{
    assert(-1_000_000_000_000_000_000 <= x * y <= 1_000_000_000_000_000_000)
        by (nonlinear_arith)
        requires
            -1_000_000_000 <= x <= 1_000_000_000,
            -1_000_000_000 <= y <= 1_000_000_000,
    ;
}

/// The cross product of two 3-vectors.
///
/// The component bound is a machine limit only: it keeps every product of
/// two components inside `i64`.
pub fn cross(vect1: &[i64; 3], vect2: &[i64; 3]) -> (r: [i64; 3])
    requires
        vec3_bounded(*vect1),
        vec3_bounded(*vect2),
    ensures
        vec3_int(r) == spec_cross(vec3_int(*vect1), vec3_int(*vect2)),
{
    proof {
        lemma_prod_bound(vect1[1] as int, vect2[2] as int);
        lemma_prod_bound(vect1[2] as int, vect2[1] as int);
        lemma_prod_bound(vect1[2] as int, vect2[0] as int);
        lemma_prod_bound(vect1[0] as int, vect2[2] as int);
        lemma_prod_bound(vect1[0] as int, vect2[1] as int);
        lemma_prod_bound(vect1[1] as int, vect2[0] as int);
    }
    let r = [
        vect1[1] * vect2[2] - vect1[2] * vect2[1],
        vect1[2] * vect2[0] - vect1[0] * vect2[2],
        vect1[0] * vect2[1] - vect1[1] * vect2[0],
    ];
    proof {
        assert(vec3_int(r) =~= spec_cross(vec3_int(*vect1), vec3_int(*vect2)));
    }
    r
}

/// The cross product is antisymmetric: `cross(a, b)` is the componentwise
/// negation of `cross(b, a)`.
pub proof fn lemma_cross_antisymmetric(a: Seq<int>, b: Seq<int>)
    requires
        a.len() == 3,
        b.len() == 3,
    ensures
        forall|i: int| 0 <= i < 3 ==>
            #[trigger] spec_cross(a, b)[i] == -spec_cross(b, a)[i],
{
    assert forall|i: int| 0 <= i < 3 implies
        #[trigger] spec_cross(a, b)[i] == -spec_cross(b, a)[i] by {
        assert(a[1] * b[2] - a[2] * b[1] == -(b[1] * a[2] - b[2] * a[1]))
            by (nonlinear_arith);
        assert(a[2] * b[0] - a[0] * b[2] == -(b[2] * a[0] - b[0] * a[2]))
            by (nonlinear_arith);
        assert(a[0] * b[1] - a[1] * b[0] == -(b[0] * a[1] - b[1] * a[0]))
            by (nonlinear_arith);
    }
}

/// The cross product of a vector with itself is the zero vector.
pub proof fn lemma_cross_self_zero(a: Seq<int>)
    requires
        a.len() == 3,
    ensures
        forall|i: int| 0 <= i < 3 ==> #[trigger] spec_cross(a, a)[i] == 0,
{
    assert forall|i: int| 0 <= i < 3 implies #[trigger] spec_cross(a, a)[i] == 0 by {
        assert(a[1] * a[2] - a[2] * a[1] == 0) by (nonlinear_arith);
        assert(a[2] * a[0] - a[0] * a[2] == 0) by (nonlinear_arith);
        assert(a[0] * a[1] - a[1] * a[0] == 0) by (nonlinear_arith);
    }
}

} // verus!
