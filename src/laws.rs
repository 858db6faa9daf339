use vstd::prelude::*;

use crate::product::{commutative, deterministic, is_product};

verus! {

/// With a deterministic operation there is one element-wise product of two
/// buffers: so the scalar and the lane strategies, whose results are both such
/// products, leave identical buffers.
pub proof fn lemma_product_unique<T, M: Fn(T, T) -> T>(op: M, x: Seq<T>, y: Seq<T>, a: Seq<T>, b: Seq<T>)
    requires
        deterministic(op),
        is_product(op, x, y, a),
        is_product(op, x, y, b),
    ensures
        a == b,
{
    assert forall|i: int| 0 <= i < a.len() implies a[i] == b[i] by {
        assert(op.ensures((x[i], y[i]), a[i]));
        assert(op.ensures((x[i], y[i]), b[i]));
    }
    assert(a =~= b);
}

/// Multiplying by a buffer that holds only an identity element of the
/// operation leaves the destination unchanged.
pub proof fn lemma_identity<T, M: Fn(T, T) -> T>(op: M, x: Seq<T>, y: Seq<T>, z: Seq<T>, one: T)
    requires
        forall|a: T, r: T| #[trigger] op.ensures((a, one), r) ==> r == a,
        forall|i: int| 0 <= i < y.len() ==> #[trigger] y[i] == one,
        is_product(op, x, y, z),
    ensures
        z == x,
{
    assert forall|i: int| 0 <= i < z.len() implies z[i] == x[i] by {
        assert(op.ensures((x[i], y[i]), z[i]));
    }
    assert(z =~= x);
}

/// Multiplying by a buffer that holds only `zero` gives a buffer of `zero`,
/// provided `zero` absorbs every element of the destination (a floating-point
/// zero does not absorb an infinity or a NaN).
pub proof fn lemma_zero_absorbs<T, M: Fn(T, T) -> T>(op: M, x: Seq<T>, y: Seq<T>, z: Seq<T>, zero: T)
    requires
        forall|i: int, r: T| 0 <= i < x.len() && #[trigger] op.ensures((x[i], zero), r) ==> r == zero,
        forall|i: int| 0 <= i < y.len() ==> #[trigger] y[i] == zero,
        is_product(op, x, y, z),
    ensures
        forall|i: int| 0 <= i < z.len() ==> #[trigger] z[i] == zero,
{
    assert forall|i: int| 0 <= i < z.len() implies z[i] == zero by {
        assert(y[i] == zero);
        assert(op.ensures((x[i], zero), z[i]));
    }
}

/// With a deterministic, commutative operation, multiplying `x` by `y` and
/// multiplying `y` by `x` give the same buffer.
pub proof fn lemma_swap_operands<T, M: Fn(T, T) -> T>(op: M, x: Seq<T>, y: Seq<T>, a: Seq<T>, b: Seq<T>)
    requires
        deterministic(op),
        commutative(op),
        is_product(op, x, y, a),
        is_product(op, y, x, b),
    ensures
        a == b,
{
    assert forall|i: int| 0 <= i < a.len() implies a[i] == b[i] by {
        assert(op.ensures((x[i], y[i]), a[i]));
        assert(op.ensures((y[i], x[i]), b[i]));
        assert(op.ensures((x[i], y[i]), b[i]));
    }
    assert(a =~= b);
}

} // verus!
