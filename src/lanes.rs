use vstd::prelude::*;

use crate::error::{check_equal_len, DimensionMismatch};
use crate::product::{is_product, lanes_refine, total};

verus! {

/// Width of one lane: the number of contiguous elements a lane operation
/// multiplies at once.
pub const LANES: usize = 4;

/// Splits a length into the number of full lanes and the number of trailing
/// elements that do not fill one.
pub fn lane_split(n: usize) -> (r: (usize, usize))
    ensures
        r.0 == n / LANES,
        r.1 == n % LANES,
        LANES * r.0 + r.1 == n,
        r.1 < LANES,
{
    (n / LANES, n % LANES)
}

/// Element-wise product in place, by lanes: the trailing `n % 4` elements one
/// at a time with `op`, then each full lane of four contiguous elements with
/// one call of `lane_op`. Fails, leaving `xs` as it was, when the lengths differ.
pub fn simd_mul_assign<T: Copy, M: Fn(T, T) -> T, W: Fn([T; 4], [T; 4]) -> [T; 4]>(
    xs: &mut Vec<T>,
    ys: &Vec<T>,
    op: M,
    lane_op: W,
) -> (r: Result<(), DimensionMismatch>)
    requires
        total(op),
        lanes_refine(op, lane_op),
    ensures
        r is Ok <==> old(xs)@.len() == ys@.len(),
        r is Ok ==> is_product(op, old(xs)@, ys@, final(xs)@),
        r is Err ==> final(xs)@ == old(xs)@ && r->Err_0 == (DimensionMismatch {
            left: old(xs)@.len() as usize,
            right: ys@.len() as usize,
        }),
{
    check_equal_len(xs.len(), ys.len())?;
    let n = xs.len();
    let (chunks, _rest) = lane_split(n);
    let tail = LANES * chunks;

    let mut i: usize = tail;
    while i < n
        invariant
            total(op),
            n == xs@.len(),
            n == ys@.len(),
            n == old(xs)@.len(),
            tail <= i <= n,
            forall|k: int| tail <= k < i ==> op.ensures((old(xs)@[k], ys@[k]), #[trigger] xs@[k]),
            forall|k: int| 0 <= k < tail || i <= k < n ==> #[trigger] xs@[k] == old(xs)@[k],
        decreases n - i,
    {
        let v = op(xs[i], ys[i]);
        xs.set(i, v);
        i = i + 1;
    }

    let mut c: usize = 0;
    while c < chunks
        invariant
            lanes_refine(op, lane_op),
            n == xs@.len(),
            n == ys@.len(),
            n == old(xs)@.len(),
            tail == LANES * chunks,
            tail <= n,
            c <= chunks,
            forall|k: int|
                0 <= k < LANES * c || tail <= k < n ==> op.ensures(
                    (old(xs)@[k], ys@[k]),
                    #[trigger] xs@[k],
                ),
            forall|k: int| LANES * c <= k < tail ==> #[trigger] xs@[k] == old(xs)@[k],
        decreases chunks - c,
    {
        let b = LANES * c;
        let xa = [xs[b], xs[b + 1], xs[b + 2], xs[b + 3]];
        let ya = [ys[b], ys[b + 1], ys[b + 2], ys[b + 3]];
        let ra = lane_op(xa, ya);
        xs.set(b, ra[0]);
        xs.set(b + 1, ra[1]);
        xs.set(b + 2, ra[2]);
        xs.set(b + 3, ra[3]);
        c = c + 1;
    }
    Ok(())
}

} // verus!
