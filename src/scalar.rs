use vstd::prelude::*;

use crate::error::{check_equal_len, DimensionMismatch};
use crate::product::{is_product, total};

verus! {

/// Element-wise product in place, one element at a time: `xs[i] = op(xs[i], ys[i])`
/// for every index. Fails, leaving `xs` as it was, when the lengths differ.
pub fn mul_assign<T: Copy, M: Fn(T, T) -> T>(xs: &mut Vec<T>, ys: &Vec<T>, op: M) -> (r: Result<
    (),
    DimensionMismatch,
>)
    requires
        total(op),
    ensures
        r is Ok <==> old(xs)@.len() == ys@.len(),
        r is Ok ==> is_product(op, old(xs)@, ys@, final(xs)@),
        r is Err ==> final(xs)@ == old(xs)@ && r->Err_0 == (DimensionMismatch {
            left: old(xs)@.len() as usize,
            right: ys@.len() as usize,
        }),
{
    check_equal_len(xs.len(), ys.len())?;
    let n = xs.len();
    let mut i: usize = 0;
    while i < n
        invariant
            total(op),
            n == xs@.len(),
            n == ys@.len(),
            n == old(xs)@.len(),
            i <= n,
            forall|k: int| 0 <= k < i ==> op.ensures((old(xs)@[k], ys@[k]), #[trigger] xs@[k]),
            forall|k: int| i <= k < n ==> #[trigger] xs@[k] == old(xs)@[k],
        decreases n - i,
    {
        let v = op(xs[i], ys[i]);
        xs.set(i, v);
        i = i + 1;
    }
    Ok(())
}

} // verus!
