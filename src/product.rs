use vstd::prelude::*;

verus! {

/// `op` can be called on any two elements.
pub open spec fn total<T, M: Fn(T, T) -> T>(op: M) -> bool {
    forall|a: T, b: T| #[trigger] op.requires((a, b))
}

/// `op` returns at most one value for each pair of arguments.
pub open spec fn deterministic<T, M: Fn(T, T) -> T>(op: M) -> bool {
    forall|a: T, b: T, r: T, s: T|
        #[trigger] op.ensures((a, b), r) && #[trigger] op.ensures((a, b), s) ==> r == s
}

/// Any result of `op(a, b)` is also a result of `op(b, a)`.
pub open spec fn commutative<T, M: Fn(T, T) -> T>(op: M) -> bool {
    forall|a: T, b: T, r: T| #[trigger] op.ensures((a, b), r) ==> op.ensures((b, a), r)
}

/// `z` is an element-wise product of `x` and `y` under `op`: all three have
/// one length, and each `z[i]` is a result of `op(x[i], y[i])`.
pub open spec fn is_product<T, M: Fn(T, T) -> T>(op: M, x: Seq<T>, y: Seq<T>, z: Seq<T>) -> bool {
    &&& y.len() == x.len()
    &&& z.len() == x.len()
    &&& forall|i: int| 0 <= i < x.len() ==> op.ensures((x[i], y[i]), #[trigger] z[i])
}

/// The lane operation `lane_op` can be called on any two lanes, and each element
/// of what it returns is a result of `op` on the elements at that position.
pub open spec fn lanes_refine<T, M: Fn(T, T) -> T, W: Fn([T; 4], [T; 4]) -> [T; 4]>(
    op: M,
    lane_op: W,
) -> bool {
    &&& forall|a: [T; 4], b: [T; 4]| #[trigger] lane_op.requires((a, b))
    &&& forall|a: [T; 4], b: [T; 4], r: [T; 4]| #[trigger]
        lane_op.ensures((a, b), r) ==> {
            &&& op.ensures((a@[0], b@[0]), r@[0])
            &&& op.ensures((a@[1], b@[1]), r@[1])
            &&& op.ensures((a@[2], b@[2]), r@[2])
            &&& op.ensures((a@[3], b@[3]), r@[3])
        }
}

} // verus!
