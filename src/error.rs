use vstd::prelude::*;

verus! {

/// The two buffers of an element-wise operation have different lengths.
#[derive(Debug, Clone, Copy, PartialEq, Eq, Structural)]
pub struct DimensionMismatch {
    /// Length of the destination (left) buffer.
    pub left: usize,
    /// Length of the right operand.
    pub right: usize,
}

/// Succeeds exactly when the two lengths agree; otherwise reports both.
pub fn check_equal_len(left: usize, right: usize) -> (r: Result<(), DimensionMismatch>)
    ensures
        r is Ok <==> left == right,
        r is Err ==> r->Err_0 == (DimensionMismatch { left, right }),
{
    if left == right {
        Ok(())
    } else {
        Err(DimensionMismatch { left, right })
    }
}

} // verus!
