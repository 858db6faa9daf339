//! Element-wise in-place products of two equal-length buffers, by a scalar
//! pass or by a pass over four-element lanes, with the two proved to agree.
mod error;
mod lanes;
mod laws;
mod product;
mod scalar;

pub use error::{check_equal_len, DimensionMismatch};
pub use product::{commutative, deterministic, is_product, lanes_refine, total};
pub use lanes::{lane_split, simd_mul_assign, LANES};
pub use laws::{lemma_identity, lemma_product_unique, lemma_swap_operands, lemma_zero_absorbs};
pub use scalar::mul_assign;
