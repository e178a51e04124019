//! Derivation of the output frame width from the configured height.
//!
//! The target width preserves the source aspect ratio; the quotient is
//! truncated toward zero (integer division), which is the documented policy.

use vstd::prelude::*;

verus! {

/// Output width for `target_height` that preserves the aspect ratio of a
/// `src_width` x `src_height` source, by truncating integer division.
pub fn target_width(target_height: i32, src_width: i32, src_height: i32) -> (r: i32)
    requires
        src_height > 0,
        src_width >= 0,
        target_height >= 0,
        target_height * src_width / (src_height as int) <= i32::MAX,
    ensures
        r == target_height * src_width / (src_height as int),
{
    proof {
        assert((target_height as int) * (src_width as int) <= 0x7fffffff * 0x7fffffff)
            by (nonlinear_arith)
            requires
                0 <= target_height <= 0x7fffffff,
                0 <= src_width <= 0x7fffffff,
        ;
        assert((target_height as int) * (src_width as int) / (src_height as int) >= 0)
            by (nonlinear_arith)
            requires
                target_height >= 0,
                src_width >= 0,
                src_height > 0,
        ;
    }
    (((target_height as i64) * (src_width as i64)) / (src_height as i64)) as i32
}

} // verus!
