//! The computation behind the memory reporting block: the used share of
//! memory as the whole percentage the block displays.

use vstd::prelude::*;

verus! {

/// The whole percentage of `total` that `used` makes up, rounded down.
/// The used figure must not exceed the total, so the result lies in
/// `[0, 100]`.
pub fn used_memory_percent(used: u64, total: u64) -> (r: u64)
    requires
        total >= 1,
        used <= total,
    ensures
        r == 100 * used as int / total as int,
        r <= 100,
{
    let wide: u128 = 100 * (used as u128);
    let pct: u128 = wide / (total as u128);

    proof {
        vstd::arithmetic::div_mod::lemma_div_is_ordered(
            100 * used as int,
            100 * total as int,
            total as int,
        );
        vstd::arithmetic::div_mod::lemma_div_multiples_vanish(100, total as int);
    }
    pct as u64
}

} // verus!
