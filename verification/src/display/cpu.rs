//! The computation behind the cpu reporting blocks: averaging the per-core
//! readings that the average-load bar chart displays.

use vstd::prelude::*;

use crate::monitoring::polling::Measurement;

verus! {

/// The sum of the values of a sequence of measurements.
pub open spec fn sum_of(s: Seq<Measurement>) -> int
    decreases s.len(),
{
    if s.len() == 0 {
        0
    } else {
        sum_of(s.drop_last()) + s.last().value
    }
}

/// The average value a load report shows for a set of per-core readings:
/// their mean rounded down, and zero where there are no readings at all.
pub open spec fn average_of(s: Seq<Measurement>) -> int {
    if s.len() == 0 {
        0
    } else {
        sum_of(s) / s.len() as int
    }
}

/// Floor division of a negative dividend by a positive divisor, written
/// with nonnegative operands only: `-((-a + n - 1) / n)` equals `a / n`.
proof fn lemma_neg_floor_div(a: int, n: int)
    requires
        a < 0,
        n >= 1,
    ensures
        -((-a + n - 1) / n) == a / n,
{
    let q = a / n;
    let r = a % n;
    vstd::arithmetic::div_mod::lemma_fundamental_div_mod(a, n);
    vstd::arithmetic::div_mod::lemma_mod_division_less_than_divisor(a, n);
    assert(-a + n - 1 == n * (-q) + (n - 1 - r)) by {
        assert(a == q * n + r);
        assert(n * (-q) == -(q * n)) by (nonlinear_arith);
    };
    vstd::arithmetic::div_mod::lemma_fundamental_div_mod_converse(-a + n - 1, n, -q, n - 1 - r);
}

/// Computes the average cpu load over all currently polled cores, as the
/// average-load block reports it. With no readings the average is zero,
/// never an error. The reading count is limited to what a machine could
/// have cores.
pub fn cpu_average(readings: &Vec<Measurement>) -> (r: i64)
    requires
        readings@.len() <= 1000000,
    ensures
        r == average_of(readings@),
{
    if readings.len() == 0 {
        return 0;
    }

    let mut acc: i128 = 0;
    let mut i: usize = 0;
    while i < readings.len()
        invariant
            readings@.len() <= 1000000,
            i <= readings@.len(),
            acc == sum_of(readings@.take(i as int)),
            -0x8000000000000000 * (i as int) <= acc <= 0x7fffffffffffffff * (i as int),
        decreases readings@.len() - i,
    {
        proof {
            assert(readings@.take(i + 1).drop_last() =~= readings@.take(i as int));
            assert(readings@.take(i + 1).last() == readings@[i as int]);
        }
        acc = acc + readings[i].value as i128;
        i = i + 1;
    }

    proof {
        assert(readings@.take(readings@.len() as int) =~= readings@);
    }

    let n: i128 = readings.len() as i128;
    let avg: i128 = if acc >= 0 {
        acc / n
    } else {
        -((-acc + n - 1) / n)
    };

    proof {
        let a = acc as int;
        let nn = n as int;
        if acc >= 0 {
            vstd::arithmetic::div_mod::lemma_div_pos_is_pos(a, nn);
            vstd::arithmetic::div_mod::lemma_div_is_ordered(a, nn * 0x7fffffffffffffff, nn);
            vstd::arithmetic::div_mod::lemma_div_multiples_vanish(0x7fffffffffffffff, nn);
        } else {
            lemma_neg_floor_div(a, nn);
            vstd::arithmetic::div_mod::lemma_div_is_ordered(nn * (-0x8000000000000000), a, nn);
            vstd::arithmetic::div_mod::lemma_div_multiples_vanish(-0x8000000000000000, nn);
            vstd::arithmetic::div_mod::lemma_div_is_ordered(a, 0, nn);
            vstd::arithmetic::div_mod::lemma_div_multiples_vanish(0, nn);
        }
    }
    avg as i64
}

} // verus!
