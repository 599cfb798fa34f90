//! Properties of precisions, register banks and merges, proved over the
//! spec functions that the executable contracts use.
use vstd::arithmetic::power2::pow2;
use vstd::prelude::*;

use crate::error::TryMergeErrorKind;
use crate::hyperloglog::{
    count_zeros, harmonic_sum, inserted, merge_check, rank, register_index,
};
use crate::precision::{num_registers, valid_bits, Precision};
use crate::registers::{all_zero, max_each, zeros, MAX_RANK};

verus! {

/// Every precision lies between `Precision::MIN` and `Precision::MAX`, and
/// its bit width is a valid one.
pub proof fn lemma_precision_bounds(p: Precision)
    ensures
        Precision::MIN.bits() <= p.bits() <= Precision::MAX.bits(),
        Precision::MIN.bits() == 4,
        Precision::MAX.bits() == 18,
        valid_bits(p.bits() as int),
{
}

/// Building a precision from a value and reading it back gives the value
/// exactly when the value is in range; reading a precision and building it
/// again gives the same precision.
pub proof fn lemma_new_round_trip(v: u8, p: Precision)
    ensures
        (Precision::of_bits(v) is Some && Precision::of_bits(v)->0.bits() == v) <==> valid_bits(
            v as int,
        ),
        Precision::of_bits(p.bits()) == Some(p),
{
}

/// A bank whose registers are all zero is empty, has every register counted
/// as zero, and its scaled harmonic sum is `n * 2^63`; so a fresh or cleared
/// estimator takes the linear-counting branch with `V == m`, whose estimate
/// is zero.
pub proof fn lemma_zeros_empty(n: nat)
    ensures
        all_zero(zeros(n)),
        count_zeros(zeros(n)) == n,
        harmonic_sum(zeros(n)) == n * pow2(MAX_RANK as nat),
    decreases n,
{
    if n > 0 {
        assert(zeros(n).drop_last() =~= zeros((n - 1) as nat));
        lemma_zeros_empty((n - 1) as nat);
        assert(harmonic_sum(zeros(n)) == (n - 1) * pow2(MAX_RANK as nat) + pow2(
            MAX_RANK as nat,
        ));
        assert((n - 1) * pow2(MAX_RANK as nat) + pow2(MAX_RANK as nat) == n * pow2(
            MAX_RANK as nat,
        )) by (nonlinear_arith);
    }
}

/// A bank is empty exactly when every one of its registers is counted as
/// zero.
pub proof fn lemma_empty_iff_all_counted(s: Seq<u8>)
    ensures
        count_zeros(s) <= s.len(),
        all_zero(s) <==> count_zeros(s) == s.len(),
    decreases s.len(),
{
    if s.len() > 0 {
        lemma_empty_iff_all_counted(s.drop_last());
        if all_zero(s) {
            assert(all_zero(s.drop_last()));
        }
        if count_zeros(s) == s.len() {
            assert forall|i: int| 0 <= i < s.len() implies s[i] == 0 by {
                if i < s.len() - 1 {
                    assert(s[i] == s.drop_last()[i]);
                }
            }
        }
    }
}

/// Adding the same hash twice leaves the registers as adding it once, so the
/// estimate does not move on duplicates.
pub proof fn lemma_insert_hash_idempotent(s: Seq<u8>, p: Precision, h: u64)
    requires
        s.len() == num_registers(p.bits() as nat),
    ensures
        inserted(inserted(s, p.bits() as nat, h), p.bits() as nat, h) == inserted(
            s,
            p.bits() as nat,
            h,
        ),
{
    let q = p.bits() as nat;
    let j = register_index(h, q);
    vstd::arithmetic::power2::lemma_pow2_pos(q);
    assert(0 <= j < s.len());
    let once = inserted(s, q, h);
    assert(inserted(once, q, h) =~= once);
}

/// Merging is commutative on registers.
pub proof fn lemma_merge_commutative(a: Seq<u8>, b: Seq<u8>)
    requires
        a.len() == b.len(),
    ensures
        max_each(a, b) == max_each(b, a),
{
    assert(max_each(a, b) =~= max_each(b, a));
}

/// Merging a bank with itself leaves it unchanged.
pub proof fn lemma_merge_idempotent(a: Seq<u8>)
    ensures
        max_each(a, a) == a,
{
    assert(max_each(a, a) =~= a);
}

/// The merged bank dominates both inputs register by register; hence it has
/// no more zero registers and no larger scaled harmonic sum than either, so
/// each estimate that these quantities decide can only grow by merging.
pub proof fn lemma_merge_dominates(a: Seq<u8>, b: Seq<u8>)
    requires
        a.len() == b.len(),
        forall|i: int| 0 <= i < a.len() ==> #[trigger] a[i] <= MAX_RANK,
        forall|i: int| 0 <= i < b.len() ==> #[trigger] b[i] <= MAX_RANK,
    ensures
        forall|i: int|
            0 <= i < a.len() ==> a[i] <= #[trigger] max_each(a, b)[i] && b[i] <= max_each(a, b)[i],
        count_zeros(max_each(a, b)) <= count_zeros(a),
        count_zeros(max_each(a, b)) <= count_zeros(b),
        harmonic_sum(max_each(a, b)) <= harmonic_sum(a),
        harmonic_sum(max_each(a, b)) <= harmonic_sum(b),
    decreases a.len(),
{
    if a.len() > 0 {
        let m = max_each(a, b);
        assert(m.drop_last() =~= max_each(a.drop_last(), b.drop_last()));
        lemma_merge_dominates(a.drop_last(), b.drop_last());
        let (x, y, z) = (a.last(), b.last(), m.last());
        if z > x {
            vstd::arithmetic::power2::lemma_pow2_strictly_increases(
                (MAX_RANK - z) as nat,
                (MAX_RANK - x) as nat,
            );
        }
        if z > y {
            vstd::arithmetic::power2::lemma_pow2_strictly_increases(
                (MAX_RANK - z) as nat,
                (MAX_RANK - y) as nat,
            );
        }
    }
}

/// The checked merges fail with a precision error exactly when the
/// precisions differ; with equal precisions they fail with a hasher error
/// exactly when the hashers compare unequal, and succeed otherwise.
pub proof fn lemma_merge_check_outcomes(lhs: Precision, rhs: Precision, hashers_equal: bool)
    ensures
        (merge_check(lhs, rhs, hashers_equal) == Err::<(), TryMergeErrorKind>(
            TryMergeErrorKind::Precision,
        )) <==> lhs != rhs,
        lhs == rhs ==> ((merge_check(lhs, rhs, hashers_equal) == Err::<(), TryMergeErrorKind>(
            TryMergeErrorKind::Hasher,
        )) <==> !hashers_equal),
        (merge_check(lhs, rhs, hashers_equal) is Ok) <==> (lhs == rhs && hashers_equal),
{
}

/// Every rank is between 1 and `65 - p`, so it always fits a register.
pub proof fn lemma_rank_fits(h: u64, p: Precision)
    ensures
        1 <= rank(h, p.bits() as nat) <= 65 - p.bits(),
        rank(h, p.bits() as nat) <= MAX_RANK,
{
    let q = p.bits() as u64;
    let w = h >> q;
    vstd::std_specs::bits::axiom_u64_leading_zeros(w);
    let lz = vstd::std_specs::bits::u64_leading_zeros(w);
    if lz < q {
        let k: u64 = (63 - lz) as u64;
        assert(((h >> q) >> k) & 1u64 == 0u64) by (bit_vector)
            requires
                q < 64,
                64 - q <= k < 64,
        ;
    }
}

} // verus!
