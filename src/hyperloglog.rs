use std::marker::PhantomData;

use vstd::arithmetic::power2::pow2;
use vstd::prelude::*;
use vstd::std_specs::bits::u64_leading_zeros;
use vstd::std_specs::cmp::PartialEqSpec;

use crate::error::{TryMergeError, TryMergeErrorKind};
use crate::precision::{num_registers, Precision};
use crate::registers::{max_each, zeros, Registers, MAX_RANK};

verus! {

/// Register that a hash selects: its low `p` bits.
pub open spec fn register_index(h: u64, p: nat) -> int {
    h as int % pow2(p) as int
}

/// Rank of a hash: the 1-based position of the leftmost set bit among its
/// upper `64 - p` bits (`64 - p + 1` when they are all zero).
pub open spec fn rank(h: u64, p: nat) -> int {
    u64_leading_zeros(h >> (p as u64)) + 1 - p
}

/// The registers after adding a hash: the selected register is raised to the
/// hash's rank if it is lower.
pub open spec fn inserted(s: Seq<u8>, p: nat, h: u64) -> Seq<u8> {
    let j = register_index(h, p);
    let rho = rank(h, p) as u8;
    s.update(j, if s[j] < rho { rho } else { s[j] })
}

/// A hyperloglog: estimates the number of distinct elements of a stream of
/// values of type `T` from their 64-bit hashes. The hasher `S` is carried for
/// the callers that hash values; two estimators merge only when their hashers
/// are equal.
#[derive(Debug)]
pub struct HyperLogLog<T: ?Sized, S> {
    registers: Registers,
    hash_builder: S,
    phantom: PhantomData<T>,
}

impl<T: ?Sized, S> View for HyperLogLog<T, S> {
    type V = Seq<u8>;

    /// The register values, in index order.
    closed spec fn view(&self) -> Seq<u8> {
        self.registers@
    }
}

impl<T: ?Sized, S> HyperLogLog<T, S> {
    /// The precision of the estimator.
    pub closed spec fn spec_precision(&self) -> Precision {
        self.registers.spec_precision()
    }

    /// The hasher of the estimator.
    pub closed spec fn spec_hasher(&self) -> S {
        self.hash_builder
    }

    /// The registers are well formed for the precision.
    pub closed spec fn wf(&self) -> bool {
        self.registers.wf()
    }

    /// Facts that every well-formed estimator has.
    pub proof fn lemma_wf(&self)
        requires
            self.wf(),
        ensures
            self@.len() == num_registers(self.spec_precision().bits() as nat),
            forall|i: int| 0 <= i < self@.len() ==> #[trigger] self@[i] <= MAX_RANK,
    {
    }

    fn with_registers_and_hasher(registers: Registers, hasher: S) -> (r: Self)
        requires
            registers.wf(),
        ensures
            r.wf(),
            r@ == registers@,
            r.spec_precision() == registers.spec_precision(),
            r.spec_hasher() == hasher,
    {
        HyperLogLog { registers, hash_builder: hasher, phantom: PhantomData }
    }

    /// Creates an empty estimator with the given precision and hasher.
    pub fn with_precision_and_hasher(precision: Precision, hasher: S) -> (r: Self)
        ensures
            r.wf(),
            r@ == zeros(num_registers(precision.bits() as nat)),
            r.spec_precision() == precision,
            r.spec_hasher() == hasher,
    {
        Self::with_registers_and_hasher(Registers::with_precision(precision), hasher)
    }

    /// Creates an empty estimator with the default precision (12) and the
    /// given hasher.
    pub fn with_hasher(hasher: S) -> (r: Self)
        ensures
            r.wf(),
            r@ == zeros(num_registers(12)),
            r.spec_precision() == Precision::P12,
            r.spec_hasher() == hasher,
    {
        Self::with_precision_and_hasher(Precision::default(), hasher)
    }

    /// Returns the precision of the estimator.
    pub fn precision(&self) -> (r: Precision)
        ensures
            r == self.spec_precision(),
    {
        self.registers.precision()
    }

    /// Returns a reference to the estimator's hasher.
    pub fn hasher(&self) -> (r: &S)
        ensures
            *r == self.spec_hasher(),
    {
        &self.hash_builder
    }

    /// Adds a hash value: the low `p` bits pick a register, which is raised
    /// to the rank of the remaining bits.
    pub fn insert_hash(&mut self, h: u64)
        requires
            old(self).wf(),
        ensures
            final(self).wf(),
            final(self).spec_precision() == old(self).spec_precision(),
            final(self).spec_hasher() == old(self).spec_hasher(),
            final(self)@ == inserted(old(self)@, old(self).spec_precision().bits() as nat, h),
    {
        let num_bits = self.precision().get();
        let p = num_bits as u64;
        // Split h into (w, j): w holds the (64 - p) upper bits, j the p lower bits.
        let w = h >> p;
        proof {
            vstd::bits::lemma_u64_shr_is_div(h, p);
            vstd::bits::lemma_u64_pow2_no_overflow(p as nat);
            vstd::arithmetic::div_mod::lemma_fundamental_div_mod(h as int, pow2(p as nat) as int);
            assert(pow2(p as nat) * (h as nat / pow2(p as nat)) == w * pow2(p as nat)) by (nonlinear_arith)
                requires w == h as nat / pow2(p as nat);
            vstd::bits::lemma_u64_shl_is_mul(w, p);
        }
        let j = h - (w << p);
        assert(j == register_index(h, p as nat));
        // Leftmost set bit, 1-based.
        let lz = w.leading_zeros();
        proof {
            vstd::std_specs::bits::axiom_u64_leading_zeros(w);
            if (lz as u64) < p {
                let k: u64 = (63 - lz) as u64;
                assert(((h >> p) >> k) & 1u64 == 0u64) by (bit_vector)
                    requires
                        p < 64,
                        64 - p <= k < 64,
                ;
            }
            vstd::arithmetic::power2::lemma2_to64();
            if p < 18 {
                vstd::arithmetic::power2::lemma_pow2_strictly_increases(p as nat, 18);
            }
        }
        let rho = (lz + 1 - (num_bits as u32)) as u8;
        self.registers.update(j as usize, rho);
    }

    /// Clears the estimator: every register returns to zero.
    pub fn clear(&mut self)
        requires
            old(self).wf(),
        ensures
            final(self).wf(),
            final(self).spec_precision() == old(self).spec_precision(),
            final(self).spec_hasher() == old(self).spec_hasher(),
            final(self)@ == zeros(old(self)@.len()),
    {
        self.registers.clear()
    }

    /// Whether no hash has raised any register.
    pub fn is_empty(&self) -> (r: bool)
        ensures
            r == crate::registers::all_zero(self@),
    {
        self.registers.is_empty()
    }
}

impl<T: ?Sized, S: Clone> Clone for HyperLogLog<T, S> {
    /// A copy of the estimator: its own copy of the registers and a clone of
    /// the hasher.
    fn clone(&self) -> (r: Self)
        ensures
            r@ == self@,
            r.spec_precision() == self.spec_precision(),
            r.wf() == self.wf(),
            cloned::<S>(self.spec_hasher(), r.spec_hasher()),
    {
        HyperLogLog {
            registers: self.registers.clone(),
            hash_builder: self.hash_builder.clone(),
            phantom: PhantomData,
        }
    }
}

impl<T: ?Sized, S: Default> HyperLogLog<T, S> {
    /// Creates an empty estimator with the default precision (12) and the
    /// default hasher.
    pub fn new() -> (r: Self)
        ensures
            r.wf(),
            r@ == zeros(num_registers(12)),
            r.spec_precision() == Precision::P12,
    {
        Self::with_precision(Precision::default())
    }

    /// Creates an empty estimator with the given precision and the default
    /// hasher.
    pub fn with_precision(precision: Precision) -> (r: Self)
        ensures
            r.wf(),
            r@ == zeros(num_registers(precision.bits() as nat)),
            r.spec_precision() == precision,
    {
        Self::with_precision_and_hasher(precision, S::default())
    }
}

impl<T: ?Sized, S: Default> Default for HyperLogLog<T, S> {
    fn default() -> (r: Self)
        ensures
            r.wf(),
            r@ == zeros(num_registers(12)),
            r.spec_precision() == Precision::P12,
    {
        Self::with_registers_and_hasher(
            Registers::with_precision(Precision::default()),
            S::default(),
        )
    }
}

impl<T: ?Sized, S> HyperLogLog<T, S> {
    /// Merges `rhs` into `self` without checking that the precisions and the
    /// hashers are the same on both sides.
    pub fn merge_from_unchecked(&mut self, rhs: &Self)
        requires
            old(self).wf(),
            rhs.wf(),
            old(self).spec_precision() == rhs.spec_precision(),
        ensures
            final(self).wf(),
            final(self).spec_precision() == old(self).spec_precision(),
            final(self).spec_hasher() == old(self).spec_hasher(),
            final(self)@ == max_each(old(self)@, rhs@),
    {
        self.registers.merge_from_unchecked(&rhs.registers);
    }
}

impl<T: ?Sized, S: Clone> HyperLogLog<T, S> {
    /// Merges two estimators into a new one, without checking that the
    /// precisions and the hashers are the same on both sides. The result
    /// carries a clone of `self`'s hasher.
    pub fn merge_unchecked(&self, rhs: &Self) -> (r: Self)
        requires
            self.wf(),
            rhs.wf(),
            self.spec_precision() == rhs.spec_precision(),
        ensures
            r.wf(),
            r.spec_precision() == self.spec_precision(),
            r@ == max_each(self@, rhs@),
            cloned::<S>(self.spec_hasher(), r.spec_hasher()),
    {
        Self::with_registers_and_hasher(
            self.registers.merge_unchecked(&rhs.registers),
            self.hash_builder.clone(),
        )
    }
}

/// The outcome of the merge checks: precisions are compared first, then
/// hashers.
pub open spec fn merge_check(
    lhs: Precision,
    rhs: Precision,
    hashers_equal: bool,
) -> Result<(), TryMergeErrorKind> {
    if lhs != rhs {
        Err(TryMergeErrorKind::Precision)
    } else if !hashers_equal {
        Err(TryMergeErrorKind::Hasher)
    } else {
        Ok(())
    }
}

/// Whether a merge outcome matches the kind-level outcome `k`.
pub open spec fn same_outcome<T>(r: Result<T, TryMergeError>, k: Result<(), TryMergeErrorKind>) -> bool {
    match r {
        Ok(_) => k is Ok,
        Err(e) => k == Err::<(), TryMergeErrorKind>(e.spec_kind()),
    }
}

/// Decides whether two estimators may be merged, from their precisions and
/// from whether their hashers compared equal.
pub fn check_merge_conds(
    lhs: Precision,
    rhs: Precision,
    hashers_equal: bool,
) -> (r: Result<(), TryMergeError>)
    ensures
        same_outcome(r, merge_check(lhs, rhs, hashers_equal)),
{
    if lhs != rhs {
        return Err(TryMergeError::with_kind(TryMergeErrorKind::Precision));
    }
    if !hashers_equal {
        return Err(TryMergeError::with_kind(TryMergeErrorKind::Hasher));
    }
    Ok(())
}

impl<T: ?Sized, S: PartialEq> HyperLogLog<T, S> {
    /// Whether the hashers of two estimators compare equal.
    fn same_hasher(&self, rhs: &Self) -> (r: bool)
        ensures
            S::obeys_eq_spec() ==> r == self.spec_hasher().eq_spec(&rhs.spec_hasher()),
    {
        self.hash_builder == rhs.hash_builder
    }

    /// Merges `rhs` into `self`, failing when the precisions or the hashers
    /// differ; on failure `self` is unchanged.
    pub fn try_merge_from(&mut self, rhs: &Self) -> (r: Result<(), TryMergeError>)
        requires
            old(self).wf(),
            rhs.wf(),
        ensures
            final(self).wf(),
            final(self).spec_precision() == old(self).spec_precision(),
            final(self).spec_hasher() == old(self).spec_hasher(),
            old(self).spec_precision() != rhs.spec_precision() ==> same_outcome(
                r,
                Err(TryMergeErrorKind::Precision),
            ),
            old(self).spec_precision() == rhs.spec_precision() ==> r is Ok || same_outcome(
                r,
                Err(TryMergeErrorKind::Hasher),
            ),
            S::obeys_eq_spec() ==> same_outcome(
                r,
                merge_check(
                    old(self).spec_precision(),
                    rhs.spec_precision(),
                    old(self).spec_hasher().eq_spec(&rhs.spec_hasher()),
                ),
            ),
            r is Ok ==> final(self)@ == max_each(old(self)@, rhs@),
            r is Err ==> final(self)@ == old(self)@,
    {
        let eq = self.same_hasher(rhs);
        match check_merge_conds(self.precision(), rhs.precision(), eq) {
            Ok(()) => {
                self.merge_from_unchecked(rhs);
                Ok(())
            },
            Err(e) => Err(e),
        }
    }
}

impl<T: ?Sized, S: PartialEq + Clone> HyperLogLog<T, S> {
    /// Merges two estimators into a new one, failing when the precisions or
    /// the hashers differ.
    pub fn try_merge(&self, rhs: &Self) -> (r: Result<Self, TryMergeError>)
        requires
            self.wf(),
            rhs.wf(),
        ensures
            self.spec_precision() != rhs.spec_precision() ==> same_outcome(
                r,
                Err(TryMergeErrorKind::Precision),
            ),
            self.spec_precision() == rhs.spec_precision() ==> r is Ok || same_outcome(
                r,
                Err(TryMergeErrorKind::Hasher),
            ),
            S::obeys_eq_spec() ==> same_outcome(
                r,
                merge_check(
                    self.spec_precision(),
                    rhs.spec_precision(),
                    self.spec_hasher().eq_spec(&rhs.spec_hasher()),
                ),
            ),
            r is Ok ==> r->Ok_0.wf() && r->Ok_0.spec_precision() == self.spec_precision()
                && r->Ok_0@ == max_each(self@, rhs@),
            r is Ok ==> cloned::<S>(self.spec_hasher(), r->Ok_0.spec_hasher()),
    {
        let eq = self.same_hasher(rhs);
        match check_merge_conds(self.precision(), rhs.precision(), eq) {
            Ok(()) => Ok(self.merge_unchecked(rhs)),
            Err(e) => Err(e),
        }
    }
}

/// Number of registers at zero.
pub open spec fn count_zeros(s: Seq<u8>) -> nat
    decreases s.len(),
{
    if s.len() == 0 {
        0
    } else {
        count_zeros(s.drop_last()) + if s.last() == 0 { 1nat } else { 0nat }
    }
}

/// The sum of `2^-v` over the register values `v`, scaled by `2^63` so that
/// it is an integer: the sum of `2^(63 - v)`.
pub open spec fn harmonic_sum(s: Seq<u8>) -> nat
    decreases s.len(),
{
    if s.len() == 0 {
        0
    } else {
        harmonic_sum(s.drop_last()) + pow2((MAX_RANK - s.last()) as nat)
    }
}

impl<T: ?Sized, S> HyperLogLog<T, S> {
    /// Number of registers, `2^p`.
    pub fn num_registers(&self) -> (r: usize)
        requires
            self.wf(),
        ensures
            r == self@.len(),
            r == num_registers(self.spec_precision().bits() as nat),
    {
        self.registers.len()
    }

    /// Number of registers still at zero: the `V` of the small-range
    /// (linear counting) correction.
    pub fn zero_count(&self) -> (r: usize)
        ensures
            r == count_zeros(self@),
    {
        let values = self.registers.iter();
        let n = values.len();
        let mut count: usize = 0;
        let mut i: usize = 0;
        while i < n
            invariant
                i <= n,
                n == values@.len(),
                values@ == self@,
                count == count_zeros(values@.take(i as int)),
                count <= i,
            decreases n - i,
        {
            assert(values@.take(i + 1).drop_last() =~= values@.take(i as int));
            if values[i] == 0 {
                count += 1;
            }
            i += 1;
        }
        assert(values@.take(n as int) =~= values@);
        count
    }

    /// The denominator of the raw estimate, exactly: the sum of `2^-v` over
    /// all register values `v`, multiplied by `2^63`.
    pub fn harmonic_sum(&self) -> (r: u128)
        requires
            self.wf(),
        ensures
            r == harmonic_sum(self@),
    {
        proof {
            self.lemma_wf();
            vstd::arithmetic::power2::lemma2_to64();
            if self.spec_precision().bits() < 18 {
                vstd::arithmetic::power2::lemma_pow2_strictly_increases(
                    self.spec_precision().bits() as nat,
                    18,
                );
            }
        }
        let values = self.registers.iter();
        let n = values.len();
        let mut sum: u128 = 0;
        let mut i: usize = 0;
        while i < n
            invariant
                i <= n,
                n == values@.len(),
                n <= 0x40000,
                values@ == self@,
                forall|k: int| 0 <= k < n ==> #[trigger] values@[k] <= MAX_RANK,
                sum == harmonic_sum(values@.take(i as int)),
                sum <= i * 0xffff_ffff_ffff_ffffu128,
            decreases n - i,
        {
            assert(values@.take(i + 1).drop_last() =~= values@.take(i as int));
            let v = values[i];
            let shift = (MAX_RANK - v) as u64;
            proof {
                vstd::bits::lemma_u64_pow2_no_overflow(shift as nat);
                vstd::bits::lemma_u64_shl_is_mul(1, shift);
                assert((i + 1) * 0xffff_ffff_ffff_ffffu128 <= 0x40000 * 0xffff_ffff_ffff_ffffu128)
                    by (nonlinear_arith)
                    requires
                        i < 0x40000,
                ;
            }
            let term: u64 = 1u64 << shift;
            sum = sum + term as u128;
            i += 1;
        }
        assert(values@.take(n as int) =~= values@);
        sum
    }
}

} // verus!
