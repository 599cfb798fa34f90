use vstd::prelude::*;

use crate::precision::{num_registers, Precision};

verus! {

/// Largest value that a register can hold: registers are six bits wide.
pub const MAX_RANK: u8 = 63;

/// Register-wise maximum of two banks of equal length.
pub open spec fn max_each(a: Seq<u8>, b: Seq<u8>) -> Seq<u8> {
    Seq::new(a.len(), |i: int| if a[i] < b[i] { b[i] } else { a[i] })
}

/// A bank of `n` registers, all zero.
pub open spec fn zeros(n: nat) -> Seq<u8> {
    Seq::new(n, |i: int| 0u8)
}

/// Whether every register of `s` is zero.
pub open spec fn all_zero(s: Seq<u8>) -> bool {
    forall|i: int| 0 <= i < s.len() ==> s[i] == 0
}

/// A fixed-size bank of `2^p` saturating-max registers of six bits each,
/// stored one per byte.
#[derive(Debug)]
pub struct Registers {
    precision: Precision,
    values: Vec<u8>,
}

impl View for Registers {
    type V = Seq<u8>;

    closed spec fn view(&self) -> Seq<u8> {
        self.values@
    }
}

impl Clone for Registers {
    /// A copy of the bank that shares no storage with it.
    fn clone(&self) -> (r: Registers)
        ensures
            r@ == self@,
            r.spec_precision() == self.spec_precision(),
    {
        let values = self.values.clone();
        assert(values@ =~= self.values@);
        Registers { precision: self.precision, values }
    }
}

impl Registers {
    /// The precision that sized this bank.
    pub closed spec fn spec_precision(&self) -> Precision {
        self.precision
    }

    /// The bank holds exactly `2^p` registers, each at most `MAX_RANK`.
    pub open spec fn wf(&self) -> bool {
        &&& self@.len() == num_registers(self.spec_precision().bits() as nat)
        &&& forall|i: int| 0 <= i < self@.len() ==> #[trigger] self@[i] <= MAX_RANK
    }

    /// Allocates `2^p` registers, all zero.
    pub fn with_precision(precision: Precision) -> (r: Registers)
        ensures
            r.wf(),
            r.spec_precision() == precision,
            r@ == zeros(num_registers(precision.bits() as nat)),
    {
        let bits = precision.get();
        proof {
            vstd::bits::lemma_usize_pow2_no_overflow(bits as nat);
            vstd::bits::lemma_usize_shl_is_mul(1, bits as usize);
        }
        let num_registers: usize = 1usize << bits as usize;
        let mut values: Vec<u8> = Vec::with_capacity(num_registers);
        let mut i: usize = 0;
        while i < num_registers
            invariant
                i <= num_registers,
                values@ == zeros(i as nat),
            decreases num_registers - i,
        {
            values.push(0);
            i += 1;
            assert(values@ =~= zeros(i as nat));
        }
        Registers { precision, values }
    }

    /// The precision that sized this bank.
    pub fn precision(&self) -> (r: Precision)
        ensures
            r == self.spec_precision(),
    {
        self.precision
    }

    /// Number of registers.
    pub fn len(&self) -> (r: usize)
        ensures
            r == self@.len(),
    {
        self.values.len()
    }

    /// Raises the register at `index` to `value` if it is lower.
    pub fn update(&mut self, index: usize, value: u8)
        requires
            old(self).wf(),
            index < old(self)@.len(),
            value <= MAX_RANK,
        ensures
            final(self).wf(),
            final(self).spec_precision() == old(self).spec_precision(),
            final(self)@ == old(self)@.update(
                index as int,
                if old(self)@[index as int] < value { value } else { old(self)@[index as int] },
            ),
    {
        if self.values[index] < value {
            self.values.set(index, value);
        }
    }

    /// The register values in index order.
    pub fn iter(&self) -> (r: &[u8])
        ensures
            r@ == self@,
    {
        self.values.as_slice()
    }

    /// Resets every register to zero.
    pub fn clear(&mut self)
        requires
            old(self).wf(),
        ensures
            final(self).wf(),
            final(self).spec_precision() == old(self).spec_precision(),
            final(self)@ == zeros(old(self)@.len()),
    {
        let n = self.values.len();
        let mut i: usize = 0;
        while i < n
            invariant
                i <= n,
                self.precision == old(self).precision,
                self.values@.len() == n,
                n == old(self)@.len(),
                forall|k: int| 0 <= k < i ==> self.values@[k] == 0,
            decreases n - i,
        {
            self.values.set(i, 0);
            i += 1;
        }
        assert(self.values@ =~= zeros(n as nat));
    }

    /// Whether every register is zero.
    pub fn is_empty(&self) -> (r: bool)
        ensures
            r == all_zero(self@),
    {
        let mut i: usize = 0;
        while i < self.values.len()
            invariant
                i <= self.values@.len(),
                forall|k: int| 0 <= k < i ==> self.values@[k] == 0,
            decreases self.values@.len() - i,
        {
            if self.values[i] != 0 {
                return false;
            }
            i += 1;
        }
        true
    }

    /// Merges `rhs` into `self` register by register (maximum), without
    /// checking that the two banks come from the same precision.
    pub fn merge_from_unchecked(&mut self, rhs: &Registers)
        requires
            old(self).wf(),
            rhs.wf(),
            old(self).spec_precision() == rhs.spec_precision(),
        ensures
            final(self).wf(),
            final(self).spec_precision() == old(self).spec_precision(),
            final(self)@ == max_each(old(self)@, rhs@),
    {
        let n = self.values.len();
        let mut i: usize = 0;
        while i < n
            invariant
                i <= n,
                n == old(self)@.len(),
                n == rhs@.len(),
                self.precision == old(self).precision,
                self.values@.len() == n,
                forall|k: int| 0 <= k < i ==> self.values@[k] == max_each(old(self)@, rhs@)[k],
                forall|k: int| i <= k < n ==> self.values@[k] == old(self)@[k],
                forall|k: int| 0 <= k < n ==> #[trigger] rhs.values@[k] <= MAX_RANK,
                forall|k: int| 0 <= k < n ==> #[trigger] old(self)@[k] <= MAX_RANK,
            decreases n - i,
        {
            let r = rhs.values[i];
            if self.values[i] < r {
                self.values.set(i, r);
            }
            i += 1;
        }
        assert(self.values@ =~= max_each(old(self)@, rhs@));
    }

    /// A new bank holding the register-wise maximum of `self` and `rhs`,
    /// without checking that the two banks come from the same precision.
    pub fn merge_unchecked(&self, rhs: &Registers) -> (r: Registers)
        requires
            self.wf(),
            rhs.wf(),
            self.spec_precision() == rhs.spec_precision(),
        ensures
            r.wf(),
            r.spec_precision() == self.spec_precision(),
            r@ == max_each(self@, rhs@),
    {
        let n = self.values.len();
        let mut values: Vec<u8> = Vec::with_capacity(n);
        let mut i: usize = 0;
        while i < n
            invariant
                i <= n,
                n == self@.len(),
                n == rhs@.len(),
                values@ == max_each(self@, rhs@).take(i as int),
            decreases n - i,
        {
            let a = self.values[i];
            let b = rhs.values[i];
            if a < b {
                values.push(b);
            } else {
                values.push(a);
            }
            i += 1;
            assert(values@ =~= max_each(self@, rhs@).take(i as int));
        }
        assert(values@ =~= max_each(self@, rhs@));
        Registers { precision: self.precision, values }
    }
}

} // verus!
