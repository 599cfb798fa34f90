use vstd::prelude::*;
use vstd::string::StringExecFns;

use crate::error::TryFromIntError;

verus! {

/// The precision of the hyperloglog, that is, the number of low hash bits
/// used to pick a register: there are `2^p` registers.
#[derive(Clone, Copy, Debug, PartialEq, Eq, Structural, Hash, PartialOrd, Ord)]
pub enum Precision {
    /// 4-bit precision.
    P4,
    /// 5-bit precision.
    P5,
    /// 6-bit precision.
    P6,
    /// 7-bit precision.
    P7,
    /// 8-bit precision.
    P8,
    /// 9-bit precision.
    P9,
    /// 10-bit precision.
    P10,
    /// 11-bit precision.
    P11,
    /// 12-bit precision (default).
    P12,
    /// 13-bit precision.
    P13,
    /// 14-bit precision.
    P14,
    /// 15-bit precision.
    P15,
    /// 16-bit precision.
    P16,
    /// 17-bit precision.
    P17,
    /// 18-bit precision.
    P18,
}

/// Smallest valid bit width.
pub const MIN_BITS: u8 = 4;

/// Largest valid bit width.
pub const MAX_BITS: u8 = 18;

/// Whether `v` is a valid bit width.
pub open spec fn valid_bits(v: int) -> bool {
    MIN_BITS <= v <= MAX_BITS
}

/// Number of registers for a bit width: `2^p`.
pub open spec fn num_registers(p: nat) -> nat {
    vstd::arithmetic::power2::pow2(p)
}

impl Precision {
    /// The smallest precision: 4 bits.
    pub const MIN: Precision = Precision::P4;

    /// The largest precision: 18 bits.
    pub const MAX: Precision = Precision::P18;

    /// The bit width that this precision stands for.
    pub open spec fn bits(self) -> u8 {
        match self {
            Precision::P4 => 4,
            Precision::P5 => 5,
            Precision::P6 => 6,
            Precision::P7 => 7,
            Precision::P8 => 8,
            Precision::P9 => 9,
            Precision::P10 => 10,
            Precision::P11 => 11,
            Precision::P12 => 12,
            Precision::P13 => 13,
            Precision::P14 => 14,
            Precision::P15 => 15,
            Precision::P16 => 16,
            Precision::P17 => 17,
            Precision::P18 => 18,
        }
    }

    /// The precision of a bit width, if it is valid.
    pub open spec fn of_bits(v: u8) -> Option<Precision> {
        if v == 4 { Some(Precision::P4) }
        else if v == 5 { Some(Precision::P5) }
        else if v == 6 { Some(Precision::P6) }
        else if v == 7 { Some(Precision::P7) }
        else if v == 8 { Some(Precision::P8) }
        else if v == 9 { Some(Precision::P9) }
        else if v == 10 { Some(Precision::P10) }
        else if v == 11 { Some(Precision::P11) }
        else if v == 12 { Some(Precision::P12) }
        else if v == 13 { Some(Precision::P13) }
        else if v == 14 { Some(Precision::P14) }
        else if v == 15 { Some(Precision::P15) }
        else if v == 16 { Some(Precision::P16) }
        else if v == 17 { Some(Precision::P17) }
        else if v == 18 { Some(Precision::P18) }
        else { None }
    }

    /// All valid precisions, in increasing order.
    pub fn variants() -> (r: Vec<Precision>)
        ensures
            r@.len() == (MAX_BITS - MIN_BITS + 1),
            forall|i: int| 0 <= i < r@.len() ==> #[trigger] r@[i].bits() == MIN_BITS + i,
    {
        vec![
            Precision::P4,
            Precision::P5,
            Precision::P6,
            Precision::P7,
            Precision::P8,
            Precision::P9,
            Precision::P10,
            Precision::P11,
            Precision::P12,
            Precision::P13,
            Precision::P14,
            Precision::P15,
            Precision::P16,
            Precision::P17,
            Precision::P18,
        ]
    }

    /// Checks whether the given value is in the range of valid precision values.
    pub fn in_range(value: u8) -> (r: bool)
        ensures
            r == valid_bits(value as int),
    {
        MIN_BITS <= value && value <= MAX_BITS
    }

    /// Creates a precision if the given value is in range.
    pub fn new(value: u8) -> (r: Option<Precision>)
        ensures
            r == Precision::of_bits(value),
            r is Some <==> valid_bits(value as int),
            r is Some ==> r->0.bits() == value,
    {
        match value {
            4 => Some(Precision::P4),
            5 => Some(Precision::P5),
            6 => Some(Precision::P6),
            7 => Some(Precision::P7),
            8 => Some(Precision::P8),
            9 => Some(Precision::P9),
            10 => Some(Precision::P10),
            11 => Some(Precision::P11),
            12 => Some(Precision::P12),
            13 => Some(Precision::P13),
            14 => Some(Precision::P14),
            15 => Some(Precision::P15),
            16 => Some(Precision::P16),
            17 => Some(Precision::P17),
            18 => Some(Precision::P18),
            _ => None,
        }
    }

    /// Returns the precision value as a `u8`.
    pub fn get(self) -> (r: u8)
        ensures
            r == self.bits(),
            valid_bits(r as int),
    {
        match self {
            Precision::P4 => 4,
            Precision::P5 => 5,
            Precision::P6 => 6,
            Precision::P7 => 7,
            Precision::P8 => 8,
            Precision::P9 => 9,
            Precision::P10 => 10,
            Precision::P11 => 11,
            Precision::P12 => 12,
            Precision::P13 => 13,
            Precision::P14 => 14,
            Precision::P15 => 15,
            Precision::P16 => 16,
            Precision::P17 => 17,
            Precision::P18 => 18,
        }
    }

    /// The bit width in decimal, as `Display` would print it.
    pub fn to_string(&self) -> (r: String)
        ensures
            r@ == decimal(self.bits() as nat),
    {
        u8_to_decimal(self.get())
    }
}

/// Decimal digits of a natural number, most significant first.
pub open spec fn decimal(n: nat) -> Seq<char>
    decreases n,
{
    if n < 10 {
        seq![digit_char(n)]
    } else {
        decimal(n / 10).push(digit_char(n % 10))
    }
}

/// The ASCII digit for `d < 10`.
pub open spec fn digit_char(d: nat) -> char {
    (('0' as nat) + d) as char
}

/// The one-character string of a decimal digit.
fn digit_str(d: u8) -> (r: &'static str)
    requires
        d < 10,
    ensures
        r@ == seq![digit_char(d as nat)],
{
    match d {
        0 => {
            proof {
                reveal_strlit("0");
            }
            "0"
        },
        1 => {
            proof {
                reveal_strlit("1");
            }
            "1"
        },
        2 => {
            proof {
                reveal_strlit("2");
            }
            "2"
        },
        3 => {
            proof {
                reveal_strlit("3");
            }
            "3"
        },
        4 => {
            proof {
                reveal_strlit("4");
            }
            "4"
        },
        5 => {
            proof {
                reveal_strlit("5");
            }
            "5"
        },
        6 => {
            proof {
                reveal_strlit("6");
            }
            "6"
        },
        7 => {
            proof {
                reveal_strlit("7");
            }
            "7"
        },
        8 => {
            proof {
                reveal_strlit("8");
            }
            "8"
        },
        _ => {
            proof {
                reveal_strlit("9");
            }
            "9"
        },
    }
}

/// The decimal digits of `v`, most significant first.
fn u8_to_decimal(v: u8) -> (r: String)
    ensures
        r@ == decimal(v as nat),
{
    let mut s = String::new();
    if v >= 100 {
        s.append(digit_str(v / 100));
    }
    if v >= 10 {
        s.append(digit_str((v / 10) % 10));
    }
    s.append(digit_str(v % 10));
    proof {
        let n = v as nat;
        if n >= 100 {
            assert(decimal(n / 100) == seq![digit_char(n / 100)]);
            assert(decimal(n / 10) == decimal((n / 10) / 10).push(digit_char((n / 10) % 10)));
            assert((n / 10) / 10 == n / 100);
        } else if n >= 10 {
            assert(decimal(n / 10) == seq![digit_char(n / 10)]);
        }
        assert(s@ =~= decimal(n));
    }
    s
}

impl From<Precision> for u8 {
    fn from(precision: Precision) -> (r: u8) {
        precision.get()
    }
}

impl vstd::std_specs::convert::FromSpecImpl<Precision> for u8 {
    open spec fn obeys_from_spec() -> bool {
        true
    }

    open spec fn from_spec(v: Precision) -> u8 {
        v.bits()
    }
}

impl TryFrom<u8> for Precision {
    type Error = TryFromIntError;

    fn try_from(value: u8) -> (r: Result<Precision, TryFromIntError>) {
        match Precision::new(value) {
            Some(p) => Ok(p),
            None => Err(TryFromIntError::out_of_bounds()),
        }
    }
}

impl vstd::std_specs::convert::TryFromSpecImpl<u8> for Precision {
    open spec fn obeys_try_from_spec() -> bool {
        true
    }

    open spec fn try_from_spec(v: u8) -> Result<Precision, TryFromIntError> {
        match Precision::of_bits(v) {
            Some(p) => Ok(p),
            None => Err(TryFromIntError::spec_out_of_bounds()),
        }
    }
}

impl Default for Precision {
    fn default() -> (r: Precision)
        ensures
            r == Precision::P12,
    {
        Precision::P12
    }
}

} // verus!
