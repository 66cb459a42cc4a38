//! Lengths in layout units.

use vstd::prelude::*;

verus! {

/// The raw value of one whole unit.
pub const SCALE: i64 = 65536;

/// A length, or a fraction of one: a signed fixed-point number with sixteen
/// fractional bits, held as its raw value. Sums, differences and products
/// that leave the range stop at its nearest end.
#[derive(Clone, Copy, Debug, PartialEq, Eq, Structural, PartialOrd, Ord, Hash)]
pub struct Scalar(pub i64);

/// The nearest raw value to `v`.
pub open spec fn saturate(v: int) -> i64 {
    if v < i64::MIN {
        i64::MIN
    } else if v > i64::MAX {
        i64::MAX
    } else {
        v as i64
    }
}

fn saturate_wide(v: i128) -> (r: i64)
    ensures
        r == saturate(v as int),
{
    if v < i64::MIN as i128 {
        i64::MIN
    } else if v > i64::MAX as i128 {
        i64::MAX
    } else {
        v as i64
    }
}

proof fn lemma_product_fits(a: int, b: int)
    by (nonlinear_arith)
    requires
        i64::MIN <= a <= i64::MAX,
        i64::MIN <= b <= i64::MAX,
    ensures
        -0x4000_0000_0000_0000_0000_0000_0000_0000 <= a * b <= 0x4000_0000_0000_0000_0000_0000_0000_0000,
{
}

impl Scalar {
    /// No length at all.
    pub fn zero() -> (r: Scalar)
        ensures
            r == Scalar(0),
    {
        Scalar(0)
    }

    /// One whole unit; as a fraction, the whole.
    pub fn one() -> (r: Scalar)
        ensures
            r == Scalar(SCALE),
    {
        Scalar(SCALE)
    }

    /// The length of `units` whole units.
    pub fn from_int(units: i32) -> (r: Scalar)
        ensures
            r.0 == units * SCALE,
    {
        Scalar(units as i64 * SCALE)
    }

    /// The smaller of two lengths.
    pub open spec fn spec_min(self, other: Scalar) -> Scalar {
        if self.0 <= other.0 {
            self
        } else {
            other
        }
    }

    /// The larger of two lengths.
    pub open spec fn spec_max(self, other: Scalar) -> Scalar {
        if self.0 >= other.0 {
            self
        } else {
            other
        }
    }

    /// The sum, stopped at the ends of the range.
    pub open spec fn spec_add(self, other: Scalar) -> Scalar {
        Scalar(saturate(self.0 + other.0))
    }

    /// The difference, stopped at the ends of the range.
    pub open spec fn spec_sub(self, other: Scalar) -> Scalar {
        Scalar(saturate(self.0 - other.0))
    }

    /// The product of two fixed-point numbers, rounded down to a raw value
    /// and stopped at the ends of the range.
    pub open spec fn spec_mul(self, other: Scalar) -> Scalar {
        Scalar(saturate((self.0 * other.0) / (SCALE as int)))
    }

    pub fn min(self, other: Scalar) -> (r: Scalar)
        ensures
            r == self.spec_min(other),
    {
        if self.0 <= other.0 {
            self
        } else {
            other
        }
    }

    pub fn max(self, other: Scalar) -> (r: Scalar)
        ensures
            r == self.spec_max(other),
    {
        if self.0 >= other.0 {
            self
        } else {
            other
        }
    }
}

impl Scalar {
    /// The sum, stopped at the ends of the range.
    pub fn plus(self, other: Scalar) -> (r: Scalar)
        ensures
            r == self.spec_add(other),
    {
        Scalar(saturate_wide(self.0 as i128 + other.0 as i128))
    }

    /// The difference, stopped at the ends of the range.
    pub fn minus(self, other: Scalar) -> (r: Scalar)
        ensures
            r == self.spec_sub(other),
    {
        Scalar(saturate_wide(self.0 as i128 - other.0 as i128))
    }

    /// The product of two fixed-point numbers, rounded down and stopped at
    /// the ends of the range.
    pub fn times(self, other: Scalar) -> (r: Scalar)
        ensures
            r == self.spec_mul(other),
    {
        proof {
            lemma_product_fits(self.0 as int, other.0 as int);
        }
        let product: i128 = self.0 as i128 * other.0 as i128;
        let quotient: i128 = product / 65536;
        let floor: i128 = if product % 65536 < 0 {
            quotient - 1
        } else {
            quotient
        };
        Scalar(saturate_wide(floor))
    }
}

impl core::ops::Add for Scalar {
    type Output = Scalar;

    fn add(self, rhs: Scalar) -> (r: Scalar) {
        self.plus(rhs)
    }
}

impl vstd::std_specs::ops::AddSpecImpl for Scalar {
    open spec fn obeys_add_spec() -> bool {
        true
    }

    open spec fn add_req(self, rhs: Scalar) -> bool {
        true
    }

    open spec fn add_spec(self, rhs: Scalar) -> Scalar {
        self.spec_add(rhs)
    }
}

impl core::ops::Sub for Scalar {
    type Output = Scalar;

    fn sub(self, rhs: Scalar) -> (r: Scalar) {
        self.minus(rhs)
    }
}

impl vstd::std_specs::ops::SubSpecImpl for Scalar {
    open spec fn obeys_sub_spec() -> bool {
        true
    }

    open spec fn sub_req(self, rhs: Scalar) -> bool {
        true
    }

    open spec fn sub_spec(self, rhs: Scalar) -> Scalar {
        self.spec_sub(rhs)
    }
}

impl core::ops::Mul for Scalar {
    type Output = Scalar;

    fn mul(self, rhs: Scalar) -> (r: Scalar) {
        self.times(rhs)
    }
}

impl vstd::std_specs::ops::MulSpecImpl for Scalar {
    open spec fn obeys_mul_spec() -> bool {
        true
    }

    open spec fn mul_req(self, rhs: Scalar) -> bool {
        true
    }

    open spec fn mul_spec(self, rhs: Scalar) -> Scalar {
        self.spec_mul(rhs)
    }
}

} // verus!
