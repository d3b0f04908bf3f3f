//! Measurements as perception reports them.
//!
//! A [`Reading`] is a double-precision number held as its bit pattern. Policy
//! only ever compares readings, and comparing the patterns gives exactly the
//! answer that comparing the numbers gives, so nothing is rounded or scaled on
//! the way in. What a reading is worth is stated as a whole number of the
//! smallest step that the format can represent.
use vstd::arithmetic::power2::{
    lemma2_to64, lemma2_to64_rest, lemma_pow2_adds, lemma_pow2_pos, lemma_pow2_strictly_increases,
    lemma_pow2_unfold, pow2,
};
use vstd::prelude::*;

verus! {

/// Number of fraction patterns in one binade: two to the power 52.
pub const BINADE: u64 = 0x0010_0000_0000_0000;

/// The pattern of the sign bit alone.
pub const SIGN: u64 = 0x8000_0000_0000_0000;

/// The pattern of positive infinity. Larger magnitudes are not numbers.
pub const INFINITE: u64 = 0x7ff0_0000_0000_0000;

/// How many of the format's smallest steps make one.
pub open spec fn one() -> int {
    pow2(1074) as int
}

/// The worth of a magnitude pattern in smallest steps: the fraction alone in
/// the lowest binade, and a full leading bit scaled by the exponent above it.
/// Infinity comes out as the first power of two that the format cannot hold,
/// hence above every finite number.
pub open spec fn steps(magnitude: int) -> int {
    let exponent = magnitude / BINADE as int;
    let fraction = magnitude % BINADE as int;
    if exponent <= 0 {
        fraction
    } else {
        (BINADE + fraction) * pow2((exponent - 1) as nat)
    }
}

/// A number reported by a sensor.
#[derive(Clone, Copy, Debug)]
pub struct Reading {
    pub bits: u64,
}

impl Reading {
    /// The pattern without its sign.
    pub open spec fn magnitude(self) -> int {
        if self.bits < SIGN {
            self.bits as int
        } else {
            self.bits - SIGN
        }
    }

    /// The pattern stands for no number.
    pub open spec fn is_nan(self) -> bool {
        self.magnitude() > INFINITE
    }

    /// The worth of the reading in smallest steps. Meaningless for a pattern
    /// that stands for no number.
    pub open spec fn worth(self) -> int {
        if self.bits < SIGN {
            steps(self.magnitude())
        } else {
            -steps(self.magnitude())
        }
    }

    /// Both are numbers, and this one is the larger.
    pub open spec fn is_above(self, other: Reading) -> bool {
        !self.is_nan() && !other.is_nan() && self.worth() > other.worth()
    }

    /// Both are numbers, and this one is not the larger.
    pub open spec fn is_within(self, other: Reading) -> bool {
        !self.is_nan() && !other.is_nan() && self.worth() <= other.worth()
    }

    /// Both are numbers, and equal.
    pub open spec fn is_level(self, other: Reading) -> bool {
        !self.is_nan() && !other.is_nan() && self.worth() == other.worth()
    }

    /// A number of at least `n`.
    pub open spec fn reaches(self, n: int) -> bool {
        !self.is_nan() && self.worth() >= n * one()
    }

    /// A number of at most `n`.
    pub open spec fn stays_at(self, n: int) -> bool {
        !self.is_nan() && self.worth() <= n * one()
    }

    /// A number above zero.
    pub open spec fn is_positive(self) -> bool {
        !self.is_nan() && self.worth() > 0
    }

    /// The larger of two readings; one that is no number gives way to the
    /// other.
    pub open spec fn larger_of(self, other: Reading) -> Reading {
        if self.is_nan() {
            other
        } else if other.is_nan() || self.worth() >= other.worth() {
            self
        } else {
            other
        }
    }

    /// The reading of zero: what an optional measurement says when it says
    /// nothing.
    pub open spec fn zero() -> Reading {
        Reading { bits: 0 }
    }

    /// The position of the pattern in numeric order.
    spec fn rank(self) -> int {
        if self.bits < SIGN {
            self.magnitude()
        } else {
            -self.magnitude()
        }
    }

    pub fn from_bits(bits: u64) -> (reading: Reading)
        ensures
            reading.bits == bits,
    {
        Reading { bits }
    }

    pub fn to_bits(self) -> (bits: u64)
        ensures
            bits == self.bits,
    {
        self.bits
    }

    /// Whether the pattern stands for no number.
    pub fn not_a_number(self) -> (nan: bool)
        ensures
            nan == self.is_nan(),
    {
        if self.bits < SIGN {
            self.bits > INFINITE
        } else {
            self.bits - SIGN > INFINITE
        }
    }

    fn position(self) -> (position: i64)
        ensures
            position == self.rank(),
    {
        if self.bits < SIGN {
            self.bits as i64
        } else {
            -((self.bits - SIGN) as i64)
        }
    }

    /// Whether this reading is greater than the other.
    pub fn above(self, other: Reading) -> (answer: bool)
        ensures
            answer == self.is_above(other),
    {
        proof {
            lemma_rank_is_numeric_order(self, other);
        }
        !self.not_a_number() && !other.not_a_number() && self.position() > other.position()
    }

    /// Whether this reading is less than or equal to the other.
    pub fn within(self, other: Reading) -> (answer: bool)
        ensures
            answer == self.is_within(other),
    {
        proof {
            lemma_rank_is_numeric_order(self, other);
        }
        !self.not_a_number() && !other.not_a_number() && self.position() <= other.position()
    }

    /// Whether this reading is at least the whole number `n`.
    pub fn at_least(self, n: u32) -> (answer: bool)
        ensures
            answer == self.reaches(n as int),
    {
        Reading::whole(n).within(self)
    }

    /// Whether this reading is at most the whole number `n`.
    pub fn at_most(self, n: u32) -> (answer: bool)
        ensures
            answer == self.stays_at(n as int),
    {
        self.within(Reading::whole(n))
    }

    /// Whether this reading is above zero.
    pub fn positive(self) -> (answer: bool)
        ensures
            answer == self.is_positive(),
    {
        self.above(Reading::whole(0))
    }

    /// The larger of the two readings.
    pub fn max(self, other: Reading) -> (larger: Reading)
        ensures
            larger == self.larger_of(other),
    {
        if self.not_a_number() {
            other
        } else if other.not_a_number() || other.within(self) {
            self
        } else {
            other
        }
    }

    /// The reading of a whole number.
    pub fn whole(n: u32) -> (reading: Reading)
        ensures
            !reading.is_nan(),
            reading.worth() == n * one(),
            forall|m: int| #[trigger] reading.reaches(m) <==> n >= m,
            forall|m: int| #[trigger] reading.stays_at(m) <==> n <= m,
            n == 0 ==> reading == Reading::zero(),
    {
        proof {
            lemma_whole_order(n as int);
        }
        if n == 0 {
            return Reading { bits: 0 };
        }
        let mut significand: u64 = n as u64;
        let mut shift: u64 = 0;
        proof {
            lemma2_to64();
        }
        while significand < BINADE
            invariant
                1 <= n,
                shift <= 52,
                significand < 2 * BINADE,
                significand == n * pow2(shift as nat),
            decreases 2 * BINADE - significand,
        {
            proof {
                lemma_pow2_unfold(shift as nat + 1);
                let p = pow2(shift as nat) as int;
                lemma_pow2_pos(shift as nat);
                assert(n * (2 * p) == 2 * (n * p)) by (nonlinear_arith);
                assert(n * p >= p) by (nonlinear_arith)
                    requires
                        n >= 1,
                        p > 0,
                ;
                if shift == 52 {
                    lemma2_to64_rest();
                }
            }
            significand = significand * 2;
            shift = shift + 1;
        }
        let bits: u64 = (1075 - shift) * BINADE + (significand - BINADE);
        proof {
            let exponent = 1075 - shift;
            assert(bits / BINADE == exponent && bits % BINADE == significand - BINADE);
            let p = pow2(shift as nat) as int;
            let q = pow2((exponent - 1) as nat) as int;
            lemma_pow2_adds(shift as nat, (exponent - 1) as nat);
            assert((n * p) * q == n * (p * q)) by (nonlinear_arith);
        }
        Reading { bits }
    }
}

impl vstd::std_specs::cmp::PartialEqSpecImpl for Reading {
    open spec fn obeys_eq_spec() -> bool {
        true
    }

    open spec fn eq_spec(&self, other: &Self) -> bool {
        self.is_level(*other)
    }
}

/// Equality of readings is equality of the numbers: the two zeros are equal,
/// and a pattern that stands for no number equals nothing.
impl PartialEq for Reading {
    fn eq(&self, other: &Self) -> (same: bool) {
        proof {
            lemma_rank_is_numeric_order(*self, *other);
        }
        !self.not_a_number() && !other.not_a_number() && self.position() == other.position()
    }
}

impl Default for Reading {
    fn default() -> (reading: Self)
        ensures
            reading == Reading::zero(),
    {
        Reading { bits: 0 }
    }
}

/// Larger magnitude patterns are worth more.
proof fn lemma_steps_increase(a: int, b: int)
    requires
        0 <= a < b,
    ensures
        0 <= steps(a) < steps(b),
{
    let unit = BINADE as int;
    let (ea, fa) = (a / unit, a % unit);
    let (eb, fb) = (b / unit, b % unit);
    assert(ea <= eb);
    if ea > 0 {
        let p = pow2((ea - 1) as nat) as int;
        lemma_pow2_pos((ea - 1) as nat);
        assert(0 < (unit + fa) * p) by (nonlinear_arith)
            requires
                unit > 0,
                fa >= 0,
                p > 0,
        ;
    }
    if eb > 0 {
        let q = pow2((eb - 1) as nat) as int;
        lemma_pow2_pos((eb - 1) as nat);
        if ea == eb {
            assert((unit + fa) * q < (unit + fb) * q) by (nonlinear_arith)
                requires
                    fa < fb,
                    q > 0,
            ;
        } else {
            assert(unit * q <= (unit + fb) * q) by (nonlinear_arith)
                requires
                    fb >= 0,
                    q > 0,
            ;
            if ea <= 0 {
                assert(unit <= unit * q) by (nonlinear_arith)
                    requires
                        unit > 0,
                        q >= 1,
                ;
            } else {
                let p = pow2((ea - 1) as nat) as int;
                lemma_pow2_unfold(ea as nat);
                if ea < eb - 1 {
                    lemma_pow2_strictly_increases(ea as nat, (eb - 1) as nat);
                }
                assert((unit + fa) * p < unit * q) by (nonlinear_arith)
                    requires
                        0 <= fa < unit,
                        p > 0,
                        2 * p <= q,
                ;
            }
        }
    }
}

/// Whole numbers are ordered as their worth is.
proof fn lemma_whole_order(n: int)
    ensures
        forall|m: int| n * one() >= #[trigger] (m * one()) <==> n >= m,
        forall|m: int| n * one() <= #[trigger] (m * one()) <==> n <= m,
{
    lemma_pow2_pos(1074);
    assert forall|m: int| (n * one() >= #[trigger] (m * one()) <==> n >= m) && (n * one() <= m
        * one() <==> n <= m) by {
        assert(n * one() - m * one() == (n - m) * one()) by (nonlinear_arith);
        assert((n - m) * one() >= 0 <==> n - m >= 0) by (nonlinear_arith)
            requires
                one() > 0,
        ;
        assert((n - m) * one() <= 0 <==> n - m <= 0) by (nonlinear_arith)
            requires
                one() > 0,
        ;
    }
}

/// The order of the patterns is the order of the numbers.
proof fn lemma_rank_is_numeric_order(a: Reading, b: Reading)
    ensures
        a.rank() < b.rank() <==> a.worth() < b.worth(),
        a.rank() == b.rank() <==> a.worth() == b.worth(),
{
    let (ma, mb) = (a.magnitude(), b.magnitude());
    assert(steps(0) == 0);
    if ma > 0 {
        lemma_steps_increase(0, ma);
    }
    if mb > 0 {
        lemma_steps_increase(0, mb);
    }
    if ma < mb {
        lemma_steps_increase(ma, mb);
    }
    if mb < ma {
        lemma_steps_increase(mb, ma);
    }
}

/// What a pattern is worth: in the two lowest binades a pattern counts smallest
/// steps one by one, and every binade above is worth twice the one below it.
pub proof fn law_each_binade_doubles(magnitude: int)
    requires
        magnitude >= 0,
    ensures
        magnitude < 0x0020_0000_0000_0000 ==> steps(magnitude) == magnitude,
        magnitude >= 0x0010_0000_0000_0000 ==> steps(magnitude + 0x0010_0000_0000_0000) == 2 * steps(
            magnitude,
        ),
{
    let unit = BINADE as int;
    let (exponent, fraction) = (magnitude / unit, magnitude % unit);
    lemma2_to64();
    if exponent == 1 {
        assert((unit + fraction) * pow2(0) == unit + fraction) by (nonlinear_arith)
            requires
                pow2(0) == 1,
        ;
    }
    if exponent >= 1 {
        let above = magnitude + unit;
        assert(above / unit == exponent + 1 && above % unit == fraction);
        lemma_pow2_unfold(exponent as nat);
        let p = pow2((exponent - 1) as nat) as int;
        assert((unit + fraction) * (2 * p) == 2 * ((unit + fraction) * p)) by (nonlinear_arith);
    }
}

/// The sign bit turns a number into its opposite, and takes no part in whether a
/// pattern stands for a number: every pattern up to the infinite one does.
pub proof fn law_sign_bit_negates(reading: Reading, opposite: Reading)
    requires
        opposite.bits == reading.bits + 0x8000_0000_0000_0000,
    ensures
        opposite.worth() == -reading.worth(),
        reading.worth() >= 0,
        reading.is_nan() <==> reading.bits > 0x7ff0_0000_0000_0000,
        opposite.is_nan() <==> reading.is_nan(),
{
    if reading.bits > 0 {
        lemma_steps_increase(0, reading.bits as int);
    }
}

/// The pattern of one is worth one.
pub proof fn law_one_is_worth_one()
    ensures
        (Reading { bits: 0x3ff0_0000_0000_0000 }).worth() == one(),
        one() > 0,
{
    let bits: int = 0x3ff0_0000_0000_0000;
    assert(bits / BINADE as int == 1023 && bits % BINADE as int == 0);
    lemma_pow2_pos(1074);
    lemma_pow2_adds(52, 1022);
    lemma2_to64_rest();
    assert(pow2(52) == BINADE);
}

/// Two numbers are in exactly one order, that of their worth; a pattern that
/// stands for no number is in no order with anything.
pub proof fn law_readings_are_ordered_by_worth(a: Reading, b: Reading)
    ensures
        !a.is_nan() && !b.is_nan() ==> {
            &&& a.is_above(b) <==> a.worth() > b.worth()
            &&& a.is_within(b) <==> !a.is_above(b)
            &&& a.is_level(b) <==> a.is_within(b) && b.is_within(a)
        },
        a.is_nan() || b.is_nan() ==> !a.is_above(b) && !a.is_within(b) && !a.is_level(b),
{
}

/// Thresholds are whole numbers, and both sides of one take the number itself.
pub proof fn law_thresholds_are_inclusive(reading: Reading, n: int)
    ensures
        !reading.is_nan() ==> {
            &&& reading.reaches(n) <==> reading.worth() >= n * one()
            &&& reading.stays_at(n) <==> reading.worth() <= n * one()
            &&& reading.is_positive() <==> reading.worth() > 0
        },
        reading.is_nan() ==> !reading.reaches(n) && !reading.stays_at(n) && !reading.is_positive(),
{
}

/// The larger of two readings is one of them, and no number among them is above
/// it; it stands for no number only where neither does.
pub proof fn law_larger_is_an_upper_bound(a: Reading, b: Reading)
    ensures
        a.larger_of(b) == a || a.larger_of(b) == b,
        !a.is_nan() ==> !a.larger_of(b).is_nan() && a.worth() <= a.larger_of(b).worth(),
        !b.is_nan() ==> !a.larger_of(b).is_nan() && b.worth() <= a.larger_of(b).worth(),
{
}

/// An optional measurement that says nothing is worth nothing, and is a number.
pub proof fn law_zero_is_worth_nothing()
    ensures
        Reading::zero().worth() == 0,
        !Reading::zero().is_nan(),
{
}

} // verus!
