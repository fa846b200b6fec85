//! Real numbers as they are kept in the state store: IEEE 754 doubles, held by their bit
//! patterns. The store needs to tell two of them apart, to make them from integers and to
//! cut them back to integers; it does no other arithmetic on them.
use vstd::arithmetic::power2::*;
use vstd::prelude::*;

verus! {

/// The weight of the exponent field's lowest bit: two to the 52nd.
pub const EXPONENT_UNIT: u64 = 0x10_0000_0000_0000;

/// The weight of the sign bit.
pub const SIGN_UNIT: u64 = 0x8000_0000_0000_0000;

/// The exponent field of a double whose significand is its value.
pub const INTEGER_EXPONENT: u64 = 1075;

/// A double, by its bit pattern.
#[derive(Clone, Copy, Debug)]
pub struct Number {
    pub bits: u64,
}

impl Number {
    /// The fraction field.
    pub open spec fn fraction(self) -> nat {
        (self.bits % EXPONENT_UNIT) as nat
    }

    /// The exponent field.
    pub open spec fn exponent(self) -> nat {
        ((self.bits / EXPONENT_UNIT) % 2048) as nat
    }

    /// Whether the sign bit is set.
    pub open spec fn is_signed(self) -> bool {
        self.bits >= SIGN_UNIT
    }

    /// Whether this is no number.
    pub open spec fn is_nan(self) -> bool {
        self.exponent() == 2047 && self.fraction() != 0
    }

    /// Whether this is zero, of either sign.
    pub open spec fn is_zero(self) -> bool {
        self.bits == 0 || self.bits == SIGN_UNIT
    }

    /// Equality of doubles: no NaN equals anything, and the two zeros are equal.
    pub open spec fn same_value(self, other: Number) -> bool {
        !self.is_nan() && !other.is_nan() && (self.bits == other.bits || (self.is_zero()
            && other.is_zero()))
    }

    /// Whether this is a number that is not above zero.
    pub open spec fn at_most_zero(self) -> bool {
        !self.is_nan() && (self.is_signed() || self.is_zero())
    }

    /// The significand of a normal double, its leading one included.
    pub open spec fn significand(self) -> nat {
        EXPONENT_UNIT as nat + self.fraction()
    }

    /// Whether this double is the integer `n`.
    pub open spec fn represents(self, n: nat) -> bool {
        if n == 0 {
            self.bits == 0
        } else {
            &&& !self.is_signed()
            &&& 0 < self.exponent() < 2047
            &&& if self.exponent() >= INTEGER_EXPONENT {
                self.significand() * pow2((self.exponent() - INTEGER_EXPONENT) as nat) == n
            } else {
                self.significand() == n * pow2((INTEGER_EXPONENT - self.exponent()) as nat)
            }
        }
    }

    /// The double cut to an integer and kept within `0..=u32::MAX`; NaN counts as zero.
    pub open spec fn truncated(self) -> u32 {
        if self.is_nan() || self.is_signed() || self.exponent() < 1023 {
            0
        } else if self.exponent() >= 1055 {
            u32::MAX
        } else {
            (self.significand() / pow2((INTEGER_EXPONENT - self.exponent()) as nat)) as u32
        }
    }

    /// The double cut to an integer and kept within `0..=i64::MAX`; NaN counts as zero.
    pub open spec fn truncated_i64(self) -> int {
        if self.is_nan() || self.is_signed() || self.exponent() < 1023 {
            0
        } else if self.exponent() >= 1086 {
            i64::MAX as int
        } else if self.exponent() >= INTEGER_EXPONENT {
            (self.significand() * pow2((self.exponent() - INTEGER_EXPONENT) as nat)) as int
        } else {
            (self.significand() / pow2((INTEGER_EXPONENT - self.exponent()) as nat)) as int
        }
    }
}

/// The distance between neighbouring doubles around `v`, or one where it is less: the
/// least power of two, from `p` on, of which `v` holds fewer than two to the 53rd.
pub open spec fn spacing_from(v: nat, p: nat) -> nat
    decreases v - p,
{
    if 0 < p && 2 * p <= v && v / p >= 2 * EXPONENT_UNIT {
        spacing_from(v, 2 * p)
    } else {
        p
    }
}

/// The integer with a double nearest to `v`; of two equally near ones, the even one.
pub open spec fn nearest(v: nat) -> nat {
    let p = spacing_from(v, 1);
    let q = v / p;
    let r = v % p;
    let up = 2 * r > p || (2 * r == p && q % 2 == 1);
    if up {
        (q + 1) * p
    } else {
        q * p
    }
}

impl Number {
    /// Zero.
    pub fn zero() -> (r: Number)
        ensures
            r.bits == 0,
            r.represents(0),
    {
        Number { bits: 0 }
    }

    /// Minus one.
    pub fn minus_one() -> (r: Number)
        ensures
            r.is_signed(),
            (Number { bits: (r.bits - SIGN_UNIT) as u64 }).represents(1),
            r.bits == 0xBFF0_0000_0000_0000,
    {
        proof {
            lemma_pow2_values();
        }
        Number { bits: 0xBFF0_0000_0000_0000 }
    }

    /// Whether two doubles are equal.
    pub fn equals(self, other: Number) -> (r: bool)
        ensures
            r == self.same_value(other),
    {
        !self.not_a_number() && !other.not_a_number() && (self.bits == other.bits || ((self.bits
            == 0 || self.bits == SIGN_UNIT) && (other.bits == 0 || other.bits == SIGN_UNIT)))
    }

    /// Whether this is no number.
    pub fn not_a_number(self) -> (r: bool)
        ensures
            r == self.is_nan(),
    {
        (self.bits / EXPONENT_UNIT) % 2048 == 2047 && self.bits % EXPONENT_UNIT != 0
    }

    /// Whether this is zero, of either sign.
    pub fn is_nought(self) -> (r: bool)
        ensures
            r == self.is_zero(),
    {
        self.bits == 0 || self.bits == SIGN_UNIT
    }

    /// Whether this is a number that is not above zero.
    pub fn is_at_most_zero(self) -> (r: bool)
        ensures
            r == self.at_most_zero(),
    {
        !self.not_a_number() && (self.bits >= SIGN_UNIT || self.bits == 0)
    }

    /// The double nearest to `v`.
    pub fn from_u64(v: u64) -> (r: Number)
        ensures
            r.represents(nearest(v as nat)),
            r == double_of(v as nat),
    {
        let r = if v == 0 {
            proof {
                law_small_integers_are_exact(0);
            }
            Number::zero()
        } else if v < 2 * EXPONENT_UNIT {
            Number::small(v)
        } else {
            Number::large(v)
        };
        proof {
            law_integer_has_one_double(r, double_of(v as nat), nearest(v as nat));
        }
        r
    }

    /// The double that is `v`, which fits the significand.
    fn small(v: u64) -> (r: Number)
        requires
            0 < v < 2 * EXPONENT_UNIT,
        ensures
            r.represents(nearest(v as nat)),
    {
        let mut m: u64 = v;
        let mut e: u64 = INTEGER_EXPONENT;
        proof {
            lemma_pow2_values();
            assert(v % 1 == 0);
            assert(v * pow2(0) == v) by (nonlinear_arith)
                requires
                    pow2(0) == 1,
            ;
        }
        while m < EXPONENT_UNIT
            invariant
                0 < v < 2 * EXPONENT_UNIT,
                0 < m < 2 * EXPONENT_UNIT,
                INTEGER_EXPONENT - 52 <= e <= INTEGER_EXPONENT,
                m == v * pow2((INTEGER_EXPONENT - e) as nat),
                pow2((INTEGER_EXPONENT - e) as nat) <= m,
                pow2(52) == EXPONENT_UNIT,
            decreases 2 * EXPONENT_UNIT - m,
        {
            let ghost k = (INTEGER_EXPONENT - e) as nat;
            proof {
                lemma_pow2_unfold(k + 1);
                assert(2 * (v * pow2(k)) == v * (2 * pow2(k))) by (nonlinear_arith);
                if k >= 52 {
                    assert(pow2(k) == EXPONENT_UNIT);
                }
                let next = pow2(k + 1);
                assert(next <= v * next) by (nonlinear_arith)
                    requires
                        v >= 1,
                        next >= 0,
                ;
            }
            m = 2 * m;
            e = e - 1;
        }
        let r = Number { bits: e * EXPONENT_UNIT + (m - EXPONENT_UNIT) };
        proof {
            assert(spacing_from(v as nat, 1) == 1);
            assert(nearest(v as nat) == v) by {
                assert((v as nat) / 1 == v as nat);
                assert((v as nat) % 1 == 0);
            }
            lemma_fields(r, e as nat, (m - EXPONENT_UNIT) as nat);
            if e == INTEGER_EXPONENT {
                assert(r.significand() * pow2(0) == v) by (nonlinear_arith)
                    requires
                        pow2(0) == 1,
                        r.significand() == v,
                ;
            }
        }
        r
    }

    /// The double nearest to `v`, which is too large for the significand.
    fn large(v: u64) -> (r: Number)
        requires
            v >= 2 * EXPONENT_UNIT,
        ensures
            r.represents(nearest(v as nat)),
    {
        let mut p: u64 = 1;
        let mut k: u64 = 0;
        proof {
            lemma_pow2_values();
        }
        while v / p >= 2 * EXPONENT_UNIT
            invariant
                v >= 2 * EXPONENT_UNIT,
                0 < p <= v,
                p == pow2(k as nat),
                p > 1 ==> v / p >= EXPONENT_UNIT,
                p <= 0x800,
                k <= 11,
                spacing_from(v as nat, 1) == spacing_from(v as nat, p as nat),
                pow2(11) == 0x800,
            decreases v - p,
        {
            proof {
                lemma_pow2_unfold((k + 1) as nat);
                if p == 0x800 {
                    assert(v / 0x800 < 2 * EXPONENT_UNIT);
                }
                if k == 11 {
                    assert(p == 0x800);
                }
                if p > 0x400 {
                    lemma_power_gap(k as nat);
                }
                lemma_halved_quotient(v as nat, p as nat);
            }
            p = 2 * p;
            k = k + 1;
        }
        proof {
            if p == 1 {
                assert(v / 1 == v);
            }
        }
        let mut q: u64 = v / p;
        let rest: u64 = v % p;
        let ghost whole = q;
        if rest > p - rest || (rest == p - rest && q % 2 == 1) {
            q = q + 1;
        }
        proof {
            assert(p == spacing_from(v as nat, 1));
            assert(nearest(v as nat) == q * p);
        }
        let ghost exact = q as nat * p as nat;
        if q == 2 * EXPONENT_UNIT {
            proof {
                lemma_pow2_unfold((k + 1) as nat);
                assert(EXPONENT_UNIT * (2 * pow2(k as nat)) == (2 * EXPONENT_UNIT) * pow2(k as nat))
                    by (nonlinear_arith);
            }
            q = EXPONENT_UNIT;
            k = k + 1;
        }
        let e = INTEGER_EXPONENT + k;
        let r = Number { bits: e * EXPONENT_UNIT + (q - EXPONENT_UNIT) };
        proof {
            lemma_fields(r, e as nat, (q - EXPONENT_UNIT) as nat);
            assert(r.significand() == q);
            assert(q as nat * pow2(k as nat) == exact);
            assert(exact > 0) by (nonlinear_arith)
                requires
                    exact == q as nat * pow2(k as nat),
                    q > 0,
                    pow2(k as nat) > 0,
            ;
        }
        r
    }

    /// The number cut to an integer and kept within `0..=u32::MAX`; NaN counts as zero.
    pub fn to_u32(self) -> (r: u32)
        ensures
            r == self.truncated(),
    {
        let e = (self.bits / EXPONENT_UNIT) % 2048;
        if self.not_a_number() || self.bits >= SIGN_UNIT || e < 1023 {
            return 0;
        }
        if e >= 1055 {
            return u32::MAX;
        }
        let m = EXPONENT_UNIT + self.bits % EXPONENT_UNIT;
        let mut p: u64 = 1;
        let mut k: u64 = 0;
        proof {
            lemma_pow2_values();
        }
        while k < INTEGER_EXPONENT - e
            invariant
                1023 <= e < 1055,
                k <= INTEGER_EXPONENT - e,
                p == pow2(k as nat),
                p <= EXPONENT_UNIT,
                pow2(52) == EXPONENT_UNIT,
            decreases INTEGER_EXPONENT - e - k,
        {
            proof {
                lemma_pow2_unfold((k + 1) as nat);
                lemma_pow2_monotonic((k + 1) as nat, 52);
            }
            p = 2 * p;
            k = k + 1;
        }
        proof {
            lemma_pow2_monotonic(21, k as nat);
            assert(m / p <= m / 0x20_0000) by (nonlinear_arith)
                requires
                    p >= 0x20_0000,
                    m >= 0,
            ;
        }
        (m / p) as u32
    }
}

impl Number {
    /// The number cut to an integer and kept within `0..=i64::MAX`; NaN counts as zero.
    pub fn to_i64(self) -> (r: i64)
        ensures
            r == self.truncated_i64(),
    {
        let e = (self.bits / EXPONENT_UNIT) % 2048;
        if self.not_a_number() || self.bits >= SIGN_UNIT || e < 1023 {
            return 0;
        }
        if e >= 1086 {
            return i64::MAX;
        }
        let m = EXPONENT_UNIT + self.bits % EXPONENT_UNIT;
        let up = e >= INTEGER_EXPONENT;
        let steps: u64 = if up {
            e - INTEGER_EXPONENT
        } else {
            INTEGER_EXPONENT - e
        };
        let mut p: u64 = 1;
        let mut k: u64 = 0;
        proof {
            lemma_pow2_values();
        }
        while k < steps
            invariant
                steps <= 52,
                k <= steps,
                p == pow2(k as nat),
                p <= EXPONENT_UNIT,
                pow2(52) == EXPONENT_UNIT,
            decreases steps - k,
        {
            proof {
                lemma_pow2_unfold((k + 1) as nat);
                lemma_pow2_monotonic((k + 1) as nat, 52);
            }
            p = 2 * p;
            k = k + 1;
        }
        if up {
            proof {
                lemma2_to64();
                lemma_pow2_monotonic(k as nat, 10);
                assert(m * p <= (0x20_0000_0000_0000 - 1) * 0x400) by (nonlinear_arith)
                    requires
                        0 <= m <= 0x20_0000_0000_0000 - 1,
                        0 <= p <= 0x400,
                ;
            }
            (m * p) as i64
        } else {
            proof {
                lemma_pow2_pos(k as nat);
                assert(m / p <= m) by (nonlinear_arith)
                    requires
                        p >= 1,
                        m >= 0,
                ;
            }
            (m / p) as i64
        }
    }
}

/// Powers of two that the bounds above need.
proof fn lemma_pow2_values()
    ensures
        pow2(0) == 1,
        pow2(11) == 0x800,
        pow2(21) == 0x20_0000,
        pow2(52) == EXPONENT_UNIT,
{
    lemma2_to64();
    lemma2_to64_rest();
}

/// A larger exponent gives a power at least as large.
proof fn lemma_pow2_monotonic(a: nat, b: nat)
    requires
        a <= b,
    ensures
        pow2(a) <= pow2(b),
{
    if a < b {
        lemma_pow2_strictly_increases(a, b);
    }
}

/// A power of two above 1024 is at least 2048.
proof fn lemma_power_gap(k: nat)
    requires
        pow2(k) > 0x400,
    ensures
        k >= 11,
{
    lemma2_to64();
    if k <= 10 {
        lemma_pow2_monotonic(k, 10);
    }
}

/// Doubling a divisor halves the quotient.
proof fn lemma_halved_quotient(v: nat, p: nat)
    requires
        p > 0,
        v / p >= 2 * EXPONENT_UNIT,
    ensures
        v / (2 * p) >= EXPONENT_UNIT,
        2 * p <= v,
{
    assert(v / (2 * p) == (v / p) / 2) by (nonlinear_arith)
        requires
            p > 0,
    ;
    assert(v >= p * (v / p)) by (nonlinear_arith)
        requires
            p > 0,
    ;
    assert(p * (v / p) >= p * 2) by (nonlinear_arith)
        requires
            v / p >= 2,
            p > 0,
    ;
}

/// The fields of a double put together from an exponent and a fraction.
proof fn lemma_fields(x: Number, e: nat, f: nat)
    requires
        0 < e < 2047,
        f < EXPONENT_UNIT,
        x.bits == e * EXPONENT_UNIT + f,
    ensures
        x.exponent() == e,
        x.fraction() == f,
        !x.is_signed(),
{
}

/// An integer that fits the significand has a double of its own.
pub proof fn law_small_integers_are_exact(v: nat)
    requires
        v < 2 * EXPONENT_UNIT,
    ensures
        nearest(v) == v,
{
    assert(spacing_from(v, 1) == 1);
    assert(v / 1 == v && v % 1 == 0);
}

/// A process identifier survives the store: made into a double and cut back to an
/// integer, a 32-bit number is itself again.
pub proof fn law_u32_round_trip(v: u32, x: Number)
    requires
        x.represents(nearest(v as nat)),
    ensures
        x.truncated() == v,
{
    law_small_integers_are_exact(v as nat);
    lemma_pow2_values();
    if v > 0 {
        let e = x.exponent();
        if e >= INTEGER_EXPONENT {
            let p = pow2((e - INTEGER_EXPONENT) as nat);
            lemma_pow2_pos((e - INTEGER_EXPONENT) as nat);
            assert(x.significand() * p >= x.significand()) by (nonlinear_arith)
                requires
                    p >= 1,
            ;
            assert(false);
        }
        let k = (INTEGER_EXPONENT - e) as nat;
        let p = pow2(k);
        lemma_pow2_pos(k);
        if k > 52 {
            lemma_pow2_monotonic(53, k);
            lemma_pow2_unfold(53);
            assert(v * p >= p) by (nonlinear_arith)
                requires
                    v >= 1,
                    p >= 0,
            ;
            assert(false);
        }
        if k < 21 {
            lemma_pow2_monotonic(k, 20);
            lemma_pow2_unfold(21);
            assert(v * p <= u32::MAX * 0x10_0000) by (nonlinear_arith)
                requires
                    v <= u32::MAX,
                    p <= 0x10_0000,
            ;
            assert(false);
        }
        assert((v * p) / (p as int) == v) by (nonlinear_arith)
            requires
                p > 0,
        ;
    }
}

/// The double nearest to an integer.
pub open spec fn double_of(n: nat) -> Number {
    choose|x: Number| x.represents(nearest(n))
}

/// A double that is an integer, in terms of its fields.
proof fn lemma_scaled(x: Number, n: nat)
    requires
        n > 0,
        x.represents(n),
    ensures
        x.significand() * pow2(x.exponent()) == n * pow2(INTEGER_EXPONENT as nat),
{
    let e = x.exponent();
    let m = x.significand();
    let base = INTEGER_EXPONENT as nat;
    if e >= base {
        let d = (e - base) as nat;
        lemma_pow2_adds(d, base);
        let p = pow2(d);
        let q = pow2(base);
        assert(m * (p * q) == (m * p) * q) by (nonlinear_arith);
    } else {
        let d = (base - e) as nat;
        lemma_pow2_adds(d, e);
        let p = pow2(d);
        let q = pow2(e);
        assert((n * p) * q == n * (p * q)) by (nonlinear_arith);
    }
}

/// Two normalised products of the same value have the same factors.
proof fn lemma_factors(m1: nat, e1: nat, m2: nat, e2: nat)
    requires
        EXPONENT_UNIT <= m1 < 2 * EXPONENT_UNIT,
        EXPONENT_UNIT <= m2 < 2 * EXPONENT_UNIT,
        e1 <= e2,
        m1 * pow2(e1) == m2 * pow2(e2),
    ensures
        m1 == m2,
        e1 == e2,
{
    let d = (e2 - e1) as nat;
    lemma_pow2_adds(d, e1);
    lemma_pow2_pos(e1);
    lemma_pow2_pos(d);
    let p = pow2(d);
    let q = pow2(e1);
    assert(m1 == m2 * p) by (nonlinear_arith)
        requires
            m1 * q == m2 * (p * q),
            q > 0,
    ;
    if d > 0 {
        lemma_pow2_unfold(d);
        lemma_pow2_pos((d - 1) as nat);
        assert(m2 * p >= m2 * 2) by (nonlinear_arith)
            requires
                p >= 2,
                m2 >= 0,
        ;
        assert(false);
    }
    lemma_pow2_values();
    assert(m2 * p == m2) by (nonlinear_arith)
        requires
            p == 1,
    ;
}

/// No two doubles are the same integer.
pub proof fn law_integer_has_one_double(x: Number, y: Number, n: nat)
    requires
        x.represents(n),
        y.represents(n),
    ensures
        x == y,
{
    if n > 0 {
        lemma_scaled(x, n);
        lemma_scaled(y, n);
        if x.exponent() <= y.exponent() {
            lemma_factors(x.significand(), x.exponent(), y.significand(), y.exponent());
        } else {
            lemma_factors(y.significand(), y.exponent(), x.significand(), x.exponent());
        }
        assert(x.fraction() == y.fraction());
        assert(x.bits == x.exponent() * EXPONENT_UNIT + x.fraction());
        assert(y.bits == y.exponent() * EXPONENT_UNIT + y.fraction());
    }
}

/// The double nearest to a signed integer.
pub open spec fn double_of_int(n: int) -> Number {
    if n < 0 {
        Number { bits: (double_of((-n) as nat).bits + SIGN_UNIT) as u64 }
    } else {
        double_of(n as nat)
    }
}

impl Number {
    /// The double nearest to `v`.
    pub fn from_i64(v: i64) -> (r: Number)
        ensures
            r == double_of_int(v as int),
    {
        if v >= 0 {
            return Number::from_u64(v as u64);
        }
        let size: u64 = if v == i64::MIN {
            SIGN_UNIT
        } else {
            (-v) as u64
        };
        let positive = Number::from_u64(size);
        proof {
            lemma_nearest_is_positive(size as nat);
        }
        Number { bits: positive.bits + SIGN_UNIT }
    }
}

/// Rounding to the nearest double leaves no positive integer at zero.
proof fn lemma_nearest_is_positive(v: nat)
    requires
        0 < v <= u64::MAX,
    ensures
        nearest(v) > 0,
{
    lemma_spacing(v, 1);
    let p = spacing_from(v, 1);
    let q = v / p;
    assert(q >= 1) by (nonlinear_arith)
        requires
            q == v / p,
            0 < p <= v,
    ;
    assert(q * p > 0 && (q + 1) * p > 0) by (nonlinear_arith)
        requires
            q >= 1,
            p > 0,
    ;
}

/// The spacing of doubles around an integer is positive and no larger than it.
proof fn lemma_spacing(v: nat, p: nat)
    requires
        0 < p <= v,
    ensures
        0 < spacing_from(v, p) <= v,
    decreases v - p,
{
    if 2 * p <= v && v / p >= 2 * EXPONENT_UNIT {
        lemma_spacing(v, 2 * p);
    }
}

/// A double that is an integer which fits the significand, from one of its multiples by a
/// power of two on.
proof fn lemma_small_double(v: nat, k: nat) -> (r: Number)
    requires
        0 < v < 2 * EXPONENT_UNIT,
        k <= 52,
        v * pow2(k) < 2 * EXPONENT_UNIT,
    ensures
        r.represents(v),
    decreases 53 - k,
{
    lemma_pow2_values();
    lemma_pow2_pos(k);
    let m = v * pow2(k);
    if m >= EXPONENT_UNIT {
        let e = (INTEGER_EXPONENT - k) as nat;
        let f = (m - EXPONENT_UNIT) as nat;
        let r = Number { bits: (e * EXPONENT_UNIT + f) as u64 };
        lemma_fields(r, e, f);
        if k == 0 {
            assert(v * pow2(0) == v) by (nonlinear_arith)
                requires
                    pow2(0) == 1,
            ;
            assert(r.significand() * pow2(0) == r.significand()) by (nonlinear_arith)
                requires
                    pow2(0) == 1,
            ;
        }
        r
    } else {
        assert(pow2(k) <= m) by (nonlinear_arith)
            requires
                m == v * pow2(k),
                v >= 1,
                pow2(k) >= 0,
        ;
        lemma_pow2_unfold(k + 1);
        let p = pow2(k);
        assert(v * (2 * p) == 2 * (v * p)) by (nonlinear_arith);
        lemma_small_double(v, k + 1)
    }
}

/// An integer that fits the significand is itself as a double.
pub proof fn law_small_integers_are_doubles(v: nat)
    requires
        v < 2 * EXPONENT_UNIT,
    ensures
        double_of(v).represents(v),
{
    law_small_integers_are_exact(v);
    if v == 0 {
        assert((Number { bits: 0 }).represents(0));
    } else {
        lemma_pow2_values();
        assert(v * pow2(0) == v) by (nonlinear_arith)
            requires
                pow2(0) == 1,
        ;
        let r = lemma_small_double(v, 0);
        assert(r.represents(nearest(v)));
    }
}

} // verus!
