use vstd::prelude::*;
use vstd::arithmetic::power2::{
    lemma_pow2_pos, lemma_pow2_strictly_increases, lemma_pow2_unfold, pow2,
};

verus! {

/// The bit that carries the sign in a binary64 pattern.
pub const SIGN_BIT: u64 = 0x8000_0000_0000_0000;

/// The key of positive infinity; every key of larger magnitude is not a number.
pub const INFINITY_KEY: i64 = 0x7FF0_0000_0000_0000;

/// The weight of the bit that a normal number carries unwritten in front of
/// its fraction: two to the power 52.
pub const HIDDEN_BIT: u64 = 0x10_0000_0000_0000;

/// A real quantity, held as an order key.
///
/// The key of a binary64 value is its magnitude bits, negated when the sign
/// bit is set. Both zeros have key 0, and for any two values that are numbers
/// the order of the keys is the order of the values. A key beyond those of
/// the infinities stands for a NaN, which is neither below, nor above, nor
/// the same as anything. The library compares reals and passes them on; it
/// never does arithmetic on them.
#[derive(Clone, Copy, Debug, PartialEq, Eq, Structural)]
pub struct Real {
    pub key: i64,
}

/// The key that stands for a binary64 bit pattern.
pub open spec fn key_of_bits(bits: u64) -> int {
    if bits < SIGN_BIT {
        bits as int
    } else {
        -(bits - SIGN_BIT)
    }
}

/// The bit pattern that a key stands for. Of the two zeros it gives the
/// positive one; the one key without a pattern of its own gives negative zero.
pub open spec fn bits_of_key(key: i64) -> int {
    if key >= 0 {
        key as int
    } else if key == i64::MIN {
        SIGN_BIT as int
    } else {
        SIGN_BIT - key
    }
}

/// Whether the first pattern is below the second when both are read as
/// sign and magnitude, the two zeros being equal.
pub open spec fn bits_below(a: u64, b: u64) -> bool {
    let a_negative = a >= SIGN_BIT;
    let b_negative = b >= SIGN_BIT;
    let a_magnitude = if a_negative { a - SIGN_BIT } else { a as int };
    let b_magnitude = if b_negative { b - SIGN_BIT } else { b as int };
    if a_negative && b_negative {
        a_magnitude > b_magnitude
    } else if a_negative {
        a_magnitude > 0 || b_magnitude > 0
    } else if b_negative {
        false
    } else {
        a_magnitude < b_magnitude
    }
}

impl Real {
    /// Neither a quiet nor a signalling NaN.
    pub open spec fn is_number(self) -> bool {
        -INFINITY_KEY <= self.key <= INFINITY_KEY
    }

    /// A number that is not an infinity.
    pub open spec fn is_finite(self) -> bool {
        -INFINITY_KEY < self.key < INFINITY_KEY
    }

    /// Whether this real is below the other; no NaN is.
    pub open spec fn is_below(self, other: Real) -> bool {
        self.is_number() && other.is_number() && self.key < other.key
    }

    /// Whether this real is below the other or the same; no NaN is.
    pub open spec fn is_at_most(self, other: Real) -> bool {
        self.is_number() && other.is_number() && self.key <= other.key
    }

    /// Whether the two reals are the same number; no NaN is.
    pub open spec fn is_same(self, other: Real) -> bool {
        self.is_number() && other.is_number() && self.key == other.key
    }

    /// The magnitude of a real; that of a NaN is a NaN.
    pub open spec fn magnitude(self) -> Real {
        if self.key >= 0 || self.key == i64::MIN {
            self
        } else {
            Real { key: (-self.key) as i64 }
        }
    }

    /// Whether this real is below the other.
    #[verifier::when_used_as_spec(is_below)]
    pub fn lt(self, other: Real) -> (b: bool)
        ensures
            b == self.is_below(other),
    {
        !self.is_nan() && !other.is_nan() && self.key < other.key
    }

    /// Whether this real is below the other or the same.
    #[verifier::when_used_as_spec(is_at_most)]
    pub fn le(self, other: Real) -> (b: bool)
        ensures
            b == self.is_at_most(other),
    {
        !self.is_nan() && !other.is_nan() && self.key <= other.key
    }

    /// Whether this real is above the other.
    pub fn gt(self, other: Real) -> (b: bool)
        ensures
            b == other.is_below(self),
    {
        !self.is_nan() && !other.is_nan() && self.key > other.key
    }

    /// Whether this real is above the other or the same.
    pub fn ge(self, other: Real) -> (b: bool)
        ensures
            b == other.is_at_most(self),
    {
        !self.is_nan() && !other.is_nan() && self.key >= other.key
    }

    /// Whether the two reals are the same number.
    #[verifier::when_used_as_spec(is_same)]
    pub fn equals(self, other: Real) -> (b: bool)
        ensures
            b == self.is_same(other),
    {
        !self.is_nan() && !other.is_nan() && self.key == other.key
    }

    /// The magnitude of this real.
    #[verifier::when_used_as_spec(magnitude)]
    pub fn abs(self) -> (r: Real)
        ensures
            r == self.magnitude(),
    {
        if self.key >= 0 || self.key == i64::MIN {
            self
        } else {
            Real { key: -self.key }
        }
    }

    /// The real zero.
    pub fn zero() -> (r: Real)
        ensures
            r.key == 0,
    {
        Real { key: 0 }
    }

    /// The real whose binary64 bit pattern is `bits`.
    pub fn from_bits(bits: u64) -> (r: Real)
        ensures
            r.key == key_of_bits(bits),
            r.key > i64::MIN,
    {
        if bits < SIGN_BIT {
            Real { key: bits as i64 }
        } else {
            let magnitude: u64 = bits - SIGN_BIT;
            Real { key: -(magnitude as i64) }
        }
    }

    /// The binary64 bit pattern of this real.
    pub fn to_bits(self) -> (bits: u64)
        ensures
            bits == bits_of_key(self.key),
    {
        if self.key >= 0 {
            self.key as u64
        } else if self.key == i64::MIN {
            SIGN_BIT
        } else {
            let magnitude: i64 = -self.key;
            SIGN_BIT + (magnitude as u64)
        }
    }

    /// Whether this real is a NaN.
    pub fn is_nan(&self) -> (b: bool)
        ensures
            b == !self.is_number(),
    {
        self.key > INFINITY_KEY || self.key < -INFINITY_KEY
    }
}

impl Default for Real {
    fn default() -> (r: Real)
        ensures
            r.key == 0,
    {
        Real { key: 0 }
    }
}

/// A bit pattern other than negative zero comes back from its key unchanged.
pub proof fn lemma_bits_round_trip(bits: u64)
    requires
        bits != SIGN_BIT,
    ensures
        i64::MIN < key_of_bits(bits) <= i64::MAX,
        bits_of_key(key_of_bits(bits) as i64) == bits,
{
}

/// A key other than the least one comes back from its bit pattern unchanged.
pub proof fn lemma_key_round_trip(key: i64)
    requires
        key > i64::MIN,
    ensures
        0 <= bits_of_key(key) <= u64::MAX,
        key_of_bits(bits_of_key(key) as u64) == key,
{
}

/// Keys are ordered as the patterns they stand for, read as sign and magnitude.
pub proof fn lemma_key_order(a: u64, b: u64)
    ensures
        key_of_bits(a) < key_of_bits(b) <==> bits_below(a, b),
        key_of_bits(a) == key_of_bits(b) <==> !bits_below(a, b) && !bits_below(b, a),
{
}

/// The magnitude of the finite number whose magnitude bits are `magnitude`,
/// in units of the least positive number: the fraction itself for a
/// subnormal number, and for a normal one the fraction with the hidden bit
/// before it, doubled once for every step of the exponent above one.
pub open spec fn scaled_magnitude(magnitude: int) -> int {
    let exponent = magnitude / (HIDDEN_BIT as int);
    let fraction = magnitude % (HIDDEN_BIT as int);
    if exponent == 0 {
        fraction
    } else {
        (HIDDEN_BIT + fraction) * pow2((exponent - 1) as nat)
    }
}

/// The finite number that a key stands for, in units of the least positive
/// number.
pub open spec fn scaled_value(key: int) -> int {
    if key >= 0 {
        scaled_magnitude(key)
    } else {
        -scaled_magnitude(-key)
    }
}

/// Of two finite magnitudes the one with the lesser bits is the lesser, and
/// only zero has the magnitude zero.
pub proof fn lemma_magnitudes_order(a: int, b: int)
    requires
        0 <= a < b < INFINITY_KEY,
    ensures
        0 <= scaled_magnitude(a) < scaled_magnitude(b),
{
    let hidden = HIDDEN_BIT as int;
    let exponent_a = a / hidden;
    let fraction_a = a % hidden;
    let exponent_b = b / hidden;
    let fraction_b = b % hidden;
    assert(a == exponent_a * hidden + fraction_a && b == exponent_b * hidden + fraction_b);
    assert(0 <= exponent_a <= exponent_b);
    if exponent_b > 0 {
        lemma_pow2_pos((exponent_b - 1) as nat);
    }
    if exponent_a > 0 {
        lemma_pow2_pos((exponent_a - 1) as nat);
    }
    if exponent_a == exponent_b {
        assert(fraction_a < fraction_b);
        if exponent_a > 0 {
            let power = pow2((exponent_a - 1) as nat) as int;
            assert(0 <= (hidden + fraction_a) * power < (hidden + fraction_b) * power)
                by (nonlinear_arith)
                requires
                    0 <= fraction_a < fraction_b,
                    power > 0,
                    hidden > 0,
            ;
        }
    } else {
        let power_b = pow2((exponent_b - 1) as nat) as int;
        assert(hidden <= (hidden + fraction_b) * power_b) by (nonlinear_arith)
            requires
                0 <= fraction_b,
                power_b >= 1,
                hidden > 0,
        ;
        if exponent_a > 0 {
            let power_a = pow2((exponent_a - 1) as nat) as int;
            lemma_pow2_unfold(exponent_a as nat);
            assert(pow2(exponent_a as nat) == 2 * power_a);
            if exponent_a < exponent_b - 1 {
                lemma_pow2_strictly_increases(exponent_a as nat, (exponent_b - 1) as nat);
            }
            assert(2 * power_a <= power_b);
            assert(0 <= (hidden + fraction_a) * power_a < hidden * (2 * power_a))
                by (nonlinear_arith)
                requires
                    0 <= fraction_a < hidden,
                    power_a > 0,
            ;
            assert(hidden * (2 * power_a) <= (hidden + fraction_b) * power_b) by (nonlinear_arith)
                requires
                    0 <= fraction_b,
                    2 * power_a <= power_b,
                    hidden > 0,
                    power_a > 0,
            ;
        }
    }
}

/// The keys of finite numbers are ordered as the numbers themselves: the
/// number of the lesser key is the lesser, and equal keys stand for one
/// number.
pub proof fn lemma_keys_order_as_values(a: Real, b: Real)
    requires
        a.is_finite(),
        b.is_finite(),
    ensures
        a.key < b.key <==> scaled_value(a.key as int) < scaled_value(b.key as int),
        a.key == b.key <==> scaled_value(a.key as int) == scaled_value(b.key as int),
        a.key > 0 <==> scaled_value(a.key as int) > 0,
        a.key == 0 <==> scaled_value(a.key as int) == 0,
{
    lemma_sign_of_value(a.key as int);
    lemma_sign_of_value(b.key as int);
    if a.key >= 0 && b.key >= 0 {
        if a.key < b.key {
            lemma_magnitudes_order(a.key as int, b.key as int);
        } else if b.key < a.key {
            lemma_magnitudes_order(b.key as int, a.key as int);
        }
    } else if a.key < 0 && b.key < 0 {
        if a.key < b.key {
            lemma_magnitudes_order(-b.key, -a.key);
        } else if b.key < a.key {
            lemma_magnitudes_order(-a.key, -b.key);
        }
    }
}

/// The number of a positive key is positive, that of a negative key negative,
/// and that of the key zero is zero.
proof fn lemma_sign_of_value(key: int)
    requires
        -INFINITY_KEY < key < INFINITY_KEY,
    ensures
        key > 0 ==> scaled_value(key) > 0,
        key == 0 ==> scaled_value(key) == 0,
        key < 0 ==> scaled_value(key) < 0,
{
    if key > 0 {
        lemma_magnitudes_order(0, key);
    } else if key < 0 {
        lemma_magnitudes_order(0, -key);
    }
}

/// Of two numbers exactly one holds: the first is below the second, they are
/// the same, or the second is below the first.
pub proof fn lemma_numbers_compare(a: Real, b: Real)
    requires
        a.is_number(),
        b.is_number(),
    ensures
        a.is_below(b) || a.is_same(b) || b.is_below(a),
        !(a.is_below(b) && a.is_same(b)),
        !(a.is_below(b) && b.is_below(a)),
        !(a.is_same(b) && b.is_below(a)),
        a.is_at_most(b) <==> a.is_below(b) || a.is_same(b),
{
}

/// A NaN is not below, not above and not the same as anything, itself
/// included.
pub proof fn lemma_nan_compares_false(a: Real, b: Real)
    requires
        !a.is_number(),
    ensures
        !a.is_below(b),
        !b.is_below(a),
        !a.is_at_most(b),
        !b.is_at_most(a),
        !a.is_same(b),
        !a.is_same(a),
{
}

} // verus!
