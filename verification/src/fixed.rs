//! Fixed-point arithmetic for velocities and sub-pixel remainders.
//!
//! A quantity is an `i32` that counts thousandths of a pixel (or of a pixel
//! per tick). Sums that leave the range of `i32` saturate at its ends.
use vstd::prelude::*;
use vstd::arithmetic::div_mod::{lemma_fundamental_div_mod, lemma_fundamental_div_mod_converse};

verus! {

/// One whole pixel.
pub const ONE: i32 = 1000;

/// Half a pixel.
pub const HALF: i32 = 500;

/// The nearest `i32` to `v`.
pub open spec fn clip(v: int) -> i32 {
    if v < i32::MIN {
        i32::MIN
    } else if v > i32::MAX {
        i32::MAX
    } else {
        v as i32
    }
}

/// The quotient of `a` by a positive `b`, rounded towards zero.
pub open spec fn trunc_div(a: int, b: int) -> int {
    if a >= 0 {
        a / b
    } else {
        -((-a) / b)
    }
}

/// The number of whole pixels nearest to `units` thousandths; a half rounds
/// up.
pub open spec fn round_half_up(units: int) -> int {
    (units + HALF) / (ONE as int)
}

/// `value` multiplied by the factor `modifier`, itself in thousandths.
pub open spec fn scaled(value: int, modifier: int) -> int {
    trunc_div(value * modifier, ONE as int)
}

/// A velocity after one tick of acceleration towards a target. With a
/// target other than zero the velocity is capped at the target. With a
/// target of zero it moves by the acceleration but not across zero, and
/// without acceleration it is zero at once.
pub open spec fn approach(velocity: int, acceleration: int, target: int) -> int {
    let next = velocity + acceleration;
    if target > 0 {
        if next < target { next } else { target }
    } else if target < 0 {
        if next > target { next } else { target }
    } else if acceleration > 0 {
        if next < 0 { next } else { 0 }
    } else if acceleration < 0 {
        if next > 0 { next } else { 0 }
    } else {
        0
    }
}

/// Narrows a 64-bit value to `i32`, saturating.
pub fn clip64(v: i64) -> (r: i32)
    ensures
        r == clip(v as int),
{
    if v < -2147483648 {
        i32::MIN
    } else if v > 2147483647 {
        i32::MAX
    } else {
        v as i32
    }
}

/// Narrows a 128-bit value to `i32`, saturating.
pub fn clip128(v: i128) -> (r: i32)
    ensures
        r == clip(v as int),
{
    if v < -2147483648 {
        i32::MIN
    } else if v > 2147483647 {
        i32::MAX
    } else {
        v as i32
    }
}

/// The saturating sum of two values.
pub fn sat_add(a: i32, b: i32) -> (r: i32)
    ensures
        r == clip(a + b),
{
    clip64(a as i64 + b as i64)
}

/// The saturating difference of two values.
pub fn sat_sub(a: i32, b: i32) -> (r: i32)
    ensures
        r == clip(a - b),
{
    clip64(a as i64 - b as i64)
}

/// The quotient of `a` by a positive `b`, rounded down.
pub fn floor_div(a: i64, b: i64) -> (r: i64)
    requires
        b > 0,
    ensures
        r == (a as int) / (b as int),
{
    let q: i64 = a / b;
    let m: i64 = a % b;
    proof {
        if a < 0 {
            let n: int = -(a as int);
            let d: int = b as int;
            let nq: int = n / d;
            let nr: int = n % d;
            lemma_fundamental_div_mod(n, d);
            assert(q == -nq);
            assert(m == -nr);
            assert(0 <= nr < d);
            assert(nq >= 0) by (nonlinear_arith)
                requires
                    n == d * nq + nr,
                    0 <= nr < d,
                    n >= 0,
            ;
            if m == 0 {
                assert(a == q * d + 0) by (nonlinear_arith)
                    requires
                        a == -n,
                        n == d * nq + nr,
                        nr == 0,
                        q == -nq,
                ;
                lemma_fundamental_div_mod_converse(a as int, d, q as int, 0);
            } else {
                assert(a == (q - 1) * d + (d + m)) by (nonlinear_arith)
                    requires
                        a == -n,
                        n == d * nq + nr,
                        m == -nr,
                        q == -nq,
                ;
                assert(nq * 2 <= n) by (nonlinear_arith)
                    requires
                        n == d * nq + nr,
                        nr > 0,
                        nr < d,
                        nq >= 0,
                ;
                lemma_fundamental_div_mod_converse(a as int, d, q - 1, d + m);
            }
        }
    }
    if m < 0 {
        q - 1
    } else {
        q
    }
}

/// Adds a velocity to the carried remainder and splits the sum into the
/// whole pixels to move, rounded to nearest, and the new remainder. The
/// remainder that is handed back lies in `[-HALF, HALF)`.
pub fn carry(remainder: i32, velocity: i32) -> (r: (i32, i32))
    ensures
        r.0 == round_half_up(remainder + velocity),
        r.1 == remainder + velocity - ONE * r.0,
        -HALF <= r.1 < HALF,
{
    let sum: i64 = remainder as i64 + velocity as i64;
    let amount: i64 = floor_div(sum + 500, 1000);
    proof {
        lemma_fundamental_div_mod(sum + 500, 1000);
    }
    let rest: i64 = sum - 1000 * amount;
    (amount as i32, rest as i32)
}

/// Multiplies `value` by the factor `modifier`, rounding towards zero.
pub fn scale_by(value: i32, modifier: i32) -> (r: i32)
    ensures
        r == clip(scaled(value as int, modifier as int)),
{
    let product: i64 = mul64(value, modifier);
    clip64(product / 1000)
}

/// The exact product of two `i32` values.
pub fn mul64(a: i32, b: i32) -> (r: i64)
    ensures
        r == a * b,
{
    proof {
        assert(-0x4000_0000_0000_0000 <= a * b <= 0x4000_0000_0000_0000) by (nonlinear_arith)
            requires
                -0x8000_0000 <= a <= 0x7fff_ffff,
                -0x8000_0000 <= b <= 0x7fff_ffff,
        ;
    }
    (a as i64) * (b as i64)
}

/// One tick of acceleration: `approach`, saturated.
pub fn accelerate(velocity: i32, acceleration: i32, target: i32) -> (r: i32)
    ensures
        r == clip(approach(velocity as int, acceleration as int, target as int)),
{
    let next: i64 = velocity as i64 + acceleration as i64;
    let goal: i64 = target as i64;
    if target > 0 {
        clip64(if next < goal { next } else { goal })
    } else if target < 0 {
        clip64(if next > goal { next } else { goal })
    } else if acceleration > 0 {
        clip64(if next < 0 { next } else { 0 })
    } else if acceleration < 0 {
        clip64(if next > 0 { next } else { 0 })
    } else {
        0
    }
}

/// Acceleration towards a target other than zero never carries the velocity
/// past the target, and deceleration towards zero never changes the sign of
/// the velocity within one tick.
pub proof fn lemma_accelerate_is_monotonic(velocity: i32, acceleration: i32, target: i32)
    ensures
        target > 0 ==> clip(approach(velocity as int, acceleration as int, target as int))
            <= target,
        target < 0 ==> clip(approach(velocity as int, acceleration as int, target as int))
            >= target,
        target == 0 && velocity >= 0 ==> clip(
            approach(velocity as int, acceleration as int, target as int),
        ) >= 0,
        target == 0 && velocity <= 0 ==> clip(
            approach(velocity as int, acceleration as int, target as int),
        ) <= 0,
        target > 0 && acceleration >= 0 && velocity <= target ==> velocity <= clip(
            approach(velocity as int, acceleration as int, target as int),
        ),
        target < 0 && acceleration <= 0 && velocity >= target ==> velocity >= clip(
            approach(velocity as int, acceleration as int, target as int),
        ),
{
}

/// The sum of a sequence of velocities.
pub open spec fn total(velocities: Seq<int>) -> int
    decreases velocities.len(),
{
    if velocities.len() == 0 {
        0
    } else {
        total(velocities.drop_last()) + velocities.last()
    }
}

/// The remainder that is carried after the velocities were fed, one per
/// tick, into an accumulator that held `start`.
pub open spec fn carried(start: int, velocities: Seq<int>) -> int
    decreases velocities.len(),
{
    if velocities.len() == 0 {
        start
    } else {
        let sum = carried(start, velocities.drop_last()) + velocities.last();
        sum - ONE * round_half_up(sum)
    }
}

/// The whole pixels that were handed out, in all, while the velocities were
/// fed into an accumulator that held `start`.
pub open spec fn travelled(start: int, velocities: Seq<int>) -> int
    decreases velocities.len(),
{
    if velocities.len() == 0 {
        0
    } else {
        let before = velocities.drop_last();
        travelled(start, before) + round_half_up(carried(start, before) + velocities.last())
    }
}

/// Nothing is lost or gained by moving whole pixels only: the pixels handed
/// out and the remainder still carried add up to what was fed in, and the
/// remainder is at most half a pixel. From an empty accumulator the distance
/// travelled is the sum of the velocities rounded to the nearest pixel.
pub proof fn lemma_accumulator_round_trip(start: int, velocities: Seq<int>)
    ensures
        ONE * travelled(start, velocities) + carried(start, velocities) == start + total(
            velocities,
        ),
        velocities.len() > 0 ==> -HALF <= carried(start, velocities) < HALF,
        -HALF <= start < HALF ==> travelled(start, velocities) == round_half_up(
            start + total(velocities),
        ) && -HALF <= carried(start, velocities) < HALF,
        start == 0 ==> travelled(start, velocities) == round_half_up(total(velocities)),
    decreases velocities.len(),
{
    if velocities.len() > 0 {
        let before = velocities.drop_last();
        lemma_accumulator_round_trip(start, before);
        let sum = carried(start, before) + velocities.last();
        lemma_fundamental_div_mod(sum + HALF, ONE as int);
    }
    let t = travelled(start, velocities);
    let c = carried(start, velocities);
    if -HALF <= start < HALF {
        assert(-HALF <= c < HALF);
        lemma_fundamental_div_mod_converse(start + total(velocities) + HALF, ONE as int, t, c + HALF);
    }
}

} // verus!
