//! Interpolators: the value of a sample between two stored points, from a
//! window of four points around the position and its 16-bit fraction.

use vstd::prelude::*;

verus! {

/// Fraction bits of a sample position.
pub const SMIX_SHIFT: i32 = 16;

/// 8-bit samples are scaled to 16 bits.
pub open spec fn i8_value(x: i8) -> int {
    x as int * 256
}

pub open spec fn i16_value(x: i16) -> int {
    x as int
}

/// Linear interpolation from `l1` by `dt` at fraction `frac` of 65536:
/// `l1 + ((frac >> 1) * dt) >> 15`, with arithmetic shifts.
pub open spec fn lerp(l1: i32, dt: i32, frac: i32) -> int {
    l1 + ((((frac >> 1) * dt) as i32) >> 15)
}

/// An interpolator over samples of type `T`.
pub trait Interpolate<T> {
    /// The interpolated value at `frac` of the window `i`.
    spec fn interpolated(&self, i: Seq<T>, frac: i32) -> int;

    /// The product computed on the way fits in 32 bits.
    spec fn fits(&self, i: Seq<T>, frac: i32) -> bool;

    /// The interpolator's name.
    spec fn spec_name() -> Seq<char>;

    /// How many points the interpolator looks at around the position.
    spec fn spec_bsize() -> nat;

    fn name() -> (r: &'static str)
        ensures
            r@ == Self::spec_name(),
    ;

    /// Points the interpolator looks at around the position.
    fn bsize() -> (r: usize)
        ensures
            r == Self::spec_bsize(),
    ;

    /// The value at fraction `frac` between the second and third points of
    /// the window `i`.
    fn get_sample(&self, i: &[T], frac: i32) -> (r: i32)
        requires
            i@.len() >= 4,
            self.fits(i@, frac),
        ensures
            r == self.interpolated(i@, frac),
    ;
}

/// The interpolators a mixer offers.
#[derive(Clone, Copy, Debug, PartialEq, Eq, Structural)]
pub enum Interpolator {
    Nearest,
    Linear,
}

/// Nearest neighbor interpolator: the second point of the window.
pub struct Nearest;

/// Linear interpolator: the straight line between the second and third
/// points of the window.
pub struct Linear;

impl Interpolate<i8> for Nearest {
    open spec fn interpolated(&self, i: Seq<i8>, frac: i32) -> int {
        i8_value(i[1])
    }

    open spec fn fits(&self, i: Seq<i8>, frac: i32) -> bool {
        true
    }

    open spec fn spec_name() -> Seq<char> {
        "nearest neighbor"@
    }

    open spec fn spec_bsize() -> nat {
        2
    }

    fn name() -> (r: &'static str) {
        "nearest neighbor"
    }

    fn bsize() -> (r: usize) {
        2
    }

    fn get_sample(&self, i: &[i8], frac: i32) -> (r: i32) {
        i[1] as i32 * 256
    }
}

impl Interpolate<i16> for Nearest {
    open spec fn interpolated(&self, i: Seq<i16>, frac: i32) -> int {
        i16_value(i[1])
    }

    open spec fn fits(&self, i: Seq<i16>, frac: i32) -> bool {
        true
    }

    open spec fn spec_name() -> Seq<char> {
        "nearest neighbor"@
    }

    open spec fn spec_bsize() -> nat {
        2
    }

    fn name() -> (r: &'static str) {
        "nearest neighbor"
    }

    fn bsize() -> (r: usize) {
        2
    }

    fn get_sample(&self, i: &[i16], frac: i32) -> (r: i32) {
        i[1] as i32
    }
}

impl Interpolate<i8> for Linear {
    open spec fn interpolated(&self, i: Seq<i8>, frac: i32) -> int {
        lerp(i8_value(i[1]) as i32, (i8_value(i[2]) - i8_value(i[1])) as i32, frac)
    }

    open spec fn fits(&self, i: Seq<i8>, frac: i32) -> bool {
        i32::MIN <= (frac >> 1) * (i8_value(i[2]) - i8_value(i[1])) <= i32::MAX
    }

    open spec fn spec_name() -> Seq<char> {
        "linear"@
    }

    open spec fn spec_bsize() -> nat {
        2
    }

    fn name() -> (r: &'static str) {
        "linear"
    }

    fn bsize() -> (r: usize) {
        2
    }

    fn get_sample(&self, i: &[i8], frac: i32) -> (r: i32) {
        let l1 = i[1] as i32 * 256;
        let dt = i[2] as i32 * 256 - l1;
        let p = (frac >> 1) * dt;
        let q = p >> (SMIX_SHIFT - 1);
        assert(-0x10000 <= q <= 0xffff) by (bit_vector)
            requires q == p >> 15;
        l1 + q
    }
}

impl Interpolate<i16> for Linear {
    open spec fn interpolated(&self, i: Seq<i16>, frac: i32) -> int {
        lerp(i16_value(i[1]) as i32, (i16_value(i[2]) - i16_value(i[1])) as i32, frac)
    }

    open spec fn fits(&self, i: Seq<i16>, frac: i32) -> bool {
        i32::MIN <= (frac >> 1) * (i16_value(i[2]) - i16_value(i[1])) <= i32::MAX
    }

    open spec fn spec_name() -> Seq<char> {
        "linear"@
    }

    open spec fn spec_bsize() -> nat {
        2
    }

    fn name() -> (r: &'static str) {
        "linear"
    }

    fn bsize() -> (r: usize) {
        2
    }

    fn get_sample(&self, i: &[i16], frac: i32) -> (r: i32) {
        let l1 = i[1] as i32;
        let dt = i[2] as i32 - l1;
        let p = (frac >> 1) * dt;
        let q = p >> (SMIX_SHIFT - 1);
        assert(-0x10000 <= q <= 0xffff) by (bit_vector)
            requires q == p >> 15;
        l1 + q
    }
}

/// At the start of an interval (fraction 0) linear interpolation gives the
/// point itself, as the nearest neighbor does.
pub proof fn lemma_linear_at_zero_is_nearest(i8s: Seq<i8>, i16s: Seq<i16>)
    requires
        i8s.len() >= 4,
        i16s.len() >= 4,
    ensures
        Linear.interpolated(i8s, 0) == Nearest.interpolated(i8s, 0),
        Linear.interpolated(i16s, 0) == Nearest.interpolated(i16s, 0),
{
    let d8 = (i8_value(i8s[2]) - i8_value(i8s[1])) as i32;
    let d16 = (i16_value(i16s[2]) - i16_value(i16s[1])) as i32;
    let z: i32 = 0;
    assert(((((z >> 1) * d8) as i32) >> 15) == 0) by (bit_vector)
        requires z == 0;
    assert(((((z >> 1) * d16) as i32) >> 15) == 0) by (bit_vector)
        requires z == 0;
    assert(i8_value(i8s[1]) as i32 == i8_value(i8s[1]));
}

/// The arithmetic shifts of a linear step: halving a nonnegative fraction,
/// and the floor of a quotient by 32768.
proof fn lemma_lerp_shifts(frac: i32, p: i32)
    ensures
        0 <= frac ==> frac >> 1 == frac / 2,
        (p >> 15) as int * 32768 <= p as int,
        (p as int) < ((p >> 15) as int + 1) * 32768,
{
    assert(0 <= frac ==> frac >> 1 == frac / 2) by (bit_vector);
    assert((p >> 15) as int * 32768 <= p as int && (p as int) < ((p >> 15) as int + 1) * 32768) by (bit_vector);
}

/// A linear step from `a` toward `b` at a fraction below one stays
/// between them.
proof fn lemma_lerp_between(a: int, b: int, frac: i32)
    requires
        0 <= frac < 65536,
        i32::MIN <= a <= i32::MAX,
        i32::MIN <= b - a <= i32::MAX,
        i32::MIN <= (frac >> 1) * (b - a) <= i32::MAX,
    ensures
        a <= b ==> a <= lerp(a as i32, (b - a) as i32, frac) <= b,
        b <= a ==> b <= lerp(a as i32, (b - a) as i32, frac) <= a,
{
    let dt = b - a;
    let f = frac >> 1;
    let p = (f * dt) as i32;
    lemma_lerp_shifts(frac, p);
    let q = (p >> 15) as int;
    assert(0 <= f <= 32767);
    assert(p as int == f * dt);
    if dt >= 0 {
        assert(0 <= f * dt <= 32767 * dt) by (nonlinear_arith)
            requires 0 <= f <= 32767, dt >= 0;
        assert(0 <= q <= dt) by (nonlinear_arith)
            requires q * 32768 <= f * dt, f * dt < (q + 1) * 32768, 0 <= f * dt <= 32767 * dt, dt >= 0;
    } else {
        assert(32767 * dt <= f * dt <= 0) by (nonlinear_arith)
            requires 0 <= f <= 32767, dt < 0;
        assert(dt <= q <= 0) by (nonlinear_arith)
            requires q * 32768 <= f * dt, f * dt < (q + 1) * 32768, 32767 * dt <= f * dt <= 0, dt < 0;
    }
}

/// Linear interpolation of 8-bit samples stays between the two points it
/// interpolates: at or above the lower, at or below the higher, for any
/// fraction below one.
pub proof fn lemma_linear_i8_between(lin: Linear, i: Seq<i8>, frac: i32)
    requires
        i.len() >= 4,
        0 <= frac < 65536,
    ensures
        lin.fits(i, frac),
        i8_value(i[1]) <= i8_value(i[2]) ==> i8_value(i[1]) <= lin.interpolated(i, frac) <= i8_value(i[2]),
        i8_value(i[2]) <= i8_value(i[1]) ==> i8_value(i[2]) <= lin.interpolated(i, frac) <= i8_value(i[1]),
{
    let dt = i8_value(i[2]) - i8_value(i[1]);
    lemma_lerp_shifts(frac, 0);
    assert(-65280 <= dt <= 65280);
    assert(-2147483648 <= (frac >> 1) * dt <= 2147483647) by (nonlinear_arith)
        requires 0 <= frac >> 1 <= 32767, -65280 <= dt <= 65280;
    lemma_lerp_between(i8_value(i[1]), i8_value(i[2]), frac);
}

/// Linear interpolation of 16-bit samples stays between the two points it
/// interpolates, for any fraction below one.
pub proof fn lemma_linear_i16_between(lin: Linear, i: Seq<i16>, frac: i32)
    requires
        i.len() >= 4,
        0 <= frac < 65536,
    ensures
        lin.fits(i, frac),
        i16_value(i[1]) <= i16_value(i[2]) ==> i16_value(i[1]) <= lin.interpolated(i, frac) <= i16_value(i[2]),
        i16_value(i[2]) <= i16_value(i[1]) ==> i16_value(i[2]) <= lin.interpolated(i, frac) <= i16_value(i[1]),
{
    let dt = i16_value(i[2]) - i16_value(i[1]);
    lemma_lerp_shifts(frac, 0);
    assert(-65535 <= dt <= 65535);
    assert(-2147483648 <= (frac >> 1) * dt <= 2147483647) by (nonlinear_arith)
        requires 0 <= frac >> 1 <= 32767, -65535 <= dt <= 65535;
    lemma_lerp_between(i16_value(i[1]), i16_value(i[2]), frac);
}

} // verus!
