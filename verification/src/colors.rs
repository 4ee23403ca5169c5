//! Colors with three 8-bit channels, scaling by a fraction, and linear
//! gradients between two colors.
use vstd::prelude::*;

verus! {

/// An exact factor: `numerator / denominator`, with a positive denominator.
#[derive(Clone, Copy, Debug, PartialEq, Eq)]
pub struct Fraction {
    numerator: i64,
    denominator: u64,
}

impl Fraction {
    /// Every fraction has a denominator above 0.
    #[verifier::type_invariant]
    spec fn positive_denominator(self) -> bool {
        self.denominator > 0
    }

    /// The numerator of the factor.
    pub closed spec fn num(self) -> int {
        self.numerator as int
    }

    /// The denominator of the factor.
    pub closed spec fn den(self) -> int {
        self.denominator as int
    }

    /// Whether the factor lies between 0 and 1, both included.
    pub open spec fn is_proper(self) -> bool {
        0 <= self.num() <= self.den()
    }

    /// The factor `numerator / denominator`, or `None` for a zero denominator.
    pub fn new(numerator: i64, denominator: u64) -> (r: Option<Fraction>)
        ensures
            denominator == 0 ==> r is None,
            denominator != 0 ==> r is Some && r->0.num() == numerator && r->0.den() == denominator,
    {
        if denominator == 0 {
            None
        } else {
            Some(Fraction { numerator, denominator })
        }
    }

    /// The factor `part / whole` of a count, for `0 < whole`.
    pub fn of_count(part: u16, whole: u16) -> (r: Fraction)
        requires
            whole > 0,
        ensures
            r.num() == part,
            r.den() == whole,
    {
        Fraction { numerator: part as i64, denominator: whole as u64 }
    }

    /// The numerator of the factor.
    pub fn numerator(&self) -> (r: i64)
        ensures
            r == self.num(),
    {
        self.numerator
    }

    /// The denominator of the factor, which is never 0.
    pub fn denominator(&self) -> (r: u64)
        ensures
            r == self.den(),
            r > 0,
    {
        proof {
            use_type_invariant(self);
        }
        self.denominator
    }
}

/// A color: its red, green and blue channels.
#[derive(Clone, Copy, Debug, PartialEq, Eq, Structural)]
pub struct RGBColor(pub u8, pub u8, pub u8);

impl RGBColor {
    /// The red channel.
    pub fn r(&self) -> (v: u8)
        ensures
            v == self.0,
    {
        self.0
    }

    /// The green channel.
    pub fn g(&self) -> (v: u8)
        ensures
            v == self.1,
    {
        self.1
    }

    /// The blue channel.
    pub fn b(&self) -> (v: u8)
        ensures
            v == self.2,
    {
        self.2
    }

    /// The color with each channel scaled by `num / den`.
    pub open spec fn scaled(self, num: int, den: int) -> RGBColor {
        RGBColor(
            scaled_channel(self.0, num, den),
            scaled_channel(self.1, num, den),
            scaled_channel(self.2, num, den),
        )
    }

    /// Scales each channel by `factor`, dropping the fractional part. A
    /// product above 255 gives 255, and a negative factor gives 0.
    pub fn multiply(self, factor: Fraction) -> (r: RGBColor)
        ensures
            r == self.scaled(factor.num(), factor.den()),
            factor.num() <= 0 ==> r == RGBColor(0, 0, 0),
    {
        let num = factor.numerator();
        let den = factor.denominator();
        RGBColor(
            scale_channel(self.0, num, den),
            scale_channel(self.1, num, den),
            scale_channel(self.2, num, den),
        )
    }
}

impl std::ops::Mul<Fraction> for RGBColor {
    type Output = RGBColor;

    /// Scales each channel by `rhs`, as `multiply` does.
    fn mul(self, rhs: Fraction) -> (r: RGBColor) {
        self.multiply(rhs)
    }
}

impl vstd::std_specs::ops::MulSpecImpl<Fraction> for RGBColor {
    open spec fn obeys_mul_spec() -> bool {
        true
    }

    open spec fn mul_req(self, rhs: Fraction) -> bool {
        true
    }

    open spec fn mul_spec(self, rhs: Fraction) -> RGBColor {
        self.scaled(rhs.num(), rhs.den())
    }
}

/// One channel scaled by `num / den`.
fn scale_channel(channel: u8, num: i64, den: u64) -> (r: u8)
    requires
        den > 0,
    ensures
        r == scaled_channel(channel, num as int, den as int),
{
    if num <= 0 {
        return 0;
    }
    let c: u128 = channel as u128;
    let n: u128 = num as u128;
    assert(c * n <= 255 * 0x7FFF_FFFF_FFFF_FFFF) by (nonlinear_arith)
        requires
            c <= 255,
            n <= 0x7FFF_FFFF_FFFF_FFFF,
    ;
    let q: u128 = c * n / (den as u128);
    if q >= 255 {
        255
    } else {
        q as u8
    }
}

/// One channel of the blend of `start` and `end` at `num / den`.
fn blend_channel(start: u8, end: u8, num: u64, den: u64) -> (r: u8)
    requires
        0 < den,
        num <= den,
    ensures
        r == blended_channel(start, end, num as int, den as int),
{
    let s: u128 = start as u128;
    let d: u128 = den as u128;
    let n: u128 = num as u128;
    assert(s * d <= 255 * 0xFFFF_FFFF_FFFF_FFFF) by (nonlinear_arith)
        requires
            s <= 255,
            d <= 0xFFFF_FFFF_FFFF_FFFF,
    ;
    let base: u128 = s * d;
    let v: u128 = if end >= start {
        let up: u128 = (end - start) as u128;
        assert(up * n <= 255 * 0xFFFF_FFFF_FFFF_FFFF) by (nonlinear_arith)
            requires
                up <= 255,
                n <= 0xFFFF_FFFF_FFFF_FFFF,
        ;
        base + up * n
    } else {
        let down: u128 = (start - end) as u128;
        assert(down * n <= s * d) by (nonlinear_arith)
            requires
                down <= s,
                n <= d,
        ;
        base - down * n
    };
    assert(v == start * den + (end - start) * num) by (nonlinear_arith)
        requires
            s == start,
            d == den,
            n == num,
            end >= start ==> v == s * d + (end - start) * n,
            end < start ==> v == s * d - (start - end) * n,
    ;
    proof {
        lemma_blended_channel_bounds(start, end, num as int, den as int);
    }
    let q: u128 = (2 * v + d) / (2 * d);
    q as u8
}

/// A linear gradient from one color to another.
#[derive(Clone, Copy, Debug, PartialEq, Eq)]
pub struct LinearGradient {
    start: RGBColor,
    end: RGBColor,
}

impl LinearGradient {
    /// The color at factor 0.
    pub closed spec fn start(self) -> RGBColor {
        self.start
    }

    /// The color at factor 1.
    pub closed spec fn end(self) -> RGBColor {
        self.end
    }

    /// The gradient from `start` to `end`.
    pub fn new(start: RGBColor, end: RGBColor) -> (g: Self)
        ensures
            g.start() == start,
            g.end() == end,
    {
        Self { start, end }
    }

    /// The signed difference of each channel, end minus start.
    pub fn delta(&self) -> (d: (i16, i16, i16))
        ensures
            d.0 == self.end().0 - self.start().0,
            d.1 == self.end().1 - self.start().1,
            d.2 == self.end().2 - self.start().2,
    {
        (
            self.end.0 as i16 - self.start.0 as i16,
            self.end.1 as i16 - self.start.1 as i16,
            self.end.2 as i16 - self.start.2 as i16,
        )
    }

    /// The color of the gradient at `num / den`, for a factor between 0 and 1.
    pub open spec fn color_at(self, num: int, den: int) -> RGBColor {
        blended(self.start(), self.end(), num, den)
    }

    /// Blends the two colors at `factor`, which lies between 0 and 1: each
    /// channel is the linear blend rounded to the nearest integer.
    pub fn interpolate(&self, factor: Fraction) -> (c: RGBColor)
        requires
            factor.is_proper(),
        ensures
            c == self.color_at(factor.num(), factor.den()),
            factor.num() == 0 ==> c == self.start(),
            factor.num() == factor.den() ==> c == self.end(),
    {
        self.blend(factor.numerator() as u64, factor.denominator())
    }

    /// The color of the gradient at `num / den`.
    fn blend(&self, num: u64, den: u64) -> (c: RGBColor)
        requires
            0 < den,
            num <= den,
        ensures
            c == self.color_at(num as int, den as int),
            num == 0 ==> c == self.start(),
            num == den ==> c == self.end(),
    {
        proof {
            lemma_blended_channel_bounds(self.start.0, self.end.0, num as int, den as int);
            lemma_blended_channel_bounds(self.start.1, self.end.1, num as int, den as int);
            lemma_blended_channel_bounds(self.start.2, self.end.2, num as int, den as int);
        }
        RGBColor(
            blend_channel(self.start.0, self.end.0, num, den),
            blend_channel(self.start.1, self.end.1, num, den),
            blend_channel(self.start.2, self.end.2, num, den),
        )
    }
}

/// One channel scaled by `num / den`: the product without its fractional
/// part, held to the range of a channel.
pub open spec fn scaled_channel(channel: u8, num: int, den: int) -> u8 {
    if num <= 0 {
        0u8
    } else if channel * num / den >= 255 {
        255u8
    } else {
        (channel * num / den) as u8
    }
}

/// Scaling holds a channel to its range: a factor that is not positive
/// gives 0, a product of 255 or more gives 255, and any other product is
/// kept without its fractional part.
pub proof fn lemma_scaled_channel_clamps(channel: u8, num: int, den: int)
    requires
        den > 0,
    ensures
        0 <= scaled_channel(channel, num, den) <= 255,
        num <= 0 ==> scaled_channel(channel, num, den) == 0,
        num > 0 && channel * num >= 255 * den ==> scaled_channel(channel, num, den) == 255,
        num > 0 && channel * num < 255 * den ==> scaled_channel(channel, num, den) == channel * num
            / den,
{
    let product = channel * num;
    assert(product >= 255 * den <==> product / den >= 255) by (nonlinear_arith)
        requires
            den > 0,
    ;
}

/// One channel of the blend of `start` and `end` at `num / den`:
/// `start + (end - start) * num / den`, rounded to the nearest integer,
/// a half rounded up.
pub open spec fn blended_channel(start: u8, end: u8, num: int, den: int) -> int {
    (2 * (start * den + (end - start) * num) + den) / (2 * den)
}

/// The blend of two colors at `num / den`, for a factor between 0 and 1:
/// each channel is blended by itself.
pub open spec fn blended(start: RGBColor, end: RGBColor, num: int, den: int) -> RGBColor {
    RGBColor(
        blended_channel(start.0, end.0, num, den) as u8,
        blended_channel(start.1, end.1, num, den) as u8,
        blended_channel(start.2, end.2, num, den) as u8,
    )
}

/// A gradient gives its two colors exactly at its two ends: the first at
/// the factor 0 and the second at the factor 1, whatever the denominator.
pub proof fn lemma_gradient_endpoints(start: RGBColor, end: RGBColor, den: int)
    requires
        den > 0,
    ensures
        blended(start, end, 0, den) == start,
        blended(start, end, den, den) == end,
{
    lemma_blended_channel_bounds(start.0, end.0, 0, den);
    lemma_blended_channel_bounds(start.1, end.1, 0, den);
    lemma_blended_channel_bounds(start.2, end.2, 0, den);
    lemma_blended_channel_bounds(start.0, end.0, den, den);
    lemma_blended_channel_bounds(start.1, end.1, den, den);
    lemma_blended_channel_bounds(start.2, end.2, den, den);
}

/// A blend at a factor between 0 and 1 lies between the two channels.
pub proof fn lemma_blended_channel_bounds(start: u8, end: u8, num: int, den: int)
    requires
        0 <= num <= den,
        0 < den,
    ensures
        start <= end ==> start <= blended_channel(start, end, num, den) <= end,
        end <= start ==> end <= blended_channel(start, end, num, den) <= start,
        num == 0 ==> blended_channel(start, end, num, den) == start,
        num == den ==> blended_channel(start, end, num, den) == end,
{
    let s = start as int;
    let e = end as int;
    let v = s * den + (e - s) * num;
    if s <= e {
        assert(s * den <= v <= e * den) by (nonlinear_arith)
            requires
                v == s * den + (e - s) * num,
                0 <= num <= den,
                s <= e,
        ;
    } else {
        assert(e * den <= v <= s * den) by (nonlinear_arith)
            requires
                v == s * den + (e - s) * num,
                0 <= num <= den,
                e <= s,
        ;
    }
    lemma_round_between(s, v, den);
    lemma_round_between(e, v, den);
    if num == den {
        assert(v == e * den) by (nonlinear_arith)
            requires
                v == s * den + (e - s) * num,
                num == den,
        ;
    }
}

/// Rounding `v / den` to the nearest integer keeps it on the same side of
/// a whole number `k` as `v` is of `k * den`.
proof fn lemma_round_between(k: int, v: int, den: int)
    requires
        0 < den,
    ensures
        k * den <= v ==> k <= (2 * v + den) / (2 * den),
        v <= k * den ==> (2 * v + den) / (2 * den) <= k,
{
    let q = (2 * v + den) / (2 * den);
    assert(k * den <= v ==> k <= q) by (nonlinear_arith)
        requires
            0 < den,
            q == (2 * v + den) / (2 * den),
    ;
    assert(v <= k * den ==> q <= k) by (nonlinear_arith)
        requires
            0 < den,
            q == (2 * v + den) / (2 * den),
    ;
}

/// The colors of a gradient at evenly spaced factors, from its start to
/// its end, handed out one at a time.
#[derive(Debug)]
pub struct LinearGradientSteps<'a> {
    gradient: &'a LinearGradient,
    current: usize,
    count: usize,
}

impl<'a> LinearGradientSteps<'a> {
    /// The gradient that the steps are taken from.
    pub closed spec fn gradient(self) -> LinearGradient {
        *self.gradient
    }

    /// The number of steps handed out so far.
    pub closed spec fn taken(self) -> int {
        self.current as int
    }

    /// The number of steps in all.
    pub closed spec fn total(self) -> int {
        self.count as int
    }

    /// Whether the steps can be handed out: there is more than one, or
    /// none, and no more were taken than there are.
    pub open spec fn wf(self) -> bool {
        self.total() != 1 && self.taken() <= self.total()
    }

    /// The next color, or `None` once all steps were handed out. Step
    /// `i` of `n` is the color of the gradient at `i / (n - 1)`.
    pub fn next(&mut self) -> (c: Option<RGBColor>)
        requires
            old(self).wf(),
        ensures
            final(self).wf(),
            final(self).gradient() == old(self).gradient(),
            final(self).total() == old(self).total(),
            old(self).taken() < old(self).total() ==> {
                &&& final(self).taken() == old(self).taken() + 1
                &&& c == Some(
                    old(self).gradient().color_at(old(self).taken(), old(self).total() - 1),
                )
            },
            old(self).taken() >= old(self).total() ==> {
                &&& final(self).taken() == old(self).taken()
                &&& c is None
            },
    {
        if self.current < self.count {
            let step = self.current as u64;
            let last = (self.count - 1) as u64;
            self.current += 1;
            Some(self.gradient.blend(step, last))
        } else {
            None
        }
    }
}

impl LinearGradient {
    /// The colors of the gradient at `count` evenly spaced factors, the
    /// first at the start and the last at the end. A single step has no
    /// factor, so `count` is not 1.
    pub fn steps(&self, count: usize) -> (s: LinearGradientSteps<'_>)
        requires
            count != 1,
        ensures
            s.wf(),
            s.gradient() == *self,
            s.taken() == 0,
            s.total() == count,
    {
        LinearGradientSteps { gradient: self, current: 0, count }
    }
}

} // verus!
