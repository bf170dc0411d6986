//! Geometry primitives: pixel lengths, relative lengths, points, sizes, bounds
//! and corner radii.
//!
//! All quantities are integers. A [`Pixels`] value counts whole
//! device-independent pixels, a [`Rems`] value counts hundredths of the root
//! font size, and a [`DefiniteLength::Fraction`] counts thousandths of the
//! parent's extent.

use vstd::prelude::*;

verus! {

/// A length in whole device-independent pixels.
#[derive(Clone, Copy, Debug, PartialEq, Eq, Structural)]
pub struct Pixels(pub i32);

/// A length relative to the root font size, in hundredths of it.
#[derive(Clone, Copy, Debug, PartialEq, Eq, Structural)]
pub struct Rems(pub i32);

/// A length that does not depend on the parent: pixels or rems.
#[derive(Clone, Copy, Debug, PartialEq, Eq, Structural)]
pub enum AbsoluteLength {
    Pixels(Pixels),
    Rems(Rems),
}

/// A length that is known once the parent and the root font size are known.
#[derive(Clone, Copy, Debug, PartialEq, Eq, Structural)]
pub enum DefiniteLength {
    Absolute(AbsoluteLength),
    /// Thousandths of the parent's extent along the same axis.
    Fraction(u32),
}

/// A length as a style states it.
#[derive(Clone, Copy, Debug, PartialEq, Eq, Structural)]
pub enum Length {
    Definite(DefiniteLength),
    Auto,
}

/// A position.
#[derive(Clone, Copy, Debug, PartialEq, Eq)]
pub struct Point<T> {
    pub x: T,
    pub y: T,
}

/// An extent along both axes.
#[derive(Clone, Copy, Debug, PartialEq, Eq)]
pub struct Size<T> {
    pub width: T,
    pub height: T,
}

/// A box: where it starts and how far it extends.
#[derive(Clone, Copy, Debug, PartialEq, Eq)]
pub struct Bounds<T> {
    pub origin: Point<T>,
    pub size: Size<T>,
}

/// One value for each corner of a box.
#[derive(Clone, Copy, Debug, PartialEq, Eq)]
pub struct Corners<T> {
    pub top_left: T,
    pub top_right: T,
    pub bottom_right: T,
    pub bottom_left: T,
}

/// The quotient of `a` by a positive `d`, rounded toward zero.
pub open spec fn quotient_toward_zero(a: int, d: int) -> int {
    if a >= 0 {
        a / d
    } else {
        -((-a) / d)
    }
}

/// The value of `i32` nearest to `v`.
pub open spec fn nearest_i32(v: int) -> int {
    if v < i32::MIN {
        i32::MIN as int
    } else if v > i32::MAX {
        i32::MAX as int
    } else {
        v
    }
}

/// The pixel count of `hundredths` rems at a root font size of `rem_size`
/// pixels: the product over one hundred, rounded toward zero and held to the
/// range of `i32`.
pub open spec fn rems_in_pixels(hundredths: int, rem_size: int) -> int {
    nearest_i32(quotient_toward_zero(hundredths * rem_size, 100))
}

/// The smaller of two integers.
pub open spec fn min_int(a: int, b: int) -> int {
    if a <= b {
        a
    } else {
        b
    }
}

/// The larger of two integers.
pub open spec fn max_int(a: int, b: int) -> int {
    if a >= b {
        a
    } else {
        b
    }
}

/// The largest radius a corner of a box of the given size is painted with:
/// half of the longer side, rounded toward zero.
pub open spec fn radius_limit(size: Size<Pixels>) -> int {
    quotient_toward_zero(max_int(size.width.0 as int, size.height.0 as int), 2)
}

/// A length of `pixels` pixels.
pub fn px(pixels: i32) -> (r: Pixels)
    ensures
        r == Pixels(pixels),
{
    Pixels(pixels)
}

/// A length of `hundredths` hundredths of the root font size.
pub fn rems(hundredths: i32) -> (r: Rems)
    ensures
        r == Rems(hundredths),
{
    Rems(hundredths)
}

/// A length of `thousandths` thousandths of the parent's extent.
pub fn relative(thousandths: u32) -> (r: Length)
    ensures
        r == Length::Definite(DefiniteLength::Fraction(thousandths)),
{
    Length::Definite(DefiniteLength::Fraction(thousandths))
}

/// The position at `x` and `y`.
pub fn point<T>(x: T, y: T) -> (r: Point<T>)
    ensures
        r == (Point { x, y }),
{
    Point { x, y }
}

/// The extent of `width` by `height`.
pub fn size<T>(width: T, height: T) -> (r: Size<T>)
    ensures
        r == (Size { width, height }),
{
    Size { width, height }
}

fn halve_toward_zero(v: i32) -> (r: i32)
    ensures
        r == quotient_toward_zero(v as int, 2),
{
    if v >= 0 {
        v / 2
    } else if v == i32::MIN {
        let half: i32 = i32::MAX / 2;
        -half - 1
    } else {
        let positive: i32 = -v;
        -(positive / 2)
    }
}

impl Pixels {
    /// The number of pixels.
    pub open spec fn value(self) -> int {
        self.0 as int
    }

    /// The smaller of two lengths.
    pub fn min(self, other: Pixels) -> (r: Pixels)
        ensures
            r.value() == min_int(self.value(), other.value()),
    {
        if self.0 <= other.0 {
            self
        } else {
            other
        }
    }

    /// The larger of two lengths.
    pub fn max(self, other: Pixels) -> (r: Pixels)
        ensures
            r.value() == max_int(self.value(), other.value()),
    {
        if self.0 >= other.0 {
            self
        } else {
            other
        }
    }
}

impl Rems {
    /// Resolves this length against the root font size.
    pub fn to_pixels(self, rem_size: Pixels) -> (r: Pixels)
        ensures
            r.value() == rems_in_pixels(self.0 as int, rem_size.value()),
    {
        let hundredths: i64 = self.0 as i64;
        let root: i64 = rem_size.0 as i64;
        assert(-0x4000_0000_0000_0000 <= hundredths * root <= 0x4000_0000_0000_0000)
            by (nonlinear_arith)
            requires
                -0x8000_0000 <= hundredths <= 0x7fff_ffff,
                -0x8000_0000 <= root <= 0x7fff_ffff,
        ;
        let product: i64 = hundredths * root;
        let quotient: i64 = if product >= 0 {
            product / 100
        } else {
            let positive: i64 = -product;
            -(positive / 100)
        };
        if quotient < i32::MIN as i64 {
            Pixels(i32::MIN)
        } else if quotient > i32::MAX as i64 {
            Pixels(i32::MAX)
        } else {
            Pixels(quotient as i32)
        }
    }
}

impl AbsoluteLength {
    /// The pixel count this length resolves to at the given root font size.
    pub open spec fn resolved(self, rem_size: Pixels) -> int {
        match self {
            AbsoluteLength::Pixels(p) => p.value(),
            AbsoluteLength::Rems(r) => rems_in_pixels(r.0 as int, rem_size.value()),
        }
    }

    /// Resolves this length against the root font size.
    pub fn to_pixels(self, rem_size: Pixels) -> (r: Pixels)
        ensures
            r.value() == self.resolved(rem_size),
    {
        match self {
            AbsoluteLength::Pixels(p) => p,
            AbsoluteLength::Rems(r) => r.to_pixels(rem_size),
        }
    }
}

impl Corners<AbsoluteLength> {
    /// The radii in pixels for a box of size `size` at the given root font
    /// size: each corner resolved, and none above [`radius_limit`].
    pub open spec fn resolved(self, size: Size<Pixels>, rem_size: Pixels) -> Corners<Pixels> {
        Corners {
            top_left: Pixels(
                min_int(self.top_left.resolved(rem_size), radius_limit(size)) as i32,
            ),
            top_right: Pixels(
                min_int(self.top_right.resolved(rem_size), radius_limit(size)) as i32,
            ),
            bottom_right: Pixels(
                min_int(self.bottom_right.resolved(rem_size), radius_limit(size)) as i32,
            ),
            bottom_left: Pixels(
                min_int(self.bottom_left.resolved(rem_size), radius_limit(size)) as i32,
            ),
        }
    }

    /// Resolves the four radii for a box of size `size`.
    pub fn to_pixels(&self, size: Size<Pixels>, rem_size: Pixels) -> (r: Corners<Pixels>)
        ensures
            r == self.resolved(size, rem_size),
    {
        let limit = Pixels(halve_toward_zero(size.width.max(size.height).0));
        Corners {
            top_left: self.top_left.to_pixels(rem_size).min(limit),
            top_right: self.top_right.to_pixels(rem_size).min(limit),
            bottom_right: self.bottom_right.to_pixels(rem_size).min(limit),
            bottom_left: self.bottom_left.to_pixels(rem_size).min(limit),
        }
    }
}

impl Bounds<Pixels> {
    /// Whether `p` lies in the box: on or after the origin and before the far
    /// edges. A box without area holds no point.
    pub open spec fn holds(self, p: Point<Pixels>) -> bool {
        &&& self.origin.x.value() <= p.x.value() < self.origin.x.value() + self.size.width.value()
        &&& self.origin.y.value() <= p.y.value() < self.origin.y.value()
            + self.size.height.value()
    }

    /// Whether `p` lies in the box.
    pub fn contains_point(&self, p: Point<Pixels>) -> (r: bool)
        ensures
            r == self.holds(p),
    {
        let left: i64 = self.origin.x.0 as i64;
        let top: i64 = self.origin.y.0 as i64;
        let right: i64 = left + self.size.width.0 as i64;
        let bottom: i64 = top + self.size.height.0 as i64;
        let x: i64 = p.x.0 as i64;
        let y: i64 = p.y.0 as i64;
        left <= x && x < right && top <= y && y < bottom
    }

    /// Whether the box has a negative extent along an axis.
    pub open spec fn inverted(self) -> bool {
        self.size.width.value() < 0 || self.size.height.value() < 0
    }

    /// Whether the box has a negative extent along an axis.
    pub fn is_inverted(&self) -> (r: bool)
        ensures
            r == self.inverted(),
    {
        self.size.width.0 < 0 || self.size.height.0 < 0
    }
}

} // verus!
