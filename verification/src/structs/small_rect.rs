use vstd::prelude::*;
use vstd::std_specs::ops::DivSpecImpl;
use vstd::std_specs::ops::MulSpecImpl;

verus! {

/// The coordinates of the upper left and lower right corners of a
/// rectangle. It has the fields of the native `SMALL_RECT`.
#[derive(Debug, Copy, Clone, Eq, PartialEq, Ord, PartialOrd, Hash)]
pub struct SmallRect {
    pub left: i16,
    pub top: i16,
    pub right: i16,
    pub bottom: i16,
}

impl Default for SmallRect {
    /// The rectangle whose four coordinates are zero.
    fn default() -> (r: SmallRect)
        ensures
            r == (SmallRect { left: 0, top: 0, right: 0, bottom: 0 }),
    {
        SmallRect { left: 0, top: 0, right: 0, bottom: 0 }
    }
}

/// Whether `value * factor` is an `i16`.
pub open spec fn product_fits(value: i16, factor: i16) -> bool {
    i16::MIN <= value * factor <= i16::MAX
}

/// Whether `value / divisor` is defined and is an `i16`.
pub open spec fn quotient_fits(value: i16, divisor: i16) -> bool {
    divisor != 0 && !(value == i16::MIN && divisor == -1)
}

impl SmallRect {
    /// Creates a new `SmallRect`.
    #[inline]
    pub fn new(left: i16, top: i16, right: i16, bottom: i16) -> (r: Self)
        ensures
            r == (SmallRect { left, top, right, bottom }),
    {
        SmallRect { left, top, right, bottom }
    }

    /// Creates a `SmallRect` from this instance with a new `left` value.
    #[inline]
    pub fn with_left(&self, left: i16) -> (r: Self)
        ensures
            r == (SmallRect { left, ..*self }),
    {
        SmallRect { left, top: self.top, right: self.right, bottom: self.bottom }
    }

    /// Creates a `SmallRect` from this instance with a new `top` value.
    #[inline]
    pub fn with_top(&self, top: i16) -> (r: Self)
        ensures
            r == (SmallRect { top, ..*self }),
    {
        SmallRect { left: self.left, top, right: self.right, bottom: self.bottom }
    }

    /// Creates a `SmallRect` from this instance with a new `right` value.
    #[inline]
    pub fn with_right(&self, right: i16) -> (r: Self)
        ensures
            r == (SmallRect { right, ..*self }),
    {
        SmallRect { left: self.left, top: self.top, right, bottom: self.bottom }
    }

    /// Creates a `SmallRect` from this instance with a new `bottom` value.
    #[inline]
    pub fn with_bottom(&self, bottom: i16) -> (r: Self)
        ensures
            r == (SmallRect { bottom, ..*self }),
    {
        SmallRect { left: self.left, top: self.top, right: self.right, bottom }
    }
}

impl core::ops::Mul<i16> for SmallRect {
    type Output = SmallRect;

    /// Multiplies each of the four coordinates by `rhs`.
    #[inline]
    fn mul(self, rhs: i16) -> (r: SmallRect) {
        SmallRect {
            left: self.left * rhs,
            top: self.top * rhs,
            right: self.right * rhs,
            bottom: self.bottom * rhs,
        }
    }
}

impl MulSpecImpl<i16> for SmallRect {
    open spec fn obeys_mul_spec() -> bool {
        true
    }

    open spec fn mul_req(self, rhs: i16) -> bool {
        &&& product_fits(self.left, rhs)
        &&& product_fits(self.top, rhs)
        &&& product_fits(self.right, rhs)
        &&& product_fits(self.bottom, rhs)
    }

    open spec fn mul_spec(self, rhs: i16) -> SmallRect {
        SmallRect {
            left: (self.left * rhs) as i16,
            top: (self.top * rhs) as i16,
            right: (self.right * rhs) as i16,
            bottom: (self.bottom * rhs) as i16,
        }
    }
}

/// The size of `value`, without its sign.
pub open spec fn magnitude(value: i16) -> int {
    if value < 0 {
        -(value as int)
    } else {
        value as int
    }
}

/// The quotient of `value` by `divisor` rounded toward zero: the quotient
/// of the magnitudes, negative where exactly one of the two is negative.
pub open spec fn quotient(value: i16, divisor: i16) -> int {
    if (value < 0) == (divisor < 0) {
        magnitude(value) / magnitude(divisor)
    } else {
        -(magnitude(value) / magnitude(divisor))
    }
}

/// Divides one coordinate, rounding toward zero.
fn div_toward_zero(value: i16, divisor: i16) -> (r: i16)
    requires
        quotient_fits(value, divisor),
    ensures
        r == quotient(value, divisor),
{
    let a: i32 = if value < 0 { -(value as i32) } else { value as i32 };
    let b: i32 = if divisor < 0 { -(divisor as i32) } else { divisor as i32 };
    let m: i32 = a / b;
    assert(0 <= m <= a && (b >= 2 ==> 2 * m <= a)) by (nonlinear_arith)
        requires
            0 <= a,
            1 <= b,
            m == a / b,
    ;
    if (value < 0) == (divisor < 0) {
        m as i16
    } else {
        (-m) as i16
    }
}

impl core::ops::Div<i16> for SmallRect {
    type Output = SmallRect;

    /// Divides each of the four coordinates by `rhs`, rounding toward zero.
    #[inline]
    fn div(self, rhs: i16) -> (r: SmallRect) {
        SmallRect {
            left: div_toward_zero(self.left, rhs),
            top: div_toward_zero(self.top, rhs),
            right: div_toward_zero(self.right, rhs),
            bottom: div_toward_zero(self.bottom, rhs),
        }
    }
}

impl DivSpecImpl<i16> for SmallRect {
    open spec fn obeys_div_spec() -> bool {
        true
    }

    open spec fn div_req(self, rhs: i16) -> bool {
        &&& quotient_fits(self.left, rhs)
        &&& quotient_fits(self.top, rhs)
        &&& quotient_fits(self.right, rhs)
        &&& quotient_fits(self.bottom, rhs)
    }

    open spec fn div_spec(self, rhs: i16) -> SmallRect {
        SmallRect {
            left: quotient(self.left, rhs) as i16,
            top: quotient(self.top, rhs) as i16,
            right: quotient(self.right, rhs) as i16,
            bottom: quotient(self.bottom, rhs) as i16,
        }
    }
}

} // verus!
