use vstd::prelude::*;

verus! {

/// The position of a character cell in the console screen buffer, whose
/// origin is (0, 0). It has the fields of the native `COORD`.
#[derive(Copy, Clone, Debug, Eq, PartialEq, PartialOrd, Hash)]
pub struct Coord {
    /// x axis position
    pub x: i16,
    /// y axis position
    pub y: i16,
}

impl Coord {
    /// The coord whose x and y are zero.
    #[inline]
    pub fn zero() -> (r: Coord)
        ensures
            r == (Coord { x: 0, y: 0 }),
    {
        Coord { x: 0, y: 0 }
    }

    /// Creates a coord with the given x and y.
    #[inline]
    pub fn new(x: i16, y: i16) -> (r: Coord)
        ensures
            r == (Coord { x, y }),
    {
        Coord { x, y }
    }

    /// Gets this `Coord` with a new `x` value.
    #[inline]
    pub fn with_x(&self, x: i16) -> (r: Coord)
        ensures
            r == (Coord { x, y: self.y }),
    {
        Coord { x, y: self.y }
    }

    /// Gets this `Coord` with a new `y` value.
    #[inline]
    pub fn with_y(&self, y: i16) -> (r: Coord)
        ensures
            r == (Coord { x: self.x, y }),
    {
        Coord { x: self.x, y }
    }
}

impl Default for Coord {
    /// The coord whose x and y are zero.
    fn default() -> (r: Coord)
        ensures
            r == (Coord { x: 0, y: 0 }),
    {
        Coord { x: 0, y: 0 }
    }
}

} // verus!
