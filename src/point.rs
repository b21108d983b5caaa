use vstd::prelude::*;

verus! {

/// An integer 2D vector: a position, a velocity or a size.
/// `width` is the horizontal axis (columns), `height` the vertical one (rows).
#[derive(Clone, Copy, Debug, PartialEq, Eq, Structural)]
pub struct Point {
    pub width: i64,
    pub height: i64,
}

/// Both components lie in the range of `i64`.
pub open spec fn fits_i64(v: int) -> bool {
    i64::MIN <= v <= i64::MAX
}

impl Point {
    pub fn new(width: i64, height: i64) -> (r: Point)
        ensures
            r.width == width,
            r.height == height,
    {
        Point { width, height }
    }

    /// Component-wise sum.
    pub fn add(self, other: Point) -> (r: Point)
        requires
            fits_i64(self.width + other.width),
            fits_i64(self.height + other.height),
        ensures
            r.width == self.width + other.width,
            r.height == self.height + other.height,
    {
        Point { width: self.width + other.width, height: self.height + other.height }
    }

    /// Component-wise difference.
    pub fn sub(self, other: Point) -> (r: Point)
        requires
            fits_i64(self.width - other.width),
            fits_i64(self.height - other.height),
        ensures
            r.width == self.width - other.width,
            r.height == self.height - other.height,
    {
        Point { width: self.width - other.width, height: self.height - other.height }
    }

    /// Component-wise division of non-negative components by positive ones
    /// (floor division).
    pub fn div(self, other: Point) -> (r: Point)
        requires
            self.width >= 0,
            self.height >= 0,
            other.width > 0,
            other.height > 0,
        ensures
            r.width == self.width / other.width,
            r.height == self.height / other.height,
    {
        Point { width: self.width / other.width, height: self.height / other.height }
    }

    /// The same point moved `amount` along the horizontal axis.
    pub fn add_width(self, amount: i64) -> (r: Point)
        requires
            fits_i64(self.width + amount),
        ensures
            r.width == self.width + amount,
            r.height == self.height,
    {
        Point { width: self.width + amount, height: self.height }
    }

    /// The same point moved `amount` along the vertical axis.
    pub fn add_height(self, amount: i64) -> (r: Point)
        requires
            fits_i64(self.height + amount),
        ensures
            r.width == self.width,
            r.height == self.height + amount,
    {
        Point { width: self.width, height: self.height + amount }
    }
}

/// Adding a point and then subtracting it again gives back the first
/// point, on each axis.
pub proof fn lemma_add_sub_inverse(a: Point, b: Point)
    requires
        fits_i64(a.width + b.width),
        fits_i64(a.height + b.height),
    ensures
        ({
            let s = Point { width: (a.width + b.width) as i64, height: (a.height + b.height) as i64 };
            &&& fits_i64(s.width - b.width)
            &&& fits_i64(s.height - b.height)
            &&& (Point { width: (s.width - b.width) as i64, height: (s.height - b.height) as i64 }) == a
        }),
{
}

} // verus!
