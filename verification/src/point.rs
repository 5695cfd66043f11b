//! Points of the plane.

use vstd::prelude::*;
use crate::scalar::Scalar;

verus! {

/// A point of the plane, by its two coordinates.
///
/// The derived `==` compares representations. Two positions are compared with
/// [`Point2D::same_as`].
#[derive(Clone, Copy, Debug, PartialEq, Eq, Structural)]
pub struct Point2D {
    pub x: Scalar,
    pub y: Scalar,
}

impl Point2D {
    /// Equality of positions: both coordinates hold the same number.
    pub open spec fn spec_same_as(self, other: Point2D) -> bool {
        self.x.spec_same_value(other.x) && self.y.spec_same_value(other.y)
    }

    /// Both coordinates are numbers, so that the point equals itself.
    pub open spec fn comparable(self) -> bool {
        !self.x.spec_is_nan() && !self.y.spec_is_nan()
    }

    /// The point with the coordinates `x` and `y`.
    pub fn new(x: Scalar, y: Scalar) -> (p: Point2D)
        ensures
            p == (Point2D { x, y }),
    {
        Point2D { x, y }
    }

    /// Whether this and `other` are at the same position.
    #[verifier::when_used_as_spec(spec_same_as)]
    pub fn same_as(self, other: Point2D) -> (r: bool)
        ensures
            r == self.spec_same_as(other),
    {
        self.x.same_value(other.x) && self.y.same_value(other.y)
    }
}

} // verus!
