use vstd::prelude::*;

verus! {

/// Largest magnitude accepted for a coordinate or a canvas height.
pub const COORD_BOUND: i64 = 1_000_000_000_000;

/// A point on a canvas whose vertical extent is `height`.
///
/// `x` and `y` are held in the math frame, where y grows upward. The output
/// frame, where y grows downward, is obtained by flipping y about `height`.
/// All quantities are integers in one unit chosen by the caller.
#[derive(Clone, Copy, Debug, PartialEq, Eq, Structural)]
pub struct Position {
    pub x: i64,
    pub y: i64,
    pub height: i64,
}

/// The y-flip of `p` about its canvas height.
pub open spec fn flipped(p: Position) -> Position {
    Position { x: p.x, y: (p.height - p.y) as i64, height: p.height }
}

/// The math-frame point `p` seen in the output frame.
pub open spec fn to_output_spec(p: Position) -> Position {
    flipped(p)
}

/// The output-frame point `p` seen in the math frame.
pub open spec fn to_output_inverse_spec(p: Position) -> Position {
    flipped(p)
}

impl Position {
    /// Every component lies within `COORD_BOUND`, and the height is not negative.
    pub open spec fn wf(self) -> bool {
        &&& -COORD_BOUND <= self.x <= COORD_BOUND
        &&& -COORD_BOUND <= self.y <= COORD_BOUND
        &&& 0 <= self.height <= COORD_BOUND
    }

    pub fn new(x: i64, y: i64, height: i64) -> (r: Self)
        ensures
            r.x == x,
            r.y == y,
            r.height == height,
    {
        Position { x, y, height }
    }

    /// Horizontal coordinate in the output frame.
    pub fn x(self) -> (r: i64)
        ensures
            r == self.x,
    {
        self.x
    }

    /// Vertical coordinate in the output frame.
    pub fn y(self) -> (r: i64)
        requires
            self.wf(),
        ensures
            r == self.height - self.y,
    {
        self.height - self.y
    }

    /// Sum of two points drawn on the same canvas.
    pub fn add(self, rhs: Self) -> (r: Self)
        requires
            self.height == rhs.height,
            i64::MIN <= self.x + rhs.x <= i64::MAX,
            i64::MIN <= self.y + rhs.y <= i64::MAX,
        ensures
            r.x == self.x + rhs.x,
            r.y == self.y + rhs.y,
            r.height == self.height,
    {
        Position::new(self.x + rhs.x, self.y + rhs.y, self.height)
    }

    /// The point scaled by `rhs` on both axes; the canvas is kept.
    pub fn mul(self, rhs: i64) -> (r: Self)
        requires
            i64::MIN <= self.x * rhs <= i64::MAX,
            i64::MIN <= self.y * rhs <= i64::MAX,
        ensures
            r.x == self.x * rhs,
            r.y == self.y * rhs,
            r.height == self.height,
    {
        Position::new(self.x * rhs, self.y * rhs, self.height)
    }

    /// This math-frame point expressed in the output frame.
    pub fn to_output(self) -> (r: Self)
        requires
            self.wf(),
        ensures
            r == to_output_spec(self),
    {
        Position::new(self.x, self.height - self.y, self.height)
    }

    /// This output-frame point expressed in the math frame.
    pub fn to_output_inverse(self) -> (r: Self)
        requires
            self.wf(),
        ensures
            r == to_output_inverse_spec(self),
    {
        Position::new(self.x, self.height - self.y, self.height)
    }
}

/// Converting a point out of the output frame and back into it gives the point
/// unchanged: the y-flip is its own inverse.
pub proof fn lemma_output_round_trip(p: Position)
    requires
        p.wf(),
    ensures
        to_output_spec(to_output_inverse_spec(p)) == p,
        to_output_inverse_spec(to_output_spec(p)) == p,
{
}

} // verus!
