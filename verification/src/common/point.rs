//! Positions tagged with the corner of a rectangle that they designate.

use vstd::prelude::*;

use crate::common::square::{Dims, Square};

verus! {

/// The corner of a rectangle that a position designates.
#[derive(Debug, Clone, Copy, PartialEq, Eq, Structural)]
pub enum Origin {
    /// The corner every drawing starts from.
    TopLeft,
    TopRight,
    BottomRight,
    BottomLeft,
}

/// Mathematical model of a [`Point`]: a position in the unbounded plane
/// together with the corner it stands for.
pub struct Anchor {
    pub x: int,
    pub y: int,
    pub origin: Origin,
}

impl Anchor {
    /// The anchor at `(x, y)` that stands for a top-left corner.
    pub open spec fn at(x: int, y: int) -> Anchor {
        Anchor { x, y, origin: Origin::TopLeft }
    }

    pub open spec fn shift_xy(self, dx: int, dy: int) -> Anchor {
        Anchor { x: self.x + dx, y: self.y + dy, origin: self.origin }
    }

    pub open spec fn shift_x(self, dx: int) -> Anchor {
        self.shift_xy(dx, 0)
    }

    pub open spec fn shift_y(self, dy: int) -> Anchor {
        self.shift_xy(0, dy)
    }

    /// The same position, read as another corner.
    pub open spec fn with_origin(self, origin: Origin) -> Anchor {
        Anchor { x: self.x, y: self.y, origin }
    }

    /// Top-left corner of the rectangle of size `dims` whose corner
    /// `self.origin` lies at `(self.x, self.y)`.
    pub open spec fn top_left(self, dims: Dims) -> Anchor {
        match self.origin {
            Origin::TopLeft => Anchor::at(self.x, self.y),
            Origin::TopRight => Anchor::at(self.x - dims.w, self.y),
            Origin::BottomRight => Anchor::at(self.x - dims.w, self.y - dims.h),
            Origin::BottomLeft => Anchor::at(self.x, self.y - dims.h),
        }
    }

    /// Corner `origin` of the rectangle of size `dims` whose top-left corner
    /// lies at `(self.x, self.y)`. The tag of `self` is not read.
    pub open spec fn corner(self, dims: Dims, origin: Origin) -> Anchor {
        match origin {
            Origin::TopLeft => Anchor { x: self.x, y: self.y, origin },
            Origin::TopRight => Anchor { x: self.x + dims.w, y: self.y, origin },
            Origin::BottomRight => Anchor { x: self.x + dims.w, y: self.y + dims.h, origin },
            Origin::BottomLeft => Anchor { x: self.x, y: self.y + dims.h, origin },
        }
    }

    /// Componentwise maximum of the two positions, under the tag of `self`.
    pub open spec fn max_with(self, other: Anchor) -> Anchor {
        Anchor {
            x: if self.x < other.x { other.x } else { self.x },
            y: if self.y < other.y { other.y } else { self.y },
            origin: self.origin,
        }
    }

    /// The position, raised to the corner `(0, 0)` of the sheet in every
    /// coordinate in which it lies before that corner. The tag stays.
    pub open spec fn raised(self) -> Anchor {
        self.max_with(Anchor::at(0, 0))
    }

    /// Both coordinates can be held by a [`Point`].
    pub open spec fn fits(self) -> bool {
        &&& i64::MIN <= self.x <= i64::MAX
        &&& i64::MIN <= self.y <= i64::MAX
    }

    /// Neither coordinate exceeds `bound` in magnitude.
    pub open spec fn within(self, bound: int) -> bool {
        &&& -bound <= self.x <= bound
        &&& -bound <= self.y <= bound
    }
}

/// A position on the sheet, tagged with the corner of a rectangle that it
/// designates.
#[derive(Debug, Clone, Copy, PartialEq, Eq, Structural)]
pub struct Point {
    pub x: i64,
    pub y: i64,
    pub origin: Origin,
}

impl View for Point {
    type V = Anchor;

    open spec fn view(&self) -> Anchor {
        Anchor { x: self.x as int, y: self.y as int, origin: self.origin }
    }
}

impl Point {
    pub fn new(x: i64, y: i64) -> (r: Self)
        ensures
            r@ == Anchor::at(x as int, y as int),
    {
        Self { x, y, origin: Origin::TopLeft }
    }

    /// Moves the point by the coordinates of `delta`; the tag of `delta` is
    /// not read.
    pub fn shift_with(&self, delta: Self) -> (r: Self)
        requires
            self@.shift_xy(delta.x as int, delta.y as int).fits(),
        ensures
            r@ == self@.shift_xy(delta.x as int, delta.y as int),
    {
        Self { x: self.x + delta.x, y: self.y + delta.y, origin: self.origin }
    }

    pub fn shift_xy(&self, delta_x: i64, delta_y: i64) -> (r: Self)
        requires
            self@.shift_xy(delta_x as int, delta_y as int).fits(),
        ensures
            r@ == self@.shift_xy(delta_x as int, delta_y as int),
    {
        Self { x: self.x + delta_x, y: self.y + delta_y, origin: self.origin }
    }

    pub fn shift_x(&self, delta_x: i64) -> (r: Self)
        requires
            self@.shift_x(delta_x as int).fits(),
        ensures
            r@ == self@.shift_x(delta_x as int),
    {
        Self { x: self.x + delta_x, y: self.y, origin: self.origin }
    }

    /// Moves the point to the left by `x`.
    pub fn shift_nx(&self, x: i64) -> (r: Self)
        requires
            self@.shift_x(-(x as int)).fits(),
        ensures
            r@ == self@.shift_x(-(x as int)),
    {
        Self { x: self.x - x, y: self.y, origin: self.origin }
    }

    pub fn shift_y(&self, delta_y: i64) -> (r: Self)
        requires
            self@.shift_y(delta_y as int).fits(),
        ensures
            r@ == self@.shift_y(delta_y as int),
    {
        Self { x: self.x, y: self.y + delta_y, origin: self.origin }
    }

    /// Moves the point up by `y`.
    pub fn shift_ny(&self, y: i64) -> (r: Self)
        requires
            self@.shift_y(-(y as int)).fits(),
        ensures
            r@ == self@.shift_y(-(y as int)),
    {
        Self { x: self.x, y: self.y - y, origin: self.origin }
    }

    /// The same position, read as another corner.
    pub fn origin(&self, origin: Origin) -> (r: Self)
        ensures
            r@ == self@.with_origin(origin),
    {
        Self { x: self.x, y: self.y, origin }
    }

    /// Top-left corner of the rectangle `square` whose tagged corner lies at
    /// this point.
    pub fn align_top_left(&self, square: Square) -> (r: Self)
        requires
            self@.top_left(square@).fits(),
        ensures
            r@ == self@.top_left(square@),
    {
        match self.origin {
            Origin::TopLeft => Self { x: self.x, y: self.y, origin: Origin::TopLeft },
            Origin::TopRight => Self { x: self.x - square.w, y: self.y, origin: Origin::TopLeft },
            Origin::BottomRight => Self {
                x: self.x - square.w,
                y: self.y - square.h,
                origin: Origin::TopLeft,
            },
            Origin::BottomLeft => Self { x: self.x, y: self.y - square.h, origin: Origin::TopLeft },
        }
    }

    /// Raises each coordinate to that of `input` where `input` lies further
    /// out. The tag stays.
    pub fn update_max(&mut self, input: Point)
        ensures
            final(self)@ == old(self)@.max_with(input@),
    {
        if self.x < input.x {
            self.x = input.x;
        }
        if self.y < input.y {
            self.y = input.y;
        }
    }
}

/// Resolving an anchor to the top-left corner and taking the tagged corner
/// of that rectangle again gives the anchor back.
pub proof fn lemma_top_left_then_corner(a: Anchor, dims: Dims)
    ensures
        a.top_left(dims).corner(dims, a.origin) == a,
{
}

/// Taking any corner of the rectangle at a top-left position and resolving
/// it gives the top-left position back: per corner, resolution is one to
/// one and onto.
pub proof fn lemma_corner_then_top_left(t: Anchor, dims: Dims, origin: Origin)
    ensures
        t.corner(dims, origin).top_left(dims) == Anchor::at(t.x, t.y),
        t.corner(dims, origin).origin == origin,
{
}

/// Two anchors with the same tag that resolve to the same top-left corner
/// are the same anchor.
pub proof fn lemma_top_left_injective(a: Anchor, b: Anchor, dims: Dims)
    requires
        a.origin == b.origin,
        a.top_left(dims) == b.top_left(dims),
    ensures
        a == b,
{
}

/// Shifts move the position and keep the tag; shifts along one axis
/// commute and add up.
pub proof fn lemma_shift_composes(a: Anchor, dx1: int, dy1: int, dx2: int, dy2: int)
    ensures
        a.shift_xy(dx1, dy1).shift_xy(dx2, dy2) == a.shift_xy(dx1 + dx2, dy1 + dy2),
        a.shift_xy(dx1, dy1).origin == a.origin,
        a.shift_x(dx1).shift_y(dy1) == a.shift_xy(dx1, dy1),
        a.shift_xy(0, 0) == a,
{
}

} // verus!
