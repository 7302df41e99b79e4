//! The panel engine shared by every box model: edge kinds, anchors,
//! panels and the accumulated drawing.

use vstd::prelude::*;

pub mod drawing;
pub mod hinged_lid;
pub mod output;
pub mod point;
pub mod square;
pub mod units;

pub use drawing::{draw_line, DrawResult, Drawing, Line, Segment};
pub use hinged_lid::HingedLid;
pub use point::{Anchor, Origin, Point};
pub use square::{Borders, Dims, Panel, Square, SquareElement};

verus! {

/// Length units in one millimetre.
pub const UNITS_PER_MM: i64 = 1000;

/// Margin kept free around a drawing, on every side.
pub const VIEWPORT_OFFSET: i64 = 5 * UNITS_PER_MM;

/// File name of a drawing that was given none.
pub const DEFAULT_FILE_NAME: &'static str = "LaserCutBox.svg";

/// Width of the stroke with which a line is drawn: a fifth of a millimetre.
pub const STROKE_WIDTH: i64 = 200;

/// Largest magnitude of a sizing parameter that the box models accept.
pub const MAX_DIMENSION: i64 = 1_000_000_000_000;

/// Largest magnitude of a cursor coordinate from which the box models draw.
pub const MAX_COORDINATE: i64 = 1_000_000_000_000_000;

/// How one edge of a panel is treated by the laser.
#[derive(Debug, Clone, Copy, PartialEq, Eq, Structural)]
pub enum CutType {
    /// The edge is left out of the drawing.
    Nope,
    /// The edge is cut through.
    Cut,
    /// The edge is scored so that the material bends along it.
    Bend,
}

impl CutType {
    /// Whether an edge of this kind is drawn at all.
    pub open spec fn renderable(self) -> bool {
        self != CutType::Nope
    }

    /// Name of the colour in which an edge of this kind is drawn: black for
    /// a cut, green for a fold. An edge that is not drawn has the colour
    /// of the sheet.
    pub open spec fn stroke_name(self) -> Seq<char> {
        match self {
            CutType::Nope => "white"@,
            CutType::Cut => "black"@,
            CutType::Bend => "green"@,
        }
    }

    /// Name of the colour in which an edge of this kind is drawn.
    pub fn stroke(&self) -> (r: &'static str)
        ensures
            r@ == self.stroke_name(),
    {
        match self {
            CutType::Nope => "white",
            CutType::Cut => "black",
            CutType::Bend => "green",
        }
    }

    pub fn is_cuttable(&self) -> (b: bool)
        ensures
            b == self.renderable(),
    {
        match self {
            CutType::Bend | CutType::Cut => true,
            CutType::Nope => false,
        }
    }
}

/// A sizing parameter that the box models accept.
pub open spec fn dimension_ok(v: int) -> bool {
    -MAX_DIMENSION <= v <= MAX_DIMENSION
}

/// Whether a sizing parameter is one that the box models accept.
pub fn is_dimension(v: i64) -> (b: bool)
    ensures
        b == dimension_ok(v as int),
{
    -MAX_DIMENSION <= v && v <= MAX_DIMENSION
}

/// Quotient of `x` by two, rounded toward zero.
pub open spec fn half(x: int) -> int {
    if x >= 0 {
        x / 2
    } else {
        -((-x) / 2)
    }
}

/// Halves a length, rounding toward zero.
pub fn halved(x: i64) -> (r: i64)
    ensures
        r == half(x as int),
{
    x / 2
}

} // verus!
