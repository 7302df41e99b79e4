//! The lid that is hinged to the back wall of a box: a top wall with a
//! rim on three sides, and a flap that tucks it into the box.

use vstd::prelude::*;

use crate::common::drawing::{DrawResult, Drawing};
use crate::common::point::{Anchor, Origin, Point};
use crate::common::square::{lemma_put_all, lemma_put_max_all, Borders, Panel, SquareElement};
use crate::common::{CutType, MAX_COORDINATE, MAX_DIMENSION};

verus! {

/// Sizes of a hinged lid and of the box that it closes, in units.
#[derive(Debug, Clone, Copy, PartialEq, Eq, Structural)]
pub struct HingedLid {
    /// Outer length of the box.
    pub length: i64,
    /// Outer width of the box.
    pub width: i64,
    /// Thickness of the material.
    pub thickness: i64,
    /// Length of a glue flap.
    pub glue_flap: i64,
    /// Height of the rim of the lid.
    pub lid_height: i64,
}

impl HingedLid {
    /// Every size is small enough for the lid to be computed. The sizes of
    /// the box may be derived ones, of a few times [`MAX_DIMENSION`].
    pub open spec fn wf(self) -> bool {
        &&& -8 * MAX_DIMENSION <= self.length <= 8 * MAX_DIMENSION
        &&& -8 * MAX_DIMENSION <= self.width <= 8 * MAX_DIMENSION
        &&& -MAX_DIMENSION <= self.thickness <= MAX_DIMENSION
        &&& -MAX_DIMENSION <= self.glue_flap <= MAX_DIMENSION
        &&& -MAX_DIMENSION <= self.lid_height <= MAX_DIMENSION
    }

    /// Outer length of the lid: it closes over the walls on both sides.
    pub open spec fn lid_len(self) -> int {
        self.length + self.thickness * 2
    }

    /// Outer width of the lid.
    pub open spec fn lid_width(self) -> int {
        self.width + self.thickness * 2
    }

    /// The notch of one thickness by one thickness.
    pub open spec fn square_cut(self) -> Panel {
        Panel::cut(self.thickness as int, self.thickness as int)
    }

    /// The flap that tucks the lid into the box.
    pub open spec fn top_flap(self) -> Panel {
        Panel::new(self.lid_len() - self.glue_flap * 2, self.lid_height - self.thickness)
            .with_borders(Borders::uniform(CutType::Cut)).border_bottom(CutType::Bend)
    }

    /// The cut that closes the space beside the tuck flap from below.
    pub open spec fn top_flap_side_cut(self) -> Panel {
        Panel::new(self.glue_flap as int, self.top_flap().dims.h).with_borders(
            Borders::uniform(CutType::Nope),
        ).border_bottom(CutType::Cut)
    }

    /// The front side of the lid.
    pub open spec fn lid_front_side(self) -> Panel {
        Panel::new(self.lid_len(), self.lid_height as int).borders(
            CutType::Nope,
            CutType::Cut,
            CutType::Bend,
            CutType::Cut,
        )
    }

    /// The top wall of the lid.
    pub open spec fn lid_top_wall(self) -> Panel {
        Panel::new(self.lid_len(), self.lid_width()).borders(
            CutType::Nope,
            CutType::Bend,
            CutType::Bend,
            CutType::Bend,
        )
    }

    /// The glue flap above the left side wall of the lid.
    pub open spec fn side_flap(self) -> Panel {
        Panel::new(self.lid_height - self.thickness, self.glue_flap as int).borders(
            CutType::Cut,
            CutType::Cut,
            CutType::Bend,
            CutType::Cut,
        )
    }

    /// The left side wall of the lid.
    pub open spec fn lid_side_wall(self) -> Panel {
        Panel::new(self.lid_height as int, self.lid_width() - self.thickness).borders(
            CutType::Nope,
            CutType::Nope,
            CutType::Cut,
            CutType::Cut,
        )
    }

    /// The tuck flap with the cuts beside it and the front side of the
    /// lid, drawn into `d` with the cursor of the lid at `cursor`.
    pub open spec fn front(self, cursor: Anchor, d: Drawing) -> Drawing {
        let flap = cursor.shift_x(-(self.thickness as int));
        d.put(self.top_flap(), flap.shift_x(self.glue_flap as int)).put(
            self.top_flap_side_cut(),
            flap,
        ).put(
            self.top_flap_side_cut(),
            flap.shift_x(self.lid_len()).with_origin(Origin::TopRight),
        ).put(self.lid_front_side(), flap.shift_y(self.top_flap().dims.h))
    }

    /// The top wall of the lid with its side walls, their glue flaps and
    /// the notches at its near corners, drawn into `d` with the cursor of
    /// the lid at `cursor`.
    pub open spec fn top(self, cursor: Anchor, d: Drawing) -> Drawing {
        let t = self.thickness as int;
        let top = cursor.shift_x(-t).shift_y(
            self.top_flap().dims.h + self.lid_front_side().dims.h,
        );
        d.put(self.lid_top_wall(), top).put(
            self.side_flap(),
            top.shift_x(-t).shift_y(t).with_origin(Origin::BottomRight),
        ).put(
            self.side_flap().mirror_vertical(),
            top.shift_xy(self.lid_len() + t, t).with_origin(Origin::BottomLeft),
        ).put(self.lid_side_wall(), top.shift_y(t).with_origin(Origin::TopRight)).put(
            self.lid_side_wall().mirror_vertical(),
            top.shift_xy(self.lid_len(), t),
        ).put(self.square_cut(), top.with_origin(Origin::TopRight)).put(
            self.square_cut(),
            top.shift_x(self.lid_len()),
        )
    }

    /// The lid, drawn into `d` with the cursor at `cursor`.
    pub open spec fn net(self, cursor: Anchor, d: Drawing) -> Drawing {
        self.top(cursor, self.front(cursor, d))
    }

    /// Where the cursor stands below the lid: straight below where it stood.
    pub open spec fn below(self, cursor: Anchor) -> Anchor {
        cursor.shift_y(
            self.top_flap().dims.h + self.lid_front_side().dims.h + self.lid_top_wall().dims.h,
        )
    }

    /// Number of lines of the lid.
    pub open spec fn line_count() -> nat {
        32
    }

    /// Draws the lid into `result` with the cursor at `cursor` and hands
    /// out the cursor below the lid.
    pub fn draw(&self, result: &mut DrawResult, cursor: Point) -> (below: Point)
        requires
            self.wf(),
            cursor@.within(2 * MAX_COORDINATE),
        ensures
            final(result)@ == self.net(cursor@, old(result)@),
            below@ == self.below(cursor@),
    {
        let square_cut = SquareElement::cut(self.thickness, self.thickness);
        let lid_len = self.length + self.thickness * 2;
        let lid_width = self.width + self.thickness * 2;
        let offset = cursor.shift_nx(self.thickness);

        let top_flap = SquareElement::new(
            lid_len - self.glue_flap * 2,
            self.lid_height - self.thickness,
        ).with_borders(Borders::new_cut()).border_bottom(CutType::Bend);

        result.append(top_flap.draw(offset.shift_x(self.glue_flap)));

        let top_flap_side_cut = SquareElement::new(self.glue_flap, top_flap.square.h)
            .with_borders(Borders::nope()).border_bottom(CutType::Cut);

        result.append(top_flap_side_cut.draw(offset));

        result.append(top_flap_side_cut.draw(offset.shift_x(lid_len).origin(Origin::TopRight)));

        let offset = offset.shift_y(top_flap.square.h);

        let lid_front_side = SquareElement::new(lid_len, self.lid_height).borders(
            CutType::Nope,
            CutType::Cut,
            CutType::Bend,
            CutType::Cut,
        );

        result.append(lid_front_side.draw(offset));

        let offset = offset.shift_y(lid_front_side.square.h);

        let lid_top_wall = SquareElement::new(lid_len, lid_width).borders(
            CutType::Nope,
            CutType::Bend,
            CutType::Bend,
            CutType::Bend,
        );

        result.append(lid_top_wall.draw(offset));

        let side_flap = SquareElement::new(
            self.lid_height - self.thickness,
            self.glue_flap,
        ).borders(CutType::Cut, CutType::Cut, CutType::Bend, CutType::Cut);

        result.append(
            side_flap.draw(
                offset.shift_nx(self.thickness).shift_y(self.thickness).origin(
                    Origin::BottomRight,
                ),
            ),
        );

        result.append(
            side_flap.mirror_vertical().draw(
                offset.shift_xy(lid_len + self.thickness, self.thickness).origin(
                    Origin::BottomLeft,
                ),
            ),
        );

        let lid_side_wall = SquareElement::new(self.lid_height, lid_width - self.thickness)
            .borders(CutType::Nope, CutType::Nope, CutType::Cut, CutType::Cut);

        result.append(
            lid_side_wall.draw(offset.shift_y(self.thickness).origin(Origin::TopRight)),
        );

        result.append(
            lid_side_wall.mirror_vertical().draw(offset.shift_xy(lid_len, self.thickness)),
        );

        // Small cut offs
        result.append(square_cut.draw(offset.origin(Origin::TopRight)));

        result.append(square_cut.draw(offset.shift_x(lid_len)));

        cursor.shift_y(top_flap.square.h + lid_front_side.square.h + lid_top_wall.square.h)
    }
}

/// The lid adds its thirty-two lines to the drawing, whatever its sizes,
/// keeps the drawing sound and its file name, and does not lower its extent.
pub proof fn lemma_lid_net(lid: HingedLid, cursor: Anchor, d: Drawing)
    ensures
        lid.net(cursor, d).segments.len() == d.segments.len() + HingedLid::line_count(),
        lid.net(cursor, d).default_file_name == d.default_file_name,
        lid.net(cursor, d).max.x >= d.max.x,
        lid.net(cursor, d).max.y >= d.max.y,
        d.sound() ==> lid.net(cursor, d).sound(),
{
    lemma_put_all();
}

impl HingedLid {
    /// The sizes are those of a lid that can be built: none is negative,
    /// the rim is at least as high as the material is thick, and the two
    /// glue flaps beside the tuck flap leave room for it.
    pub open spec fn buildable(self) -> bool {
        &&& 0 <= self.thickness <= self.lid_height
        &&& 0 <= self.length
        &&& 0 <= self.width
        &&& 0 <= self.glue_flap
        &&& self.glue_flap * 2 <= self.lid_len()
    }

    /// The furthest position that a buildable lid drawn with the cursor at
    /// `cursor` reaches: to the right the outer side of the right side
    /// wall, below the far side of the top wall.
    pub open spec fn reach(self, cursor: Anchor) -> Anchor {
        Anchor::at(
            cursor.x + self.length + self.thickness + self.lid_height,
            cursor.y + self.lid_height * 2 + self.width + self.thickness,
        )
    }
}

/// The tuck flap and the front side of a buildable lid stay within the
/// reach of the lid.
proof fn lemma_front_reach(lid: HingedLid, cursor: Anchor, d: Drawing)
    requires
        lid.buildable(),
    ensures
        lid.front(cursor, d).max.origin == d.max.origin,
        d.max.raised().x <= lid.front(cursor, d).max.x,
        d.max.raised().y <= lid.front(cursor, d).max.y,
        lid.front(cursor, d).max.x <= d.max.raised().x || lid.front(cursor, d).max.x
            <= lid.reach(cursor).x,
        lid.front(cursor, d).max.y <= d.max.raised().y || lid.front(cursor, d).max.y
            <= lid.reach(cursor).y,
{
    lemma_put_max_all();
}

/// The top wall of a buildable lid and what hangs on it reach as far as
/// the lid does.
proof fn lemma_top_reach(lid: HingedLid, cursor: Anchor, d: Drawing)
    requires
        lid.buildable(),
    ensures
        lid.top(cursor, d).max == d.max.raised().max_with(lid.reach(cursor)),
{
    lemma_put_max_all();
}

/// A buildable lid raises the extent of the drawing from the corner of the
/// sheet to its reach, and no further.
pub proof fn lemma_lid_reach(lid: HingedLid, cursor: Anchor, d: Drawing)
    requires
        lid.buildable(),
    ensures
        lid.net(cursor, d).max == d.max.raised().max_with(lid.reach(cursor)),
{
    lemma_front_reach(lid, cursor, d);
    lemma_top_reach(lid, cursor, lid.front(cursor, d));
}

} // verus!
