//! The net of a lid that is put over a box.
//!
//! A lid is a top wall with a rim. It comes in three kinds: joined to the
//! box along its far side, glued to it there, or separate from it, with a
//! rim on all four sides.

use vstd::prelude::*;

use crate::common::drawing::{DrawResult, Drawing};
use crate::common::point::{Anchor, Origin, Point};
use crate::common::square::{lemma_put_all, lemma_put_max_all, Borders, Panel, SquareElement};
use crate::common::{dimension_ok, is_dimension, CutType, MAX_COORDINATE, VIEWPORT_OFFSET};

verus! {

/// File name of the drawing of a lid that was given none.
pub const FILE_NAME_DEFAULT: &'static str = "LaserCutLid.svg";

/// Name under which the model is chosen on the command line.
pub const CLI_SUBCOMMAND: &'static str = "lid";

/// How the lid is held by its box.
#[derive(Debug, Clone, Copy, PartialEq, Eq, Structural)]
pub enum LidType {
    /// One piece with the box: the far side of the lid is the back wall.
    Joined,
    /// Glued to the back wall of the box.
    Glued,
    /// A piece of its own, with a rim on every side.
    Separated,
}

/// Sizing parameters of a lid, in units, and its kind.
#[derive(Debug, Clone, Copy, PartialEq, Eq, Structural)]
pub struct LidCfg {
    pub ltype: LidType,
    /// Height of the rim.
    pub height: i64,
    /// Outer width of the box that the lid covers.
    pub box_outer_width: i64,
    /// Outer length of the box that the lid covers.
    pub box_outer_length: i64,
    /// Thickness of the material.
    pub thickness: i64,
    /// Length of a glue flap.
    pub glue_flap: i64,
    /// Whether the rim along the short sides is doubled.
    pub fat_border: bool,
}

/// A lid in the making: its parameters and what has been drawn so far.
pub struct LidForBox {
    pub cfg: LidCfg,
    pub result: DrawResult,
}

impl LidCfg {
    /// Every length is small enough for the whole net to be computed.
    pub open spec fn wf(self) -> bool {
        &&& dimension_ok(self.height as int)
        &&& dimension_ok(self.box_outer_width as int)
        &&& dimension_ok(self.box_outer_length as int)
        &&& dimension_ok(self.thickness as int)
        &&& dimension_ok(self.glue_flap as int)
    }

    /// Outer length of the lid: the box and, on either side, one rim, or
    /// two where the rim is doubled.
    pub open spec fn lid_len(self) -> int {
        self.box_outer_length + if self.fat_border {
            self.thickness * 4
        } else {
            self.thickness * 2
        }
    }

    /// Outer width of the lid: the box and as many thicknesses as the kind
    /// of the lid puts around it.
    pub open spec fn lid_width(self) -> int {
        self.box_outer_width + match self.ltype {
            LidType::Joined => self.thickness * 2,
            LidType::Glued => self.thickness * 3,
            LidType::Separated => self.thickness * 4,
        }
    }

    /// The notch of one thickness by one thickness.
    pub open spec fn square_cut(self) -> Panel {
        Panel::cut(self.thickness as int, self.thickness as int)
    }

    /// The flap that folds back behind the near long side of the rim.
    pub open spec fn long_side_flap(self) -> Panel {
        Panel::new(self.lid_len() - self.glue_flap * 2, self.height as int).with_borders(
            Borders::uniform(CutType::Cut),
        ).border_bottom(CutType::Bend)
    }

    /// The cut that closes the space beside that flap.
    pub open spec fn glue_flap_side_cut(self) -> Panel {
        Panel::new(self.glue_flap as int, self.long_side_flap().dims.h).with_borders(
            Borders::uniform(CutType::Nope),
        ).border_bottom(CutType::Cut)
    }

    /// The near long side of the rim.
    pub open spec fn long_side(self) -> Panel {
        Panel::new(self.lid_len(), self.height + self.thickness).borders(
            CutType::Nope,
            CutType::Cut,
            CutType::Nope,
            CutType::Cut,
        )
    }

    /// The top wall of the lid.
    pub open spec fn top_wall(self) -> Panel {
        Panel::new(self.lid_len(), self.lid_width()).with_borders(Borders::uniform(CutType::Bend))
    }

    /// The glue flap above the left short side of the rim.
    pub open spec fn side_flap(self) -> Panel {
        Panel::new(self.height as int, self.glue_flap as int).borders(
            CutType::Cut,
            CutType::Cut,
            CutType::Bend,
            CutType::Cut,
        )
    }

    /// The left short side of the rim.
    pub open spec fn side_wall(self) -> Panel {
        Panel::new(
            self.height + self.thickness,
            if self.ltype == LidType::Separated {
                self.lid_width() - self.thickness * 2
            } else {
                self.lid_width() - self.thickness
            },
        ).borders(
            CutType::Nope,
            CutType::Nope,
            if self.ltype == LidType::Separated {
                CutType::Nope
            } else {
                CutType::Cut
            },
            CutType::Cut,
        )
    }

    /// Where the cursor stands before anything is drawn: far enough from
    /// the left for the short sides of the rim, and off the edge of the
    /// sheet.
    pub open spec fn start(self) -> Anchor {
        Anchor::at(
            VIEWPORT_OFFSET + if self.fat_border { self.height * 2 } else { self.height as int },
            VIEWPORT_OFFSET as int,
        )
    }

    /// The near long side of the rim with the flap behind it, drawn into
    /// `d` with the cursor at `cursor`.
    pub open spec fn near_side(self, cursor: Anchor, d: Drawing) -> Drawing {
        d.put(self.long_side_flap(), cursor.shift_x(self.glue_flap as int)).put(
            self.glue_flap_side_cut(),
            cursor,
        ).put(
            self.glue_flap_side_cut(),
            cursor.shift_x(self.lid_len()).with_origin(Origin::TopRight),
        ).put(self.long_side(), cursor.shift_y(self.long_side_flap().dims.h))
    }

    /// The top wall with the notches at its corners, drawn into `d` with
    /// the cursor at the top-left corner of the wall. A joined lid has no
    /// notches at the far corners.
    pub open spec fn top(self, cursor: Anchor, d: Drawing) -> Drawing {
        let low = self.top_wall().dims.h - self.thickness;
        let near = d.put(self.top_wall(), cursor).put(
            self.square_cut(),
            cursor.with_origin(Origin::TopRight),
        ).put(self.square_cut(), cursor.shift_x(self.lid_len()));
        if self.ltype == LidType::Joined {
            near
        } else {
            near.put(self.square_cut(), cursor.with_origin(Origin::TopRight).shift_y(low)).put(
                self.square_cut(),
                cursor.shift_x(self.lid_len()).shift_y(low),
            )
        }
    }

    /// The short sides of the rim with their glue flaps, drawn into `d`
    /// with the cursor at the top-left corner of the top wall.
    pub open spec fn short_sides(self, cursor: Anchor, d: Drawing) -> Drawing {
        let t = self.thickness as int;
        d.put(
            self.side_flap(),
            cursor.shift_x(-t).shift_y(t).with_origin(Origin::BottomRight),
        ).put(
            self.side_flap().mirror_vertical(),
            cursor.shift_xy(self.lid_len() + t, t).with_origin(Origin::BottomLeft),
        ).put(self.side_wall(), cursor.shift_y(t).with_origin(Origin::TopRight)).put(
            self.side_wall().mirror_vertical(),
            cursor.shift_xy(self.lid_len(), t),
        )
    }

    /// The near half of the lid and its top wall, drawn into `d` with the
    /// cursor at `cursor`: what every kind of lid has.
    pub open spec fn head(self, cursor: Anchor, d: Drawing) -> Drawing {
        let top = cursor.shift_y(self.long_side_flap().dims.h + self.long_side().dims.h);
        self.short_sides(top, self.top(top, self.near_side(cursor, d)))
    }

    /// Where the cursor stands below the top wall.
    pub open spec fn below_head(self, cursor: Anchor) -> Anchor {
        cursor.shift_y(
            self.long_side_flap().dims.h + self.long_side().dims.h + self.top_wall().dims.h,
        )
    }

    /// The far half of a separate lid, drawn into `d` with the cursor
    /// below the top wall: the near half, mirrored.
    pub open spec fn tail(self, cursor: Anchor, d: Drawing) -> Drawing {
        let t = self.thickness as int;
        let flap = cursor.shift_y(self.long_side().dims.h);
        d.put(
            self.side_flap().mirror_horizontal(),
            cursor.shift_x(-t).shift_y(-t).with_origin(Origin::TopRight),
        ).put(
            self.side_flap().mirror_horizontal().mirror_vertical(),
            cursor.shift_xy(self.lid_len() + t, -t).with_origin(Origin::TopLeft),
        ).put(self.long_side().mirror_horizontal(), cursor).put(
            self.long_side_flap().mirror_horizontal(),
            flap.shift_x(self.glue_flap as int),
        ).put(self.glue_flap_side_cut().mirror_horizontal(), flap).put(
            self.glue_flap_side_cut().mirror_horizontal(),
            flap.shift_x(self.lid_len()).with_origin(Origin::TopRight),
        )
    }

    /// How far the cursor moves down past the far half of a separate lid:
    /// by its long side and by the flap behind it, or by a glue flap that is
    /// more than twice as long as that flap is high, less the height.
    pub open spec fn tail_height(self) -> int {
        self.long_side().dims.h + if self.glue_flap > self.height * 2 {
            self.glue_flap + self.thickness - self.height
        } else {
            self.height as int
        }
    }

    /// The whole net, drawn into `d` with the cursor at `cursor`.
    pub open spec fn net(self, cursor: Anchor, d: Drawing) -> Drawing {
        if self.ltype == LidType::Separated {
            self.tail(self.below_head(cursor), self.head(cursor, d))
        } else {
            self.head(cursor, d)
        }
    }

    /// Number of lines of the whole net.
    pub open spec fn line_count(self) -> nat {
        match self.ltype {
            LidType::Joined => 32,
            LidType::Glued => 40,
            LidType::Separated => 54,
        }
    }

    /// Where the cursor stands below the whole net.
    pub open spec fn below_net(self, cursor: Anchor) -> Anchor {
        if self.ltype == LidType::Separated {
            self.below_head(cursor).shift_y(self.tail_height())
        } else {
            self.below_head(cursor)
        }
    }
}

impl LidForBox {
    /// A lid of which nothing is drawn yet, or nothing if one of the
    /// lengths exceeds [`crate::common::MAX_DIMENSION`] in magnitude.
    pub fn new(
        ltype: LidType,
        height: i64,
        box_outer_width: i64,
        box_outer_length: i64,
        thickness: i64,
        glue_flap: i64,
        fat_border: bool,
    ) -> (r: Option<Self>)
        ensures
            r is Some <==> (LidCfg {
                ltype,
                height,
                box_outer_width,
                box_outer_length,
                thickness,
                glue_flap,
                fat_border,
            }).wf(),
            r matches Some(lid) ==> lid.cfg == (LidCfg {
                ltype,
                height,
                box_outer_width,
                box_outer_length,
                thickness,
                glue_flap,
                fat_border,
            }) && lid.result@ == Drawing::empty(FILE_NAME_DEFAULT@),
    {
        if is_dimension(height) && is_dimension(box_outer_width) && is_dimension(box_outer_length)
            && is_dimension(thickness) && is_dimension(glue_flap) {
            Some(
                Self {
                    cfg: LidCfg {
                        ltype,
                        height,
                        box_outer_width,
                        box_outer_length,
                        thickness,
                        glue_flap,
                        fat_border,
                    },
                    result: DrawResult::empty(FILE_NAME_DEFAULT.to_owned()),
                },
            )
        } else {
            None
        }
    }

    /// The thickness of the material, `multiply` times.
    pub fn thick_n(&self, multiply: usize) -> (r: i64)
        requires
            multiply <= i64::MAX,
            i64::MIN <= self.cfg.thickness * multiply <= i64::MAX,
        ensures
            r == self.cfg.thickness * multiply,
    {
        self.cfg.thickness * (multiply as i64)
    }

    fn square_cut(&self) -> (r: SquareElement)
        ensures
            r@ == self.cfg.square_cut(),
    {
        SquareElement::cut(self.cfg.thickness, self.cfg.thickness)
    }

    fn lid_len(&self) -> (r: i64)
        requires
            self.cfg.wf(),
        ensures
            r == self.cfg.lid_len(),
    {
        self.cfg.box_outer_length + self.thick_n(
            if self.cfg.fat_border {
                4
            } else {
                2
            },
        )
    }

    fn lid_width(&self) -> (r: i64)
        requires
            self.cfg.wf(),
        ensures
            r == self.cfg.lid_width(),
    {
        self.cfg.box_outer_width + match self.cfg.ltype {
            LidType::Joined => self.thick_n(2),
            LidType::Glued => self.thick_n(3),
            LidType::Separated => self.thick_n(4),
        }
    }

    fn long_side_flap(&self) -> (r: SquareElement)
        requires
            self.cfg.wf(),
        ensures
            r@ == self.cfg.long_side_flap(),
    {
        SquareElement::new(self.lid_len() - self.cfg.glue_flap * 2, self.cfg.height).with_borders(
            Borders::new_cut(),
        ).border_bottom(CutType::Bend)
    }

    fn glue_flap_side_cut(&self) -> (r: SquareElement)
        requires
            self.cfg.wf(),
        ensures
            r@ == self.cfg.glue_flap_side_cut(),
    {
        SquareElement::new(self.cfg.glue_flap, self.long_side_flap().square.h).with_borders(
            Borders::nope(),
        ).border_bottom(CutType::Cut)
    }

    fn long_side(&self) -> (r: SquareElement)
        requires
            self.cfg.wf(),
        ensures
            r@ == self.cfg.long_side(),
    {
        SquareElement::new(self.lid_len(), self.cfg.height + self.cfg.thickness).borders(
            CutType::Nope,
            CutType::Cut,
            CutType::Nope,
            CutType::Cut,
        )
    }

    fn side_flap(&self) -> (r: SquareElement)
        ensures
            r@ == self.cfg.side_flap(),
    {
        SquareElement::new(self.cfg.height, self.cfg.glue_flap).borders(
            CutType::Cut,
            CutType::Cut,
            CutType::Bend,
            CutType::Cut,
        )
    }

    /// Draws the whole net from the start and hands the drawing out.
    pub fn draw(self) -> (r: DrawResult)
        requires
            self.cfg.wf(),
        ensures
            r@ == self.cfg.net(self.cfg.start(), self.result@),
    {
        let mut offset = Point::new(VIEWPORT_OFFSET, VIEWPORT_OFFSET);

        offset = offset.shift_x(
            if self.cfg.fat_border {
                self.cfg.height * 2
            } else {
                self.cfg.height
            },
        );

        self.draw_from(offset).1
    }

    /// Draws the whole net from `offset` and hands out the cursor below
    /// the net and the drawing.
    pub fn draw_from(self, offset: Point) -> (r: (Point, DrawResult))
        requires
            self.cfg.wf(),
            offset@.within(MAX_COORDINATE as int),
        ensures
            r.0@ == self.cfg.below_net(offset@),
            r.1@ == self.cfg.net(offset@, self.result@),
    {
        let mut this = self;
        let offset = this.draw_near_side(offset);
        this.draw_top(offset);
        this.draw_short_sides(offset);
        let mut offset = offset.shift_y(this.lid_width());

        // Draw tail for separated lid
        if let LidType::Separated = this.cfg.ltype {
            offset = this.draw_tail(offset);
        }
        (offset, this.result)
    }

    /// Draws the near long side of the rim with the flap behind it and
    /// hands out the cursor below them.
    fn draw_near_side(&mut self, offset: Point) -> (r: Point)
        requires
            old(self).cfg.wf(),
            offset@.within(2 * MAX_COORDINATE),
        ensures
            final(self).cfg == old(self).cfg,
            final(self).result@ == old(self).cfg.near_side(offset@, old(self).result@),
            r@ == offset@.shift_y(
                old(self).cfg.long_side_flap().dims.h + old(self).cfg.long_side().dims.h,
            ),
    {
        let lid_len = self.lid_len();
        let long_side_flap = self.long_side_flap();

        self.result.append(long_side_flap.draw(offset.shift_x(self.cfg.glue_flap)));

        let glue_flap_side_cut = self.glue_flap_side_cut();

        self.result.append(glue_flap_side_cut.draw(offset));

        self.result.append(
            glue_flap_side_cut.draw(offset.shift_x(lid_len).origin(Origin::TopRight)),
        );

        let offset = offset.shift_y(long_side_flap.square.h);

        let long_side = self.long_side();

        self.result.append(long_side.draw(offset));

        offset.shift_y(long_side.square.h)
    }

    /// Draws the top wall, with its top-left corner at `offset`, and the
    /// notches at its corners.
    fn draw_top(&mut self, offset: Point)
        requires
            old(self).cfg.wf(),
            offset@.within(2 * MAX_COORDINATE),
        ensures
            final(self).cfg == old(self).cfg,
            final(self).result@ == old(self).cfg.top(offset@, old(self).result@),
    {
        let lid_len = self.lid_len();
        let top_wall = SquareElement::new(lid_len, self.lid_width()).with_borders(
            Borders::new_bend(),
        );
        self.result.append(top_wall.draw(offset));

        // Small top cuts
        self.result.append(self.square_cut().draw(offset.origin(Origin::TopRight)));

        self.result.append(self.square_cut().draw(offset.shift_x(lid_len)));

        // Small bottom cuts
        if let LidType::Glued | LidType::Separated = self.cfg.ltype {
            self.result.append(
                self.square_cut().draw(
                    offset.origin(Origin::TopRight).shift_y(
                        top_wall.square.h - self.cfg.thickness,
                    ),
                ),
            );

            self.result.append(
                self.square_cut().draw(
                    offset.shift_x(lid_len).shift_y(top_wall.square.h - self.cfg.thickness),
                ),
            );
        }
    }

    /// Draws the short sides of the rim with their glue flaps beside the
    /// top wall, whose top-left corner lies at `offset`.
    fn draw_short_sides(&mut self, offset: Point)
        requires
            old(self).cfg.wf(),
            offset@.within(2 * MAX_COORDINATE),
        ensures
            final(self).cfg == old(self).cfg,
            final(self).result@ == old(self).cfg.short_sides(offset@, old(self).result@),
    {
        let lid_len = self.lid_len();
        let lid_width = self.lid_width();
        let side_flap = self.side_flap();

        self.result.append(
            side_flap.draw(
                offset.shift_nx(self.cfg.thickness).shift_y(self.cfg.thickness).origin(
                    Origin::BottomRight,
                ),
            ),
        );

        self.result.append(
            side_flap.mirror_vertical().draw(
                offset.shift_xy(lid_len + self.cfg.thickness, self.cfg.thickness).origin(
                    Origin::BottomLeft,
                ),
            ),
        );

        let side_wall_h = match self.cfg.ltype {
            LidType::Joined | LidType::Glued => lid_width - self.cfg.thickness,
            LidType::Separated => lid_width - self.thick_n(2),
        };

        let side_wall = SquareElement::new(self.cfg.height + self.cfg.thickness, side_wall_h)
            .borders(
            CutType::Nope,
            CutType::Nope,
            if let LidType::Separated = self.cfg.ltype {
                CutType::Nope
            } else {
                CutType::Cut
            },
            CutType::Cut,
        );

        self.result.append(
            side_wall.draw(offset.shift_y(self.thick_n(1)).origin(Origin::TopRight)),
        );

        self.result.append(
            side_wall.mirror_vertical().draw(offset.shift_xy(lid_len, self.cfg.thickness)),
        );
    }

    /// Draws the far half of a separate lid below the top wall, whose
    /// bottom-left corner lies at `offset`, and hands out the cursor below
    /// it.
    fn draw_tail(&mut self, offset: Point) -> (r: Point)
        requires
            old(self).cfg.wf(),
            offset@.within(2 * MAX_COORDINATE),
        ensures
            final(self).cfg == old(self).cfg,
            final(self).result@ == old(self).cfg.tail(offset@, old(self).result@),
            r@ == offset@.shift_y(old(self).cfg.tail_height()),
    {
        let lid_len = self.lid_len();
        let mut offset = offset;

        // Flaps for side walls
        let side_flap = self.side_flap().mirror_horisontal();
        self.result.append(
            side_flap.draw(
                offset.shift_nx(self.cfg.thickness).shift_ny(self.cfg.thickness).origin(
                    Origin::TopRight,
                ),
            ),
        );

        self.result.append(
            side_flap.mirror_vertical().draw(
                offset.shift_xy(lid_len + self.cfg.thickness, -self.cfg.thickness).origin(
                    Origin::TopLeft,
                ),
            ),
        );

        let long_side = self.long_side().mirror_horisontal();

        self.result.append(long_side.draw(offset));

        offset.y = offset.y + long_side.square.h;

        let long_side_flap = self.long_side_flap().mirror_horisontal();
        let glue_flap_side_cut = self.glue_flap_side_cut().mirror_horisontal();

        self.result.append(long_side_flap.draw(offset.shift_x(self.cfg.glue_flap)));

        self.result.append(glue_flap_side_cut.draw(offset));

        self.result.append(
            glue_flap_side_cut.draw(offset.shift_x(lid_len).origin(Origin::TopRight)),
        );

        offset.y = offset.y + if self.cfg.glue_flap > self.cfg.height * 2 {
            self.cfg.glue_flap + self.cfg.thickness - self.cfg.height
        } else {
            self.cfg.height
        };
        offset
    }
}

/// The net of a lid adds as many lines to the drawing as its kind has,
/// whatever the sizes. It keeps the drawing sound and its file name, and
/// does not lower its extent.
pub proof fn lemma_net(cfg: LidCfg, cursor: Anchor, d: Drawing)
    ensures
        cfg.net(cursor, d).segments.len() == d.segments.len() + cfg.line_count(),
        cfg.net(cursor, d).default_file_name == d.default_file_name,
        cfg.net(cursor, d).max.x >= d.max.x,
        cfg.net(cursor, d).max.y >= d.max.y,
        d.sound() ==> cfg.net(cursor, d).sound(),
{
    lemma_put_all();
}

impl LidCfg {
    /// The sizes are those of a lid that can be built: none is negative,
    /// and the two glue flaps beside the flap of a long side leave room
    /// for it.
    pub open spec fn buildable(self) -> bool {
        &&& 0 <= self.thickness
        &&& 0 <= self.height
        &&& 0 <= self.box_outer_width
        &&& 0 <= self.box_outer_length
        &&& 0 <= self.glue_flap
        &&& self.glue_flap * 2 <= self.lid_len()
    }

    /// How far a separate lid reaches below its top wall: its far long
    /// side with the flap behind it, or the glue flaps of the short sides
    /// where they are longer. Other lids end with the top wall.
    pub open spec fn tail_reach(self) -> int {
        if self.ltype != LidType::Separated {
            0
        } else if self.glue_flap - self.thickness > self.height * 2 + self.thickness {
            self.glue_flap - self.thickness
        } else {
            self.height * 2 + self.thickness
        }
    }

    /// The furthest position that a buildable lid reaches when drawn with
    /// the cursor at `cursor`: to the right the outer side of the right
    /// short side of the rim, below the top wall or what hangs on it.
    /// Drawn from the start, this is the sheet without its right and lower
    /// margin.
    pub open spec fn reach(self, cursor: Anchor) -> Anchor {
        Anchor::at(
            cursor.x + self.lid_len() + self.height + self.thickness,
            cursor.y + self.height * 2 + self.thickness + self.lid_width() + self.tail_reach(),
        )
    }
}

/// What the near long side adds to the extent.
proof fn lemma_near_side_reach(cfg: LidCfg, cursor: Anchor, d: Drawing)
    requires
        cfg.buildable(),
        cursor.origin == Origin::TopLeft,
    ensures
        cfg.near_side(cursor, d).max == d.max.raised().max_with(
            Anchor::at(
                cursor.x + cfg.lid_len(),
                cursor.y + cfg.height * 2 + cfg.thickness,
            ),
        ),
{
    lemma_put_max_all();
}

/// What the top wall and its notches add to the extent.
proof fn lemma_top_reach(cfg: LidCfg, cursor: Anchor, d: Drawing)
    requires
        cfg.buildable(),
        cursor.origin == Origin::TopLeft,
    ensures
        cfg.top(cursor, d).max == d.max.raised().max_with(
            Anchor::at(
                cursor.x + cfg.lid_len() + cfg.thickness,
                cursor.y + cfg.lid_width(),
            ),
        ),
{
    lemma_put_max_all();
}

/// What the short sides of the rim add to the extent.
proof fn lemma_short_sides_reach(cfg: LidCfg, cursor: Anchor, d: Drawing)
    requires
        cfg.buildable(),
        cursor.origin == Origin::TopLeft,
    ensures
        cfg.short_sides(cursor, d).max == d.max.raised().max_with(
            Anchor::at(
                cursor.x + cfg.lid_len() + cfg.thickness + cfg.height,
                cursor.y + cfg.thickness + cfg.side_wall().dims.h,
            ),
        ),
{
    lemma_put_max_all();
}

/// What the far half of a separate lid adds to the extent.
proof fn lemma_tail_reach(cfg: LidCfg, cursor: Anchor, d: Drawing)
    requires
        cfg.buildable(),
        cfg.ltype == LidType::Separated,
        cursor.origin == Origin::TopLeft,
    ensures
        cfg.tail(cursor, d).max == d.max.raised().max_with(
            Anchor::at(
                cursor.x + cfg.lid_len() + cfg.thickness + cfg.height,
                cursor.y + cfg.tail_reach(),
            ),
        ),
{
    lemma_put_max_all();
}

/// A buildable lid, drawn from a cursor that stands for a top-left corner,
/// raises the extent of the drawing from the corner of the sheet to its
/// reach, and no further.
pub proof fn lemma_reach(cfg: LidCfg, cursor: Anchor, d: Drawing)
    requires
        cfg.buildable(),
        cursor.origin == Origin::TopLeft,
    ensures
        cfg.net(cursor, d).max == d.max.raised().max_with(cfg.reach(cursor)),
{
    let top = cursor.shift_y(cfg.long_side_flap().dims.h + cfg.long_side().dims.h);
    let near = cfg.near_side(cursor, d);
    let walls = cfg.top(top, near);
    lemma_near_side_reach(cfg, cursor, d);
    lemma_top_reach(cfg, top, near);
    lemma_short_sides_reach(cfg, top, walls);
    if cfg.ltype == LidType::Separated {
        lemma_tail_reach(cfg, cfg.below_head(cursor), cfg.head(cursor, d));
    }
}

/// The finished drawing of a buildable lid, drawn from the start into an
/// empty drawing, has the reach of the lid as its extent: the sheet
/// without its right and lower margin.
pub proof fn lemma_sheet(cfg: LidCfg, name: Seq<char>)
    requires
        cfg.buildable(),
    ensures
        cfg.net(cfg.start(), Drawing::empty(name)).max == cfg.reach(cfg.start()),
{
    lemma_reach(cfg, cfg.start(), Drawing::empty(name));
}

} // verus!
