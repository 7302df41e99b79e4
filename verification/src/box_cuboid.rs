//! The net of a cuboid box with a hinged lid.
//!
//! From top to bottom the sheet holds the lid (tuck flap, front side, top
//! wall with its side walls and glue flaps), the back wall, the bottom with
//! the two side walls, and the front wall. The back and the front wall
//! carry the glue flaps that hold the side walls.

use vstd::prelude::*;

use crate::common::drawing::{DrawResult, Drawing};
use crate::common::point::{Anchor, Origin, Point};
use crate::common::hinged_lid::{lemma_lid_net, lemma_lid_reach, HingedLid};
use crate::common::square::{lemma_put_all, lemma_put_max_all, Panel, SquareElement};
use crate::common::{dimension_ok, is_dimension, CutType, MAX_COORDINATE, VIEWPORT_OFFSET};

verus! {

/// File name of the drawing of a cuboid box that was given none.
pub const BOX_CUBE_FIE_NAME: &'static str = "LaserCutBoxCube.svg";

/// Name under which the model is chosen on the command line.
pub const CLI_SUBCOMMAND: &'static str = "box-cuboid";

/// Sizing parameters of a cuboid box, in units.
#[derive(Debug, Clone, Copy, PartialEq, Eq, Structural)]
pub struct BoxCubeCfg {
    /// Thickness of the material.
    pub thickness: i64,
    /// Length of a glue flap.
    pub glue_flap: i64,
    /// Height of the rim of the lid.
    pub lid_height: i64,
    /// Outer height of the box.
    pub height: i64,
    /// Outer length of the box, its longer side.
    pub length: i64,
    /// Outer width of the box, its shorter side.
    pub width: i64,
}

impl BoxCubeCfg {
    /// Every parameter is small enough for the whole net to be computed.
    pub open spec fn wf(self) -> bool {
        &&& dimension_ok(self.thickness as int)
        &&& dimension_ok(self.glue_flap as int)
        &&& dimension_ok(self.lid_height as int)
        &&& dimension_ok(self.height as int)
        &&& dimension_ok(self.length as int)
        &&& dimension_ok(self.width as int)
    }

    /// The parameters as one value, or nothing if one of them exceeds
    /// [`crate::common::MAX_DIMENSION`] in magnitude.
    pub fn new(
        thickness: i64,
        glue_flap: i64,
        lid_height: i64,
        height: i64,
        length: i64,
        width: i64,
    ) -> (r: Option<Self>)
        ensures
            r is Some <==> (BoxCubeCfg {
                thickness,
                glue_flap,
                lid_height,
                height,
                length,
                width,
            }).wf(),
            r matches Some(cfg) ==> cfg == (BoxCubeCfg {
                thickness,
                glue_flap,
                lid_height,
                height,
                length,
                width,
            }),
    {
        if is_dimension(thickness) && is_dimension(glue_flap) && is_dimension(lid_height)
            && is_dimension(height) && is_dimension(length) && is_dimension(width) {
            Some(Self { thickness, glue_flap, lid_height, height, length, width })
        } else {
            None
        }
    }

    /// The thickness of the material, `multiply` times.
    pub fn thick_n(&self, multiply: usize) -> (r: i64)
        requires
            multiply <= i64::MAX,
            i64::MIN <= self.thickness * multiply <= i64::MAX,
        ensures
            r == self.thickness * multiply,
    {
        self.thickness * (multiply as i64)
    }

    /// The lid of the box.
    pub open spec fn lid(self) -> HingedLid {
        HingedLid {
            length: self.length,
            width: self.width,
            thickness: self.thickness,
            glue_flap: self.glue_flap,
            lid_height: self.lid_height,
        }
    }

    /// The lid of the box.
    pub fn hinged_lid(&self) -> (r: HingedLid)
        ensures
            r == self.lid(),
    {
        HingedLid {
            length: self.length,
            width: self.width,
            thickness: self.thickness,
            glue_flap: self.glue_flap,
            lid_height: self.lid_height,
        }
    }

    /// The notch of one thickness by one thickness.
    pub open spec fn square_cut(self) -> Panel {
        Panel::cut(self.thickness as int, self.thickness as int)
    }

    /// The notch of two thicknesses by one thickness.
    pub open spec fn square_cut_w(self) -> Panel {
        Panel::cut(self.thickness * 2, self.thickness as int)
    }

    /// The glue flap to the left of the back wall and of the front wall.
    pub open spec fn vertical_glue_flap(self) -> Panel {
        Panel::new(self.glue_flap + self.thickness, self.height - self.thickness * 2).borders(
            CutType::Cut,
            CutType::Nope,
            CutType::Cut,
            CutType::Cut,
        )
    }

    /// The back wall of the box.
    pub open spec fn back_wall(self) -> Panel {
        Panel::new(self.length - self.thickness * 2, self.height as int).borders(
            CutType::Nope,
            CutType::Bend,
            CutType::Bend,
            CutType::Bend,
        )
    }

    /// The bottom of the box.
    pub open spec fn bottom_wall(self) -> Panel {
        Panel::new(self.length as int, self.width as int).borders(
            CutType::Nope,
            CutType::Bend,
            CutType::Bend,
            CutType::Bend,
        )
    }

    /// The front wall of the box before its sides are turned into folds.
    pub open spec fn front_wall(self) -> Panel {
        self.back_wall().borders(CutType::Nope, CutType::Cut, CutType::Cut, CutType::Cut).height(
            self.height - self.thickness,
        )
    }

    /// The left side wall of the box.
    pub open spec fn side_wall(self) -> Panel {
        Panel::new(self.height - self.thickness, self.width as int).borders(
            CutType::Cut,
            CutType::Nope,
            CutType::Cut,
            CutType::Cut,
        )
    }

    /// Where the cursor stands before anything is drawn: far enough from
    /// the left for the side walls, and off the edge of the sheet.
    pub open spec fn start(self) -> Anchor {
        Anchor::at(self.height + VIEWPORT_OFFSET, VIEWPORT_OFFSET as int)
    }

    /// The lid, drawn into `d` with the cursor at `cursor`.
    pub open spec fn top_lid(self, cursor: Anchor, d: Drawing) -> Drawing {
        self.lid().net(cursor, d)
    }

    /// Where the cursor stands below the lid.
    pub open spec fn below_top_lid(self, cursor: Anchor) -> Anchor {
        self.lid().below(cursor)
    }

    /// The two side walls of the box, drawn into `d` with the cursor at
    /// the top-left corner of the bottom.
    pub open spec fn side_walls(self, cursor: Anchor, d: Drawing) -> Drawing {
        d.put(self.side_wall(), cursor.with_origin(Origin::TopRight)).put(
            self.side_wall().mirror_vertical(),
            cursor.shift_x(self.length as int),
        )
    }

    /// The back wall with its glue flaps and the bottom below it, drawn
    /// into `d` with the cursor at `cursor`.
    pub open spec fn back_row(self, cursor: Anchor, d: Drawing) -> Drawing {
        let t = self.thickness as int;
        let back_w = self.back_wall().dims.w;
        let flap_h = self.vertical_glue_flap().dims.h;
        d.put(self.back_wall(), cursor.shift_x(t)).put(
            self.square_cut_w(),
            cursor.shift_x(t).with_origin(Origin::TopRight),
        ).put(self.square_cut_w(), cursor.shift_x(back_w + t)).put(
            self.vertical_glue_flap(),
            cursor.shift_xy(t, t).with_origin(Origin::TopRight),
        ).put(self.vertical_glue_flap().mirror_vertical(), cursor.shift_xy(t + back_w, t)).put(
            self.square_cut_w(),
            cursor.shift_xy(t, flap_h + t).with_origin(Origin::TopRight),
        ).put(self.square_cut_w(), cursor.shift_xy(back_w + t, flap_h + t)).put(
            self.bottom_wall(),
            cursor.shift_y(self.back_wall().dims.h),
        )
    }

    /// The front wall with its glue flaps, drawn into `d` with the cursor
    /// at the left end of its row.
    pub open spec fn front_row(self, cursor: Anchor, d: Drawing) -> Drawing {
        let t = self.thickness as int;
        let left_flap = cursor.shift_y(t).shift_x(t).with_origin(Origin::TopRight);
        let right_flap = left_flap.shift_x(self.front_wall().dims.w);
        d.put(
            self.front_wall().border_left(CutType::Bend).border_right(CutType::Bend),
            cursor.shift_x(t),
        ).put(self.vertical_glue_flap(), left_flap).put(
            self.square_cut_w(),
            left_flap.with_origin(Origin::BottomRight),
        ).put(
            self.vertical_glue_flap().mirror_vertical(),
            right_flap.with_origin(Origin::TopLeft),
        ).put(self.square_cut_w(), right_flap.with_origin(Origin::BottomLeft))
    }

    /// Back wall, bottom, side walls and front wall with their glue flaps,
    /// drawn into `d` with the cursor at `cursor`.
    pub open spec fn main_walls(self, cursor: Anchor, d: Drawing) -> Drawing {
        let bottom = cursor.shift_y(self.back_wall().dims.h);
        let front = bottom.shift_y(self.bottom_wall().dims.h);
        self.front_row(front, self.side_walls(bottom, self.back_row(cursor, d)))
    }

    /// Where the cursor stands when the walls are drawn: at the top-left
    /// corner of the front wall's row.
    pub open spec fn below_main_walls(self, cursor: Anchor) -> Anchor {
        cursor.shift_y(self.back_wall().dims.h + self.bottom_wall().dims.h)
    }

    /// The whole net, drawn into `d` with the cursor at `cursor`.
    pub open spec fn net(self, cursor: Anchor, d: Drawing) -> Drawing {
        self.main_walls(self.below_top_lid(cursor), self.top_lid(cursor, d))
    }
}

/// A cuboid box in the making: its parameters, the cursor, and what has
/// been drawn so far.
pub struct BoxCube {
    pub cfg: BoxCubeCfg,
    pub offset: Point,
    pub result: DrawResult,
}

impl BoxCube {
    /// The parameters are acceptable and no coordinate of the cursor
    /// exceeds `range` times [`MAX_COORDINATE`] in magnitude. The whole
    /// net is drawn from range 1; its parts, which find the cursor where
    /// earlier parts left it, accept a cursor further out.
    pub open spec fn ready(self, range: int) -> bool {
        &&& self.cfg.wf()
        &&& self.offset@.within(range * MAX_COORDINATE)
    }

    /// A box of which nothing is drawn yet, with the cursor at the start.
    pub fn new(cfg: BoxCubeCfg) -> (r: Self)
        requires
            cfg.wf(),
        ensures
            r.cfg == cfg,
            r.offset@ == cfg.start(),
            r.result@ == Drawing::empty(BOX_CUBE_FIE_NAME@),
            r.ready(1),
    {
        let offset = Point::new(cfg.height, 0).shift_xy(VIEWPORT_OFFSET, VIEWPORT_OFFSET);
        Self { cfg, offset, result: DrawResult::empty(BOX_CUBE_FIE_NAME.to_owned()) }
    }

    /// Draws the whole net from the cursor and hands the drawing out.
    pub fn draw(self) -> (r: DrawResult)
        requires
            self.ready(1),
        ensures
            r@ == self.cfg.net(self.offset@, self.result@),
    {
        let mut this = self;
        this.draw_top_lid();
        this.draw_main_walls();
        this.result
    }

    fn square_cut(&self) -> (r: SquareElement)
        ensures
            r@ == self.cfg.square_cut(),
    {
        SquareElement::cut(self.cfg.thickness, self.cfg.thickness)
    }

    fn square_cut_w(&self) -> (r: SquareElement)
        requires
            self.cfg.wf(),
        ensures
            r@ == self.cfg.square_cut_w(),
    {
        SquareElement::cut(self.cfg.thick_n(2), self.cfg.thickness)
    }

    /// Draws the lid and moves the cursor below it.
    pub fn draw_top_lid(&mut self)
        requires
            old(self).ready(2),
        ensures
            final(self).cfg == old(self).cfg,
            final(self).offset@ == old(self).cfg.below_top_lid(old(self).offset@),
            final(self).result@ == old(self).cfg.top_lid(old(self).offset@, old(self).result@),
    {
        let below = self.cfg.hinged_lid().draw(&mut self.result, self.offset);
        self.offset.y = below.y;
    }

    /// Draws back wall, bottom, side walls and front wall with their glue
    /// flaps, and moves the cursor to the row of the front wall.
    pub fn draw_main_walls(&mut self)
        requires
            old(self).ready(2),
        ensures
            final(self).cfg == old(self).cfg,
            final(self).offset@ == old(self).cfg.below_main_walls(old(self).offset@),
            final(self).result@ == old(self).cfg.main_walls(old(self).offset@, old(self).result@),
    {
        let vertical_glue_flap = SquareElement::new(
            self.cfg.glue_flap + self.cfg.thickness,
            self.cfg.height - self.cfg.thick_n(2),
        ).borders(CutType::Cut, CutType::Nope, CutType::Cut, CutType::Cut);

        let back_wall = SquareElement::new(self.cfg.length - self.cfg.thick_n(2), self.cfg.height)
            .borders(CutType::Nope, CutType::Bend, CutType::Bend, CutType::Bend);

        self.result.append(back_wall.draw(self.offset.shift_x(self.cfg.thickness)));

        self.result.append(
            self.square_cut_w().draw(
                self.offset.shift_x(self.cfg.thick_n(1)).origin(Origin::TopRight),
            ),
        );

        self.result.append(
            self.square_cut_w().draw(self.offset.shift_x(back_wall.square.w + self.cfg.thick_n(1))),
        );

        self.result.append(
            vertical_glue_flap.draw(
                self.offset.shift_xy(self.cfg.thickness, self.cfg.thickness).origin(
                    Origin::TopRight,
                ),
            ),
        );

        self.result.append(
            vertical_glue_flap.mirror_vertical().draw(
                self.offset.shift_xy(self.cfg.thickness + back_wall.square.w, self.cfg.thickness),
            ),
        );

        self.result.append(
            self.square_cut_w().draw(
                self.offset.shift_xy(
                    self.cfg.thickness,
                    vertical_glue_flap.square.h + self.cfg.thickness,
                ).origin(Origin::TopRight),
            ),
        );

        self.result.append(
            self.square_cut_w().draw(
                self.offset.shift_xy(
                    back_wall.square.w + self.cfg.thickness,
                    vertical_glue_flap.square.h + self.cfg.thickness,
                ),
            ),
        );

        self.offset = self.offset.shift_y(back_wall.square.h);

        let bottom_wall = SquareElement::new(self.cfg.length, self.cfg.width).borders(
            CutType::Nope,
            CutType::Bend,
            CutType::Bend,
            CutType::Bend,
        );

        self.result.append(bottom_wall.draw(self.offset));

        self.draw_side_walls();

        let front_wall = back_wall.borders(CutType::Nope, CutType::Cut, CutType::Cut, CutType::Cut)
            .height(self.cfg.height - self.cfg.thickness);

        self.offset = self.offset.shift_y(bottom_wall.square.h);

        self.result.append(
            front_wall.border_left(CutType::Bend).border_right(CutType::Bend).draw(
                self.offset.shift_x(self.cfg.thickness),
            ),
        );

        let offset_flap = self.offset.shift_y(self.cfg.thickness).shift_x(self.cfg.thickness)
            .origin(Origin::TopRight);

        self.result.append(vertical_glue_flap.draw(offset_flap));

        self.result.append(self.square_cut_w().draw(offset_flap.origin(Origin::BottomRight)));

        let offset_flap = offset_flap.shift_x(front_wall.square.w);

        self.result.append(
            vertical_glue_flap.mirror_vertical().draw(offset_flap.origin(Origin::TopLeft)),
        );

        self.result.append(self.square_cut_w().draw(offset_flap.origin(Origin::BottomLeft)));
    }

    /// Draws the two side walls of the box beside the bottom. The cursor
    /// stays.
    pub fn draw_side_walls(&mut self)
        requires
            old(self).ready(3),
        ensures
            final(self).cfg == old(self).cfg,
            final(self).offset == old(self).offset,
            final(self).result@ == old(self).cfg.side_walls(old(self).offset@, old(self).result@),
    {
        let wall = SquareElement::new(self.cfg.height - self.cfg.thickness, self.cfg.width).borders(
            CutType::Cut,
            CutType::Nope,
            CutType::Cut,
            CutType::Cut,
        );

        self.result.append(wall.draw(self.offset.origin(Origin::TopRight)));

        self.result.append(wall.mirror_vertical().draw(self.offset.shift_x(self.cfg.length)));
    }
}

/// The walls add fifty-one lines to the drawing, whatever the parameters.
/// They keep the drawing sound and its file name, and do not lower its
/// extent.
pub proof fn lemma_main_walls(cfg: BoxCubeCfg, cursor: Anchor, d: Drawing)
    ensures
        cfg.main_walls(cursor, d).segments.len() == d.segments.len() + 51,
        cfg.main_walls(cursor, d).default_file_name == d.default_file_name,
        cfg.main_walls(cursor, d).max.x >= d.max.x,
        cfg.main_walls(cursor, d).max.y >= d.max.y,
        d.sound() ==> cfg.main_walls(cursor, d).sound(),
{
    lemma_put_all();
}

/// The net of a cuboid box adds eighty-three lines to the drawing, whatever
/// the parameters: thirty-two of the lid and fifty-one of the walls. It
/// keeps the drawing sound and its file name, and does not lower its
/// extent.
pub proof fn lemma_net(cfg: BoxCubeCfg, cursor: Anchor, d: Drawing)
    ensures
        cfg.net(cursor, d).segments.len() == d.segments.len() + 83,
        cfg.net(cursor, d).default_file_name == d.default_file_name,
        cfg.net(cursor, d).max.x >= d.max.x,
        cfg.net(cursor, d).max.y >= d.max.y,
        d.sound() ==> cfg.net(cursor, d).sound(),
{
    lemma_lid_net(cfg.lid(), cursor, d);
    lemma_main_walls(cfg, cfg.below_top_lid(cursor), cfg.top_lid(cursor, d));
}

impl BoxCubeCfg {
    /// The parameters are those of a box that can be built: none is
    /// negative, the rim of the lid is at least as high as the material is
    /// thick, the box is at least two thicknesses high and long, and the
    /// two glue flaps beside the tuck flap leave room for it.
    pub open spec fn buildable(self) -> bool {
        &&& self.lid().buildable()
        &&& self.thickness * 2 <= self.height
        &&& self.thickness * 2 <= self.length
    }

    /// The furthest position that the walls of a buildable box reach when
    /// drawn with the cursor at `cursor`: to the right the glue flaps or
    /// the right side wall, whichever is wider, below the front wall.
    pub open spec fn walls_reach(self, cursor: Anchor) -> Anchor {
        let side = if self.glue_flap > self.height - self.thickness {
            self.glue_flap as int
        } else {
            self.height - self.thickness
        };
        Anchor::at(
            cursor.x + self.length + side,
            cursor.y + self.height * 2 + self.width - self.thickness,
        )
    }

    /// What lies widest to the right of a buildable box on its sheet: the
    /// side wall of the lid with the thickness of the top wall, a glue
    /// flap, or the right side wall of the box.
    pub open spec fn beside(self) -> int {
        let lid = self.lid_height + self.thickness;
        let wall = self.height - self.thickness;
        let flap = self.glue_flap as int;
        if lid >= flap && lid >= wall {
            lid
        } else if flap >= wall {
            flap
        } else {
            wall
        }
    }

    /// Extent of the finished drawing of a buildable box: the sheet
    /// without its right and lower margin. From left to right the sheet
    /// holds the margin, the left side wall, the bottom, and what lies
    /// beside it; from top to bottom the margin, the lid with the rim
    /// before and behind its top wall, the back, the bottom and the front.
    pub open spec fn sheet(self) -> Anchor {
        Anchor::at(
            VIEWPORT_OFFSET + self.height + self.length + self.beside(),
            VIEWPORT_OFFSET + (self.lid_height + self.width + self.height) * 2,
        )
    }
}

/// What the back wall, its glue flaps and the bottom add to the extent.
proof fn lemma_back_row_reach(cfg: BoxCubeCfg, cursor: Anchor, d: Drawing)
    requires
        cfg.buildable(),
        cursor.origin == Origin::TopLeft,
    ensures
        cfg.back_row(cursor, d).max == d.max.raised().max_with(
            Anchor::at(
                cursor.x + cfg.length + if cfg.glue_flap > cfg.thickness {
                    cfg.glue_flap
                } else {
                    cfg.thickness
                },
                cursor.y + cfg.height + cfg.width,
            ),
        ),
{
    lemma_put_max_all();
}

/// What the side walls add to the extent.
proof fn lemma_side_walls_reach(cfg: BoxCubeCfg, cursor: Anchor, d: Drawing)
    requires
        cfg.buildable(),
        cursor.origin == Origin::TopLeft,
    ensures
        cfg.side_walls(cursor, d).max == d.max.raised().max_with(
            Anchor::at(
                cursor.x + cfg.length + cfg.height - cfg.thickness,
                cursor.y + cfg.width,
            ),
        ),
{
    lemma_put_max_all();
}

/// What the front wall and its glue flaps add to the extent.
proof fn lemma_front_row_reach(cfg: BoxCubeCfg, cursor: Anchor, d: Drawing)
    requires
        cfg.buildable(),
        cursor.origin == Origin::TopLeft,
    ensures
        cfg.front_row(cursor, d).max == d.max.raised().max_with(
            Anchor::at(
                cursor.x + cfg.length + if cfg.glue_flap > cfg.thickness {
                    cfg.glue_flap
                } else {
                    cfg.thickness
                },
                cursor.y + cfg.height - cfg.thickness,
            ),
        ),
{
    lemma_put_max_all();
}

/// The walls of a buildable box, drawn from a cursor that stands for a
/// top-left corner, raise the extent of the drawing from the corner of the
/// sheet to their reach, and no further.
pub proof fn lemma_walls_reach(cfg: BoxCubeCfg, cursor: Anchor, d: Drawing)
    requires
        cfg.buildable(),
        cursor.origin == Origin::TopLeft,
    ensures
        cfg.main_walls(cursor, d).max == d.max.raised().max_with(cfg.walls_reach(cursor)),
{
    let bottom = cursor.shift_y(cfg.back_wall().dims.h);
    let front = bottom.shift_y(cfg.bottom_wall().dims.h);
    let back = cfg.back_row(cursor, d);
    lemma_back_row_reach(cfg, cursor, d);
    lemma_side_walls_reach(cfg, bottom, back);
    lemma_front_row_reach(cfg, front, cfg.side_walls(bottom, back));
}

/// The finished drawing of a buildable box, drawn from the start into an
/// empty drawing, has the extent [`BoxCubeCfg::sheet`].
pub proof fn lemma_sheet(cfg: BoxCubeCfg, name: Seq<char>)
    requires
        cfg.buildable(),
    ensures
        cfg.net(cfg.start(), Drawing::empty(name)).max == cfg.sheet(),
{
    let d = Drawing::empty(name);
    lemma_lid_reach(cfg.lid(), cfg.start(), d);
    lemma_walls_reach(cfg, cfg.below_top_lid(cfg.start()), cfg.top_lid(cfg.start(), d));
}

} // verus!
