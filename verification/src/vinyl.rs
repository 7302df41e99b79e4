//! The net of a box for vinyl records.
//!
//! The inside of the box is fixed by the size of a record sleeve; only its
//! width, the number of records as it were, is chosen. From top to bottom
//! the sheet holds a hinged lid, the back wall between the two side walls,
//! the bottom, the front wall, and a stripe that runs around the finished
//! box. Each side wall has a hole for a hand.

use vstd::prelude::*;

use crate::common::drawing::{DrawResult, Drawing};
use crate::common::hinged_lid::{lemma_lid_net, lemma_lid_reach, HingedLid};
use crate::common::point::{Anchor, Origin, Point};
use crate::common::square::{lemma_put_all, lemma_put_max_all, Panel, SquareElement};
use crate::common::{
    dimension_ok, half, halved, is_dimension, CutType, MAX_COORDINATE, MAX_DIMENSION,
    UNITS_PER_MM, VIEWPORT_OFFSET,
};

verus! {

/// Inner height of the box.
pub const INNER_H: i64 = 330 * UNITS_PER_MM;

/// Inner length of the box.
pub const INNER_L: i64 = 330 * UNITS_PER_MM;

/// Height of the stripe around the box.
pub const STRIPE_H: i64 = 90 * UNITS_PER_MM;

/// Least distance of a handle hole from the upper rim of a side wall.
pub const STRIPE_HANDLE_TOP_OFFSET: i64 = 35 * UNITS_PER_MM;

/// Height of a handle hole.
pub const HANDLE_HEIGHT: i64 = 25 * UNITS_PER_MM;

/// Largest width of a handle hole.
pub const HANDLE_MAX_W: i64 = 80 * UNITS_PER_MM;

/// Least width of a handle hole, and the side of the blind mark that a
/// box wider than [`HANDLE_WIDE_BOX`] gets in its place.
pub const HANDLE_MIN_W: i64 = 10 * UNITS_PER_MM;

/// Least distance of a handle hole from either end of a side wall.
pub const HANDLE_MIN_SIDE_OFFSET: i64 = 25 * UNITS_PER_MM;

/// Width of the box beyond which no handle hole is cut.
pub const HANDLE_WIDE_BOX: i64 = 250 * UNITS_PER_MM;

/// Gap between the front wall and the stripe below it.
pub const STRIPE_GAP: i64 = 5 * UNITS_PER_MM;

/// File name of the drawing of a vinyl box that was given none.
pub const VINYL_FIE_NAME: &'static str = "LaserCutVinylBox.svg";

/// Name under which the model is chosen on the command line.
pub const CLI_SUBCOMMAND: &'static str = "vinyl";

/// Sizing parameters of a vinyl box, in units.
#[derive(Debug, Clone, Copy, PartialEq, Eq, Structural)]
pub struct VinylBoxCfg {
    /// Thickness of the material.
    pub thickness: i64,
    /// Length of a glue flap.
    pub glue_flap: i64,
    /// Height of the rim of the lid.
    pub lid_height: i64,
    /// Outer height of the box.
    pub height: i64,
    /// Outer length of the box.
    pub length: i64,
    /// Outer width of the box.
    pub width: i64,
}

impl VinylBoxCfg {
    /// The chosen parameters are small enough for the whole net to be
    /// computed, and height and length are those of a box that holds a
    /// record sleeve.
    pub open spec fn wf(self) -> bool {
        &&& dimension_ok(self.thickness as int)
        &&& dimension_ok(self.glue_flap as int)
        &&& dimension_ok(self.lid_height as int)
        &&& dimension_ok(self.width as int)
        &&& self.height == INNER_H + self.thickness * 3
        &&& self.length == INNER_L + self.thickness * 4
    }

    /// The parameters of the box of the given width, or nothing if one of
    /// the arguments exceeds [`MAX_DIMENSION`] in magnitude.
    /// Height and length follow from the size of a record sleeve and the
    /// thickness of the material.
    pub fn from(thickness: i64, glue_flap: i64, lid_height: i64, width: i64) -> (r: Option<Self>)
        ensures
            r is Some <==> dimension_ok(thickness as int) && dimension_ok(glue_flap as int)
                && dimension_ok(lid_height as int) && dimension_ok(width as int),
            r matches Some(cfg) ==> cfg == (VinylBoxCfg {
                thickness,
                glue_flap,
                lid_height,
                height: (INNER_H + thickness * 3) as i64,
                length: (INNER_L + thickness * 4) as i64,
                width,
            }) && cfg.wf(),
    {
        if is_dimension(thickness) && is_dimension(glue_flap) && is_dimension(lid_height)
            && is_dimension(width) {
            Some(
                Self {
                    thickness,
                    glue_flap,
                    lid_height,
                    height: INNER_H + thickness * 3,
                    length: INNER_L + thickness * 4,
                    width,
                },
            )
        } else {
            None
        }
    }

    /// The thickness of the material, `multiply` times.
    pub fn thick_n(&self, multiply: usize) -> (r: i64)
        requires
            multiply <= i64::MAX,
            i64::MIN <= self.thickness * multiply <= i64::MAX,
        ensures
            r == self.thickness * multiply,
    {
        self.thickness * (multiply as i64)
    }

    /// The lid of the box.
    pub open spec fn lid(self) -> HingedLid {
        HingedLid {
            length: self.length,
            width: self.width,
            thickness: self.thickness,
            glue_flap: self.glue_flap,
            lid_height: self.lid_height,
        }
    }

    /// The lid of the box.
    pub fn hinged_lid(&self) -> (r: HingedLid)
        ensures
            r == self.lid(),
    {
        HingedLid {
            length: self.length,
            width: self.width,
            thickness: self.thickness,
            glue_flap: self.glue_flap,
            lid_height: self.lid_height,
        }
    }

    /// The notch of one thickness by one thickness.
    pub open spec fn square_cut(self) -> Panel {
        Panel::cut(self.thickness as int, self.thickness as int)
    }

    /// The notch of two thicknesses by one thickness.
    pub open spec fn square_cut_w(self) -> Panel {
        Panel::cut(self.thickness * 2, self.thickness as int)
    }

    /// Length of the back wall: the box less the stripe around it.
    pub open spec fn main_wall_length(self) -> int {
        self.length - self.thickness * 2
    }

    /// Width of a handle hole: the side wall less the least distance from
    /// both ends, but neither less than [`HANDLE_MIN_W`] nor more than
    /// [`HANDLE_MAX_W`].
    pub open spec fn handle_width(self) -> int {
        let free = self.width - HANDLE_MIN_SIDE_OFFSET * 2;
        if free > HANDLE_MAX_W {
            HANDLE_MAX_W as int
        } else if free < HANDLE_MIN_W {
            HANDLE_MIN_W as int
        } else {
            free
        }
    }

    /// Distance of a handle hole from either end of its side wall. A box
    /// wider than [`HANDLE_WIDE_BOX`] has its blind mark at the very end.
    pub open spec fn handle_side_offset(self) -> int {
        if HANDLE_WIDE_BOX < self.width {
            0
        } else {
            half(self.width - self.handle_width())
        }
    }

    /// The handle hole, lying along the wall or standing across it. A box
    /// wider than [`HANDLE_WIDE_BOX`] gets a blind mark, of which nothing
    /// is drawn.
    pub open spec fn handle_hole(self, horizontal: bool) -> Panel {
        if HANDLE_WIDE_BOX < self.width {
            Panel::new(HANDLE_MIN_W as int, HANDLE_MIN_W as int)
        } else if horizontal {
            Panel::cut(self.handle_width(), HANDLE_HEIGHT as int)
        } else {
            Panel::cut(HANDLE_HEIGHT as int, self.handle_width())
        }
    }

    /// Distance of a handle hole from the upper rim of its wall: below the
    /// rim of the lid, and [`STRIPE_HANDLE_TOP_OFFSET`] at the least.
    pub open spec fn handle_top_offset(self) -> int {
        if STRIPE_HANDLE_TOP_OFFSET < self.lid_height {
            self.lid_height as int
        } else {
            STRIPE_HANDLE_TOP_OFFSET as int
        }
    }

    /// The left side wall.
    pub open spec fn side_wall(self) -> Panel {
        Panel::new(self.width as int, self.height - self.thickness).borders(
            CutType::Cut,
            CutType::Nope,
            CutType::Bend,
            CutType::Bend,
        )
    }

    /// The glue flap at the outer end of the left side wall.
    pub open spec fn flap(self) -> Panel {
        Panel::new(self.glue_flap as int, self.side_wall().dims.h).borders(
            CutType::Cut,
            CutType::Nope,
            CutType::Cut,
            CutType::Cut,
        )
    }

    /// The flap below the left side wall that lies under the bottom.
    pub open spec fn flap_bot(self) -> Panel {
        Panel::new(self.width - self.thickness * 3, half(self.length - self.thickness * 4))
            .borders(CutType::Nope, CutType::Cut, CutType::Cut, CutType::Cut)
    }

    /// The upper part of a standing half of the stripe: it covers a side
    /// wall.
    pub open spec fn stripe_top(self) -> Panel {
        Panel::cut(STRIPE_H as int, self.width + self.thickness).border_bottom(CutType::Bend)
    }

    /// The lower part of a standing half of the stripe: it covers half of
    /// the back wall.
    pub open spec fn stripe_center(self) -> Panel {
        Panel::cut(STRIPE_H as int, half(self.length as int)).border_top(CutType::Nope)
    }

    /// The back wall.
    pub open spec fn back_wall(self) -> Panel {
        Panel::new(self.main_wall_length(), self.height + self.thickness).borders(
            CutType::Nope,
            CutType::Bend,
            CutType::Bend,
            CutType::Bend,
        )
    }

    /// The bottom.
    pub open spec fn bot_wall(self) -> Panel {
        self.back_wall().height(self.width - self.thickness).border_left(CutType::Cut)
            .border_right(CutType::Cut)
    }

    /// The front wall.
    pub open spec fn front_wall(self) -> Panel {
        Panel::new(self.back_wall().dims.w - self.thickness * 2, self.height as int).borders(
            CutType::Nope,
            CutType::Cut,
            CutType::Cut,
            CutType::Cut,
        )
    }

    /// The part of the stripe that lies over the front wall.
    pub open spec fn stripe_front(self) -> Panel {
        Panel::cut(self.length - (self.thickness * 2 + self.glue_flap * 2), STRIPE_H as int)
    }

    /// Where the cursor stands before anything is drawn: far enough from
    /// the left for a side wall with its glue flap, and off the edge of
    /// the sheet.
    pub open spec fn start(self) -> Anchor {
        Anchor::at(self.width + self.glue_flap + VIEWPORT_OFFSET, VIEWPORT_OFFSET as int)
    }

    /// The two standing halves of the stripe, `width` apart, drawn into
    /// `d` with the cursor at the inner top corner of the left one. The
    /// holes are left out where they would not lie within the stripe.
    pub open spec fn vertical_half_stripes(self, width: int, cursor: Anchor, d: Drawing) -> Drawing {
        let top_h = self.stripe_top().dims.h;
        let down = self.handle_side_offset() + self.thickness;
        let halves = d.put(self.stripe_top(), cursor.with_origin(Origin::TopRight)).put(
            self.stripe_center(),
            cursor.shift_y(top_h).with_origin(Origin::TopRight),
        ).put(self.stripe_top(), cursor.shift_x(width)).put(
            self.stripe_center(),
            cursor.shift_x(width).shift_y(top_h),
        );
        if self.handle_top_offset() < self.stripe_top().dims.w {
            halves.put(
                self.handle_hole(false),
                cursor.shift_y(down).shift_x(-self.handle_top_offset()).with_origin(
                    Origin::TopRight,
                ),
            ).put(
                self.handle_hole(false),
                cursor.shift_y(down).shift_x(width + self.handle_top_offset()),
            )
        } else {
            halves
        }
    }

    /// The left side wall with what hangs on it, drawn into `d` with the
    /// cursor at the inner top corner of the wall.
    pub open spec fn left_side(self, cursor: Anchor, d: Drawing) -> Drawing {
        let t = self.thickness as int;
        let wall_h = self.side_wall().dims.h;
        d.put(self.side_wall(), cursor.with_origin(Origin::TopRight)).put(
            self.flap(),
            cursor.shift_x(-self.side_wall().dims.w).with_origin(Origin::TopRight),
        ).put(
            self.flap_bot(),
            cursor.shift_x(-t).shift_y(wall_h).with_origin(Origin::TopRight),
        ).put(self.square_cut(), cursor.shift_y(wall_h).with_origin(Origin::TopRight)).put(
            self.square_cut_w(),
            cursor.shift_y(wall_h).shift_x(-(self.flap_bot().dims.w + t)).with_origin(
                Origin::TopRight,
            ),
        ).put(
            self.handle_hole(true),
            cursor.shift_x(-(self.handle_side_offset() - t)).shift_y(
                self.handle_top_offset(),
            ).with_origin(Origin::TopRight),
        )
    }

    /// The right side wall with what hangs on it, drawn into `d` with the
    /// cursor at the inner top corner of the wall: the left side, mirrored.
    pub open spec fn right_side(self, cursor: Anchor, d: Drawing) -> Drawing {
        let t = self.thickness as int;
        let wall_h = self.side_wall().dims.h;
        d.put(self.side_wall().mirror_vertical(), cursor).put(
            self.flap().mirror_vertical(),
            cursor.shift_x(self.side_wall().dims.w),
        ).put(self.flap_bot().mirror_vertical(), cursor.shift_xy(t, wall_h)).put(
            self.square_cut(),
            cursor.shift_y(wall_h),
        ).put(self.square_cut_w(), cursor.shift_xy(self.flap_bot().dims.w + t, wall_h)).put(
            self.handle_hole(true),
            cursor.shift_x(self.handle_side_offset() - t).shift_y(self.handle_top_offset()),
        )
    }

    /// Both side walls and, below them, the standing halves of the stripe,
    /// drawn into `d` with the cursor at `cursor`.
    pub open spec fn side_walls(self, cursor: Anchor, d: Drawing) -> Drawing {
        let t = self.thickness as int;
        let left = cursor.shift_xy(t, t);
        let right = left.shift_x(self.length - t * 2);
        let stripe = left.shift_x(-t).shift_y(self.side_wall().dims.h).shift_y(
            self.flap_bot().dims.h,
        );
        self.vertical_half_stripes(
            self.length as int,
            stripe,
            self.right_side(right, self.left_side(left, d)),
        )
    }

    /// Back wall, bottom and front wall, drawn into `d` with the cursor
    /// at `cursor`.
    pub open spec fn main_walls(self, cursor: Anchor, d: Drawing) -> Drawing {
        let t = self.thickness as int;
        let back = cursor.shift_x(t);
        let bottom = back.shift_y(self.back_wall().dims.h);
        let front = bottom.shift_y(self.bot_wall().dims.h).shift_x(t);
        d.put(self.square_cut_w(), back.with_origin(Origin::TopRight)).put(
            self.square_cut_w(),
            back.shift_x(self.back_wall().dims.w),
        ).put(self.back_wall(), back).put(self.bot_wall(), bottom).put(
            self.front_wall(),
            front,
        ).put(self.square_cut(), front.with_origin(Origin::TopRight)).put(
            self.square_cut(),
            front.shift_x(self.front_wall().dims.w),
        )
    }

    /// Where the cursor stands below the front wall.
    pub open spec fn below_main_walls(self, cursor: Anchor) -> Anchor {
        cursor.shift_y(
            self.back_wall().dims.h + self.bot_wall().dims.h + self.front_wall().dims.h,
        )
    }

    /// The part of the stripe that lies over the front wall, drawn into
    /// `d` with the cursor below the front wall.
    pub open spec fn bottom_stripe(self, cursor: Anchor, d: Drawing) -> Drawing {
        d.put(
            self.stripe_front(),
            cursor.shift_y(STRIPE_GAP as int).shift_x(self.glue_flap as int),
        )
    }

    /// Number of lines of the whole net: four more for every handle hole
    /// that is cut, two in the side walls unless the box is wider than
    /// [`HANDLE_WIDE_BOX`], and then two in the stripe if they lie within it.
    pub open spec fn line_count(self) -> nat {
        if HANDLE_WIDE_BOX < self.width {
            109
        } else if self.handle_top_offset() < self.stripe_top().dims.w {
            125
        } else {
            117
        }
    }

    /// The whole net, drawn into `d` with the cursor at `cursor`.
    pub open spec fn net(self, cursor: Anchor, d: Drawing) -> Drawing {
        let walls = self.lid().below(cursor);
        self.bottom_stripe(
            self.below_main_walls(walls),
            self.main_walls(walls, self.side_walls(walls, self.lid().net(cursor, d))),
        )
    }
}

/// A vinyl box in the making: its parameters, the cursor, and what has
/// been drawn so far.
pub struct VinylBox {
    pub cfg: VinylBoxCfg,
    pub offset: Point,
    pub result: DrawResult,
}

impl VinylBox {
    /// The parameters are acceptable and no coordinate of the cursor
    /// exceeds `range` times [`MAX_COORDINATE`] in magnitude. The whole
    /// net is drawn from range 1; its parts, which find the cursor where
    /// earlier parts left it, accept a cursor further out.
    pub open spec fn ready(self, range: int) -> bool {
        &&& self.cfg.wf()
        &&& self.offset@.within(range * MAX_COORDINATE)
    }

    /// A box of which nothing is drawn yet, with the cursor at the start.
    pub fn new(cfg: VinylBoxCfg) -> (r: Self)
        requires
            cfg.wf(),
        ensures
            r.cfg == cfg,
            r.offset@ == cfg.start(),
            r.result@ == Drawing::empty(VINYL_FIE_NAME@),
            r.ready(1),
    {
        let offset = Point::new(cfg.width + cfg.glue_flap, 0).shift_xy(
            VIEWPORT_OFFSET,
            VIEWPORT_OFFSET,
        );
        Self { cfg, offset, result: DrawResult::empty(VINYL_FIE_NAME.to_owned()) }
    }

    /// Draws the whole net from the cursor and hands the drawing out.
    pub fn draw(self) -> (r: DrawResult)
        requires
            self.ready(1),
        ensures
            r@ == self.cfg.net(self.offset@, self.result@),
    {
        let mut this = self;
        this.draw_top_lid();
        this.draw_side_walls();
        this.draw_main_walls();
        this.draw_bottom_stripe();

        this.result
    }

    fn square_cut(&self) -> (r: SquareElement)
        ensures
            r@ == self.cfg.square_cut(),
    {
        SquareElement::cut(self.cfg.thickness, self.cfg.thickness)
    }

    fn square_cut_w(&self) -> (r: SquareElement)
        requires
            self.cfg.wf(),
        ensures
            r@ == self.cfg.square_cut_w(),
    {
        SquareElement::cut(self.cfg.thick_n(2), self.cfg.thickness)
    }

    fn main_wall_length(&self) -> (r: i64)
        requires
            self.cfg.wf(),
        ensures
            r == self.cfg.main_wall_length(),
    {
        self.cfg.length - self.cfg.thick_n(2)
    }

    fn handle_top_offset(&self) -> (r: i64)
        ensures
            r == self.cfg.handle_top_offset(),
    {
        if STRIPE_HANDLE_TOP_OFFSET < self.cfg.lid_height {
            self.cfg.lid_height
        } else {
            STRIPE_HANDLE_TOP_OFFSET
        }
    }

    /// Draws the lid and moves the cursor below it.
    pub fn draw_top_lid(&mut self)
        requires
            old(self).ready(2),
        ensures
            final(self).cfg == old(self).cfg,
            final(self).offset@ == old(self).cfg.lid().below(old(self).offset@),
            final(self).result@ == old(self).cfg.lid().net(old(self).offset@, old(self).result@),
    {
        let below = self.cfg.hinged_lid().draw(&mut self.result, self.offset);
        self.offset.y = below.y;
    }

    fn side_wall(&self) -> (r: SquareElement)
        requires
            self.cfg.wf(),
        ensures
            r@ == self.cfg.side_wall(),
    {
        SquareElement::new(self.cfg.width, self.cfg.height - self.cfg.thickness).borders(
            CutType::Cut,
            CutType::Nope,
            CutType::Bend,
            CutType::Bend,
        )
    }

    fn flap(&self) -> (r: SquareElement)
        requires
            self.cfg.wf(),
        ensures
            r@ == self.cfg.flap(),
    {
        SquareElement::new(self.cfg.glue_flap, self.side_wall().square.h).borders(
            CutType::Cut,
            CutType::Nope,
            CutType::Cut,
            CutType::Cut,
        )
    }

    fn flap_bot(&self) -> (r: SquareElement)
        requires
            self.cfg.wf(),
        ensures
            r@ == self.cfg.flap_bot(),
    {
        SquareElement::new(
            self.cfg.width - self.cfg.thick_n(3),
            halved(self.cfg.length - self.cfg.thick_n(4)),
        ).borders(CutType::Nope, CutType::Cut, CutType::Cut, CutType::Cut)
    }

    /// Draws both side walls with their flaps and handle holes and, below
    /// them, the standing halves of the stripe. The cursor stays.
    pub fn draw_side_walls(&mut self)
        requires
            old(self).ready(2),
        ensures
            final(self).cfg == old(self).cfg,
            final(self).offset == old(self).offset,
            final(self).result@ == old(self).cfg.side_walls(old(self).offset@, old(self).result@),
    {
        let offset = self.offset.shift_xy(self.cfg.thickness, self.cfg.thickness);

        self.draw_left_side(offset);

        let roffset = offset.shift_x(self.cfg.length - self.cfg.thick_n(2));

        self.draw_right_side(roffset);

        let offset_stripe = offset.shift_nx(self.cfg.thickness).shift_y(
            self.side_wall().square.h,
        ).shift_y(self.flap_bot().square.h);

        self.draw_vertical_half_stripes(self.cfg.length, offset_stripe);
    }

    /// Draws the left side wall with its flaps and handle hole, the inner
    /// top corner of the wall at `offset`. The cursor stays.
    fn draw_left_side(&mut self, offset: Point)
        requires
            old(self).cfg.wf(),
            offset@.within(3 * MAX_COORDINATE),
        ensures
            final(self).cfg == old(self).cfg,
            final(self).offset == old(self).offset,
            final(self).result@ == old(self).cfg.left_side(offset@, old(self).result@),
    {
        let side_wall = self.side_wall();
        let flap = self.flap();
        let flap_bot = self.flap_bot();
        let (side_off, handle) = self.handle_hole(true);
        let handle_top_offset = self.handle_top_offset();

        self.result.append(side_wall.draw(offset.origin(Origin::TopRight)));

        self.result.append(flap.draw(offset.shift_nx(side_wall.square.w).origin(Origin::TopRight)));

        self.result.append(
            flap_bot.draw(
                offset.shift_nx(self.cfg.thickness).shift_y(side_wall.square.h).origin(
                    Origin::TopRight,
                ),
            ),
        );

        self.result.append(
            self.square_cut().draw(offset.shift_y(side_wall.square.h).origin(Origin::TopRight)),
        );

        self.result.append(
            self.square_cut_w().draw(
                offset.shift_y(side_wall.square.h).shift_nx(
                    flap_bot.square.w + self.cfg.thickness,
                ).origin(Origin::TopRight),
            ),
        );

        self.result.append(
            handle.draw(
                offset.shift_nx(side_off - self.cfg.thickness).shift_y(handle_top_offset).origin(
                    Origin::TopRight,
                ),
            ),
        );
    }

    /// Draws the right side wall with its flaps and handle hole, the inner
    /// top corner of the wall at `roffset`. The cursor stays.
    fn draw_right_side(&mut self, roffset: Point)
        requires
            old(self).cfg.wf(),
            roffset@.within(3 * MAX_COORDINATE),
        ensures
            final(self).cfg == old(self).cfg,
            final(self).offset == old(self).offset,
            final(self).result@ == old(self).cfg.right_side(roffset@, old(self).result@),
    {
        let side_wall = self.side_wall();
        let flap = self.flap();
        let flap_bot = self.flap_bot();
        let (side_off, handle) = self.handle_hole(true);
        let handle_top_offset = self.handle_top_offset();

        self.result.append(side_wall.mirror_vertical().draw(roffset));

        self.result.append(flap.mirror_vertical().draw(roffset.shift_x(side_wall.square.w)));

        self.result.append(
            flap_bot.mirror_vertical().draw(
                roffset.shift_xy(self.cfg.thickness, side_wall.square.h),
            ),
        );

        self.result.append(self.square_cut().draw(roffset.shift_y(side_wall.square.h)));

        self.result.append(
            self.square_cut_w().draw(
                roffset.shift_xy(flap_bot.square.w + self.cfg.thickness, side_wall.square.h),
            ),
        );

        self.result.append(
            handle.draw(
                roffset.shift_x(side_off - self.cfg.thickness).shift_y(handle_top_offset),
            ),
        );
    }

    /// Draws back wall, bottom and front wall and moves the cursor below
    /// the front wall.
    pub fn draw_main_walls(&mut self)
        requires
            old(self).ready(2),
        ensures
            final(self).cfg == old(self).cfg,
            final(self).offset@ == old(self).cfg.below_main_walls(old(self).offset@),
            final(self).result@ == old(self).cfg.main_walls(old(self).offset@, old(self).result@),
    {
        let offset = self.offset.shift_x(self.cfg.thickness);

        let back_wall = SquareElement::new(
            self.main_wall_length(),
            self.cfg.height + self.cfg.thickness,
        ).borders(CutType::Nope, CutType::Bend, CutType::Bend, CutType::Bend);

        self.result.append(self.square_cut_w().draw(offset.origin(Origin::TopRight)));
        self.result.append(self.square_cut_w().draw(offset.shift_x(back_wall.square.w)));

        self.result.append(back_wall.draw(offset));

        let offset = offset.shift_y(back_wall.square.h);

        let bot_wall = back_wall.height(self.cfg.width - self.cfg.thick_n(1)).border_left(
            CutType::Cut,
        ).border_right(CutType::Cut);

        self.result.append(bot_wall.draw(offset));

        let offset = offset.shift_y(bot_wall.square.h).shift_x(self.cfg.thickness);

        let front_wall = SquareElement::new(
            back_wall.square.w - self.cfg.thick_n(2),
            self.cfg.height,
        ).borders(CutType::Nope, CutType::Cut, CutType::Cut, CutType::Cut);

        self.result.append(front_wall.draw(offset));
        self.result.append(self.square_cut().draw(offset.origin(Origin::TopRight)));
        self.result.append(self.square_cut().draw(offset.shift_x(front_wall.square.w)));

        self.offset.y = offset.shift_y(front_wall.square.h).y;
    }

    /// Draws the part of the stripe that lies over the front wall, below
    /// the cursor. The cursor stays.
    pub fn draw_bottom_stripe(&mut self)
        requires
            old(self).ready(2),
        ensures
            final(self).cfg == old(self).cfg,
            final(self).offset == old(self).offset,
            final(self).result@ == old(self).cfg.bottom_stripe(
                old(self).offset@,
                old(self).result@,
            ),
    {
        let offset = self.offset.shift_y(STRIPE_GAP);

        let front = SquareElement::cut(
            self.cfg.length - (self.cfg.thick_n(2) + self.cfg.glue_flap * 2),
            STRIPE_H,
        );

        self.result.append(front.draw(offset.shift_x(self.cfg.glue_flap)));
    }

    /// Draws the two standing halves of the stripe, `width` apart, with
    /// the inner top corner of the left one at `offset`, and the handle
    /// holes in them where they lie within the stripe. The cursor stays.
    pub fn draw_vertical_half_stripes(&mut self, width: i64, offset: Point)
        requires
            old(self).cfg.wf(),
            -8 * MAX_DIMENSION <= width <= 8 * MAX_DIMENSION,
            offset@.within(3 * MAX_COORDINATE),
        ensures
            final(self).cfg == old(self).cfg,
            final(self).offset == old(self).offset,
            final(self).result@ == old(self).cfg.vertical_half_stripes(
                width as int,
                offset@,
                old(self).result@,
            ),
    {
        let (side_off, handle) = self.handle_hole(false);

        let top = SquareElement::cut(STRIPE_H, self.cfg.width + self.cfg.thickness).border_bottom(
            CutType::Bend,
        );
        let center = SquareElement::cut(STRIPE_H, halved(self.cfg.length)).border_top(
            CutType::Nope,
        );
        let handle_top_offset = self.handle_top_offset();

        self.result.append(top.draw(offset.origin(Origin::TopRight)));

        self.result.append(center.draw(offset.shift_y(top.square.h).origin(Origin::TopRight)));

        self.result.append(top.draw(offset.shift_x(width)));

        self.result.append(center.draw(offset.shift_x(width).shift_y(top.square.h)));

        if handle_top_offset < top.square.w {
            // left hole
            self.result.append(
                handle.draw(
                    offset.shift_y(side_off + self.cfg.thickness).shift_nx(handle_top_offset)
                        .origin(Origin::TopRight),
                ),
            );

            // right hole
            self.result.append(
                handle.draw(
                    offset.shift_y(side_off + self.cfg.thickness).shift_x(
                        width + handle_top_offset,
                    ),
                ),
            );
        }
    }

    /// The distance of a handle hole from either end of its side wall, and
    /// the hole itself, lying along the wall or standing across it.
    pub fn handle_hole(&self, horizontal: bool) -> (r: (i64, SquareElement))
        requires
            self.cfg.wf(),
        ensures
            r.0 == self.cfg.handle_side_offset(),
            r.1@ == self.cfg.handle_hole(horizontal),
    {
        let height = HANDLE_HEIGHT;
        let max_w = HANDLE_MAX_W;
        let min_w = HANDLE_MIN_W;
        let min_side_offset = HANDLE_MIN_SIDE_OFFSET;

        if HANDLE_WIDE_BOX < self.cfg.width {
            return (0, SquareElement::new(min_w, min_w));
        }
        let mut width = self.cfg.width - min_side_offset * 2;
        if width > max_w {
            width = max_w;
        } else if width < min_w {
            width = min_w;
        }
        let side_offset = halved(self.cfg.width - width);

        if horizontal {
            (side_offset, SquareElement::cut(width, height))
        } else {
            (side_offset, SquareElement::cut(height, width))
        }
    }
}

/// Number of lines of a handle hole: none for the blind mark of a box
/// wider than [`HANDLE_WIDE_BOX`].
pub open spec fn handle_lines(cfg: VinylBoxCfg) -> nat {
    if HANDLE_WIDE_BOX < cfg.width {
        0
    } else {
        4
    }
}

/// Number of lines of the handle holes in the stripe: none where the holes
/// would not lie within it.
pub open spec fn stripe_handle_lines(cfg: VinylBoxCfg) -> nat {
    if cfg.handle_top_offset() < cfg.stripe_top().dims.w {
        2 * handle_lines(cfg)
    } else {
        0
    }
}

/// The side walls and the standing halves of the stripe add their lines to
/// the drawing. They keep the drawing sound and its file name, and do not
/// lower its extent.
pub proof fn lemma_side_walls(cfg: VinylBoxCfg, cursor: Anchor, d: Drawing)
    ensures
        cfg.side_walls(cursor, d).segments.len() == d.segments.len() + 48 + 2 * handle_lines(cfg) + stripe_handle_lines(cfg),
        cfg.side_walls(cursor, d).default_file_name == d.default_file_name,
        cfg.side_walls(cursor, d).max.x >= d.max.x,
        cfg.side_walls(cursor, d).max.y >= d.max.y,
        d.sound() ==> cfg.side_walls(cursor, d).sound(),
{
    lemma_put_all();
}

/// Back wall, bottom, front wall and the stripe below them add twenty-nine
/// lines to the drawing. They keep the drawing sound and its file name,
/// and do not lower its extent.
pub proof fn lemma_main_walls(cfg: VinylBoxCfg, cursor: Anchor, d: Drawing)
    ensures
        cfg.bottom_stripe(cfg.below_main_walls(cursor), cfg.main_walls(cursor, d)).segments.len() == d.segments.len() + 29,
        cfg.bottom_stripe(cfg.below_main_walls(cursor), cfg.main_walls(cursor, d)).default_file_name == d.default_file_name,
        cfg.bottom_stripe(cfg.below_main_walls(cursor), cfg.main_walls(cursor, d)).max.x >= d.max.x,
        cfg.bottom_stripe(cfg.below_main_walls(cursor), cfg.main_walls(cursor, d)).max.y >= d.max.y,
        d.sound() ==> cfg.bottom_stripe(cfg.below_main_walls(cursor), cfg.main_walls(cursor, d)).sound(),
{
    lemma_put_all();
}

/// The net of a vinyl box adds to the drawing as many lines as its handle
/// holes make it have. It keeps the drawing sound and its file name, and
/// does not lower its extent.
pub proof fn lemma_net(cfg: VinylBoxCfg, cursor: Anchor, d: Drawing)
    ensures
        cfg.net(cursor, d).segments.len() == d.segments.len() + cfg.line_count(),
        cfg.net(cursor, d).default_file_name == d.default_file_name,
        cfg.net(cursor, d).max.x >= d.max.x,
        cfg.net(cursor, d).max.y >= d.max.y,
        d.sound() ==> cfg.net(cursor, d).sound(),
{
    let walls = cfg.lid().below(cursor);
    let lid = cfg.lid().net(cursor, d);
    lemma_lid_net(cfg.lid(), cursor, d);
    lemma_side_walls(cfg, walls, lid);
    lemma_main_walls(cfg, walls, cfg.side_walls(walls, lid));
}

impl VinylBoxCfg {
    /// The parameters are those of a box that can be built: none is
    /// negative, the rim of the lid is at least as high as the material is
    /// thick and no higher than the box, and the two glue flaps beside the
    /// tuck flap leave room for it.
    pub open spec fn buildable(self) -> bool {
        &&& self.lid().buildable()
        &&& self.lid_height <= self.height
    }

    /// How far a standing half of the stripe reaches to the side: its own
    /// height, or the handle hole in it where that lies further out.
    pub open spec fn stripe_reach(self) -> int {
        let hole = self.handle_top_offset() + self.handle_hole(false).dims.w;
        if self.handle_top_offset() < self.stripe_top().dims.w && hole > STRIPE_H {
            hole
        } else {
            STRIPE_H as int
        }
    }

    /// The furthest position that the side walls and the standing halves
    /// of the stripe reach when drawn with the cursor at `cursor`: to the
    /// right the glue flap of the right side wall or the right half of
    /// the stripe, below the lower end of the stripe.
    pub open spec fn sides_reach(self, cursor: Anchor) -> Anchor {
        let flap = self.width + self.glue_flap - self.thickness;
        Anchor::at(
            cursor.x + self.length + if flap > self.stripe_reach() {
                flap
            } else {
                self.stripe_reach()
            },
            cursor.y + self.height + self.flap_bot().dims.h + self.width + self.thickness + half(
                self.length as int,
            ),
        )
    }

    /// The furthest position that back wall, bottom, front wall and the
    /// stripe below them reach when drawn with the cursor at `cursor`.
    pub open spec fn walls_reach(self, cursor: Anchor) -> Anchor {
        Anchor::at(
            cursor.x + self.length + self.thickness,
            cursor.y + self.height * 2 + self.width + STRIPE_GAP + STRIPE_H,
        )
    }

    /// What lies widest to the right of a buildable box on its sheet: the
    /// side wall of the lid with the thickness of the top wall, the right
    /// side wall with its glue flap, or the right half of the stripe.
    pub open spec fn beside(self) -> int {
        let lid = self.lid_height + self.thickness;
        let wall = self.width + self.glue_flap - self.thickness;
        let stripe = self.stripe_reach();
        if lid >= wall && lid >= stripe {
            lid
        } else if wall >= stripe {
            wall
        } else {
            stripe
        }
    }

    /// Extent of the finished drawing of a buildable box: the sheet
    /// without its right and lower margin. From left to right the sheet
    /// holds the margin, the left side wall with its glue flap, the back
    /// wall, and what lies beside it; from top to bottom the margin, the
    /// lid with the rim before and behind its top wall, the back, the
    /// bottom, the front, and the stripe with its gap.
    pub open spec fn sheet(self) -> Anchor {
        Anchor::at(
            VIEWPORT_OFFSET + self.width + self.glue_flap + self.length + self.beside(),
            VIEWPORT_OFFSET + (self.lid_height + self.width + self.height) * 2 + self.thickness
                + STRIPE_GAP + STRIPE_H,
        )
    }
}

/// The left side wall and what hangs on it stay to the left of the back
/// wall and above the stripe.
proof fn lemma_left_side_reach(cfg: VinylBoxCfg, cursor: Anchor, d: Drawing)
    requires
        cfg.wf(),
        cfg.buildable(),
        cursor.origin == Origin::TopLeft,
    ensures
        cfg.left_side(cursor, d).max.origin == d.max.origin,
        d.max.raised().x <= cfg.left_side(cursor, d).max.x,
        d.max.raised().y <= cfg.left_side(cursor, d).max.y,
        cfg.left_side(cursor, d).max.x <= d.max.raised().x || cfg.left_side(cursor, d).max.x
            <= cursor.x + cfg.thickness * 2 + HANDLE_MIN_W,
        cfg.left_side(cursor, d).max.y <= d.max.raised().y || cfg.left_side(cursor, d).max.y
            <= cursor.y + cfg.height + cfg.flap_bot().dims.h,
{
    lemma_put_max_all();
}

/// The right side wall reaches as far to the right as its glue flap, and
/// what hangs on it stays above the stripe.
proof fn lemma_right_side_reach(cfg: VinylBoxCfg, cursor: Anchor, d: Drawing)
    requires
        cfg.wf(),
        cfg.buildable(),
        cursor.origin == Origin::TopLeft,
    ensures
        cfg.right_side(cursor, d).max.origin == d.max.origin,
        d.max.raised().x <= cfg.right_side(cursor, d).max.x,
        d.max.raised().y <= cfg.right_side(cursor, d).max.y,
        cursor.x + cfg.width + cfg.glue_flap <= cfg.right_side(cursor, d).max.x,
        cfg.right_side(cursor, d).max.x <= d.max.raised().x || cfg.right_side(cursor, d).max.x
            <= cursor.x + cfg.width + cfg.glue_flap || cfg.right_side(cursor, d).max.x
            <= cursor.x + cfg.thickness + HANDLE_MIN_W,
        cfg.right_side(cursor, d).max.y <= d.max.raised().y || cfg.right_side(cursor, d).max.y
            <= cursor.y + cfg.height + cfg.flap_bot().dims.h,
{
    lemma_put_max_all();
}

/// What the standing halves of the stripe add to the extent.
proof fn lemma_stripes_reach(cfg: VinylBoxCfg, cursor: Anchor, d: Drawing)
    requires
        cfg.wf(),
        cfg.buildable(),
        cursor.origin == Origin::TopLeft,
    ensures
        cfg.vertical_half_stripes(cfg.length as int, cursor, d).max == d.max.raised().max_with(
            Anchor::at(
                cursor.x + cfg.length + cfg.stripe_reach(),
                cursor.y + cfg.width + cfg.thickness + half(cfg.length as int),
            ),
        ),
{
    lemma_put_max_all();
}

/// The side walls and the standing halves of the stripe of a buildable
/// box, drawn from a cursor that stands for a top-left corner, raise the
/// extent of the drawing from the corner of the sheet to their reach, and
/// no further.
pub proof fn lemma_sides_reach(cfg: VinylBoxCfg, cursor: Anchor, d: Drawing)
    requires
        cfg.wf(),
        cfg.buildable(),
        cursor.origin == Origin::TopLeft,
    ensures
        cfg.side_walls(cursor, d).max == d.max.raised().max_with(cfg.sides_reach(cursor)),
{
    let t = cfg.thickness as int;
    let left = cursor.shift_xy(t, t);
    let right = left.shift_x(cfg.length - t * 2);
    let stripe = left.shift_x(-t).shift_y(cfg.side_wall().dims.h).shift_y(cfg.flap_bot().dims.h);
    lemma_left_side_reach(cfg, left, d);
    lemma_right_side_reach(cfg, right, cfg.left_side(left, d));
    lemma_stripes_reach(cfg, stripe, cfg.right_side(right, cfg.left_side(left, d)));
}

/// Back wall, bottom, front wall and the stripe below them, drawn from a
/// cursor that stands for a top-left corner, raise the extent of the
/// drawing to their reach, and no further.
pub proof fn lemma_walls_reach(cfg: VinylBoxCfg, cursor: Anchor, d: Drawing)
    requires
        cfg.wf(),
        cfg.buildable(),
        cursor.origin == Origin::TopLeft,
    ensures
        cfg.bottom_stripe(cfg.below_main_walls(cursor), cfg.main_walls(cursor, d)).max
            == d.max.raised().max_with(cfg.walls_reach(cursor)),
{
    lemma_put_max_all();
}

/// The finished drawing of a buildable box, drawn from the start into an
/// empty drawing, has the extent [`VinylBoxCfg::sheet`].
pub proof fn lemma_sheet(cfg: VinylBoxCfg, name: Seq<char>)
    requires
        cfg.wf(),
        cfg.buildable(),
    ensures
        cfg.net(cfg.start(), Drawing::empty(name)).max == cfg.sheet(),
{
    let d = Drawing::empty(name);
    let walls = cfg.lid().below(cfg.start());
    let lid = cfg.lid().net(cfg.start(), d);
    lemma_lid_reach(cfg.lid(), cfg.start(), d);
    lemma_sides_reach(cfg, walls, lid);
    lemma_walls_reach(cfg, walls, cfg.side_walls(walls, lid));
}

} // verus!
