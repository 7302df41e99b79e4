//! The net of a cuboid box that is given by the size of its inside.
//!
//! Every panel is as much larger than the inside of the box as the material
//! around it is thick: the walls stand on a bottom that is two thicknesses
//! wider than they are, and the lid closes over all of them. From top to
//! bottom the sheet holds the front side of the lid with its glue flaps,
//! the top wall of the lid between its side walls, the back wall, the
//! bottom between the side walls of the box, and the front wall.

use vstd::prelude::*;

use crate::common::drawing::{DrawResult, Drawing};
use crate::common::point::{Anchor, Origin, Point};
use crate::common::square::{lemma_put_all, lemma_put_max_all, Borders, Panel, SquareElement};
use crate::common::{dimension_ok, is_dimension, CutType, MAX_COORDINATE, VIEWPORT_OFFSET};

verus! {

/// File name of the drawing of a box that was given none.
pub const BOX_CUBE_FIE_NAME: &'static str = "LaserCutBoxCube.svg";

/// Why the parameters of a box were refused.
#[derive(Debug, Clone, Copy, PartialEq, Eq, Structural)]
pub enum CfgError {
    /// Length, width or height of the box was not given.
    MissingSize,
    /// A parameter exceeds [`crate::common::MAX_DIMENSION`] in magnitude.
    TooLarge,
}

/// Sizing parameters of a box, in units.
#[derive(Debug, Clone, Copy, PartialEq, Eq, Structural)]
pub struct BoxCubeCfg {
    /// Thickness of the material.
    pub thickness: i64,
    /// Length of a glue flap.
    pub glue_flap: i64,
    /// Height of the rim of the lid.
    pub lid_height: i64,
    /// Inner height of the box.
    pub height: i64,
    /// Inner length of the box.
    pub length: i64,
    /// Inner width of the box.
    pub width: i64,
}

impl BoxCubeCfg {
    /// Every parameter is small enough for the whole net to be computed.
    pub open spec fn wf(self) -> bool {
        &&& dimension_ok(self.thickness as int)
        &&& dimension_ok(self.glue_flap as int)
        &&& dimension_ok(self.lid_height as int)
        &&& dimension_ok(self.height as int)
        &&& dimension_ok(self.length as int)
        &&& dimension_ok(self.width as int)
    }

    /// What [`BoxCubeCfg::new`] makes of its arguments: the three sizes of
    /// the box must be given, and then every parameter must be acceptable.
    pub open spec fn checked(
        thickness: i64,
        glue_flap: i64,
        lid_height: i64,
        height: Option<i64>,
        length: Option<i64>,
        width: Option<i64>,
    ) -> Result<BoxCubeCfg, CfgError> {
        if height is None || length is None || width is None {
            Err(CfgError::MissingSize)
        } else {
            let cfg = BoxCubeCfg {
                thickness,
                glue_flap,
                lid_height,
                height: height->0,
                length: length->0,
                width: width->0,
            };
            if cfg.wf() {
                Ok(cfg)
            } else {
                Err(CfgError::TooLarge)
            }
        }
    }

    /// The parameters as one value. The sizes of the box may be missing,
    /// and are then asked for.
    pub fn new(
        thickness: i64,
        glue_flap: i64,
        lid_height: i64,
        height: Option<i64>,
        length: Option<i64>,
        width: Option<i64>,
    ) -> (r: Result<Self, CfgError>)
        ensures
            r == Self::checked(thickness, glue_flap, lid_height, height, length, width),
    {
        match (height, length, width) {
            (Some(height), Some(length), Some(width)) => {
                if is_dimension(thickness) && is_dimension(glue_flap) && is_dimension(lid_height)
                    && is_dimension(height) && is_dimension(length) && is_dimension(width) {
                    Ok(Self { thickness, glue_flap, lid_height, height, length, width })
                } else {
                    Err(CfgError::TooLarge)
                }
            },
            _ => Err(CfgError::MissingSize),
        }
    }

    /// The thickness of the material, `multiply` times.
    pub fn thick_n(&self, multiply: usize) -> (r: i64)
        requires
            multiply <= i64::MAX,
            i64::MIN <= self.thickness * multiply <= i64::MAX,
        ensures
            r == self.thickness * multiply,
    {
        self.thickness * (multiply as i64)
    }

    /// The notch of two thicknesses by one thickness.
    pub open spec fn cutty(self) -> Panel {
        Panel::new(self.thickness * 2, self.thickness as int).with_borders(
            Borders::uniform(CutType::Cut),
        )
    }

    /// The glue flap to the left of the front side of the lid.
    pub open spec fn top_flap(self) -> Panel {
        Panel::new(self.glue_flap as int, self.lid_height as int).borders(
            CutType::Cut,
            CutType::Nope,
            CutType::Cut,
            CutType::Cut,
        )
    }

    /// The front side of the lid.
    pub open spec fn lid_front(self) -> Panel {
        Panel::new(self.length + self.thickness * 8, self.lid_height as int).borders(
            CutType::Cut,
            CutType::Bend,
            CutType::Bend,
            CutType::Bend,
        )
    }

    /// The left side wall of the lid.
    pub open spec fn side_lid(self) -> Panel {
        Panel::new(self.lid_height as int, self.width + self.thickness * 3).borders(
            CutType::Cut,
            CutType::Nope,
            CutType::Cut,
            CutType::Cut,
        )
    }

    /// The top wall of the lid.
    pub open spec fn lid_top(self) -> Panel {
        Panel::new(self.length + self.thickness * 6, self.width + self.thickness * 4).borders(
            CutType::Nope,
            CutType::Bend,
            CutType::Bend,
            CutType::Bend,
        )
    }

    /// The back wall of the box.
    pub open spec fn wall(self) -> Panel {
        Panel::new(self.length + self.thickness * 2, self.height + self.thickness).borders(
            CutType::Nope,
            CutType::Bend,
            CutType::Bend,
            CutType::Bend,
        )
    }

    /// The bottom of the box.
    pub open spec fn wall_bot(self) -> Panel {
        Panel::new(self.length + self.thickness * 4, self.height + self.thickness * 2).borders(
            CutType::Nope,
            CutType::Bend,
            CutType::Bend,
            CutType::Bend,
        )
    }

    /// The front wall of the box before its sides are turned into folds.
    pub open spec fn wall3(self) -> Panel {
        self.wall().borders(CutType::Nope, CutType::Cut, CutType::Cut, CutType::Cut)
    }

    /// The glue flap to the left of the back wall and of the front wall.
    pub open spec fn glue_flap_panel(self) -> Panel {
        Panel::new(self.glue_flap + self.thickness, self.height as int).borders(
            CutType::Cut,
            CutType::Nope,
            CutType::Cut,
            CutType::Cut,
        )
    }

    /// The left side wall of the box.
    pub open spec fn side_wall(self) -> Panel {
        Panel::new(self.width + self.thickness * 3, self.height + self.thickness * 2).borders(
            CutType::Cut,
            CutType::Nope,
            CutType::Cut,
            CutType::Bend,
        )
    }

    /// The glue flap at the outer end of the left side wall.
    pub open spec fn side_flap(self) -> Panel {
        Panel::new(self.glue_flap + self.thickness, self.height + self.thickness * 2).borders(
            CutType::Cut,
            CutType::Nope,
            CutType::Cut,
            CutType::Cut,
        )
    }

    /// Where the cursor stands before anything is drawn: far enough from
    /// the left for a side wall with its glue flap, and off the edge of
    /// the sheet.
    pub open spec fn start(self) -> Anchor {
        Anchor::at(
            self.width + self.glue_flap + self.thickness * 5 + VIEWPORT_OFFSET,
            VIEWPORT_OFFSET as int,
        )
    }

    /// The lid, drawn into `d` with the cursor at `cursor`.
    pub open spec fn top_lid(self, cursor: Anchor, d: Drawing) -> Drawing {
        let t = self.thickness as int;
        let top = cursor.shift_y(self.lid_height as int);
        let far = self.width + t * 4;
        d.put(self.top_flap(), cursor.shift_x(-(t * 4)).with_origin(Origin::TopRight)).put(
            self.top_flap().mirror_vertical(),
            cursor.shift_x(self.length + t * 4),
        ).put(self.lid_front(), cursor.shift_x(-(t * 4))).put(
            self.side_lid(),
            top.shift_x(-(t * 3)).shift_y(t).with_origin(Origin::TopRight),
        ).put(self.side_lid().mirror_vertical(), top.shift_xy(self.length + t * 3, t)).put(
            self.lid_top(),
            top.shift_x(-(t * 3)),
        ).put(self.cutty(), top.shift_x(-(t * 3)).with_origin(Origin::TopRight)).put(
            self.cutty(),
            top.shift_x(self.length + t * 3),
        ).put(self.cutty(), top.shift_xy(-t, far).with_origin(Origin::TopRight)).put(
            self.cutty(),
            top.shift_xy(self.length + t, far),
        )
    }

    /// Where the cursor stands below the lid.
    pub open spec fn below_top_lid(self, cursor: Anchor) -> Anchor {
        cursor.shift_y(self.lid_height + self.width + self.thickness * 5)
    }

    /// The two side walls of the box with their glue flaps, drawn into `d`
    /// with the cursor at the row of the bottom.
    pub open spec fn side_walls(self, cursor: Anchor, d: Drawing) -> Drawing {
        let t = self.thickness as int;
        let wall_w = self.side_wall().dims.w;
        let right = cursor.shift_x(self.length + t * 2);
        d.put(self.side_wall(), cursor.shift_x(-(t * 2)).with_origin(Origin::TopRight)).put(
            self.side_flap(),
            cursor.shift_x(-(wall_w + t * 2)).with_origin(Origin::TopRight),
        ).put(self.side_wall().mirror_vertical(), right).put(
            self.side_flap().mirror_vertical(),
            right.shift_x(wall_w),
        )
    }

    /// The back wall with its glue flaps and the bottom below it, drawn
    /// into `d` with the cursor at `cursor`.
    pub open spec fn back_row(self, cursor: Anchor, d: Drawing) -> Drawing {
        let t = self.thickness as int;
        let bottom = cursor.shift_y(self.wall().dims.h);
        let left_flap = bottom.shift_x(-t).with_origin(Origin::BottomRight);
        let right_flap = left_flap.shift_x(self.wall().dims.w).with_origin(Origin::BottomLeft);
        d.put(self.wall(), cursor.shift_x(-t)).put(
            self.glue_flap_panel(),
            left_flap.shift_y(-t),
        ).put(self.cutty(), left_flap).put(
            self.glue_flap_panel().mirror_vertical(),
            right_flap.shift_y(-t),
        ).put(self.cutty(), right_flap).put(self.wall_bot(), bottom.shift_x(-(t * 2)))
    }

    /// The front wall with its glue flaps, drawn into `d` with the cursor
    /// at the row of the front wall.
    pub open spec fn front_row(self, cursor: Anchor, d: Drawing) -> Drawing {
        let t = self.thickness as int;
        let left_flap = cursor.shift_y(t).shift_x(-t).with_origin(Origin::TopRight);
        let right_flap = left_flap.shift_x(self.wall3().dims.w);
        d.put(
            self.wall3().border_left(CutType::Bend).border_right(CutType::Bend),
            cursor.shift_x(-t),
        ).put(self.glue_flap_panel(), left_flap).put(
            self.cutty(),
            left_flap.with_origin(Origin::BottomRight),
        ).put(
            self.glue_flap_panel().mirror_vertical(),
            right_flap.with_origin(Origin::TopLeft),
        ).put(self.cutty(), right_flap.with_origin(Origin::BottomLeft))
    }

    /// Back wall, bottom, side walls and front wall with their glue flaps,
    /// drawn into `d` with the cursor at `cursor`.
    pub open spec fn main_walls(self, cursor: Anchor, d: Drawing) -> Drawing {
        let bottom = cursor.shift_y(self.wall().dims.h);
        let front = bottom.shift_y(self.wall_bot().dims.h);
        self.front_row(front, self.side_walls(bottom, self.back_row(cursor, d)))
    }

    /// Where the cursor stands when the walls are drawn: at the row of the
    /// front wall.
    pub open spec fn below_main_walls(self, cursor: Anchor) -> Anchor {
        cursor.shift_y(self.wall().dims.h + self.wall_bot().dims.h)
    }

    /// The whole net, drawn into `d` with the cursor at `cursor`.
    pub open spec fn net(self, cursor: Anchor, d: Drawing) -> Drawing {
        self.main_walls(self.below_top_lid(cursor), self.top_lid(cursor, d))
    }
}

/// A box in the making: its parameters, the cursor, and what has been
/// drawn so far.
pub struct BoxCube {
    pub cfg: BoxCubeCfg,
    pub offset: Point,
    pub result: DrawResult,
}

impl BoxCube {
    /// The parameters are acceptable and no coordinate of the cursor
    /// exceeds `range` times [`MAX_COORDINATE`] in magnitude. The whole
    /// net is drawn from range 1; its parts, which find the cursor where
    /// earlier parts left it, accept a cursor further out.
    pub open spec fn ready(self, range: int) -> bool {
        &&& self.cfg.wf()
        &&& self.offset@.within(range * MAX_COORDINATE)
    }

    /// A box of which nothing is drawn yet, with the cursor at the start.
    pub fn new(cfg: BoxCubeCfg) -> (r: Self)
        requires
            cfg.wf(),
        ensures
            r.cfg == cfg,
            r.offset@ == cfg.start(),
            r.result@ == Drawing::empty(BOX_CUBE_FIE_NAME@),
            r.ready(1),
    {
        let offset = Point::new(cfg.width + cfg.glue_flap + cfg.thick_n(5), 0).shift_xy(
            VIEWPORT_OFFSET,
            VIEWPORT_OFFSET,
        );
        Self { cfg, offset, result: DrawResult::empty(BOX_CUBE_FIE_NAME.to_owned()) }
    }

    /// Draws the whole net from the cursor and hands the drawing out.
    pub fn draw(self) -> (r: DrawResult)
        requires
            self.ready(1),
        ensures
            r@ == self.cfg.net(self.offset@, self.result@),
    {
        let mut this = self;
        this.draw_top_lid();
        this.draw_main_walls();

        this.result
    }

    fn cutty(&self) -> (r: SquareElement)
        requires
            self.cfg.wf(),
        ensures
            r@ == self.cfg.cutty(),
    {
        SquareElement::new(self.cfg.thick_n(2), self.cfg.thick_n(1)).with_borders(
            Borders::new_cut(),
        )
    }

    fn glue_flap(&self) -> (r: SquareElement)
        requires
            self.cfg.wf(),
        ensures
            r@ == self.cfg.glue_flap_panel(),
    {
        SquareElement::new(self.cfg.glue_flap + self.cfg.thickness, self.cfg.height).borders(
            CutType::Cut,
            CutType::Nope,
            CutType::Cut,
            CutType::Cut,
        )
    }

    fn wall(&self) -> (r: SquareElement)
        requires
            self.cfg.wf(),
        ensures
            r@ == self.cfg.wall(),
    {
        SquareElement::new(
            self.cfg.length + self.cfg.thick_n(2),
            self.cfg.height + self.cfg.thickness,
        ).borders(CutType::Nope, CutType::Bend, CutType::Bend, CutType::Bend)
    }

    /// Draws the lid and moves the cursor below it.
    pub fn draw_top_lid(&mut self)
        requires
            old(self).ready(2),
        ensures
            final(self).cfg == old(self).cfg,
            final(self).offset@ == old(self).cfg.below_top_lid(old(self).offset@),
            final(self).result@ == old(self).cfg.top_lid(old(self).offset@, old(self).result@),
    {
        let cutty = self.cutty();

        let top_flap = SquareElement::new(self.cfg.glue_flap, self.cfg.lid_height).borders(
            CutType::Cut,
            CutType::Nope,
            CutType::Cut,
            CutType::Cut,
        );

        self.result.append(
            top_flap.draw(self.offset.shift_nx(self.cfg.thick_n(4)).origin(Origin::TopRight)),
        );

        self.result.append(
            top_flap.mirror_vertical().draw(
                self.offset.shift_x(self.cfg.length + self.cfg.thick_n(4)),
            ),
        );

        self.result.append(
            SquareElement::new(self.cfg.length + self.cfg.thick_n(8), self.cfg.lid_height).borders(
                CutType::Cut,
                CutType::Bend,
                CutType::Bend,
                CutType::Bend,
            ).draw(self.offset.shift_nx(self.cfg.thick_n(4))),
        );

        self.offset = self.offset.shift_y(self.cfg.lid_height);

        let side_lid = SquareElement::new(
            self.cfg.lid_height,
            self.cfg.width + self.cfg.thick_n(3),
        ).borders(CutType::Cut, CutType::Nope, CutType::Cut, CutType::Cut);

        self.result.append(
            side_lid.draw(
                self.offset.shift_nx(self.cfg.thick_n(3)).shift_y(self.cfg.thick_n(1)).origin(
                    Origin::TopRight,
                ),
            ),
        );

        self.result.append(
            side_lid.mirror_vertical().draw(
                self.offset.shift_xy(self.cfg.length + self.cfg.thick_n(3), self.cfg.thick_n(1)),
            ),
        );

        self.result.append(
            SquareElement::new(
                self.cfg.length + self.cfg.thick_n(6),
                self.cfg.width + self.cfg.thick_n(4),
            ).borders(CutType::Nope, CutType::Bend, CutType::Bend, CutType::Bend).draw(
                self.offset.shift_nx(self.cfg.thick_n(3)),
            ),
        );

        // Small cut offs
        self.result.append(
            cutty.draw(self.offset.shift_nx(self.cfg.thick_n(3)).origin(Origin::TopRight)),
        );

        self.result.append(cutty.draw(self.offset.shift_x(self.cfg.length + self.cfg.thick_n(3))));

        self.result.append(
            cutty.draw(
                self.offset.shift_xy(-self.cfg.thickness, self.cfg.width + self.cfg.thick_n(4))
                    .origin(Origin::TopRight),
            ),
        );

        self.result.append(
            cutty.draw(
                self.offset.shift_xy(
                    self.cfg.length + self.cfg.thick_n(1),
                    self.cfg.width + self.cfg.thick_n(4),
                ),
            ),
        );

        self.offset = self.offset.shift_y(self.cfg.width + self.cfg.thick_n(5));
    }

    /// Draws back wall, bottom, side walls and front wall with their glue
    /// flaps, and moves the cursor to the row of the front wall.
    pub fn draw_main_walls(&mut self)
        requires
            old(self).ready(2),
        ensures
            final(self).cfg == old(self).cfg,
            final(self).offset@ == old(self).cfg.below_main_walls(old(self).offset@),
            final(self).result@ == old(self).cfg.main_walls(old(self).offset@, old(self).result@),
    {
        let wall = self.wall();

        let wall_bot = SquareElement::new(
            self.cfg.length + self.cfg.thick_n(4),
            self.cfg.height + self.cfg.thick_n(2),
        ).borders(CutType::Nope, CutType::Bend, CutType::Bend, CutType::Bend);

        let wall3 = wall.borders(CutType::Nope, CutType::Cut, CutType::Cut, CutType::Cut);

        let glue_flap = self.glue_flap();

        let cut = SquareElement::cut(self.cfg.thick_n(2), self.cfg.thickness);

        self.result.append(wall.draw(self.offset.shift_nx(self.cfg.thickness)));
        self.offset = self.offset.shift_y(wall.square.h);

        let offset_flap = self.offset.shift_nx(self.cfg.thickness).origin(Origin::BottomRight);

        self.result.append(glue_flap.draw(offset_flap.shift_ny(self.cfg.thickness)));

        self.result.append(cut.draw(offset_flap));

        let offset_flap = offset_flap.shift_x(wall.square.w).origin(Origin::BottomLeft);

        self.result.append(
            glue_flap.mirror_vertical().draw(offset_flap.shift_ny(self.cfg.thickness)),
        );

        self.result.append(cut.draw(offset_flap));

        self.result.append(wall_bot.draw(self.offset.shift_nx(self.cfg.thick_n(2))));

        self.draw_side_walls();
        self.offset = self.offset.shift_y(wall_bot.square.h);

        self.result.append(
            wall3.border_left(CutType::Bend).border_right(CutType::Bend).draw(
                self.offset.shift_nx(self.cfg.thickness),
            ),
        );

        let offset_flap = self.offset.shift_y(self.cfg.thickness).shift_nx(self.cfg.thickness)
            .origin(Origin::TopRight);

        self.result.append(glue_flap.draw(offset_flap));

        self.result.append(cut.draw(offset_flap.origin(Origin::BottomRight)));

        let offset_flap = offset_flap.shift_x(wall3.square.w);

        self.result.append(glue_flap.mirror_vertical().draw(offset_flap.origin(Origin::TopLeft)));

        self.result.append(cut.draw(offset_flap.origin(Origin::BottomLeft)));
    }

    /// Draws the two side walls of the box with their glue flaps beside
    /// the bottom. The cursor stays.
    pub fn draw_side_walls(&mut self)
        requires
            old(self).ready(3),
        ensures
            final(self).cfg == old(self).cfg,
            final(self).offset == old(self).offset,
            final(self).result@ == old(self).cfg.side_walls(old(self).offset@, old(self).result@),
    {
        let height = self.cfg.height + self.cfg.thick_n(2);
        let width = self.cfg.width + self.cfg.thick_n(3);

        let flap = SquareElement::new(self.cfg.glue_flap + self.cfg.thickness, height).borders(
            CutType::Cut,
            CutType::Nope,
            CutType::Cut,
            CutType::Cut,
        );
        let wall = SquareElement::new(width, height).borders(
            CutType::Cut,
            CutType::Nope,
            CutType::Cut,
            CutType::Bend,
        );

        self.result.append(
            wall.draw(self.offset.shift_nx(self.cfg.thick_n(2)).origin(Origin::TopRight)),
        );

        self.result.append(
            flap.draw(self.offset.shift_nx(width + self.cfg.thick_n(2)).origin(Origin::TopRight)),
        );

        let roffset = self.offset.shift_x(self.cfg.length + self.cfg.thick_n(2));

        self.result.append(wall.mirror_vertical().draw(roffset));

        self.result.append(flap.mirror_vertical().draw(roffset.shift_x(width)));
    }
}

/// The lid adds thirty-five lines to the drawing, whatever the
/// parameters. It keeps the drawing sound and its file name, and does not
/// lower its extent.
pub proof fn lemma_top_lid(cfg: BoxCubeCfg, cursor: Anchor, d: Drawing)
    ensures
        cfg.top_lid(cursor, d).segments.len() == d.segments.len() + 35,
        cfg.top_lid(cursor, d).default_file_name == d.default_file_name,
        cfg.top_lid(cursor, d).max.x >= d.max.x,
        cfg.top_lid(cursor, d).max.y >= d.max.y,
        d.sound() ==> cfg.top_lid(cursor, d).sound(),
{
    lemma_put_all();
}

/// The walls add forty-nine lines to the drawing, whatever the
/// parameters. They keep the drawing sound and its file name, and do not
/// lower its extent.
pub proof fn lemma_main_walls(cfg: BoxCubeCfg, cursor: Anchor, d: Drawing)
    ensures
        cfg.main_walls(cursor, d).segments.len() == d.segments.len() + 49,
        cfg.main_walls(cursor, d).default_file_name == d.default_file_name,
        cfg.main_walls(cursor, d).max.x >= d.max.x,
        cfg.main_walls(cursor, d).max.y >= d.max.y,
        d.sound() ==> cfg.main_walls(cursor, d).sound(),
{
    lemma_put_all();
}

/// The net adds eighty-four lines to the drawing, whatever the
/// parameters. It keeps the drawing sound and its file name, and does not
/// lower its extent.
pub proof fn lemma_net(cfg: BoxCubeCfg, cursor: Anchor, d: Drawing)
    ensures
        cfg.net(cursor, d).segments.len() == d.segments.len() + 84,
        cfg.net(cursor, d).default_file_name == d.default_file_name,
        cfg.net(cursor, d).max.x >= d.max.x,
        cfg.net(cursor, d).max.y >= d.max.y,
        d.sound() ==> cfg.net(cursor, d).sound(),
{
    lemma_top_lid(cfg, cursor, d);
    lemma_main_walls(cfg, cfg.below_top_lid(cursor), cfg.top_lid(cursor, d));
}

impl BoxCubeCfg {
    /// The parameters are those of a box that can be built: none is
    /// negative.
    pub open spec fn buildable(self) -> bool {
        &&& 0 <= self.thickness
        &&& 0 <= self.glue_flap
        &&& 0 <= self.lid_height
        &&& 0 <= self.height
        &&& 0 <= self.length
        &&& 0 <= self.width
    }

    /// The furthest position that the lid of a buildable box reaches when
    /// drawn with the cursor at `cursor`: to the right a glue flap, a side
    /// wall of the lid or a notch, whichever lies furthest out, below the
    /// notches at the far corners of the top wall.
    pub open spec fn lid_reach(self, cursor: Anchor) -> Anchor {
        let t = self.thickness as int;
        let flap = t * 4 + self.glue_flap;
        let wall = t * 3 + self.lid_height;
        let notch = t * 5;
        Anchor::at(
            cursor.x + self.length + if flap >= wall && flap >= notch {
                flap
            } else if wall >= notch {
                wall
            } else {
                notch
            },
            cursor.y + self.lid_height + self.width + t * 5,
        )
    }

    /// The furthest position that the walls of a buildable box reach when
    /// drawn with the cursor at `cursor`: to the right the glue flap of
    /// the right side wall, below the front wall.
    pub open spec fn walls_reach(self, cursor: Anchor) -> Anchor {
        Anchor::at(
            cursor.x + self.length + self.width + self.glue_flap + self.thickness * 6,
            cursor.y + self.height * 3 + self.thickness * 4,
        )
    }

    /// What lies widest to the right of the inside of a buildable box on
    /// its sheet: the side wall of the lid, or the right side wall of the
    /// box with its glue flap.
    pub open spec fn beside(self) -> int {
        let lid = self.lid_height + self.thickness * 3;
        let wall = self.width + self.glue_flap + self.thickness * 6;
        if lid >= wall {
            lid
        } else {
            wall
        }
    }

    /// Extent of the finished drawing of a buildable box: the sheet
    /// without its right and lower margin. From left to right the sheet
    /// holds the margin, the left side wall with its glue flap, the inside
    /// of the box, and what lies beside it; from top to bottom the margin,
    /// the lid, and back, bottom and front.
    pub open spec fn sheet(self) -> Anchor {
        Anchor::at(
            self.start().x + self.length + self.beside(),
            VIEWPORT_OFFSET + self.lid_height + self.width + self.height * 3 + self.thickness * 9,
        )
    }
}

/// The lid of a buildable box, drawn from a cursor that stands for a
/// top-left corner, raises the extent of the drawing from the corner of
/// the sheet to its reach, and no further.
pub proof fn lemma_lid_reach(cfg: BoxCubeCfg, cursor: Anchor, d: Drawing)
    requires
        cfg.buildable(),
        cursor.origin == Origin::TopLeft,
    ensures
        cfg.top_lid(cursor, d).max == d.max.raised().max_with(cfg.lid_reach(cursor)),
{
    lemma_put_max_all();
}

/// What the back wall, its glue flaps and the bottom add to the extent.
proof fn lemma_back_row_reach(cfg: BoxCubeCfg, cursor: Anchor, d: Drawing)
    requires
        cfg.buildable(),
        cursor.origin == Origin::TopLeft,
    ensures
        cfg.back_row(cursor, d).max == d.max.raised().max_with(
            Anchor::at(
                cursor.x + cfg.length + cfg.thickness * 2 + if cfg.glue_flap > cfg.thickness {
                    cfg.glue_flap
                } else {
                    cfg.thickness
                },
                cursor.y + cfg.height * 2 + cfg.thickness * 3,
            ),
        ),
{
    lemma_put_max_all();
}

/// What the side walls and their glue flaps add to the extent.
proof fn lemma_side_walls_reach(cfg: BoxCubeCfg, cursor: Anchor, d: Drawing)
    requires
        cfg.buildable(),
        cursor.origin == Origin::TopLeft,
    ensures
        cfg.side_walls(cursor, d).max == d.max.raised().max_with(
            Anchor::at(
                cursor.x + cfg.length + cfg.width + cfg.glue_flap + cfg.thickness * 6,
                cursor.y + cfg.height + cfg.thickness * 2,
            ),
        ),
{
    lemma_put_max_all();
}

/// What the front wall and its glue flaps add to the extent.
proof fn lemma_front_row_reach(cfg: BoxCubeCfg, cursor: Anchor, d: Drawing)
    requires
        cfg.buildable(),
        cursor.origin == Origin::TopLeft,
    ensures
        cfg.front_row(cursor, d).max == d.max.raised().max_with(
            Anchor::at(
                cursor.x + cfg.length + cfg.thickness * 2 + if cfg.glue_flap > cfg.thickness {
                    cfg.glue_flap
                } else {
                    cfg.thickness
                },
                cursor.y + cfg.height + cfg.thickness,
            ),
        ),
{
    lemma_put_max_all();
}

/// The walls of a buildable box, drawn from a cursor that stands for a
/// top-left corner, raise the extent of the drawing from the corner of the
/// sheet to their reach, and no further.
pub proof fn lemma_walls_reach(cfg: BoxCubeCfg, cursor: Anchor, d: Drawing)
    requires
        cfg.buildable(),
        cursor.origin == Origin::TopLeft,
    ensures
        cfg.main_walls(cursor, d).max == d.max.raised().max_with(cfg.walls_reach(cursor)),
{
    let bottom = cursor.shift_y(cfg.wall().dims.h);
    let front = bottom.shift_y(cfg.wall_bot().dims.h);
    let back = cfg.back_row(cursor, d);
    lemma_back_row_reach(cfg, cursor, d);
    lemma_side_walls_reach(cfg, bottom, back);
    lemma_front_row_reach(cfg, front, cfg.side_walls(bottom, back));
}

/// The finished drawing of a buildable box, drawn from the start into an
/// empty drawing, has the extent [`BoxCubeCfg::sheet`].
pub proof fn lemma_sheet(cfg: BoxCubeCfg, name: Seq<char>)
    requires
        cfg.buildable(),
    ensures
        cfg.net(cfg.start(), Drawing::empty(name)).max == cfg.sheet(),
{
    let d = Drawing::empty(name);
    lemma_lid_reach(cfg, cfg.start(), d);
    lemma_walls_reach(cfg, cfg.below_top_lid(cfg.start()), cfg.top_lid(cfg.start(), d));
}

} // verus!
