//! Rectangular panels: their size, the kinds of their four edges, and how
//! a placed panel turns into lines.

use vstd::prelude::*;

use crate::common::drawing::{
    draw_line, edge_line, lemma_lines_of_push, lemma_merge_preserves_invariants, lines_of,
    DrawResult, Drawing, Line, Segment,
};
use crate::common::point::{Anchor, Origin, Point};
use crate::common::{CutType, DEFAULT_FILE_NAME};

verus! {

/// Mathematical model of a [`Square`]: width and height of a rectangle.
pub struct Dims {
    pub w: int,
    pub h: int,
}

/// Width and height of a rectangle. A size below zero is taken as it is:
/// the rectangle then lies to the left of its top-left corner, or above it.
#[derive(Debug, Clone, Copy, PartialEq, Eq, Structural)]
pub struct Square {
    pub h: i64,
    pub w: i64,
}

impl View for Square {
    type V = Dims;

    open spec fn view(&self) -> Dims {
        Dims { w: self.w as int, h: self.h as int }
    }
}

impl Square {
    pub fn new(w: i64, h: i64) -> (r: Self)
        ensures
            r@ == (Dims { w: w as int, h: h as int }),
    {
        Self { h, w }
    }

    pub fn add_w(&mut self, delta: i64)
        requires
            i64::MIN <= old(self).w + delta <= i64::MAX,
        ensures
            final(self)@ == (Dims { w: old(self)@.w + delta, h: old(self)@.h }),
    {
        self.w = self.w + delta;
    }

    pub fn add_h(&mut self, delta: i64)
        requires
            i64::MIN <= old(self).h + delta <= i64::MAX,
        ensures
            final(self)@ == (Dims { w: old(self)@.w, h: old(self)@.h + delta }),
    {
        self.h = self.h + delta;
    }
}

/// The kinds of the four edges of a rectangle.
#[derive(Debug, Clone, Copy, PartialEq, Eq, Structural)]
pub struct Borders {
    pub top: CutType,
    pub right: CutType,
    pub bottom: CutType,
    pub left: CutType,
}

impl Borders {
    /// Four edges of the same kind.
    pub open spec fn uniform(tp: CutType) -> Borders {
        Borders { top: tp, right: tp, bottom: tp, left: tp }
    }

    /// How many of the four edges are drawn.
    pub open spec fn renderable_count(self) -> nat {
        let top: nat = if self.top.renderable() { 1 } else { 0 };
        let right: nat = if self.right.renderable() { 1 } else { 0 };
        let bottom: nat = if self.bottom.renderable() { 1 } else { 0 };
        let left: nat = if self.left.renderable() { 1 } else { 0 };
        top + right + bottom + left
    }

    pub fn new(top: CutType, right: CutType, bottom: CutType, left: CutType) -> (r: Self)
        ensures
            r == (Borders { top, right, bottom, left }),
    {
        Self { top, right, bottom, left }
    }

    pub fn new_cut() -> (r: Self)
        ensures
            r == Borders::uniform(CutType::Cut),
    {
        Self::new(CutType::Cut, CutType::Cut, CutType::Cut, CutType::Cut)
    }

    pub fn new_bend() -> (r: Self)
        ensures
            r == Borders::uniform(CutType::Bend),
    {
        Self::new(CutType::Bend, CutType::Bend, CutType::Bend, CutType::Bend)
    }

    pub fn nope() -> (r: Self)
        ensures
            r == Borders::uniform(CutType::Nope),
    {
        Self::new(CutType::Nope, CutType::Nope, CutType::Nope, CutType::Nope)
    }

    /// The same borders with another top edge.
    pub fn with_top(&self, tp: CutType) -> (r: Self)
        ensures
            r == (Borders { top: tp, ..*self }),
    {
        Self { top: tp, right: self.right, bottom: self.bottom, left: self.left }
    }

    /// The same borders with another right edge.
    pub fn with_right(&self, tp: CutType) -> (r: Self)
        ensures
            r == (Borders { right: tp, ..*self }),
    {
        Self { top: self.top, right: tp, bottom: self.bottom, left: self.left }
    }

    /// The same borders with another bottom edge.
    pub fn with_bottom(&self, tp: CutType) -> (r: Self)
        ensures
            r == (Borders { bottom: tp, ..*self }),
    {
        Self { top: self.top, right: self.right, bottom: tp, left: self.left }
    }

    /// The same borders with another left edge.
    pub fn with_left(&self, tp: CutType) -> (r: Self)
        ensures
            r == (Borders { left: tp, ..*self }),
    {
        Self { top: self.top, right: self.right, bottom: self.bottom, left: tp }
    }

    pub fn cut_top(&self) -> (b: bool)
        ensures
            b == self.top.renderable(),
    {
        self.top.is_cuttable()
    }

    pub fn cut_right(&self) -> (b: bool)
        ensures
            b == self.right.renderable(),
    {
        self.right.is_cuttable()
    }

    pub fn cut_bottom(&self) -> (b: bool)
        ensures
            b == self.bottom.renderable(),
    {
        self.bottom.is_cuttable()
    }

    pub fn cut_left(&self) -> (b: bool)
        ensures
            b == self.left.renderable(),
    {
        self.left.is_cuttable()
    }
}

/// Mathematical model of a [`SquareElement`]: a rectangle of the unbounded
/// plane with a kind for each edge.
pub struct Panel {
    pub dims: Dims,
    pub borders: Borders,
}

impl Panel {
    /// The panel of the given size of which no edge is drawn.
    pub open spec fn new(w: int, h: int) -> Panel {
        Panel { dims: Dims { w, h }, borders: Borders::uniform(CutType::Nope) }
    }

    /// The panel of the given size of which every edge is cut.
    pub open spec fn cut(w: int, h: int) -> Panel {
        Panel { dims: Dims { w, h }, borders: Borders::uniform(CutType::Cut) }
    }

    pub open spec fn with_borders(self, borders: Borders) -> Panel {
        Panel { dims: self.dims, borders }
    }

    pub open spec fn borders(
        self,
        top: CutType,
        right: CutType,
        bottom: CutType,
        left: CutType,
    ) -> Panel {
        self.with_borders(Borders { top, right, bottom, left })
    }

    pub open spec fn border_top(self, tp: CutType) -> Panel {
        self.with_borders(Borders { top: tp, ..self.borders })
    }

    pub open spec fn border_right(self, tp: CutType) -> Panel {
        self.with_borders(Borders { right: tp, ..self.borders })
    }

    pub open spec fn border_bottom(self, tp: CutType) -> Panel {
        self.with_borders(Borders { bottom: tp, ..self.borders })
    }

    pub open spec fn border_left(self, tp: CutType) -> Panel {
        self.with_borders(Borders { left: tp, ..self.borders })
    }

    pub open spec fn height(self, h: int) -> Panel {
        Panel { dims: Dims { w: self.dims.w, h }, borders: self.borders }
    }

    pub open spec fn width(self, w: int) -> Panel {
        Panel { dims: Dims { w, h: self.dims.h }, borders: self.borders }
    }

    /// The panel seen in a mirror that stands upright: left and right
    /// trade places.
    pub open spec fn mirror_vertical(self) -> Panel {
        self.with_borders(
            Borders { left: self.borders.right, right: self.borders.left, ..self.borders },
        )
    }

    /// The panel seen in a mirror that lies flat: top and bottom trade
    /// places.
    pub open spec fn mirror_horizontal(self) -> Panel {
        self.with_borders(
            Borders { top: self.borders.bottom, bottom: self.borders.top, ..self.borders },
        )
    }

    /// The lines of the panel placed at `anchor`: clockwise from the
    /// top-left corner, the top, right, bottom and left edge, each only if
    /// it is drawn, each running clockwise.
    pub open spec fn segments(self, anchor: Anchor) -> Seq<Line> {
        let p = anchor.top_left(self.dims);
        let (x0, y0) = (p.x, p.y);
        let (x1, y1) = (p.x + self.dims.w, p.y + self.dims.h);
        edge_line((x0, y0), (x1, y0), self.borders.top) + edge_line(
            (x1, y0),
            (x1, y1),
            self.borders.right,
        ) + edge_line((x1, y1), (x0, y1), self.borders.bottom) + edge_line(
            (x0, y1),
            (x0, y0),
            self.borders.left,
        )
    }

    /// The extent of the panel placed at `anchor` alone: the componentwise
    /// maximum of the corner `(0, 0)` of the sheet and of the four corners
    /// of the panel, whether or not the edges between them are drawn.
    pub open spec fn extent(self, anchor: Anchor) -> Anchor {
        let p = anchor.top_left(self.dims);
        let (x0, y0) = (p.x, p.y);
        let (x1, y1) = (p.x + self.dims.w, p.y + self.dims.h);
        Anchor::at(0, 0).max_with(Anchor::at(x1, y0)).max_with(Anchor::at(x1, y1)).max_with(
            Anchor::at(x0, y1),
        ).max_with(Anchor::at(x0, y0))
    }

    /// The furthest of the four corners of the panel placed at `anchor`:
    /// the bottom-right corner of a panel of non-negative size.
    pub open spec fn far_corner(self, anchor: Anchor) -> Anchor {
        let p = anchor.top_left(self.dims);
        Anchor::at(
            p.x + if self.dims.w > 0 { self.dims.w } else { 0 },
            p.y + if self.dims.h > 0 { self.dims.h } else { 0 },
        )
    }

    /// The drawing of the panel alone, placed at `anchor`.
    ///
    /// The definition is kept from the solver until it is revealed, so
    /// that proofs about nets of many panels stay small.
    #[verifier::opaque]
    pub open spec fn place(self, anchor: Anchor) -> Drawing {
        Drawing {
            default_file_name: DEFAULT_FILE_NAME@,
            segments: self.segments(anchor),
            max: self.extent(anchor),
        }
    }

    /// All four corners of the panel placed at `anchor` can be held by a
    /// [`Point`].
    pub open spec fn placeable(self, anchor: Anchor) -> bool {
        &&& anchor.top_left(self.dims).fits()
        &&& anchor.top_left(self.dims).shift_xy(self.dims.w, self.dims.h).fits()
    }
}

impl Drawing {
    /// `self` with the panel placed at `anchor` merged into it.
    pub open spec fn put(self, panel: Panel, anchor: Anchor) -> Drawing {
        self.merge(panel.place(anchor))
    }
}

/// A rectangle with a kind for each of its edges: the unit that is placed
/// on the sheet.
#[derive(Debug, Clone, Copy, PartialEq, Eq, Structural)]
pub struct SquareElement {
    pub borders: Borders,
    pub square: Square,
}

impl View for SquareElement {
    type V = Panel;

    open spec fn view(&self) -> Panel {
        Panel { dims: self.square@, borders: self.borders }
    }
}

impl SquareElement {
    /// A panel of which no edge is drawn.
    pub fn new(w: i64, h: i64) -> (r: Self)
        ensures
            r@ == Panel::new(w as int, h as int),
    {
        Self { borders: Borders::nope(), square: Square::new(w, h) }
    }

    /// A panel with four equal sides of which no edge is drawn.
    pub fn new_square(side: i64) -> (r: Self)
        ensures
            r@ == Panel::new(side as int, side as int),
    {
        Self::new(side, side)
    }

    /// A panel of which every edge is cut.
    pub fn cut(w: i64, h: i64) -> (r: Self)
        ensures
            r@ == Panel::cut(w as int, h as int),
    {
        Self { borders: Borders::new_cut(), square: Square::new(w, h) }
    }

    pub fn with_borders(&self, borders: Borders) -> (r: Self)
        ensures
            r@ == self@.with_borders(borders),
    {
        Self { borders, square: self.square }
    }

    pub fn borders(&self, top: CutType, right: CutType, bottom: CutType, left: CutType) -> (r:
        Self)
        ensures
            r@ == self@.borders(top, right, bottom, left),
    {
        Self { borders: Borders::new(top, right, bottom, left), square: self.square }
    }

    pub fn border_top(&self, tp: CutType) -> (r: Self)
        ensures
            r@ == self@.border_top(tp),
    {
        self.with_borders(self.borders.with_top(tp))
    }

    pub fn border_right(&self, tp: CutType) -> (r: Self)
        ensures
            r@ == self@.border_right(tp),
    {
        self.with_borders(self.borders.with_right(tp))
    }

    pub fn border_bottom(&self, tp: CutType) -> (r: Self)
        ensures
            r@ == self@.border_bottom(tp),
    {
        self.with_borders(self.borders.with_bottom(tp))
    }

    pub fn border_left(&self, tp: CutType) -> (r: Self)
        ensures
            r@ == self@.border_left(tp),
    {
        self.with_borders(self.borders.with_left(tp))
    }

    pub fn height(&self, h: i64) -> (r: Self)
        ensures
            r@ == self@.height(h as int),
    {
        let mut new = *self;
        new.square.h = h;
        new
    }

    pub fn width(&self, w: i64) -> (r: Self)
        ensures
            r@ == self@.width(w as int),
    {
        let mut new = *self;
        new.square.w = w;
        new
    }

    /// The twin of the panel for the opposite side: left and right edge
    /// trade kinds, the size stays.
    pub fn mirror_vertical(&self) -> (r: Self)
        ensures
            r@ == self@.mirror_vertical(),
    {
        let mut mirrored = *self;
        mirrored.borders.left = self.borders.right;
        mirrored.borders.right = self.borders.left;
        mirrored
    }

    /// The twin of the panel for the opposite end: top and bottom edge
    /// trade kinds, the size stays.
    pub fn mirror_horisontal(&self) -> (r: Self)
        ensures
            r@ == self@.mirror_horizontal(),
    {
        let mut mirrored = *self;
        mirrored.borders.top = self.borders.bottom;
        mirrored.borders.bottom = self.borders.top;
        mirrored
    }

    /// Places the panel with its tagged corner at `offset` and draws it:
    /// one segment for every edge that is drawn, clockwise from the
    /// top-left corner, and the furthest position that its corners reach
    /// from the corner `(0, 0)` of the sheet.
    pub fn draw(&self, offset: Point) -> (r: DrawResult)
        requires
            self@.placeable(offset@),
        ensures
            r@ == self@.place(offset@),
            r@.segments.len() == self.borders.renderable_count(),
            r@.sound(),
    {
        let top_left = offset.align_top_left(self.square);
        let top_right = top_left.shift_xy(self.square.w, 0);
        let bottom_right = top_right.shift_xy(0, self.square.h);
        let bottom_left = Point { x: top_left.x, y: bottom_right.y, origin: top_left.origin };
        let mut segments: Vec<Segment> = Vec::new();
        let mut max = Point::new(0, 0);
        let ghost lines0 = lines_of(segments@);
        assert(lines0 =~= Seq::empty());

        // TOP
        push_edge(&mut segments, top_left, top_right, &self.borders.top);
        max.update_max(top_right);
        // RIGHT
        push_edge(&mut segments, top_right, bottom_right, &self.borders.right);
        max.update_max(bottom_right);
        // BOTTOM
        push_edge(&mut segments, bottom_right, bottom_left, &self.borders.bottom);
        max.update_max(bottom_left);
        // LEFT
        push_edge(&mut segments, bottom_left, top_left, &self.borders.left);
        max.update_max(top_left);

        proof {
            reveal(Panel::place);
            lemma_place_counts(self@, offset@);
            lemma_place_covers(self@, offset@);
            assert(lines_of(segments@) =~= self@.segments(offset@));
        }
        DrawResult::new(segments, max)
    }
}

/// Adds the segment of one edge to `segments` if the edge is drawn.
fn push_edge(segments: &mut Vec<Segment>, from: Point, to: Point, tp: &CutType)
    ensures
        lines_of(final(segments)@) == lines_of(old(segments)@) + edge_line(
            (from@.x, from@.y),
            (to@.x, to@.y),
            *tp,
        ),
{
    match draw_line(from, to, tp) {
        Some(segment) => {
            segments.push(segment);
            proof {
                lemma_lines_of_push(old(segments)@, segment);
                assert(lines_of(old(segments)@).push(segment@) =~= lines_of(old(segments)@)
                    + edge_line((from@.x, from@.y), (to@.x, to@.y), *tp));
            }
        },
        None => {
            assert(lines_of(old(segments)@) =~= lines_of(old(segments)@) + edge_line(
                (from@.x, from@.y),
                (to@.x, to@.y),
                *tp,
            ));
        },
    }
}

/// A placed panel has exactly one line for every edge that is drawn, none
/// to four, and no line of a kind that is not drawn.
pub proof fn lemma_place_counts(panel: Panel, anchor: Anchor)
    ensures
        panel.segments(anchor).len() == panel.borders.renderable_count(),
        panel.segments(anchor).len() <= 4,
        panel.place(anchor).all_renderable(),
{
    reveal(Panel::place);
}

/// The extent of a placed panel lies at least the width and the height of
/// the panel beyond its top-left corner, whatever the kinds of its edges,
/// and neither before that corner nor before the corner `(0, 0)` of the
/// sheet. For a panel of non-negative size it is the bottom-right corner,
/// or the corner of the sheet where the panel lies before it.
pub proof fn lemma_place_extent(panel: Panel, anchor: Anchor)
    ensures
        panel.place(anchor).max.x >= anchor.top_left(panel.dims).x + panel.dims.w,
        panel.place(anchor).max.y >= anchor.top_left(panel.dims).y + panel.dims.h,
        panel.place(anchor).max.x >= anchor.top_left(panel.dims).x,
        panel.place(anchor).max.y >= anchor.top_left(panel.dims).y,
        panel.place(anchor).on_sheet(),
        panel.place(anchor).max.origin == Origin::TopLeft,
        panel.dims.w >= 0 && panel.dims.h >= 0 ==> panel.place(anchor).max == Anchor::at(
            0,
            0,
        ).max_with(anchor.top_left(panel.dims).corner(panel.dims, Origin::BottomRight)),
        panel.place(anchor).max == Anchor::at(0, 0).max_with(panel.far_corner(anchor)),
        panel.place(anchor).max == panel.with_borders(Borders::uniform(CutType::Nope)).place(
            anchor,
        ).max,
{
    reveal(Panel::place);
}

/// No end of a line of a placed panel lies beyond its extent, and the
/// extent lies on the sheet.
pub proof fn lemma_place_covers(panel: Panel, anchor: Anchor)
    ensures
        panel.place(anchor).covers_lines(),
        panel.place(anchor).on_sheet(),
{
    reveal(Panel::place);
}

/// What placing one more panel does to a drawing, whatever the drawing, the
/// panel and the anchor: it adds one line for every edge of the panel that
/// is drawn, behind the lines that were there; it never lowers the extent
/// and raises it to the extent of the panel at least, which lies on the
/// sheet; it keeps the file name; and a sound drawing stays sound.
pub proof fn lemma_put(d: Drawing, panel: Panel, anchor: Anchor)
    ensures
        d.put(panel, anchor).segments == d.segments + panel.segments(anchor),
        d.put(panel, anchor).segments.len() == d.segments.len()
            + panel.borders.renderable_count(),
        d.put(panel, anchor).default_file_name == d.default_file_name,
        d.put(panel, anchor).max == d.max.max_with(panel.extent(anchor)),
        d.put(panel, anchor).max == d.max.raised().max_with(panel.far_corner(anchor)),
        d.put(panel, anchor).on_sheet(),
        d.put(panel, anchor).max.x >= d.max.x,
        d.put(panel, anchor).max.y >= d.max.y,
        d.sound() ==> d.put(panel, anchor).sound(),
{
    reveal(Drawing::merge);
    reveal(Panel::place);
    lemma_place_counts(panel, anchor);
    lemma_place_covers(panel, anchor);
    if d.sound() {
        lemma_merge_preserves_invariants(d, panel.place(anchor));
    }
}

/// [`lemma_put`] for all drawings, panels and anchors at once, for proofs
/// about whole nets.
pub proof fn lemma_put_all()
    ensures
        forall|d: Drawing, panel: Panel, anchor: Anchor|
            #![trigger d.put(panel, anchor)]
            {
                &&& d.put(panel, anchor).segments.len() == d.segments.len()
                    + panel.borders.renderable_count()
                &&& d.put(panel, anchor).default_file_name == d.default_file_name
                &&& d.put(panel, anchor).max.x >= d.max.x
                &&& d.put(panel, anchor).max.y >= d.max.y
                &&& (d.sound() ==> d.put(panel, anchor).sound())
            },
{
    assert forall|d: Drawing, panel: Panel, anchor: Anchor|
        #![trigger d.put(panel, anchor)]
        {
            &&& d.put(panel, anchor).segments.len() == d.segments.len()
                + panel.borders.renderable_count()
            &&& d.put(panel, anchor).default_file_name == d.default_file_name
            &&& d.put(panel, anchor).max.x >= d.max.x
            &&& d.put(panel, anchor).max.y >= d.max.y
            &&& (d.sound() ==> d.put(panel, anchor).sound())
        } by {
        lemma_put(d, panel, anchor);
    }
}

/// The extent after placing one more panel, for all drawings, panels and
/// anchors at once: the old extent, raised to the corner of the sheet and
/// to the furthest corner of the panel.
pub proof fn lemma_put_max_all()
    ensures
        forall|d: Drawing, panel: Panel, anchor: Anchor|
            #![trigger d.put(panel, anchor)]
            d.put(panel, anchor).max == d.max.raised().max_with(panel.far_corner(anchor)),
{
    assert forall|d: Drawing, panel: Panel, anchor: Anchor|
        #![trigger d.put(panel, anchor)]
        d.put(panel, anchor).max == d.max.raised().max_with(panel.far_corner(anchor)) by {
        lemma_put(d, panel, anchor);
    }
}

/// Mirroring twice, across the same axis, gives the panel back.
pub proof fn lemma_mirror_involution(panel: Panel)
    ensures
        panel.mirror_vertical().mirror_vertical() == panel,
        panel.mirror_horizontal().mirror_horizontal() == panel,
{
}

/// Mirroring keeps the size, moves no edge kind across the other axis, and
/// the two mirrors commute.
pub proof fn lemma_mirror_swaps(panel: Panel)
    ensures
        panel.mirror_vertical().dims == panel.dims,
        panel.mirror_vertical().borders == (Borders {
            top: panel.borders.top,
            right: panel.borders.left,
            bottom: panel.borders.bottom,
            left: panel.borders.right,
        }),
        panel.mirror_horizontal().dims == panel.dims,
        panel.mirror_horizontal().borders == (Borders {
            top: panel.borders.bottom,
            right: panel.borders.right,
            bottom: panel.borders.top,
            left: panel.borders.left,
        }),
        panel.mirror_vertical().mirror_horizontal() == panel.mirror_horizontal().mirror_vertical(),
{
}

} // verus!
