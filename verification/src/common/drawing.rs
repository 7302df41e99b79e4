//! Line segments and the drawing that collects them.

use vstd::prelude::*;

use crate::common::point::{Anchor, Point};
use crate::common::{CutType, DEFAULT_FILE_NAME};

verus! {

/// Mathematical model of a [`Segment`]: a straight line between two
/// positions of the unbounded plane.
pub struct Line {
    pub from: (int, int),
    pub to: (int, int),
    pub class: CutType,
}

/// A straight line for the laser to follow, cut through or scored.
#[derive(Debug, Clone, Copy, PartialEq, Eq)]
pub struct Segment {
    pub from: (i64, i64),
    pub to: (i64, i64),
    pub class: CutType,
}

impl View for Segment {
    type V = Line;

    open spec fn view(&self) -> Line {
        Line {
            from: (self.from.0 as int, self.from.1 as int),
            to: (self.to.0 as int, self.to.1 as int),
            class: self.class,
        }
    }
}

/// The lines that a sequence of segments stands for, in the same order.
pub open spec fn lines_of(segments: Seq<Segment>) -> Seq<Line> {
    Seq::new(segments.len(), |i: int| segments[i]@)
}

/// The line from `from` to `to` if `class` is drawn, nothing otherwise.
pub open spec fn edge_line(from: (int, int), to: (int, int), class: CutType) -> Seq<Line> {
    if class.renderable() {
        seq![Line { from, to, class }]
    } else {
        Seq::empty()
    }
}

/// The segment between two points for an edge of kind `tp`, or nothing for
/// an edge that is not drawn. The tags of the points are not read.
pub fn draw_line(from: Point, to: Point, tp: &CutType) -> (r: Option<Segment>)
    ensures
        r is Some <==> tp.renderable(),
        r matches Some(s) ==> s@ == (Line { from: (from@.x, from@.y), to: (to@.x, to@.y), class: *tp }),
{
    if !tp.is_cuttable() {
        return None;
    }
    Some(Segment { from: (from.x, from.y), to: (to.x, to.y), class: *tp })
}

/// Mathematical model of a [`DrawResult`].
pub struct Drawing {
    pub default_file_name: Seq<char>,
    pub segments: Seq<Line>,
    pub max: Anchor,
}

impl Drawing {
    /// The drawing without lines whose extent is the top-left position
    /// `(0, 0)`.
    pub open spec fn empty(default_file_name: Seq<char>) -> Drawing {
        Drawing { default_file_name, segments: Seq::empty(), max: Anchor::at(0, 0) }
    }

    /// `self` followed by the lines of `other`, with the extent raised to
    /// that of `other` where `other` reaches further.
    ///
    /// The definition is kept from the solver until it is revealed, so
    /// that proofs about nets of many panels stay small.
    #[verifier::opaque]
    pub open spec fn merge(self, other: Drawing) -> Drawing {
        Drawing {
            default_file_name: self.default_file_name,
            segments: self.segments + other.segments,
            max: self.max.max_with(other.max),
        }
    }

    /// The drawing holds only lines that are drawn, its extent covers them
    /// all, and the extent does not lie before the corner of the sheet:
    /// what holds of every drawing made by placing panels.
    pub open spec fn sound(self) -> bool {
        self.all_renderable() && self.covers_lines() && self.on_sheet()
    }

    /// The extent lies at the corner `(0, 0)` of the sheet or beyond it, to
    /// the right and below: an extent starts there and only grows.
    pub open spec fn on_sheet(self) -> bool {
        0 <= self.max.x && 0 <= self.max.y
    }

    /// No line of the drawing is of a kind that is not drawn.
    pub open spec fn all_renderable(self) -> bool {
        forall|i: int| 0 <= i < self.segments.len() ==> (#[trigger] self.segments[i]).class.renderable()
    }

    /// No end of a line lies beyond the extent, to the right or below.
    pub open spec fn covers_lines(self) -> bool {
        forall|i: int|
            #![trigger self.segments[i]]
            0 <= i < self.segments.len() ==> {
                &&& self.segments[i].from.0 <= self.max.x
                &&& self.segments[i].to.0 <= self.max.x
                &&& self.segments[i].from.1 <= self.max.y
                &&& self.segments[i].to.1 <= self.max.y
            }
    }
}

/// The lines drawn so far, in the order in which they were added, and the
/// furthest position that any placed panel has reached.
#[derive(Debug, PartialEq, Eq)]
pub struct DrawResult {
    pub default_file_name: String,
    pub segments: Vec<Segment>,
    pub max: Point,
}

impl View for DrawResult {
    type V = Drawing;

    open spec fn view(&self) -> Drawing {
        Drawing {
            default_file_name: self.default_file_name@,
            segments: lines_of(self.segments@),
            max: self.max@,
        }
    }
}

impl Clone for DrawResult {
    /// A drawing with the same file name, the same lines and the same
    /// extent.
    fn clone(&self) -> (r: Self)
        ensures
            r@ == self@,
    {
        let mut segments: Vec<Segment> = Vec::new();
        let mut i: usize = 0;
        while i < self.segments.len()
            invariant
                i <= self.segments.len(),
                segments@ == self.segments@.subrange(0, i as int),
            decreases self.segments.len() - i,
        {
            segments.push(self.segments[i]);
            i = i + 1;
        }
        assert(segments@ == self.segments@);
        Self { default_file_name: self.default_file_name.clone(), segments, max: self.max }
    }
}

impl DrawResult {
    pub fn empty(default_file_name: String) -> (r: Self)
        ensures
            r@ == Drawing::empty(default_file_name@),
    {
        let r = Self { default_file_name, segments: Vec::new(), max: Point::new(0, 0) };
        assert(lines_of(r.segments@) =~= Seq::empty());
        r
    }

    pub fn new(segments: Vec<Segment>, max: Point) -> (r: Self)
        ensures
            r@ == (Drawing {
                default_file_name: DEFAULT_FILE_NAME@,
                segments: lines_of(segments@),
                max: max@,
            }),
    {
        Self { default_file_name: DEFAULT_FILE_NAME.to_owned(), segments, max }
    }

    /// Adds the lines of `other` behind those of `self` and raises the
    /// extent to that of `other` where `other` reaches further. The file
    /// name stays.
    pub fn append(&mut self, other: DrawResult)
        ensures
            final(self)@ == old(self)@.merge(other@),
    {
        let mut added = other.segments;
        proof {
            lemma_lines_of_concat(self.segments@, added@);
        }
        self.segments.append(&mut added);
        self.max.update_max(other.max);
        proof {
            reveal(Drawing::merge);
        }
    }
}

/// The lines of a concatenation are the lines of its parts, concatenated.
pub proof fn lemma_lines_of_concat(a: Seq<Segment>, b: Seq<Segment>)
    ensures
        lines_of(a + b) == lines_of(a) + lines_of(b),
{
    assert(lines_of(a + b) =~= lines_of(a) + lines_of(b));
}

/// The lines of a sequence with one more segment at its end.
pub proof fn lemma_lines_of_push(a: Seq<Segment>, s: Segment)
    ensures
        lines_of(a.push(s)) == lines_of(a).push(s@),
{
    assert(lines_of(a.push(s)) =~= lines_of(a).push(s@));
}

/// Merging is associative: merging `b` and then `c` into `a` gives what
/// merging `c` into `b` first and the result into `a` gives.
pub proof fn lemma_merge_associative(a: Drawing, b: Drawing, c: Drawing)
    ensures
        a.merge(b).merge(c) == a.merge(b.merge(c)),
{
    reveal(Drawing::merge);
    assert(a.merge(b).merge(c).segments =~= a.merge(b.merge(c)).segments);
}

/// The extent does not depend on the order of merging: merged into one
/// drawing in either order, two drawings leave the same extent, and merged
/// into each other they reach the same position.
pub proof fn lemma_merge_max_commutative(d: Drawing, a: Drawing, b: Drawing)
    ensures
        d.merge(a).merge(b).max == d.merge(b).merge(a).max,
        a.merge(b).max.x == b.merge(a).max.x,
        a.merge(b).max.y == b.merge(a).max.y,
{
    reveal(Drawing::merge);
}

/// The extent never shrinks under a merge, and it reaches what the merged
/// drawing reached.
pub proof fn lemma_merge_max_monotonic(a: Drawing, b: Drawing)
    ensures
        a.merge(b).max.x >= a.max.x,
        a.merge(b).max.y >= a.max.y,
        a.merge(b).max.x >= b.max.x,
        a.merge(b).max.y >= b.max.y,
        a.merge(b).max.origin == a.max.origin,
{
    reveal(Drawing::merge);
}

/// Merging keeps every line of both drawings, those of the first in front,
/// and loses none.
pub proof fn lemma_merge_keeps_lines(a: Drawing, b: Drawing)
    ensures
        a.merge(b).segments.len() == a.segments.len() + b.segments.len(),
        forall|i: int| 0 <= i < a.segments.len() ==> a.merge(b).segments[i] == a.segments[i],
        forall|i: int|
            0 <= i < b.segments.len() ==> a.merge(b).segments[a.segments.len() + i]
                == b.segments[i],
{
    reveal(Drawing::merge);
}

/// Merging two drawings whose extents cover their lines, and which hold
/// only drawn lines, gives such a drawing again. The extent of the merged
/// drawing lies on the sheet where that of the first one does.
pub proof fn lemma_merge_preserves_invariants(a: Drawing, b: Drawing)
    requires
        a.covers_lines(),
        b.covers_lines(),
        a.all_renderable(),
        b.all_renderable(),
    ensures
        a.merge(b).covers_lines(),
        a.merge(b).all_renderable(),
        a.on_sheet() ==> a.merge(b).on_sheet(),
{
    reveal(Drawing::merge);
    let m = a.merge(b);
    assert forall|i: int| 0 <= i < m.segments.len() implies {
        &&& (#[trigger] m.segments[i]).from.0 <= m.max.x
        &&& m.segments[i].to.0 <= m.max.x
        &&& m.segments[i].from.1 <= m.max.y
        &&& m.segments[i].to.1 <= m.max.y
        &&& m.segments[i].class.renderable()
    } by {
        if i < a.segments.len() {
            assert(m.segments[i] == a.segments[i]);
        } else {
            assert(m.segments[i] == b.segments[i - a.segments.len()]);
        }
    }
}

} // verus!
