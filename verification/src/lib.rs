//! Flat, foldable nets for laser-cut cardboard boxes.
//!
//! A net is a set of axis-aligned rectangular panels. Every edge of a panel
//! is cut through, scored for bending, or left out. Panels are placed one
//! after another relative to a moving cursor, and every placement adds its
//! line segments and its extent to one drawing.
//!
//! [`common`] holds the engine: edge kinds, anchors, panels, the drawing,
//! and what a writer needs to know to store it. [`box_cuboid`], [`box_cube`],
//! [`lid`] and [`vinyl`] each lay out one model with it.
//!
//! All lengths are whole numbers of units, [`common::UNITS_PER_MM`] to the
//! millimetre. Contracts are stated over unbounded mathematical models
//! ([`common::point::Anchor`], [`common::square::Panel`],
//! [`common::drawing::Drawing`]), the views of the executable types. For
//! every model the net is a function of its parameters, and proof functions
//! state how many lines it has and how large its sheet is.

pub mod box_cube;
pub mod box_cuboid;
pub mod common;
pub mod lid;
pub mod vinyl;
