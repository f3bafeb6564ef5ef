//! A verified radial layout engine for a three-level "wheel" diagram.
//!
//! The wheel visualizes a fixed three-level hierarchy of named nodes as
//! nested, color-coded pie wedges with radially oriented labels.  All
//! geometry is exact: lengths and angles are rational numbers (angles are
//! measured in turns, so one full circle is `1`).  Rendering produces a
//! sequence of drawing-surface commands; an unverified host replays the
//! commands on a real 2D canvas.

pub mod frac;
pub mod hierarchy;
pub mod shape;
pub mod surface;
pub mod wheel;
