//! The drawing surface, modeled as a command recorder.
//!
//! The layout engine does not talk to a real 2D canvas.  It records the
//! exact sequence of primitive surface operations — path construction,
//! fills, strokes, transforms, text — as [`Cmd`] values, and the contracts
//! pin that sequence down completely.  An unverified host replays the
//! commands on an actual canvas, converting each rational to its quotient
//! and each angle from turns to radians.

use crate::frac::{Frac, FracV};
use vstd::prelude::*;

verus! {

/// One primitive drawing-surface operation.
///
/// Lengths and coordinates are exact rationals; angles are rationals
/// measured in turns (a full circle is `1`).  `TranslatePolar` names the
/// anchor point `(x, y) + radius * (cos angle, sin angle)`: the trigonometry
/// is left to the host, which is the only place floating point exists.
#[derive(Clone, Debug, PartialEq)]
pub enum Cmd {
    /// Resize the surface.
    SetSize { width: u32, height: u32 },
    /// Save the current transform and style state.
    Save,
    /// Restore the most recently saved state.
    Restore,
    /// Begin a new path.
    BeginPath,
    /// Close the current path.
    ClosePath,
    /// Move the path cursor to `(x, y)`.
    MoveTo { x: Frac, y: Frac },
    /// Add a circular arc around `(x, y)` from `start` to `end` (in turns).
    PathArc { x: Frac, y: Frac, radius: Frac, start: Frac, end: Frac },
    /// Set the fill color.
    SetFillStyle { color: String },
    /// Set the stroke line width.
    SetLineWidth { width: Frac },
    /// Set the stroke color.
    SetStrokeStyle { color: String },
    /// Stroke the current path.
    Stroke,
    /// Fill the current path.
    Fill,
    /// Translate the origin to `(x, y) + radius * (cos angle, sin angle)`.
    TranslatePolar { x: Frac, y: Frac, radius: Frac, angle: Frac },
    /// Rotate the axes by `angle` (in turns).
    Rotate { angle: Frac },
    /// Mirror both axes (scale by -1 horizontally and vertically).
    MirrorFlip,
    /// Set the font to `size_px` pixels of the named family.
    SetFont { size_px: Frac, family: String },
    /// Center text horizontally on the anchor point.
    SetTextAlignCenter,
    /// Center text vertically on the anchor point.
    SetTextBaselineMiddle,
    /// Render one line of text at the local origin.
    FillText { text: String },
}

/// The mathematical content of a [`Cmd`].
pub ghost enum CmdV {
    SetSize { width: int, height: int },
    Save,
    Restore,
    BeginPath,
    ClosePath,
    MoveTo { x: FracV, y: FracV },
    PathArc { x: FracV, y: FracV, radius: FracV, start: FracV, end: FracV },
    SetFillStyle { color: Seq<char> },
    SetLineWidth { width: FracV },
    SetStrokeStyle { color: Seq<char> },
    Stroke,
    Fill,
    TranslatePolar { x: FracV, y: FracV, radius: FracV, angle: FracV },
    Rotate { angle: FracV },
    MirrorFlip,
    SetFont { size_px: FracV, family: Seq<char> },
    SetTextAlignCenter,
    SetTextBaselineMiddle,
    FillText { text: Seq<char> },
}

impl View for Cmd {
    type V = CmdV;

    open spec fn view(&self) -> CmdV {
        match self {
            Cmd::SetSize { width, height } => CmdV::SetSize {
                width: *width as int,
                height: *height as int,
            },
            Cmd::Save => CmdV::Save,
            Cmd::Restore => CmdV::Restore,
            Cmd::BeginPath => CmdV::BeginPath,
            Cmd::ClosePath => CmdV::ClosePath,
            Cmd::MoveTo { x, y } => CmdV::MoveTo { x: x@, y: y@ },
            Cmd::PathArc { x, y, radius, start, end } => CmdV::PathArc {
                x: x@,
                y: y@,
                radius: radius@,
                start: start@,
                end: end@,
            },
            Cmd::SetFillStyle { color } => CmdV::SetFillStyle { color: color@ },
            Cmd::SetLineWidth { width } => CmdV::SetLineWidth { width: width@ },
            Cmd::SetStrokeStyle { color } => CmdV::SetStrokeStyle { color: color@ },
            Cmd::Stroke => CmdV::Stroke,
            Cmd::Fill => CmdV::Fill,
            Cmd::TranslatePolar { x, y, radius, angle } => CmdV::TranslatePolar {
                x: x@,
                y: y@,
                radius: radius@,
                angle: angle@,
            },
            Cmd::Rotate { angle } => CmdV::Rotate { angle: angle@ },
            Cmd::MirrorFlip => CmdV::MirrorFlip,
            Cmd::SetFont { size_px, family } => CmdV::SetFont {
                size_px: size_px@,
                family: family@,
            },
            Cmd::SetTextAlignCenter => CmdV::SetTextAlignCenter,
            Cmd::SetTextBaselineMiddle => CmdV::SetTextBaselineMiddle,
            Cmd::FillText { text } => CmdV::FillText { text: text@ },
        }
    }
}

/// The views of a sequence of commands, in order.
pub open spec fn cmd_views(s: Seq<Cmd>) -> Seq<CmdV> {
    s.map_values(|c: Cmd| c@)
}

/// A drawing surface that records the operations applied to it.
#[derive(Clone, Debug, PartialEq)]
pub struct Surface {
    /// The operations recorded so far, oldest first.
    pub cmds: Vec<Cmd>,
}

impl View for Surface {
    type V = Seq<CmdV>;

    open spec fn view(&self) -> Seq<CmdV> {
        cmd_views(self.cmds@)
    }
}

impl Surface {
    /// A fresh surface with nothing drawn on it.
    pub fn new() -> (s: Surface)
        ensures
            s@ == Seq::<CmdV>::empty(),
    {
        let s = Surface { cmds: Vec::new() };
        proof {
            assert(s@ =~= Seq::<CmdV>::empty());
        }
        s
    }

    /// Record one operation.
    pub fn push(&mut self, c: Cmd)
        ensures
            final(self)@ == old(self)@.push(c@),
    {
        let ghost prev = self.cmds@;
        self.cmds.push(c);
        proof {
            assert(self@ =~= cmd_views(prev).push(c@));
        }
    }

    /// The number of operations recorded so far.
    pub fn len(&self) -> (n: usize)
        ensures
            n == self@.len(),
    {
        self.cmds.len()
    }

    /// Hand the recorded operations out for replay.
    pub fn into_commands(self) -> (v: Vec<Cmd>)
        ensures
            cmd_views(v@) == self@,
    {
        self.cmds
    }
}

} // verus!
