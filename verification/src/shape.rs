//! Geometric primitives: points, circles, and angular slivers (pie wedges).
//!
//! A sliver is the pie-slice-shaped region of a circle between two angles,
//! filled from the center outward.  Angles are exact rationals measured in
//! turns; the first sliver of an equal division starts at twelve o'clock
//! (`-1/4` turn) and the division proceeds clockwise.

use crate::frac::{
    lemma_i64_mul_fits_i128, lemma_le_properties, lemma_le_same_den, lemma_lt_le_transitive,
    lemma_mul_associative, Frac, FracV,
};
use crate::surface::{Cmd, CmdV, Surface};
use vstd::prelude::*;

verus! {

/// The largest number of equal angular divisions a circle may be cut into.
///
/// This is a machine limit, not a geometric one: it keeps every derived
/// numerator and denominator far inside 64 bits.
pub const MAX_SLIVERS: usize = 0x10_0000;

/// A point of the plane, with exact rational coordinates.
#[derive(Clone, Copy, Debug, PartialEq, Eq, Structural)]
pub struct Point {
    pub x: Frac,
    pub y: Frac,
}

/// The mathematical content of a [`Point`].
pub ghost struct PointV {
    pub x: FracV,
    pub y: FracV,
}

impl View for Point {
    type V = PointV;

    open spec fn view(&self) -> PointV {
        PointV { x: self.x@, y: self.y@ }
    }
}

/// Whether two points denote the same location (value equality of both
/// coordinates).
pub open spec fn point_eqv(a: PointV, b: PointV) -> bool {
    a.x.eqv(b.x) && a.y.eqv(b.y)
}

/// A circle with a positive radius.
#[derive(Clone, Copy, Debug, PartialEq, Eq, Structural)]
pub struct Circle {
    pub radius: Frac,
    pub center: Point,
}

/// The mathematical content of a [`Circle`].
pub ghost struct CircleV {
    pub radius: FracV,
    pub center: PointV,
}

impl View for Circle {
    type V = CircleV;

    open spec fn view(&self) -> CircleV {
        CircleV { radius: self.radius@, center: self.center@ }
    }
}

impl CircleV {
    /// Well-formed circles have a positive radius.
    pub open spec fn wf(self) -> bool {
        &&& self.radius.wf()
        &&& self.radius.num > 0
        &&& self.center.x.wf()
        &&& self.center.y.wf()
    }
}

impl Circle {
    /// A new circle with the radius multiplied by `factor` and the same
    /// center.  Pure: the receiver is unchanged.
    pub fn scale(&self, factor: Frac) -> (r: Circle)
        requires
            self.radius@.wf(),
            factor@.wf(),
            self.radius@.mul_fits(factor@),
        ensures
            r@.radius == self.radius@.mul(factor@),
            r@.center == self@.center,
            r@.radius.wf(),
    {
        Circle { radius: self.radius.mul(factor), center: self.center }
    }
}

/// An angular sliver of a circle: the pie wedge between `start` and `end`
/// (angles in turns, `start < end`), filled from `center` out to `radius`.
#[derive(Clone, Copy, Debug, PartialEq, Eq, Structural)]
pub struct Arc {
    pub start: Frac,
    pub end: Frac,
    pub radius: Frac,
    pub center: Point,
}

/// The mathematical content of an [`Arc`].
pub ghost struct ArcV {
    pub start: FracV,
    pub end: FracV,
    pub radius: FracV,
    pub center: PointV,
}

impl View for Arc {
    type V = ArcV;

    open spec fn view(&self) -> ArcV {
        ArcV { start: self.start@, end: self.end@, radius: self.radius@, center: self.center@ }
    }
}

impl ArcV {
    /// Well-formed arcs run forward (`start < end`) on a positive radius.
    pub open spec fn wf(self) -> bool {
        &&& self.start.wf()
        &&& self.end.wf()
        &&& self.radius.wf()
        &&& self.radius.num > 0
        &&& self.center.x.wf()
        &&& self.center.y.wf()
        &&& self.start.lt(self.end)
    }
}

/// A fault while building or drawing the wheel.
#[derive(Clone, Copy, Debug, PartialEq, Eq, Structural)]
pub enum DrawFault {
    /// Two arcs with different radii were joined.
    RadiusMismatch,
    /// Two arcs with different centers were joined.
    CenterMismatch,
    /// The hierarchy does not have exactly three levels below the root.
    MalformedHierarchy,
}

/// The start angle of the `n`-th of `total` equal divisions of a full turn,
/// beginning at twelve o'clock: `n/total - 1/4` turns.
pub open spec fn sliver_start(n: int, total: int) -> FracV {
    FracV { num: 4 * n - total, den: 4 * total }
}

/// The end angle of the `n`-th of `total` equal divisions.
pub open spec fn sliver_end(n: int, total: int) -> FracV {
    FracV { num: 4 * (n + 1) - total, den: 4 * total }
}

/// The `n`-th of `total` equal slivers of the circle with the given radius
/// and center.
pub open spec fn sliver_v(n: int, total: int, radius: FracV, center: PointV) -> ArcV {
    ArcV { start: sliver_start(n, total), end: sliver_end(n, total), radius, center }
}

/// The merge of two slivers of the same circle: the wedge covering
/// `[min(starts), max(ends)]`.  Ties keep the first arc's representation.
pub open spec fn join_v(a: ArcV, b: ArcV) -> ArcV {
    ArcV {
        start: if a.start.le(b.start) {
            a.start
        } else {
            b.start
        },
        end: if a.end.le(b.end) {
            b.end
        } else {
            a.end
        },
        radius: a.radius,
        center: a.center,
    }
}

impl Arc {
    /// The wedge occupying the `n`-th of `total` equal angular divisions of
    /// a full turn around `center`, starting at twelve o'clock and
    /// proceeding clockwise.  Equal division is unconditional: any positive
    /// `total` up to the machine limit works.
    pub fn make_sliver(n: usize, total: usize, radius: Frac, center: Point) -> (r: Arc)
        requires
            0 < total <= MAX_SLIVERS,
            n < total,
            radius@.wf(),
            radius@.num > 0,
            center@.x.wf(),
            center@.y.wf(),
        ensures
            r@ == sliver_v(n as int, total as int, radius@, center@),
            r@.wf(),
    {
        let t: i64 = total as i64;
        let k: i64 = n as i64;
        let r = Arc {
            start: Frac { num: 4 * k - t, den: 4 * t },
            end: Frac { num: 4 * (k + 1) - t, den: 4 * t },
            radius,
            center,
        };
        proof {
            lemma_le_same_den(r.start@, r.end@);
        }
        r
    }

    /// [`Arc::make_sliver`] using a circle's radius and center.
    pub fn from_circle(n: usize, total: usize, circle: &Circle) -> (r: Arc)
        requires
            0 < total <= MAX_SLIVERS,
            n < total,
            circle@.wf(),
        ensures
            r@ == sliver_v(n as int, total as int, circle@.radius, circle@.center),
            r@.wf(),
    {
        Arc::make_sliver(n, total, circle.radius, circle.center)
    }

    /// Merge two slivers into one covering both angular ranges.
    ///
    /// Joining wedges of different circles is geometrically meaningless, so
    /// a radius or center mismatch (by value) is a fault, never a silent
    /// merge.  On success the result covers
    /// `[min(starts), max(ends)]` exactly.
    pub fn join(arc0: Arc, arc2: Arc) -> (r: Result<Arc, DrawFault>)
        requires
            arc0@.wf(),
            arc2@.wf(),
        ensures
            r is Ok <==> arc0@.radius.eqv(arc2@.radius) && point_eqv(arc0@.center, arc2@.center),
            r matches Ok(a) ==> a@ == join_v(arc0@, arc2@) && a@.wf(),
            !arc0@.radius.eqv(arc2@.radius) ==> r == Err::<Arc, DrawFault>(
                DrawFault::RadiusMismatch,
            ),
            arc0@.radius.eqv(arc2@.radius) && !point_eqv(arc0@.center, arc2@.center) ==> r
                == Err::<Arc, DrawFault>(DrawFault::CenterMismatch),
    {
        if !arc0.radius.eq_value(arc2.radius) {
            return Err(DrawFault::RadiusMismatch);
        }
        if !(arc0.center.x.eq_value(arc2.center.x) && arc0.center.y.eq_value(arc2.center.y)) {
            return Err(DrawFault::CenterMismatch);
        }
        let start = if arc0.start.le(arc2.start) {
            arc0.start
        } else {
            arc2.start
        };
        let end = if arc0.end.le(arc2.end) {
            arc2.end
        } else {
            arc0.end
        };
        let r = Arc { start, end, radius: arc0.radius, center: arc0.center };
        proof {
            lemma_le_properties(arc0@.start, arc2@.start);
            lemma_le_properties(arc0@.end, arc2@.end);
            if arc0@.start.le(arc2@.start) {
                lemma_lt_le_transitive(arc0@.start, arc0@.end, r@.end);
            } else {
                lemma_lt_le_transitive(arc2@.start, arc2@.end, r@.end);
            }
        }
        Ok(r)
    }
}

/// Styling for drawing a wedge.  A field left `None` does not alter the
/// surface's current corresponding style state.
#[derive(Clone, Debug, PartialEq)]
pub struct DrawOptions {
    pub fill_style: Option<String>,
    pub line_width: Option<Frac>,
    pub stroke_style: Option<String>,
}

/// The mathematical content of a [`DrawOptions`].
pub ghost struct DrawOptionsV {
    pub fill_style: Option<Seq<char>>,
    pub line_width: Option<FracV>,
    pub stroke_style: Option<Seq<char>>,
}

impl View for DrawOptions {
    type V = DrawOptionsV;

    open spec fn view(&self) -> DrawOptionsV {
        DrawOptionsV {
            fill_style: match self.fill_style {
                Some(c) => Some(c@),
                None => None,
            },
            line_width: match self.line_width {
                Some(w) => Some(w@),
                None => None,
            },
            stroke_style: match self.stroke_style {
                Some(c) => Some(c@),
                None => None,
            },
        }
    }
}

impl Default for DrawOptions {
    /// No fill, a hairline width and a white stroke.
    fn default() -> (d: DrawOptions)
        ensures
            d@.fill_style is None,
            d@.line_width == Some((FracV { num: 1, den: 1 })),
            d@.stroke_style == Some("white"@),
    {
        DrawOptions {
            fill_style: None,
            line_width: Some(Frac { num: 1, den: 1 }),
            stroke_style: Some("white".to_owned()),
        }
    }
}

/// A font request: a pixel size (exact rational) and a family name.  The
/// host formats the two into the surface's font specification string.
#[derive(Clone, Debug, PartialEq)]
pub struct FontSpec {
    pub size_px: Frac,
    pub family: String,
}

/// The mathematical content of a [`FontSpec`].
pub ghost struct FontSpecV {
    pub size_px: FracV,
    pub family: Seq<char>,
}

impl View for FontSpec {
    type V = FontSpecV;

    open spec fn view(&self) -> FontSpecV {
        FontSpecV { size_px: self.size_px@, family: self.family@ }
    }
}

/// Styling for a radially oriented label.  `radius` is the distance from
/// the wedge's center to the text anchor; it is independent of the wedge's
/// own radius, so text can sit nearer the ring's visual band than its
/// drawn extent.
#[derive(Clone, Debug, PartialEq)]
pub struct DrawTextOptions {
    pub fill_style: Option<String>,
    pub font: Option<FontSpec>,
    pub radius: Frac,
}

/// The mathematical content of a [`DrawTextOptions`].
pub ghost struct DrawTextOptionsV {
    pub fill_style: Option<Seq<char>>,
    pub font: Option<FontSpecV>,
    pub radius: FracV,
}

impl View for DrawTextOptions {
    type V = DrawTextOptionsV;

    open spec fn view(&self) -> DrawTextOptionsV {
        DrawTextOptionsV {
            fill_style: match self.fill_style {
                Some(c) => Some(c@),
                None => None,
            },
            font: match self.font {
                Some(f) => Some(f@),
                None => None,
            },
            radius: self.radius@,
        }
    }
}

/// The style operations a wedge draw records: one per present option, in
/// fill, line-width, stroke order.
pub open spec fn style_cmds(o: DrawOptionsV) -> Seq<CmdV> {
    (match o.fill_style {
        Some(c) => seq![CmdV::SetFillStyle { color: c }],
        None => Seq::<CmdV>::empty(),
    }) + (match o.line_width {
        Some(w) => seq![CmdV::SetLineWidth { width: w }],
        None => Seq::<CmdV>::empty(),
    }) + (match o.stroke_style {
        Some(c) => seq![CmdV::SetStrokeStyle { color: c }],
        None => Seq::<CmdV>::empty(),
    })
}

/// The exact operation sequence that drawing a wedge records: scoped state
/// save, the pie-slice path from the center, the present styles, then
/// stroke, close, fill, and one more stroke from the center so both
/// straight edges are visibly outlined.
pub open spec fn arc_wedge_cmds(a: ArcV, o: DrawOptionsV) -> Seq<CmdV> {
    seq![
        CmdV::Save,
        CmdV::BeginPath,
        CmdV::MoveTo { x: a.center.x, y: a.center.y },
        CmdV::PathArc { x: a.center.x, y: a.center.y, radius: a.radius, start: a.start, end: a.end },
    ] + style_cmds(o) + seq![
        CmdV::Stroke,
        CmdV::ClosePath,
        CmdV::Fill,
        CmdV::MoveTo { x: a.center.x, y: a.center.y },
        CmdV::Stroke,
        CmdV::Restore,
    ]
}

/// The angle bisecting an arc: `(start + end) / 2`, in turns.
pub open spec fn mid_angle(a: ArcV) -> FracV {
    FracV {
        num: a.start.num * a.end.den + a.end.num * a.start.den,
        den: 2 * (a.start.den * a.end.den),
    }
}

/// Whether a label at this bisecting angle must be mirrored to stay
/// legible: exactly when the angle lies strictly between a quarter turn
/// and three quarter turns (the left half of the circle).  Both boundaries
/// are exclusive: a label at exactly a quarter turn is not mirrored.
pub open spec fn mirror_needed(angle: FracV) -> bool {
    (FracV { num: 1, den: 4 }).lt(angle) && angle.lt(FracV { num: 3, den: 4 })
}

/// The style operations a label draw records: fill color then font, one
/// per present option.
pub open spec fn text_style_cmds(o: DrawTextOptionsV) -> Seq<CmdV> {
    (match o.fill_style {
        Some(c) => seq![CmdV::SetFillStyle { color: c }],
        None => Seq::<CmdV>::empty(),
    }) + (match o.font {
        Some(f) => seq![CmdV::SetFont { size_px: f.size_px, family: f.family }],
        None => Seq::<CmdV>::empty(),
    })
}

/// The exact operation sequence that drawing a label records: translate to
/// the polar anchor on the bisecting angle, rotate to it, mirror when the
/// angle falls on the left half of the circle, the present styles, then
/// centered text at the local origin.
pub open spec fn arc_text_cmds(a: ArcV, text: Seq<char>, o: DrawTextOptionsV) -> Seq<CmdV> {
    seq![
        CmdV::Save,
        CmdV::BeginPath,
        CmdV::TranslatePolar {
            x: a.center.x,
            y: a.center.y,
            radius: o.radius,
            angle: mid_angle(a),
        },
        CmdV::Rotate { angle: mid_angle(a) },
    ] + (if mirror_needed(mid_angle(a)) {
        seq![CmdV::MirrorFlip]
    } else {
        Seq::<CmdV>::empty()
    }) + text_style_cmds(o) + seq![
        CmdV::SetTextAlignCenter,
        CmdV::SetTextBaselineMiddle,
        CmdV::FillText { text: text },
        CmdV::ClosePath,
        CmdV::Restore,
    ]
}

/// Whether an arc's bisecting angle is representable in a [`Frac`] — a
/// machine limit on label placement.
pub open spec fn arc_text_ready(a: ArcV) -> bool {
    &&& a.start.wf()
    &&& a.end.wf()
    &&& i64::MIN <= mid_angle(a).num <= i64::MAX
    &&& mid_angle(a).den <= i64::MAX
}

/// Any arc whose two angles sit over one denominator no larger than the
/// division limit, with numerators no larger than that denominator, can
/// carry a label.  Slivers and their merges are all of this shape.
pub proof fn lemma_text_ready(a: ArcV)
    requires
        a.start.wf(),
        a.end.wf(),
        a.start.den == a.end.den,
        a.start.den <= 4 * (MAX_SLIVERS as int),
        -a.start.den <= a.start.num <= a.start.den,
        -a.end.den <= a.end.num <= a.end.den,
    ensures
        arc_text_ready(a),
{
    assert({
        &&& i64::MIN <= a.start.num * a.end.den + a.end.num * a.start.den <= i64::MAX
        &&& 2 * (a.start.den * a.end.den) <= i64::MAX
    }) by (nonlinear_arith)
        requires
            0 < a.start.den <= 0x40_0000,
            a.end.den == a.start.den,
            -a.start.den <= a.start.num <= a.start.den,
            -a.end.den <= a.end.num <= a.end.den,
    ;
}

/// The capability any drawable shape offers: record a filled, outlined
/// rendering of itself, or a radially placed label, onto a surface.  The
/// exact operations recorded are given by the shape's own command
/// functions; drawing changes no shape state and returns the shape for
/// chaining.
pub trait Draw {
    /// The operations that drawing this shape records.
    spec fn wedge_commands(&self, draw_options: &DrawOptions) -> Seq<CmdV>;

    /// The operations that labeling this shape records.
    spec fn text_commands(&self, text: Seq<char>, draw_options: &DrawTextOptions) -> Seq<CmdV>;

    /// Whether the label geometry is representable (a machine limit).
    spec fn text_ready(&self, draw_options: &DrawTextOptions) -> bool;

    /// Record this shape's rendering on the surface.
    fn draw<'a>(&'a self, draw_options: &DrawOptions, surface: &mut Surface) -> (r: &'a Self)
        ensures
            final(surface)@ == old(surface)@ + self.wedge_commands(draw_options),
            r == self,
    ;

    /// Record a label for this shape on the surface.
    fn draw_text<'a>(
        &'a self,
        text: &str,
        draw_options: &DrawTextOptions,
        surface: &mut Surface,
    ) -> (r: &'a Self)
        requires
            self.text_ready(draw_options),
        ensures
            final(surface)@ == old(surface)@ + self.text_commands(text@, draw_options),
            r == self,
    ;
}

impl Draw for Arc {
    open spec fn wedge_commands(&self, draw_options: &DrawOptions) -> Seq<CmdV> {
        arc_wedge_cmds(self@, draw_options@)
    }

    open spec fn text_commands(&self, text: Seq<char>, draw_options: &DrawTextOptions) -> Seq<
        CmdV,
    > {
        arc_text_cmds(self@, text, draw_options@)
    }

    open spec fn text_ready(&self, draw_options: &DrawTextOptions) -> bool {
        arc_text_ready(self@)
    }

    fn draw<'a>(&'a self, draw_options: &DrawOptions, surface: &mut Surface) -> (r: &'a Self) {
        surface.push(Cmd::Save);
        surface.push(Cmd::BeginPath);
        surface.push(Cmd::MoveTo { x: self.center.x, y: self.center.y });
        surface.push(
            Cmd::PathArc {
                x: self.center.x,
                y: self.center.y,
                radius: self.radius,
                start: self.start,
                end: self.end,
            },
        );
        let ghost mid_state = surface@;
        match &draw_options.fill_style {
            Some(fill_style) => surface.push(Cmd::SetFillStyle { color: fill_style.clone() }),
            None => (),
        }
        match &draw_options.line_width {
            Some(line_width) => surface.push(Cmd::SetLineWidth { width: *line_width }),
            None => (),
        }
        match &draw_options.stroke_style {
            Some(stroke) => surface.push(Cmd::SetStrokeStyle { color: stroke.clone() }),
            None => (),
        }
        proof {
            assert(surface@ =~= mid_state + style_cmds(draw_options@));
        }
        surface.push(Cmd::Stroke);
        surface.push(Cmd::ClosePath);
        surface.push(Cmd::Fill);
        surface.push(Cmd::MoveTo { x: self.center.x, y: self.center.y });
        surface.push(Cmd::Stroke);
        surface.push(Cmd::Restore);
        proof {
            assert(surface@ =~= old(surface)@ + arc_wedge_cmds(self@, draw_options@));
        }
        self
    }

    fn draw_text<'a>(
        &'a self,
        text: &str,
        draw_options: &DrawTextOptions,
        surface: &mut Surface,
    ) -> (r: &'a Self) {
        proof {
            lemma_i64_mul_fits_i128(self.start.num as int, self.end.den as int);
            lemma_i64_mul_fits_i128(self.end.num as int, self.start.den as int);
            lemma_i64_mul_fits_i128(self.start.den as int, self.end.den as int);
            assert(self.start.den as int * self.end.den as int > 0) by (nonlinear_arith)
                requires
                    self.start.den > 0,
                    self.end.den > 0,
            ;
        }
        let num_wide: i128 = (self.start.num as i128) * (self.end.den as i128) + (self.end.num
            as i128) * (self.start.den as i128);
        let den_wide: i128 = 2 * ((self.start.den as i128) * (self.end.den as i128));
        let mid = Frac { num: num_wide as i64, den: den_wide as i64 };
        surface.push(Cmd::Save);
        surface.push(Cmd::BeginPath);
        surface.push(
            Cmd::TranslatePolar {
                x: self.center.x,
                y: self.center.y,
                radius: draw_options.radius,
                angle: mid,
            },
        );
        surface.push(Cmd::Rotate { angle: mid });
        let quarter = Frac { num: 1, den: 4 };
        let three_quarters = Frac { num: 3, den: 4 };
        if quarter.lt(mid) && mid.lt(three_quarters) {
            surface.push(Cmd::MirrorFlip);
        }
        let ghost mid_state = surface@;
        match &draw_options.fill_style {
            Some(fill_style) => surface.push(Cmd::SetFillStyle { color: fill_style.clone() }),
            None => (),
        }
        match &draw_options.font {
            Some(font) => surface.push(
                Cmd::SetFont { size_px: font.size_px, family: font.family.clone() },
            ),
            None => (),
        }
        proof {
            assert(surface@ =~= mid_state + text_style_cmds(draw_options@));
        }
        surface.push(Cmd::SetTextAlignCenter);
        surface.push(Cmd::SetTextBaselineMiddle);
        surface.push(Cmd::FillText { text: text.to_owned() });
        surface.push(Cmd::ClosePath);
        surface.push(Cmd::Restore);
        proof {
            assert(surface@ =~= old(surface)@ + arc_text_cmds(self@, text@, draw_options@));
        }
        self
    }
}

/// Laws of the equal division (see [`Arc::make_sliver`]):
/// every sliver is exactly `1/total` of a turn wide, the first starts at
/// `-1/4` turn, the last ends at `3/4` turn, and each sliver ends exactly
/// where the next begins — the division tiles `[-1/4, 3/4)` of a turn with
/// no gaps and no overlaps.
pub proof fn lemma_sliver_tiling(n: int, total: int)
    requires
        0 < total,
        0 <= n < total,
    ensures
        sliver_end(n, total).num - sliver_start(n, total).num == 4,
        sliver_end(n, total).den == sliver_start(n, total).den == 4 * total,
        (FracV { num: 4, den: 4 * total }).eqv(FracV { num: 1, den: total }),
        sliver_start(0, total).eqv((FracV { num: -1, den: 4 })),
        sliver_end(total - 1, total).eqv((FracV { num: 3, den: 4 })),
        n + 1 < total ==> sliver_end(n, total) == sliver_start(n + 1, total),
        sliver_start(n, total).lt(sliver_end(n, total)),
{
    lemma_le_same_den(sliver_start(n, total), sliver_end(n, total));
}

/// Law of scale composition (see [`Circle::scale`]): scaling by `s1` and
/// then by `s2` yields the very same radius as scaling once by `s1 * s2` —
/// the same numerator and denominator, not merely the same value.
pub proof fn lemma_scale_composition(c: CircleV, s1: FracV, s2: FracV)
    ensures
        c.radius.mul(s1).mul(s2) == c.radius.mul(s1.mul(s2)),
{
    lemma_mul_associative(c.radius, s1, s2);
}

/// Law of text orientation: drawing a label records the mirror transform
/// exactly when the bisecting angle lies strictly inside the left half of
/// the circle — strictly between a quarter turn and three quarter turns.
/// At exactly a quarter or three quarter turn no mirror is recorded: both
/// boundaries are exclusive.
pub proof fn lemma_mirror_rule(a: ArcV, text: Seq<char>, o: DrawTextOptionsV)
    ensures
        arc_text_cmds(a, text, o).contains(CmdV::MirrorFlip) <==> mirror_needed(mid_angle(a)),
{
    let m = mid_angle(a);
    let pre = seq![
        CmdV::Save,
        CmdV::BeginPath,
        CmdV::TranslatePolar { x: a.center.x, y: a.center.y, radius: o.radius, angle: m },
        CmdV::Rotate { angle: m },
    ];
    let styles = text_style_cmds(o);
    let post = seq![
        CmdV::SetTextAlignCenter,
        CmdV::SetTextBaselineMiddle,
        CmdV::FillText { text: text },
        CmdV::ClosePath,
        CmdV::Restore,
    ];
    let cmds = arc_text_cmds(a, text, o);
    assert(forall|q: int| 0 <= q < styles.len() ==> #[trigger] styles[q] != CmdV::MirrorFlip) by {
        match o.fill_style {
            Some(fill) => {
                match o.font {
                    Some(f) => {
                        assert(styles =~= seq![
                            CmdV::SetFillStyle { color: fill },
                            CmdV::SetFont { size_px: f.size_px, family: f.family },
                        ]);
                    },
                    None => {
                        assert(styles =~= seq![CmdV::SetFillStyle { color: fill }]);
                    },
                }
            },
            None => {
                match o.font {
                    Some(f) => {
                        assert(styles =~= seq![
                            CmdV::SetFont { size_px: f.size_px, family: f.family },
                        ]);
                    },
                    None => {
                        assert(styles =~= Seq::<CmdV>::empty());
                    },
                }
            },
        }
    }
    if mirror_needed(m) {
        assert(cmds[4] == CmdV::MirrorFlip);
        assert(cmds.contains(CmdV::MirrorFlip));
    } else {
        assert(pre + Seq::<CmdV>::empty() =~= pre);
        assert(cmds == (pre + styles) + post);
        assert forall|idx: int| 0 <= idx < cmds.len() implies #[trigger] cmds[idx]
            != CmdV::MirrorFlip by {
            if idx < 4 {
                assert(cmds[idx] == pre[idx]);
            } else if idx < 4 + styles.len() {
                assert(cmds[idx] == styles[idx - 4]);
            } else {
                assert(cmds[idx] == post[idx - 4 - styles.len()]);
            }
        }
        assert(!cmds.contains(CmdV::MirrorFlip));
    }
}

/// Law of join commutativity (see [`Arc::join`]): merging in either order
/// yields the same start and end angles by value, the same radius and the
/// same center.  (Whenever radii or centers differ by value, `Arc::join`
/// returns the corresponding fault instead — that is part of its
/// contract.)
pub proof fn lemma_join_commutative(a: ArcV, b: ArcV)
    requires
        a.wf(),
        b.wf(),
        a.radius.eqv(b.radius),
        point_eqv(a.center, b.center),
    ensures
        join_v(a, b).start.eqv(join_v(b, a).start),
        join_v(a, b).end.eqv(join_v(b, a).end),
        join_v(a, b).radius.eqv(join_v(b, a).radius),
        point_eqv(join_v(a, b).center, join_v(b, a).center),
{
    lemma_le_properties(a.start, b.start);
    lemma_le_properties(b.start, a.start);
    lemma_le_properties(a.end, b.end);
    lemma_le_properties(b.end, a.end);
}

} // verus!
