//! The wheel layout: three concentric rings of wedges over a hierarchy.
//!
//! Per depth-1 category (one color each): every depth-3 leaf gets a wedge
//! of the full base circle on the outer ring, using a running global leaf
//! index over the global leaf count; each depth-2 node then gets a wedge of
//! the base circle scaled by `7/10` on the middle ring; finally the
//! category gets an inner-ring wedge on the base circle scaled by `38/100`,
//! joined from the first and last leaf slivers it spans.  A small filled
//! disk caps the wedge apexes at the center.  Because every wedge is
//! filled from the center, this outer-to-inner draw order is what makes
//! the result look like three rings: later, smaller wedges overpaint the
//! centers of earlier, larger ones.

use crate::frac::{Frac, FracV};
use crate::hierarchy::{
    child_count, d1_ok, leaf_count, lemma_child_count_lower, lemma_counts_nonneg,
    lemma_counts_skip_unfold, tree_ok, validate, Node,
};
use crate::shape::{
    arc_text_cmds, arc_wedge_cmds, join_v, lemma_text_ready, sliver_v, Arc, Circle, CircleV,
    Draw, DrawFault, DrawOptions, DrawOptionsV, DrawTextOptions, DrawTextOptionsV, FontSpec,
    FontSpecV, Point, PointV, MAX_SLIVERS,
};
use crate::surface::{Cmd, CmdV, Surface};
use vstd::prelude::*;

verus! {

/// The caller-supplied sizing of one rendering pass.
#[derive(Clone, Copy, Debug, PartialEq, Eq, Structural)]
pub struct WheelOptions {
    pub width: u32,
    pub height: u32,
    pub radius: Frac,
}

/// The mathematical content of a [`WheelOptions`].
pub ghost struct WheelOptionsV {
    pub width: int,
    pub height: int,
    pub radius: FracV,
}

impl View for WheelOptions {
    type V = WheelOptionsV;

    open spec fn view(&self) -> WheelOptionsV {
        WheelOptionsV {
            width: self.width as int,
            height: self.height as int,
            radius: self.radius@,
        }
    }
}

/// The midpoint of the surface.
pub open spec fn wheel_center(o: WheelOptionsV) -> PointV {
    PointV { x: FracV { num: o.width, den: 2 }, y: FracV { num: o.height, den: 2 } }
}

/// The base circle: the caller's radius around the surface midpoint.
pub open spec fn wheel_circle(o: WheelOptionsV) -> CircleV {
    CircleV { radius: o.radius, center: wheel_center(o) }
}

/// The machine limits under which a whole pass is representable: a
/// positive radius comfortably inside 64 bits.
pub open spec fn options_fit(o: WheelOptionsV) -> bool {
    &&& o.radius.wf()
    &&& 0 < o.radius.num <= 0x1_0000_0000_0000
    &&& o.radius.den <= 0x1_0000_0000
}

impl WheelOptions {
    /// Sizing derived from target pixel dimensions: the base circle sits
    /// at the midpoint with radius `4/10` of the smaller dimension.
    pub fn from_dimensions(width: u32, height: u32) -> (r: WheelOptions)
        requires
            width > 0,
            height > 0,
        ensures
            r.width == width,
            r.height == height,
            r@.radius == (FracV {
                num: 4 * (if width <= height { width as int } else { height as int }),
                den: 10,
            }),
            options_fit(r@),
    {
        let m: u32 = if width <= height {
            width
        } else {
            height
        };
        WheelOptions { width, height, radius: Frac { num: 4 * (m as i64), den: 10 } }
    }

    /// The midpoint of the surface.
    pub fn center(&self) -> (r: Point)
        ensures
            r@ == wheel_center(self@),
    {
        Point {
            x: Frac { num: self.width as i64, den: 2 },
            y: Frac { num: self.height as i64, den: 2 },
        }
    }

    /// The base circle of the pass.
    pub fn as_circle(&self) -> (r: Circle)
        ensures
            r@ == wheel_circle(self@),
    {
        Circle { radius: self.radius, center: self.center() }
    }
}

/// The color assigned to the `i`-th depth-1 category: an eight-color
/// palette, cycled.
pub open spec fn palette_color_v(i: int) -> Seq<char> {
    let r = i % 8;
    if r == 0 {
        "gold"@
    } else if r == 1 {
        "orangered"@
    } else if r == 2 {
        "mediumseagreen"@
    } else if r == 3 {
        "steelblue"@
    } else if r == 4 {
        "orchid"@
    } else if r == 5 {
        "tomato"@
    } else if r == 6 {
        "turquoise"@
    } else {
        "slateblue"@
    }
}

/// The color assigned to the `i`-th depth-1 category.
pub fn palette_color(i: usize) -> (c: String)
    ensures
        c@ == palette_color_v(i as int),
{
    let r = i % 8;
    if r == 0 {
        "gold".to_owned()
    } else if r == 1 {
        "orangered".to_owned()
    } else if r == 2 {
        "mediumseagreen".to_owned()
    } else if r == 3 {
        "steelblue".to_owned()
    } else if r == 4 {
        "orchid".to_owned()
    } else if r == 5 {
        "tomato".to_owned()
    } else if r == 6 {
        "turquoise".to_owned()
    } else {
        "slateblue".to_owned()
    }
}

/// The wedge style of the pass: category fill, `5/2` line width, white
/// stroke.
pub open spec fn wedge_style_v(color: Seq<char>) -> DrawOptionsV {
    DrawOptionsV {
        fill_style: Some(color),
        line_width: Some(FracV { num: 5, den: 2 }),
        stroke_style: Some("white"@),
    }
}

/// The label style of the pass: black fill, a sans-serif font of `1/38`
/// of the base radius, anchored at `label_radius` from the center.
pub open spec fn label_style_v(base_radius: FracV, label_radius: FracV) -> DrawTextOptionsV {
    DrawTextOptionsV {
        fill_style: Some("black"@),
        font: Some(
            FontSpecV {
                size_px: base_radius.mul(FracV { num: 1, den: 38 }),
                family: "sans-serif"@,
            },
        ),
        radius: label_radius,
    }
}

/// The operations recorded for the leaf with global index `k` of `n3`:
/// its outer-ring wedge on the base circle, then its label at `85/100` of
/// the base radius.
pub open spec fn leaf_cmds(name: Seq<char>, k: int, n3: int, c: CircleV, color: Seq<char>) -> Seq<
    CmdV,
> {
    let a = sliver_v(k, n3, c.radius, c.center);
    arc_wedge_cmds(a, wedge_style_v(color)) + arc_text_cmds(
        a,
        name,
        label_style_v(c.radius, c.radius.mul(FracV { num: 85, den: 100 })),
    )
}

/// The operations for a run of leaves starting at global index `k`.
pub open spec fn leaves_cmds(
    leaves: Seq<Node>,
    k: int,
    n3: int,
    c: CircleV,
    color: Seq<char>,
) -> Seq<CmdV>
    decreases leaves.len(),
{
    if leaves.len() == 0 {
        Seq::<CmdV>::empty()
    } else {
        leaf_cmds(leaves[0].name@, k, n3, c, color) + leaves_cmds(
            leaves.skip(1),
            k + 1,
            n3,
            c,
            color,
        )
    }
}

/// The operations for the depth-2 node with global index `j` of `n2`,
/// whose first leaf has global index `k`: its leaves on the outer ring,
/// then its own wedge on the middle ring (base circle scaled by `7/10`),
/// labeled at `78/100` of that scaled radius.
pub open spec fn d2_node_cmds(
    d2: Node,
    k: int,
    j: int,
    n2: int,
    n3: int,
    c: CircleV,
    color: Seq<char>,
) -> Seq<CmdV> {
    let mid_r = c.radius.mul(FracV { num: 7, den: 10 });
    let a = sliver_v(j, n2, mid_r, c.center);
    leaves_cmds(d2.children@, k, n3, c, color) + arc_wedge_cmds(a, wedge_style_v(color))
        + arc_text_cmds(
        a,
        d2.name@,
        label_style_v(c.radius, mid_r.mul(FracV { num: 78, den: 100 })),
    )
}

/// The operations for a run of depth-2 nodes; `k` and `j` are the global
/// leaf and depth-2 indices of the first one.
pub open spec fn d2s_cmds(
    d2s: Seq<Node>,
    k: int,
    j: int,
    n2: int,
    n3: int,
    c: CircleV,
    color: Seq<char>,
) -> Seq<CmdV>
    decreases d2s.len(),
{
    if d2s.len() == 0 {
        Seq::<CmdV>::empty()
    } else {
        d2_node_cmds(d2s[0], k, j, n2, n3, c, color) + d2s_cmds(
            d2s.skip(1),
            k + d2s[0].children@.len(),
            j + 1,
            n2,
            n3,
            c,
            color,
        )
    }
}

/// The operations for the depth-1 category with index `i`, whose first
/// leaf has global index `k` and first depth-2 child global index `j`:
/// its subtree, then its inner-ring wedge (base circle scaled by
/// `38/100`), joined from the first and last leaf slivers it spans and
/// labeled at `71/100` of the inner radius.
pub open spec fn d1_node_cmds(
    d1: Node,
    k: int,
    j: int,
    i: int,
    n2: int,
    n3: int,
    c: CircleV,
) -> Seq<CmdV> {
    let color = palette_color_v(i);
    let inner_r = c.radius.mul(FracV { num: 38, den: 100 });
    let leaves = child_count(d1.children@);
    let a = join_v(
        sliver_v(k, n3, inner_r, c.center),
        sliver_v(k + leaves - 1, n3, inner_r, c.center),
    );
    d2s_cmds(d1.children@, k, j, n2, n3, c, color) + arc_wedge_cmds(a, wedge_style_v(color))
        + arc_text_cmds(
        a,
        d1.name@,
        label_style_v(c.radius, inner_r.mul(FracV { num: 71, den: 100 })),
    )
}

/// The operations for a run of depth-1 categories.
pub open spec fn d1s_cmds(
    d1s: Seq<Node>,
    k: int,
    j: int,
    i: int,
    n2: int,
    n3: int,
    c: CircleV,
) -> Seq<CmdV>
    decreases d1s.len(),
{
    if d1s.len() == 0 {
        Seq::<CmdV>::empty()
    } else {
        d1_node_cmds(d1s[0], k, j, i, n2, n3, c) + d1s_cmds(
            d1s.skip(1),
            k + child_count(d1s[0].children@),
            j + d1s[0].children@.len(),
            i + 1,
            n2,
            n3,
            c,
        )
    }
}

/// The closing operations of a pass: a white disk of `15/100` of the base
/// radius, capping the wedge apexes at the center.
pub open spec fn wheel_trailer(c: CircleV) -> Seq<CmdV> {
    seq![
        CmdV::Fill,
        CmdV::SetFillStyle { color: "white"@ },
        CmdV::PathArc {
            x: c.center.x,
            y: c.center.y,
            radius: c.radius.mul(FracV { num: 15, den: 100 }),
            start: FracV { num: 0, den: 1 },
            end: FracV { num: 1, den: 1 },
        },
        CmdV::Fill,
    ]
}

/// Everything one rendering pass records: resize, the categories outer
/// ring first, then the center cap.
pub open spec fn wheel_cmds(o: WheelOptionsV, root: Node) -> Seq<CmdV> {
    let c = wheel_circle(o);
    seq![CmdV::SetSize { width: o.width, height: o.height }] + d1s_cmds(
        root.children@,
        0,
        0,
        0,
        child_count(root.children@),
        leaf_count(root.children@),
        c,
    ) + wheel_trailer(c)
}

/// The wedge style of the pass, as drawn.
fn wedge_options(color: String) -> (o: DrawOptions)
    ensures
        o@ == wedge_style_v(color@),
{
    DrawOptions {
        fill_style: Some(color),
        line_width: Some(Frac { num: 5, den: 2 }),
        stroke_style: Some("white".to_owned()),
    }
}

/// The label style of the pass, as drawn.
fn label_options(font_size: Frac, label_radius: Frac) -> (o: DrawTextOptions)
    ensures
        o@ == (DrawTextOptionsV {
            fill_style: Some("black"@),
            font: Some((FontSpecV { size_px: font_size@, family: "sans-serif"@ })),
            radius: label_radius@,
        }),
{
    DrawTextOptions {
        fill_style: Some("black".to_owned()),
        font: Some(FontSpec { size_px: font_size, family: "sans-serif".to_owned() }),
        radius: label_radius,
    }
}

/// Draw the outer-ring wedges and labels of one depth-2 node's leaves,
/// starting at global leaf index `k`.
#[verifier::loop_isolation(false)]
fn draw_d2_leaves(
    d2: &Node,
    k: usize,
    n3: usize,
    circle: &Circle,
    color: &String,
    font_size: Frac,
    surface: &mut Surface,
)
    requires
        k + d2.children@.len() <= n3,
        n3 <= MAX_SLIVERS,
        circle@.wf(),
        circle@.radius.num <= 0x1_0000_0000_0000,
        circle@.radius.den <= 0x1_0000_0000,
        font_size@ == circle@.radius.mul((FracV { num: 1, den: 38 })),
    ensures
        final(surface)@ == old(surface)@ + leaves_cmds(
            d2.children@,
            k as int,
            n3 as int,
            circle@,
            color@,
        ),
{
    let ghost c = circle@;
    let ghost col = color@;
    let ghost leaves = d2.children@;
    let ghost s0 = surface@;
    proof {
        assert(leaves.skip(0) =~= leaves);
    }
    let mut l: usize = 0;
    while l < d2.children.len()
        invariant
            l <= leaves.len(),
            surface@ + leaves_cmds(leaves.skip(l as int), k + l as int, n3 as int, c, col) == s0
                + leaves_cmds(leaves, k as int, n3 as int, c, col),
        decreases leaves.len() - l,
    {
        let leaf = &d2.children[l];
        let ghost s_before = surface@;
        let sliver = Arc::from_circle(k + l, n3, circle);
        let opts = wedge_options(color.clone());
        sliver.draw(&opts, surface);
        let label_radius = circle.scale(Frac { num: 85, den: 100 }).radius;
        let text_opts = label_options(font_size, label_radius);
        proof {
            lemma_text_ready(sliver@);
        }
        sliver.draw_text(leaf.name.as_str(), &text_opts, surface);
        proof {
            assert(leaves.skip(l as int).skip(1) =~= leaves.skip(l as int + 1));
            let ghost a = arc_wedge_cmds(sliver@, opts@);
            let ghost b = arc_text_cmds(sliver@, leaf.name@, text_opts@);
            assert((s_before + a) + b =~= s_before + leaf_cmds(
                leaf.name@,
                k + l as int,
                n3 as int,
                c,
                col,
            ));
            let ghost rest = leaves_cmds(
                leaves.skip(l as int + 1),
                k + l as int + 1,
                n3 as int,
                c,
                col,
            );
            assert((s_before + leaf_cmds(leaf.name@, k + l as int, n3 as int, c, col)) + rest
                =~= s_before + (leaf_cmds(leaf.name@, k + l as int, n3 as int, c, col) + rest));
        }
        l += 1;
    }
    proof {
        assert(leaves.skip(leaves.len() as int) =~= Seq::<Node>::empty());
        assert(surface@ + Seq::<CmdV>::empty() =~= surface@);
    }
}

/// Draw one depth-1 category: all its leaves on the outer ring, each of
/// its depth-2 children on the middle ring, then its own joined wedge on
/// the inner ring.  Returns the global leaf index after the category.
#[verifier::loop_isolation(false)]
fn draw_category(
    d1: &Node,
    k: usize,
    j: usize,
    i: usize,
    n2: usize,
    n3: usize,
    circle: &Circle,
    font_size: Frac,
    surface: &mut Surface,
) -> (new_k: usize)
    requires
        d1_ok(*d1),
        k + child_count(d1.children@) <= n3,
        j + d1.children@.len() <= n2,
        n2 <= MAX_SLIVERS,
        n3 <= MAX_SLIVERS,
        circle@.wf(),
        circle@.radius.num <= 0x1_0000_0000_0000,
        circle@.radius.den <= 0x1_0000_0000,
        font_size@ == circle@.radius.mul((FracV { num: 1, den: 38 })),
    ensures
        final(surface)@ == old(surface)@ + d1_node_cmds(
            *d1,
            k as int,
            j as int,
            i as int,
            n2 as int,
            n3 as int,
            circle@,
        ),
        new_k == k + child_count(d1.children@),
{
    let ghost c = circle@;
    let ghost d2s = d1.children@;
    let ghost s0 = surface@;
    let color = palette_color(i);
    let ghost col = color@;
    proof {
        assert(d2s.skip(0) =~= d2s);
        lemma_counts_nonneg(d2s);
    }
    let mut k_cur: usize = k;
    let mut j2: usize = 0;
    while j2 < d1.children.len()
        invariant
            j2 <= d2s.len(),
            k_cur + child_count(d2s.skip(j2 as int)) == k + child_count(d2s),
            surface@ + d2s_cmds(
                d2s.skip(j2 as int),
                k_cur as int,
                j + j2 as int,
                n2 as int,
                n3 as int,
                c,
                col,
            ) == s0 + d2s_cmds(d2s, k as int, j as int, n2 as int, n3 as int, c, col),
        decreases d2s.len() - j2,
    {
        let d2 = &d1.children[j2];
        proof {
            lemma_counts_skip_unfold(d2s, j2 as int);
            lemma_counts_nonneg(d2s.skip(j2 as int + 1));
        }
        let ghost s_before = surface@;
        draw_d2_leaves(d2, k_cur, n3, circle, &color, font_size, surface);
        let mid_circle = circle.scale(Frac { num: 7, den: 10 });
        let sliver = Arc::from_circle(j + j2, n2, &mid_circle);
        let opts = wedge_options(color.clone());
        sliver.draw(&opts, surface);
        let label_radius = mid_circle.scale(Frac { num: 78, den: 100 }).radius;
        let text_opts = label_options(font_size, label_radius);
        proof {
            lemma_text_ready(sliver@);
        }
        sliver.draw_text(d2.name.as_str(), &text_opts, surface);
        proof {
            assert(d2s.skip(j2 as int).skip(1) =~= d2s.skip(j2 as int + 1));
            let ghost one = d2_node_cmds(
                *d2,
                k_cur as int,
                j + j2 as int,
                n2 as int,
                n3 as int,
                c,
                col,
            );
            let ghost lv = leaves_cmds(d2.children@, k_cur as int, n3 as int, c, col);
            let ghost a = arc_wedge_cmds(sliver@, opts@);
            let ghost b = arc_text_cmds(sliver@, d2.name@, text_opts@);
            assert(((s_before + lv) + a) + b =~= s_before + one);
            let ghost rest = d2s_cmds(
                d2s.skip(j2 as int + 1),
                k_cur as int + d2.children@.len(),
                j + j2 as int + 1,
                n2 as int,
                n3 as int,
                c,
                col,
            );
            assert((s_before + one) + rest =~= s_before + (one + rest));
        }
        k_cur = k_cur + d2.children.len();
        j2 += 1;
    }
    proof {
        assert(d2s.skip(d2s.len() as int) =~= Seq::<Node>::empty());
        assert(surface@ + Seq::<CmdV>::empty() =~= surface@);
        lemma_child_count_lower(d2s);
    }
    let ghost s_ring = surface@;
    let inner_circle = circle.scale(Frac { num: 38, den: 100 });
    let a0 = Arc::from_circle(k, n3, &inner_circle);
    let a1 = Arc::from_circle(k_cur - 1, n3, &inner_circle);
    proof {
        crate::frac::lemma_le_same_den(a0@.start, a1@.start);
        crate::frac::lemma_le_same_den(a0@.end, a1@.end);
    }
    let joined = match Arc::join(a0, a1) {
        Ok(s) => s,
        Err(_) => {
            proof {
                assert(false);
            }
            vstd::pervasive::unreached()
        },
    };
    let opts = wedge_options(color);
    joined.draw(&opts, surface);
    let label_radius = inner_circle.radius.mul(Frac { num: 71, den: 100 });
    let text_opts = label_options(font_size, label_radius);
    proof {
        lemma_text_ready(joined@);
    }
    joined.draw_text(d1.name.as_str(), &text_opts, surface);
    proof {
        let ghost a = arc_wedge_cmds(joined@, opts@);
        let ghost b = arc_text_cmds(joined@, d1.name@, text_opts@);
        assert(((s0 + d2s_cmds(d2s, k as int, j as int, n2 as int, n3 as int, c, col)) + a) + b
            =~= s0 + d1_node_cmds(*d1, k as int, j as int, i as int, n2 as int, n3 as int, c));
    }
    k_cur
}

/// Render one pass of the wheel onto the surface.
///
/// The hierarchy must have exactly three levels below the root, else the
/// pass records nothing and reports the malformed hierarchy.  On success
/// the surface receives exactly [`wheel_cmds`] of the inputs: the resize,
/// every category outer ring first, and the center cap.  The size bounds
/// in the precondition are machine limits; [`WheelOptions::from_dimensions`]
/// and [`crate::hierarchy::depth_counts`] establish them.
#[verifier::loop_isolation(false)]
pub fn make_wheel(
    wheel_options: &WheelOptions,
    root: &Node,
    surface: &mut Surface,
) -> (r: Result<(), DrawFault>)
    requires
        options_fit(wheel_options@),
        child_count(root.children@) <= MAX_SLIVERS,
        leaf_count(root.children@) <= MAX_SLIVERS,
    ensures
        r is Ok <==> tree_ok(*root),
        tree_ok(*root) ==> final(surface)@ == old(surface)@ + wheel_cmds(
            wheel_options@,
            *root,
        ),
        !tree_ok(*root) ==> r == Err::<(), DrawFault>(DrawFault::MalformedHierarchy)
            && final(surface)@ == old(surface)@,
{
    let ghost s_entry = surface@;
    if !validate(root) {
        return Err(DrawFault::MalformedHierarchy);
    }
    let counts = crate::hierarchy::depth_counts(root);
    let (n2, n3) = match counts {
        Some(c) => c,
        None => {
            proof {
                assert(false);
            }
            return Err(DrawFault::MalformedHierarchy);
        },
    };
    surface.push(Cmd::SetSize { width: wheel_options.width, height: wheel_options.height });
    let circle = wheel_options.as_circle();
    let font_size = circle.radius.mul(Frac { num: 1, den: 38 });
    let ghost c = circle@;
    let ghost d1s = root.children@;
    let ghost base = s_entry + seq![
        CmdV::SetSize { width: wheel_options@.width, height: wheel_options@.height },
    ];
    proof {
        assert(surface@ =~= base);
        assert(d1s.skip(0) =~= d1s);
    }
    let mut d2_idx: usize = 0;
    let mut d3_idx: usize = 0;
    let mut i: usize = 0;
    while i < root.children.len()
        invariant
            i <= d1s.len(),
            d2_idx + child_count(d1s.skip(i as int)) == n2,
            d3_idx + leaf_count(d1s.skip(i as int)) == n3,
            surface@ + d1s_cmds(
                d1s.skip(i as int),
                d3_idx as int,
                d2_idx as int,
                i as int,
                n2 as int,
                n3 as int,
                c,
            ) == base + d1s_cmds(d1s, 0, 0, 0, n2 as int, n3 as int, c),
        decreases d1s.len() - i,
    {
        let d1 = &root.children[i];
        proof {
            lemma_counts_skip_unfold(d1s, i as int);
            lemma_counts_nonneg(d1s.skip(i as int + 1));
            lemma_counts_nonneg(d1.children@);
            assert(d1_ok(d1s[i as int]));
        }
        let ghost s_before = surface@;
        let new_k = draw_category(d1, d3_idx, d2_idx, i, n2, n3, &circle, font_size, surface);
        proof {
            assert(d1s.skip(i as int).skip(1) =~= d1s.skip(i as int + 1));
            let ghost one = d1_node_cmds(
                *d1,
                d3_idx as int,
                d2_idx as int,
                i as int,
                n2 as int,
                n3 as int,
                c,
            );
            let ghost rest = d1s_cmds(
                d1s.skip(i as int + 1),
                d3_idx as int + child_count(d1.children@),
                d2_idx as int + d1.children@.len(),
                i as int + 1,
                n2 as int,
                n3 as int,
                c,
            );
            assert((s_before + one) + rest =~= s_before + (one + rest));
        }
        d3_idx = new_k;
        d2_idx = d2_idx + d1.children.len();
        i += 1;
    }
    proof {
        assert(d1s.skip(d1s.len() as int) =~= Seq::<Node>::empty());
        assert(surface@ + Seq::<CmdV>::empty() =~= surface@);
    }
    let ghost s_rings = surface@;
    surface.push(Cmd::Fill);
    surface.push(Cmd::SetFillStyle { color: "white".to_owned() });
    let cap = circle.scale(Frac { num: 15, den: 100 });
    surface.push(
        Cmd::PathArc {
            x: circle.center.x,
            y: circle.center.y,
            radius: cap.radius,
            start: Frac { num: 0, den: 1 },
            end: Frac { num: 1, den: 1 },
        },
    );
    surface.push(Cmd::Fill);
    proof {
        assert(surface@ =~= s_entry + wheel_cmds(wheel_options@, *root));
    }
    Ok(())
}

/// The sizing [`WheelOptions::from_dimensions`] derives: the base circle
/// sits at the midpoint with radius `4/10` of the smaller dimension.
pub open spec fn dimension_options(width: int, height: int) -> WheelOptionsV {
    WheelOptionsV {
        width,
        height,
        radius: FracV {
            num: 4 * (if width <= height {
                width
            } else {
                height
            }),
            den: 10,
        },
    }
}

/// The render entry point: derive the base circle from the target pixel
/// dimensions and execute one layout pass onto the surface.
///
/// The depth-2 and leaf counts must not exceed [`MAX_SLIVERS`], a machine
/// limit that [`crate::hierarchy::depth_counts`] checks.
pub fn render_wheel(
    width: u32,
    height: u32,
    root: &Node,
    surface: &mut Surface,
) -> (r: Result<(), DrawFault>)
    requires
        width > 0,
        height > 0,
        child_count(root.children@) <= MAX_SLIVERS,
        leaf_count(root.children@) <= MAX_SLIVERS,
    ensures
        r is Ok <==> tree_ok(*root),
        tree_ok(*root) ==> final(surface)@ == old(surface)@ + wheel_cmds(
            dimension_options(width as int, height as int),
            *root,
        ),
        !tree_ok(*root) ==> r == Err::<(), DrawFault>(DrawFault::MalformedHierarchy)
            && final(surface)@ == old(surface)@,
{
    let options = WheelOptions::from_dimensions(width, height);
    proof {
        assert(options@ == dimension_options(width as int, height as int));
    }
    make_wheel(&options, root, surface)
}

/// Law of determinism: what a pass records is a function of the options
/// and the hierarchy alone, so re-rendering identical inputs records an
/// identical command sequence.  (`make_wheel`'s contract pins its output
/// to `wheel_cmds` of its inputs.)
pub proof fn lemma_render_deterministic(
    o: WheelOptionsV,
    root: Node,
    first: Seq<CmdV>,
    second: Seq<CmdV>,
)
    requires
        first == wheel_cmds(o, root),
        second == wheel_cmds(o, root),
    ensures
        first == second,
{
}

} // verus!
