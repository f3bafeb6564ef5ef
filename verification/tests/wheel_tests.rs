use emotion_wheel::frac::Frac;
use emotion_wheel::hierarchy::{depth_counts, validate, Node};
use emotion_wheel::shape::{Arc, Circle, Draw, DrawFault, DrawOptions, DrawTextOptions, Point};
use emotion_wheel::surface::{Cmd, Surface};
use emotion_wheel::wheel::{make_wheel, palette_color, render_wheel, WheelOptions};

fn frac(num: i64, den: i64) -> Frac {
    Frac { num, den }
}

fn origin() -> Point {
    Point { x: frac(0, 1), y: frac(0, 1) }
}

/// Exact value equality of two rationals.
fn same_value(a: Frac, b: Frac) -> bool {
    (a.num as i128) * (b.den as i128) == (b.num as i128) * (a.den as i128)
}

fn leaf(name: &str) -> Node {
    Node { name: name.to_string(), children: vec![] }
}

fn node(name: &str, children: Vec<Node>) -> Node {
    Node { name: name.to_string(), children }
}

fn render(width: u32, height: u32, root: &Node) -> Vec<Cmd> {
    let options = WheelOptions::from_dimensions(width, height);
    assert!(depth_counts(root).is_some());
    let mut surface = Surface::new();
    make_wheel(&options, root, &mut surface).expect("well-formed hierarchy");
    surface.into_commands()
}

fn arcs_of(cmds: &[Cmd]) -> Vec<(Frac, Frac, Frac)> {
    cmds.iter()
        .filter_map(|c| match c {
            Cmd::PathArc { radius, start, end, .. } => Some((*radius, *start, *end)),
            _ => None,
        })
        .collect()
}

#[test]
fn sliver_width_and_tiling() {
    // Four equal divisions: each is a quarter turn wide, the first starts
    // at twelve o'clock (-1/4 turn), the last ends at 3/4 turn, and each
    // sliver ends exactly where the next begins.
    let total = 4;
    let slivers: Vec<Arc> = (0..total)
        .map(|n| Arc::make_sliver(n, total, frac(10, 1), origin()))
        .collect();
    for (n, s) in slivers.iter().enumerate() {
        assert_eq!(s.start.den, 16);
        assert_eq!(s.end.den, 16);
        assert_eq!(s.end.num - s.start.num, 4);
        assert!(same_value(s.start, frac(4 * n as i64 - 4, 16)));
        // width is exactly 1/total of a turn
        assert!(same_value(frac(s.end.num - s.start.num, 16), frac(1, 4)));
    }
    assert!(same_value(slivers[0].start, frac(-1, 4)));
    assert!(same_value(slivers[3].end, frac(3, 4)));
    for n in 0..3 {
        assert_eq!(slivers[n].end, slivers[n + 1].start);
    }
}

#[test]
fn scale_composition_is_multiplicative() {
    let c = Circle { radius: frac(240, 1), center: origin() };
    let twice = c.scale(frac(3, 2)).scale(frac(5, 4));
    let once = c.scale(frac(3, 2).mul(frac(5, 4)));
    assert_eq!(twice.radius, once.radius);
    assert!(same_value(twice.radius, frac(450, 1)));
}

#[test]
fn join_is_commutative() {
    let circle = Circle { radius: frac(100, 1), center: origin() };
    let a = Arc::from_circle(1, 6, &circle);
    let b = Arc::from_circle(4, 6, &circle);
    let ab = Arc::join(a, b).unwrap();
    let ba = Arc::join(b, a).unwrap();
    assert!(same_value(ab.start, ba.start));
    assert!(same_value(ab.end, ba.end));
    assert_eq!(ab.start, a.start);
    assert_eq!(ab.end, b.end);
}

#[test]
fn join_radius_mismatch_faults() {
    let a = Arc::make_sliver(0, 4, frac(100, 1), origin());
    let b = Arc::make_sliver(1, 4, frac(99, 1), origin());
    assert!(matches!(Arc::join(a, b), Err(DrawFault::RadiusMismatch)));
}

#[test]
fn join_center_mismatch_faults() {
    let shifted = Point { x: frac(1, 1), y: frac(0, 1) };
    let a = Arc::make_sliver(0, 4, frac(100, 1), origin());
    let b = Arc::make_sliver(1, 4, frac(100, 1), shifted);
    assert!(matches!(Arc::join(a, b), Err(DrawFault::CenterMismatch)));
}

#[test]
fn join_accepts_equal_values_in_different_form() {
    // 100/1 and 200/2 are the same radius, so the join succeeds.
    let a = Arc::make_sliver(0, 4, frac(100, 1), origin());
    let b = Arc::make_sliver(1, 4, frac(200, 2), origin());
    assert!(Arc::join(a, b).is_ok());
}

fn text_commands(arc: &Arc) -> Vec<Cmd> {
    let mut surface = Surface::new();
    let options = DrawTextOptions { fill_style: None, font: None, radius: frac(85, 1) };
    arc.draw_text("label", &options, &mut surface);
    surface.into_commands()
}

fn has_mirror(cmds: &[Cmd]) -> bool {
    cmds.iter().any(|c| matches!(c, Cmd::MirrorFlip))
}

#[test]
fn mirror_applied_strictly_inside_left_half() {
    // Bisecting angle 1/2 turn (nine o'clock): mirrored.
    let left = Arc { start: frac(1, 4), end: frac(3, 4), radius: frac(100, 1), center: origin() };
    assert!(has_mirror(&text_commands(&left)));
    // Bisecting angle 0 (three o'clock): not mirrored.
    let right = Arc { start: frac(-1, 4), end: frac(1, 4), radius: frac(100, 1), center: origin() };
    assert!(!has_mirror(&text_commands(&right)));
}

#[test]
fn mirror_boundaries_are_exclusive() {
    // Bisecting angle exactly 1/4 turn (six o'clock): not mirrored.
    let bottom = Arc { start: frac(0, 1), end: frac(1, 2), radius: frac(100, 1), center: origin() };
    assert!(!has_mirror(&text_commands(&bottom)));
    // Bisecting angle exactly 3/4 turn (twelve o'clock): not mirrored.
    let top = Arc { start: frac(1, 2), end: frac(1, 1), radius: frac(100, 1), center: origin() };
    assert!(!has_mirror(&text_commands(&top)));
}

#[test]
fn wedge_records_the_exact_operation_sequence() {
    let arc = Arc::make_sliver(0, 4, frac(100, 1), origin());
    let options = DrawOptions {
        fill_style: Some("gold".to_string()),
        line_width: Some(frac(5, 2)),
        stroke_style: Some("white".to_string()),
    };
    let mut surface = Surface::new();
    arc.draw(&options, &mut surface);
    let cmds = surface.into_commands();
    let expected = vec![
        Cmd::Save,
        Cmd::BeginPath,
        Cmd::MoveTo { x: frac(0, 1), y: frac(0, 1) },
        Cmd::PathArc {
            x: frac(0, 1),
            y: frac(0, 1),
            radius: frac(100, 1),
            start: frac(-4, 16),
            end: frac(0, 16),
        },
        Cmd::SetFillStyle { color: "gold".to_string() },
        Cmd::SetLineWidth { width: frac(5, 2) },
        Cmd::SetStrokeStyle { color: "white".to_string() },
        Cmd::Stroke,
        Cmd::ClosePath,
        Cmd::Fill,
        Cmd::MoveTo { x: frac(0, 1), y: frac(0, 1) },
        Cmd::Stroke,
        Cmd::Restore,
    ];
    assert_eq!(cmds, expected);
}

#[test]
fn absent_style_options_record_nothing() {
    let arc = Arc::make_sliver(0, 4, frac(100, 1), origin());
    let options = DrawOptions { fill_style: None, line_width: None, stroke_style: None };
    let mut surface = Surface::new();
    arc.draw(&options, &mut surface);
    let cmds = surface.into_commands();
    assert_eq!(cmds.len(), 10);
    assert!(!cmds.iter().any(|c| matches!(
        c,
        Cmd::SetFillStyle { .. } | Cmd::SetLineWidth { .. } | Cmd::SetStrokeStyle { .. }
    )));
}

#[test]
fn default_draw_options_keep_fill_unset() {
    let d = DrawOptions::default();
    assert!(d.fill_style.is_none());
    assert_eq!(d.line_width, Some(frac(1, 1)));
    assert_eq!(d.stroke_style, Some("white".to_string()));
}

#[test]
fn text_anchor_uses_the_bisecting_angle() {
    let arc = Arc { start: frac(0, 1), end: frac(1, 4), radius: frac(100, 1), center: origin() };
    let cmds = text_commands(&arc);
    // (0 + 1/4) / 2 = 1/8 of a turn.
    match &cmds[2] {
        Cmd::TranslatePolar { radius, angle, .. } => {
            assert_eq!(*radius, frac(85, 1));
            assert!(same_value(*angle, frac(1, 8)));
        }
        other => panic!("expected a polar translate, got {:?}", other),
    }
    match &cmds[3] {
        Cmd::Rotate { angle } => assert!(same_value(*angle, frac(1, 8))),
        other => panic!("expected a rotate, got {:?}", other),
    }
}

fn two_by_one_by_two() -> Node {
    node(
        "feelings",
        vec![
            node("warm", vec![node("calm", vec![leaf("content"), leaf("serene")])]),
            node("cool", vec![node("sad", vec![leaf("lonely"), leaf("gloomy")])]),
        ],
    )
}

#[test]
fn scenario_two_categories_four_leaves() {
    // 2 categories x 1 subcategory x 2 leaves: the outer ring has four
    // 90-degree wedges starting at twelve o'clock, the middle ring two
    // 180-degree wedges, and each inner wedge spans its category's two
    // leaves (also 180 degrees here).
    let root = two_by_one_by_two();
    let cmds = render(800, 800, &root);
    let arcs = arcs_of(&cmds);
    // leaf, leaf, middle, inner per category, then the center cap.
    assert_eq!(arcs.len(), 9);
    let base = frac(4 * 800, 10);

    // Outer ring: four quarter-turn wedges tiling from -1/4 turn.
    let outer = [arcs[0], arcs[1], arcs[4], arcs[5]];
    for (n, (radius, start, end)) in outer.iter().enumerate() {
        assert_eq!(*radius, base);
        assert_eq!(*start, frac(4 * n as i64 - 4, 16));
        assert_eq!(*end, frac(4 * n as i64, 16));
    }

    // Middle ring: two half-turn wedges at 7/10 of the base radius.
    let middle = [arcs[2], arcs[6]];
    for (n, (radius, start, end)) in middle.iter().enumerate() {
        assert!(same_value(*radius, frac(320 * 7, 10)));
        assert_eq!(*start, frac(4 * n as i64 - 2, 8));
        assert_eq!(*end, frac(4 * n as i64 + 2, 8));
    }

    // Inner ring: each category spans its two leaves - a half turn here.
    let inner = [arcs[3], arcs[7]];
    for (n, (radius, start, end)) in inner.iter().enumerate() {
        assert!(same_value(*radius, frac(320 * 38, 100)));
        assert_eq!(*start, frac(8 * n as i64 - 4, 16));
        assert_eq!(*end, frac(8 * n as i64 + 4, 16));
    }

    // Center cap: a full turn at 15/100 of the base radius, white.
    let (radius, start, end) = arcs[8];
    assert!(same_value(radius, frac(48, 1)));
    assert_eq!(start, frac(0, 1));
    assert_eq!(end, frac(1, 1));
}

#[test]
fn scenario_sizing_derives_the_base_circle() {
    // width 800, height 600: center (400, 300), radius 0.4 * 600 = 240.
    let options = WheelOptions::from_dimensions(800, 600);
    let circle = options.as_circle();
    assert!(same_value(circle.center.x, frac(400, 1)));
    assert!(same_value(circle.center.y, frac(300, 1)));
    assert!(same_value(circle.radius, frac(240, 1)));
    let root = two_by_one_by_two();
    let cmds = render(800, 600, &root);
    assert_eq!(cmds[0], Cmd::SetSize { width: 800, height: 600 });
}

#[test]
fn scenario_single_leaf_spans_the_full_circle() {
    // One category, one subcategory, one leaf: the single outer wedge runs
    // from -1/4 turn to 3/4 turn - the whole circle.
    let root = node("all", vec![node("only", vec![node("one", vec![leaf("leaf")])])]);
    let cmds = render(640, 640, &root);
    let arcs = arcs_of(&cmds);
    assert_eq!(arcs.len(), 4);
    let (_, start, end) = arcs[0];
    assert_eq!(start, frac(-1, 4));
    assert_eq!(end, frac(3, 4));
    // The inner joined wedge covers the same single leaf's span.
    let (_, start, end) = arcs[2];
    assert_eq!(start, frac(-1, 4));
    assert_eq!(end, frac(3, 4));
}

#[test]
fn categories_occupy_proportional_angles() {
    // Equal-angle division uses the global leaf count: with one category
    // of one leaf and one of three, every outer wedge is a quarter turn
    // wide, and the inner wedges span one and three quarters respectively.
    let root = node(
        "feelings",
        vec![
            node("small", vec![node("sub", vec![leaf("only")])]),
            node("large", vec![node("sub", vec![leaf("a"), leaf("b"), leaf("c")])]),
        ],
    );
    let cmds = render(1000, 1000, &root);
    let arcs = arcs_of(&cmds);
    assert_eq!(arcs.len(), 9);
    // Every outer wedge is 4/16 of a turn wide, regardless of category.
    for (_, start, end) in [arcs[0], arcs[3], arcs[4], arcs[5]] {
        assert_eq!(end.num - start.num, 4);
        assert_eq!(start.den, 16);
    }
    // The small category's inner wedge spans one leaf...
    let (_, start, end) = arcs[2];
    assert_eq!((start, end), (frac(-4, 16), frac(0, 16)));
    // ...the large one's spans three.
    let (_, start, end) = arcs[7];
    assert_eq!((start, end), (frac(0, 16), frac(12, 16)));
    // Both middle wedges still divide the circle in half: the middle ring
    // uses the global depth-2 count.
    let (_, start, end) = arcs[1];
    assert_eq!((start, end), (frac(-2, 8), frac(2, 8)));
    let (_, start, end) = arcs[6];
    assert_eq!((start, end), (frac(2, 8), frac(6, 8)));
}

#[test]
fn render_entry_derives_the_same_pass() {
    // The render entry point derives the base circle from the dimensions
    // and records exactly what an explicit pass with those options does.
    let root = two_by_one_by_two();
    let mut direct = Surface::new();
    render_wheel(800, 600, &root, &mut direct).unwrap();
    assert_eq!(direct.cmds, render(800, 600, &root));
}

#[test]
fn rendering_is_deterministic() {
    let root = two_by_one_by_two();
    let first = render(800, 600, &root);
    let second = render(800, 600, &root);
    assert_eq!(first, second);
}

#[test]
fn malformed_hierarchy_faults_and_draws_nothing() {
    // A depth-2 node with no leaves: not a three-level tree.
    let root = node("feelings", vec![node("warm", vec![node("calm", vec![])])]);
    assert!(!validate(&root));
    let options = WheelOptions::from_dimensions(800, 600);
    let mut surface = Surface::new();
    let result = make_wheel(&options, &root, &mut surface);
    assert!(matches!(result, Err(DrawFault::MalformedHierarchy)));
    assert_eq!(surface.len(), 0);
}

#[test]
fn too_deep_hierarchy_faults() {
    // A depth-3 node with a child: more than three levels.
    let root = node(
        "feelings",
        vec![node("warm", vec![node("calm", vec![node("content", vec![leaf("deep")])])])],
    );
    assert!(!validate(&root));
    let options = WheelOptions::from_dimensions(800, 600);
    let mut surface = Surface::new();
    assert!(matches!(
        make_wheel(&options, &root, &mut surface),
        Err(DrawFault::MalformedHierarchy)
    ));
}

#[test]
fn empty_root_renders_only_the_cap() {
    let root = node("empty", vec![]);
    let cmds = render(400, 400, &root);
    // resize, stray fill, white fill style, cap arc, fill.
    assert_eq!(cmds.len(), 5);
    assert_eq!(cmds[0], Cmd::SetSize { width: 400, height: 400 });
    assert!(matches!(cmds[2], Cmd::SetFillStyle { .. }));
    assert!(matches!(cmds[3], Cmd::PathArc { .. }));
}

#[test]
fn labels_use_category_names_and_ring_radii() {
    let root = two_by_one_by_two();
    let cmds = render(800, 800, &root);
    let texts: Vec<(String, Frac)> = {
        let mut anchor = frac(0, 1);
        let mut out = Vec::new();
        for c in &cmds {
            match c {
                Cmd::TranslatePolar { radius, .. } => anchor = *radius,
                Cmd::FillText { text } => out.push((text.clone(), anchor)),
                _ => {}
            }
        }
        out
    };
    let names: Vec<&str> = texts.iter().map(|(t, _)| t.as_str()).collect();
    assert_eq!(
        names,
        vec!["content", "serene", "calm", "warm", "lonely", "gloomy", "sad", "cool"]
    );
    // Leaf labels anchor at 85/100 of the base radius of 320.
    assert!(same_value(texts[0].1, frac(320 * 85, 100)));
    // Subcategory labels at 78/100 of the middle radius.
    assert!(same_value(texts[2].1, frac(320 * 7 * 78, 1000)));
    // Category labels at 71/100 of the inner radius.
    assert!(same_value(texts[3].1, frac(320 * 38 * 71, 10000)));
    // Every label uses a sans-serif font of 1/38 of the base radius.
    for c in &cmds {
        if let Cmd::SetFont { size_px, family } = c {
            assert!(same_value(*size_px, frac(320, 38)));
            assert_eq!(family, "sans-serif");
        }
    }
    assert!(cmds.iter().any(|c| matches!(c, Cmd::SetFont { .. })));
}

#[test]
fn palette_cycles_over_categories() {
    assert_eq!(palette_color(0), palette_color(8));
    assert_ne!(palette_color(0), palette_color(1));
    let root = two_by_one_by_two();
    let cmds = render(800, 800, &root);
    let first_fill = cmds.iter().find_map(|c| match c {
        Cmd::SetFillStyle { color } => Some(color.clone()),
        _ => None,
    });
    assert_eq!(first_fill.as_deref(), Some(palette_color(0).as_str()));
}
