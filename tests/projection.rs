use bevypunk::projection::{
    resolve_plain, resolve_with_rule, select_policy, axis_scale, fit_scale, ElementRule,
    ImageSize, NodeState, Placement, Ratio, RootExtents, ScalePolicy, OFFSCREEN,
};

fn root(width: u32, height: u32) -> RootExtents {
    RootExtents { width, height }
}

fn node(x: i32, y: i32, width: u32, height: u32) -> NodeState {
    NodeState { x, y, width, height, visible: true, depth: 0 }
}

fn rule(width_percent: Option<u32>, height_percent: Option<u32>, bw: u32, bh: u32, sp: u32) -> ElementRule {
    ElementRule {
        width_percent,
        height_percent,
        boundary_width: bw,
        boundary_height: bh,
        scale_percent: sp,
        relative_x: 0,
        relative_y: 0,
        depth_bias: 0,
    }
}

fn value(r: Ratio) -> f64 {
    r.num as f64 / r.den as f64
}

fn is_offscreen(p: &Placement) {
    assert!(!p.visible);
    assert_eq!(value(p.x), OFFSCREEN as f64);
    assert_eq!(value(p.y), OFFSCREEN as f64);
}

#[test]
fn hidden_node_is_offscreen_in_both_modes() {
    let mut n = node(10, 20, 300, 100);
    n.visible = false;
    let mut r = rule(Some(50), None, 100, 100, 100);
    r.depth_bias = 7;
    is_offscreen(&resolve_with_rule(root(800, 600), Some(n), r));
    is_offscreen(&resolve_with_rule(root(1, 1), Some(n), rule(None, None, 0, 0, 0)));
    is_offscreen(&resolve_plain(root(800, 600), Some(n), Some(ImageSize { width: 64, height: 64 })));
}

#[test]
fn unresolved_path_is_offscreen() {
    for (w, h) in [(800, 600), (0, 0), (1920, 1080)] {
        is_offscreen(&resolve_with_rule(root(w, h), None, rule(Some(10), Some(20), 5, 5, 100)));
        is_offscreen(&resolve_plain(root(w, h), None, Some(ImageSize { width: 3, height: 4 })));
    }
}

#[test]
fn missing_or_empty_image_is_offscreen() {
    let n = node(100, 50, 40, 30);
    is_offscreen(&resolve_plain(root(800, 600), Some(n), None));
    is_offscreen(&resolve_plain(root(800, 600), Some(n), Some(ImageSize { width: 0, height: 10 })));
}

#[test]
fn corner_projection_inverts_y_and_adds_anchor() {
    let p = resolve_plain(root(800, 600), Some(node(100, 50, 200, 100)), Some(ImageSize { width: 100, height: 50 }));
    assert!(p.visible);
    assert_eq!(value(p.x), -300.0);
    assert_eq!(value(p.y), 850.0);
    assert_eq!(value(p.scale.x), 2.0);
    assert_eq!(value(p.scale.y), 2.0);
    let q = resolve_with_rule(root(800, 600), Some(node(100, 50, 200, 100)), rule(None, None, 1, 1, 100));
    assert_eq!(value(q.x), -300.0);
    assert_eq!(value(q.y), 850.0);
}

#[test]
fn relative_anchor_moves_inside_node() {
    let mut r = rule(None, None, 1, 1, 100);
    r.relative_x = 50;
    r.relative_y = 50;
    let p = resolve_with_rule(root(800, 600), Some(node(100, 50, 200, 100)), r);
    assert_eq!(value(p.x), -200.0);
    assert_eq!(value(p.y), 800.0);
}

#[test]
fn both_percents_scale_each_axis() {
    let p = resolve_with_rule(root(800, 600), Some(node(0, 0, 400, 200)), rule(Some(50), Some(50), 200, 100, 100));
    assert_eq!(value(p.scale.x), 1.0);
    assert_eq!(value(p.scale.y), 1.0);
    let q = resolve_with_rule(root(800, 600), Some(node(0, 0, 400, 200)), rule(Some(50), Some(25), 200, 100, 200));
    assert_eq!(value(q.scale.x), 2.0);
    assert_eq!(value(q.scale.y), 1.0);
}

#[test]
fn width_or_height_drives_uniform_scale() {
    let p = resolve_with_rule(root(800, 600), Some(node(0, 0, 400, 200)), rule(Some(50), None, 100, 100, 100));
    assert_eq!(value(p.scale.x), 2.0);
    assert_eq!(value(p.scale.y), 2.0);
    let q = resolve_with_rule(root(800, 600), Some(node(0, 0, 400, 200)), rule(None, Some(50), 100, 100, 100));
    assert_eq!(value(q.scale.x), 1.0);
    assert_eq!(value(q.scale.y), 1.0);
}

#[test]
fn fit_takes_smaller_ratio() {
    let p = resolve_with_rule(root(800, 600), Some(node(0, 0, 300, 100)), rule(None, None, 100, 100, 100));
    assert_eq!(value(p.scale.x), 1.0);
    assert_eq!(value(p.scale.y), 1.0);
    let q = resolve_with_rule(root(800, 600), Some(node(0, 0, 100, 300)), rule(None, None, 100, 100, 50));
    assert_eq!(value(q.scale.x), 0.5);
    assert_eq!(value(q.scale.y), 0.5);
}

#[test]
fn depth_adds_rule_bias() {
    let mut n = node(0, 0, 10, 10);
    n.depth = 5;
    let mut r = rule(None, None, 10, 10, 100);
    r.depth_bias = 1;
    assert_eq!(resolve_with_rule(root(800, 600), Some(n), r).depth, 6);
    assert_eq!(resolve_plain(root(800, 600), Some(n), Some(ImageSize { width: 1, height: 1 })).depth, 5);
}

#[test]
fn resolving_twice_gives_identical_result() {
    let mut r = rule(Some(33), None, 7, 9, 120);
    r.relative_x = 25;
    r.depth_bias = -3;
    let n = node(-40, 17, 123, 45);
    let first = resolve_with_rule(root(1920, 1080), Some(n), r);
    let second = resolve_with_rule(root(1920, 1080), Some(n), r);
    assert_eq!(first, second);
    let img = Some(ImageSize { width: 9, height: 11 });
    assert_eq!(resolve_plain(root(1920, 1080), Some(n), img), resolve_plain(root(1920, 1080), Some(n), img));
}

#[test]
fn policy_follows_present_percents() {
    assert_eq!(select_policy(Some(1), Some(2)), ScalePolicy::Fixed(1, 2));
    assert_eq!(select_policy(Some(1), None), ScalePolicy::WidthDriven(1));
    assert_eq!(select_policy(None, Some(2)), ScalePolicy::HeightDriven(2));
    assert_eq!(select_policy(None, None), ScalePolicy::Fit);
}

#[test]
fn scale_helpers_give_exact_ratios() {
    assert_eq!(axis_scale(400, 50, 200, 100), Ratio { num: 2_000_000, den: 2_000_000 });
    assert_eq!(axis_scale(u32::MAX, u32::MAX, 1, u32::MAX).num, (u32::MAX as i128).pow(3));
    assert_eq!(fit_scale(node(0, 0, 300, 100), rule(None, None, 100, 100, 100)), Ratio { num: 10_000, den: 10_000 });
}

#[test]
fn zero_boundary_is_degenerate_not_a_crash() {
    let p = resolve_with_rule(root(0, 0), Some(node(0, 0, 10, 10)), rule(Some(50), Some(50), 0, 0, 100));
    assert!(p.visible);
    assert_eq!(p.scale.x.den, 0);
}

#[test]
fn anchor_offset_is_half_extents() {
    let (x, y) = bevypunk::projection::anchor_offset(root(801, 600));
    assert_eq!(value(x), -400.5);
    assert_eq!(value(y), 300.0);
}

#[test]
fn pass_resolves_each_element_on_its_own() {
    let mut hidden = node(0, 0, 10, 10);
    hidden.visible = false;
    let r = rule(Some(50), Some(50), 200, 100, 100);
    let elements = vec![(Some(node(100, 50, 400, 200)), r), (None, r), (Some(hidden), r)];
    let out = bevypunk::projection::resolve_elements(root(800, 600), &elements);
    assert_eq!(out.len(), 3);
    assert_eq!(out[0], resolve_with_rule(root(800, 600), elements[0].0, r));
    assert_eq!(value(out[0].scale.x), 1.0);
    is_offscreen(&out[1]);
    is_offscreen(&out[2]);
    assert!(bevypunk::projection::resolve_elements(root(800, 600), &Vec::new()).is_empty());
}

#[test]
fn image_pass_scales_to_native_size() {
    let images = vec![
        (Some(node(100, 50, 200, 100)), Some(ImageSize { width: 400, height: 50 })),
        (Some(node(100, 50, 200, 100)), None),
    ];
    let out = bevypunk::projection::resolve_images(root(800, 600), &images);
    assert_eq!(out.len(), 2);
    assert_eq!(value(out[0].scale.x), 0.5);
    assert_eq!(value(out[0].scale.y), 2.0);
    assert_eq!(value(out[0].x), -300.0);
    is_offscreen(&out[1]);
}
