use vstd::prelude::*;

verus! {

/// Coordinate given to both axes of an element that must not be seen.
pub const OFFSCREEN: i32 = -10000;

/// An exact quotient `num / den`. A zero denominator marks a degenerate value,
/// as produced by a zero-sized reference boundary.
#[derive(Debug, Clone, Copy, PartialEq, Eq, Structural)]
pub struct Ratio {
    pub num: i128,
    pub den: i128,
}

impl Ratio {
    /// The two quotients denote the same number (both denominators non-zero).
    pub open spec fn same_value(self, other: Ratio) -> bool {
        self.num * other.den == other.num * self.den
    }

    /// `self <= other` as numbers (both denominators positive).
    pub open spec fn at_most(self, other: Ratio) -> bool {
        self.num * other.den <= other.num * self.den
    }
}

/// Extents of the whole layout space.
#[derive(Debug, Clone, Copy, PartialEq, Eq, Structural)]
pub struct RootExtents {
    pub width: u32,
    pub height: u32,
}

/// A node as the layout resolver hands it out: its rectangle (origin corner,
/// width, height, with Y growing downward), visibility and depth.
#[derive(Debug, Clone, Copy, PartialEq, Eq, Structural)]
pub struct NodeState {
    pub x: i32,
    pub y: i32,
    pub width: u32,
    pub height: u32,
    pub visible: bool,
    pub depth: i32,
}

/// Native pixel size of the image that backs an element.
#[derive(Debug, Clone, Copy, PartialEq, Eq, Structural)]
pub struct ImageSize {
    pub width: u32,
    pub height: u32,
}

/// How a visual element maps onto the rectangle of its node. Percentages are
/// whole percent; `relative_x` / `relative_y` give the anchor point inside the
/// node as percent of its width and height.
#[derive(Debug, Clone, Copy, PartialEq, Eq, Structural)]
pub struct ElementRule {
    pub width_percent: Option<u32>,
    pub height_percent: Option<u32>,
    pub boundary_width: u32,
    pub boundary_height: u32,
    pub scale_percent: u32,
    pub relative_x: i32,
    pub relative_y: i32,
    pub depth_bias: i32,
}

/// Scale factors of the two axes.
#[derive(Debug, Clone, Copy, PartialEq, Eq, Structural)]
pub struct Scale2 {
    pub x: Ratio,
    pub y: Ratio,
}

/// Where and how an element is drawn for one resolution pass.
#[derive(Debug, Clone, Copy, PartialEq, Eq, Structural)]
pub struct Placement {
    pub x: Ratio,
    pub y: Ratio,
    pub scale: Scale2,
    pub depth: i64,
    pub visible: bool,
}

/// The four ways an element rule can decide its scale.
#[derive(Debug, Clone, Copy, PartialEq, Eq, Structural)]
pub enum ScalePolicy {
    /// Both percentages set: each axis scales on its own.
    Fixed(u32, u32),
    /// Only the width percentage set: the width decides a uniform scale.
    WidthDriven(u32),
    /// Only the height percentage set: the height decides a uniform scale.
    HeightDriven(u32),
    /// Neither set: the largest uniform scale that fits the boundary.
    Fit,
}

/// The whole number `n` as a quotient.
pub open spec fn whole(n: int) -> Ratio {
    Ratio { num: n as i128, den: 1 }
}

/// The off-screen result given to hidden or unresolvable elements: far
/// outside the visible space, zero scale, depth zero, not visible.
pub open spec fn sentinel() -> Placement {
    Placement {
        x: whole(OFFSCREEN as int),
        y: whole(OFFSCREEN as int),
        scale: Scale2 { x: whole(0), y: whole(0) },
        depth: 0,
        visible: false,
    }
}

/// The policy a rule selects: fixed when both percentages are set, driven by
/// the one that is set, fit when neither is.
pub open spec fn policy_of(width_percent: Option<u32>, height_percent: Option<u32>) -> ScalePolicy {
    match (width_percent, height_percent) {
        (Some(w), Some(h)) => ScalePolicy::Fixed(w, h),
        (Some(w), None) => ScalePolicy::WidthDriven(w),
        (None, Some(h)) => ScalePolicy::HeightDriven(h),
        (None, None) => ScalePolicy::Fit,
    }
}

/// `(dim / boundary) * (percent / 100) * (scale_percent / 100)`.
pub open spec fn axis_ratio(dim: u32, percent: u32, boundary: u32, scale_percent: u32) -> Ratio {
    Ratio {
        num: (dim * percent * scale_percent) as i128,
        den: (boundary * 10000) as i128,
    }
}

/// `min(width / boundary_width, height / boundary_height) * (scale_percent / 100)`.
pub open spec fn fit_ratio(node: NodeState, rule: ElementRule) -> Ratio {
    if node.width * rule.boundary_height <= node.height * rule.boundary_width {
        Ratio {
            num: (node.width * rule.scale_percent) as i128,
            den: (rule.boundary_width * 100) as i128,
        }
    } else {
        Ratio {
            num: (node.height * rule.scale_percent) as i128,
            den: (rule.boundary_height * 100) as i128,
        }
    }
}

/// The scale of a node's element under a rule, by the rule's policy.
pub open spec fn rule_scale(node: NodeState, rule: ElementRule) -> Scale2 {
    let sp = rule.scale_percent;
    match policy_of(rule.width_percent, rule.height_percent) {
        ScalePolicy::Fixed(w, h) => Scale2 {
            x: axis_ratio(node.width, w, rule.boundary_width, sp),
            y: axis_ratio(node.height, h, rule.boundary_height, sp),
        },
        ScalePolicy::WidthDriven(w) => Scale2 {
            x: axis_ratio(node.width, w, rule.boundary_width, sp),
            y: axis_ratio(node.width, w, rule.boundary_width, sp),
        },
        ScalePolicy::HeightDriven(h) => Scale2 {
            x: axis_ratio(node.height, h, rule.boundary_height, sp),
            y: axis_ratio(node.height, h, rule.boundary_height, sp),
        },
        ScalePolicy::Fit => Scale2 { x: fit_ratio(node, rule), y: fit_ratio(node, rule) },
    }
}

/// Placement of a visible node's corner: `x0 - W/2` and `H - y0 + H/2`, with
/// the scale that makes the image fill the node's rectangle.
pub open spec fn shown_plain(root: RootExtents, node: NodeState, image: ImageSize) -> Placement {
    Placement {
        x: Ratio { num: (2 * node.x - root.width) as i128, den: 2 },
        y: Ratio { num: (3 * root.height - 2 * node.y) as i128, den: 2 },
        scale: Scale2 {
            x: Ratio { num: node.width as i128, den: image.width as i128 },
            y: Ratio { num: node.height as i128, den: image.height as i128 },
        },
        depth: node.depth as i64,
        visible: true,
    }
}

/// Plain mode: off-screen unless the node was found, is visible and has a
/// non-empty image.
pub open spec fn plain_placement(
    root: RootExtents,
    node: Option<NodeState>,
    image: Option<ImageSize>,
) -> Placement {
    match (node, image) {
        (Some(n), Some(img)) => if n.visible && img.width > 0 && img.height > 0 {
            shown_plain(root, n, img)
        } else {
            sentinel()
        },
        _ => sentinel(),
    }
}

/// Placement of a visible node under a rule: the point at `relative` percent
/// inside the node, with Y inverted and the anchor offset added, the node's
/// depth plus the rule's bias, and the scale of the rule's policy.
pub open spec fn shown_with_rule(root: RootExtents, node: NodeState, rule: ElementRule) -> Placement {
    Placement {
        x: Ratio {
            num: (200 * node.x + 2 * node.width * rule.relative_x - 100 * root.width) as i128,
            den: 200,
        },
        y: Ratio {
            num: (300 * root.height - 200 * node.y - 2 * node.height * rule.relative_y) as i128,
            den: 200,
        },
        scale: rule_scale(node, rule),
        depth: (node.depth + rule.depth_bias) as i64,
        visible: true,
    }
}

/// Rule mode: off-screen unless the node was found and is visible.
pub open spec fn rule_placement(
    root: RootExtents,
    node: Option<NodeState>,
    rule: ElementRule,
) -> Placement {
    match node {
        Some(n) => if n.visible {
            shown_with_rule(root, n, rule)
        } else {
            sentinel()
        },
        None => sentinel(),
    }
}

/// The off-screen result.
pub fn offscreen() -> (r: Placement)
    ensures
        r == sentinel(),
{
    let zero = Ratio { num: 0, den: 1 };
    Placement {
        x: Ratio { num: OFFSCREEN as i128, den: 1 },
        y: Ratio { num: OFFSCREEN as i128, den: 1 },
        scale: Scale2 { x: zero, y: zero },
        depth: 0,
        visible: false,
    }
}

/// The product of two `u32` values fits in `u64`.
proof fn lemma_u32_product(a: u32, b: u32)
    ensures
        0 <= a * b <= 0xffff_ffffu32 * 0xffff_ffffu32,
{
    assert(0 <= a * b <= 0xffff_ffffu32 * 0xffff_ffffu32) by (nonlinear_arith);
}

/// Picks the scale policy from which of the two percentages a rule sets.
pub fn select_policy(width_percent: Option<u32>, height_percent: Option<u32>) -> (p: ScalePolicy)
    ensures
        p == policy_of(width_percent, height_percent),
{
    match (width_percent, height_percent) {
        (Some(w), Some(h)) => ScalePolicy::Fixed(w, h),
        (Some(w), None) => ScalePolicy::WidthDriven(w),
        (None, Some(h)) => ScalePolicy::HeightDriven(h),
        (None, None) => ScalePolicy::Fit,
    }
}

/// Scale of one axis driven by a percentage of the node's extent along it.
pub fn axis_scale(dim: u32, percent: u32, boundary: u32, scale_percent: u32) -> (r: Ratio)
    ensures
        r == axis_ratio(dim, percent, boundary, scale_percent),
{
    proof {
        assert(0 <= dim * percent <= 0xffff_ffffu32 * 0xffff_ffffu32) by (nonlinear_arith);
        assert(0 <= dim * percent * scale_percent
            <= 0xffff_ffffu32 * 0xffff_ffffu32 * 0xffff_ffffu32) by (nonlinear_arith)
            requires 0 <= dim * percent <= 0xffff_ffffu32 * 0xffff_ffffu32;
    }
    Ratio {
        num: dim as i128 * percent as i128 * scale_percent as i128,
        den: boundary as i128 * 10000,
    }
}

/// The uniform scale that fits the node into the rule's reference boundary.
pub fn fit_scale(node: NodeState, rule: ElementRule) -> (r: Ratio)
    ensures
        r == fit_ratio(node, rule),
{
    proof {
        lemma_u32_product(node.width, rule.boundary_height);
        lemma_u32_product(node.height, rule.boundary_width);
        lemma_u32_product(node.width, rule.scale_percent);
        lemma_u32_product(node.height, rule.scale_percent);
    }
    let by_width = node.width as u64 * rule.boundary_height as u64;
    let by_height = node.height as u64 * rule.boundary_width as u64;
    if by_width <= by_height {
        Ratio {
            num: node.width as i128 * rule.scale_percent as i128,
            den: rule.boundary_width as i128 * 100,
        }
    } else {
        Ratio {
            num: node.height as i128 * rule.scale_percent as i128,
            den: rule.boundary_height as i128 * 100,
        }
    }
}

/// Scale of a node's element under a rule, by the rule's policy.
pub fn scale_for(node: NodeState, rule: ElementRule) -> (r: Scale2)
    ensures
        r == rule_scale(node, rule),
{
    let sp = rule.scale_percent;
    match select_policy(rule.width_percent, rule.height_percent) {
        ScalePolicy::Fixed(w, h) => Scale2 {
            x: axis_scale(node.width, w, rule.boundary_width, sp),
            y: axis_scale(node.height, h, rule.boundary_height, sp),
        },
        ScalePolicy::WidthDriven(w) => {
            let s = axis_scale(node.width, w, rule.boundary_width, sp);
            Scale2 { x: s, y: s }
        },
        ScalePolicy::HeightDriven(h) => {
            let s = axis_scale(node.height, h, rule.boundary_height, sp);
            Scale2 { x: s, y: s }
        },
        ScalePolicy::Fit => {
            let s = fit_scale(node, rule);
            Scale2 { x: s, y: s }
        },
    }
}

/// Places an element that follows its node's rectangle and takes its scale
/// from the native size of its image. `node` is the result of looking the
/// element's path up (`None`: not found), `image` the size of its image
/// (`None`: not loaded). A missing node, a hidden node or a missing or empty
/// image gives the off-screen result.
pub fn resolve_plain(root: RootExtents, node: Option<NodeState>, image: Option<ImageSize>) -> (r: Placement)
    ensures
        r == plain_placement(root, node, image),
        node is None ==> r == sentinel(),
        node is Some && !node.unwrap().visible ==> r == sentinel(),
        node is Some && node.unwrap().visible && image is Some && image.unwrap().width > 0
            && image.unwrap().height > 0 ==> r.visible,
{
    match (node, image) {
        (Some(n), Some(img)) => {
            if n.visible && img.width > 0 && img.height > 0 {
                Placement {
                    x: Ratio { num: 2 * n.x as i128 - root.width as i128, den: 2 },
                    y: Ratio { num: 3 * root.height as i128 - 2 * n.y as i128, den: 2 },
                    scale: Scale2 {
                        x: Ratio { num: n.width as i128, den: img.width as i128 },
                        y: Ratio { num: n.height as i128, den: img.height as i128 },
                    },
                    depth: n.depth as i64,
                    visible: true,
                }
            } else {
                offscreen()
            }
        },
        _ => offscreen(),
    }
}

/// Places an element under its rule. `node` is the result of looking the
/// element's path up (`None`: not found); a missing or hidden node gives the
/// off-screen result, whatever the rule holds.
pub fn resolve_with_rule(root: RootExtents, node: Option<NodeState>, rule: ElementRule) -> (r: Placement)
    ensures
        r == rule_placement(root, node, rule),
        node is None ==> r == sentinel(),
        node is Some && !node.unwrap().visible ==> r == sentinel(),
        node is Some && node.unwrap().visible ==> r.visible
            && r.depth == node.unwrap().depth + rule.depth_bias,
{
    match node {
        Some(n) => {
            if n.visible {
                proof {
                    assert(-0x8000_0000i32 * 0xffff_ffffu32 <= n.width * rule.relative_x
                        <= 0x7fff_ffffi32 * 0xffff_ffffu32) by (nonlinear_arith);
                    assert(-0x8000_0000i32 * 0xffff_ffffu32 <= n.height * rule.relative_y
                        <= 0x7fff_ffffi32 * 0xffff_ffffu32) by (nonlinear_arith);
                }
                let wx = n.width as i128 * rule.relative_x as i128;
                let hy = n.height as i128 * rule.relative_y as i128;
                proof {
                    assert(2 * n.width * rule.relative_x == 2 * (n.width * rule.relative_x))
                        by (nonlinear_arith);
                    assert(2 * n.height * rule.relative_y == 2 * (n.height * rule.relative_y))
                        by (nonlinear_arith);
                }
                let x = 200 * n.x as i128 + 2 * wx
                    - 100 * root.width as i128;
                let y = 300 * root.height as i128 - 200 * n.y as i128
                    - 2 * hy;
                Placement {
                    x: Ratio { num: x, den: 200 },
                    y: Ratio { num: y, den: 200 },
                    scale: scale_for(n, rule),
                    depth: n.depth as i64 + rule.depth_bias as i64,
                    visible: true,
                }
            } else {
                offscreen()
            }
        },
        None => offscreen(),
    }
}

/// The anchor offset `(-W/2, H/2)` that moves the hierarchy's corner origin to
/// its center.
pub fn anchor_offset(root: RootExtents) -> (r: (Ratio, Ratio))
    ensures
        r.0 == (Ratio { num: -(root.width as int) as i128, den: 2 }),
        r.1 == (Ratio { num: root.height as i128, den: 2 }),
{
    (Ratio { num: -(root.width as i128), den: 2 }, Ratio { num: root.height as i128, den: 2 })
}

/// One resolution pass over elements placed by rules: each element gets the
/// placement of its own lookup result and rule, in input order.
pub fn resolve_elements(root: RootExtents, elements: &Vec<(Option<NodeState>, ElementRule)>) -> (r: Vec<
    Placement,
>)
    ensures
        r@.len() == elements@.len(),
        forall|i: int|
            0 <= i < r@.len() ==> r@[i] == rule_placement(root, elements@[i].0, elements@[i].1),
{
    let mut out: Vec<Placement> = Vec::new();
    let mut i: usize = 0;
    while i < elements.len()
        invariant
            i <= elements@.len(),
            out@.len() == i,
            forall|j: int|
                0 <= j < i ==> out@[j] == rule_placement(root, elements@[j].0, elements@[j].1),
        decreases elements@.len() - i,
    {
        let (node, rule) = elements[i];
        out.push(resolve_with_rule(root, node, rule));
        i = i + 1;
    }
    out
}

/// One resolution pass over image elements: each element gets the placement
/// of its own lookup result and image size, in input order.
pub fn resolve_images(root: RootExtents, images: &Vec<(Option<NodeState>, Option<ImageSize>)>) -> (r: Vec<
    Placement,
>)
    ensures
        r@.len() == images@.len(),
        forall|i: int|
            0 <= i < r@.len() ==> r@[i] == plain_placement(root, images@[i].0, images@[i].1),
{
    let mut out: Vec<Placement> = Vec::new();
    let mut i: usize = 0;
    while i < images.len()
        invariant
            i <= images@.len(),
            out@.len() == i,
            forall|j: int|
                0 <= j < i ==> out@[j] == plain_placement(root, images@[j].0, images@[j].1),
        decreases images@.len() - i,
    {
        let (node, image) = images[i];
        out.push(resolve_plain(root, node, image));
        i = i + 1;
    }
    out
}

/// Resolution is a function of its inputs: two passes over the same root,
/// lookup result and rule give identical placements.
pub proof fn lemma_resolution_repeatable(
    root: RootExtents,
    node: Option<NodeState>,
    rule: ElementRule,
    image: Option<ImageSize>,
    first: Placement,
    second: Placement,
    first_plain: Placement,
    second_plain: Placement,
)
    requires
        first == rule_placement(root, node, rule),
        second == rule_placement(root, node, rule),
        first_plain == plain_placement(root, node, image),
        second_plain == plain_placement(root, node, image),
    ensures
        first == second,
        first_plain == second_plain,
{
}

/// A hidden or unresolved node gives the off-screen result in both modes,
/// whatever the root, the rule or the image.
pub proof fn lemma_hidden_is_offscreen(
    root: RootExtents,
    node: Option<NodeState>,
    rule: ElementRule,
    image: Option<ImageSize>,
)
    requires
        node is None || !node.unwrap().visible,
    ensures
        rule_placement(root, node, rule) == sentinel(),
        plain_placement(root, node, image) == sentinel(),
        !sentinel().visible,
        sentinel().x == whole(OFFSCREEN as int),
        sentinel().y == whole(OFFSCREEN as int),
{
}

/// Anchoring at the node's corner (relative offset zero) puts an element
/// where the plain mode puts it: `x0 - W/2`, `H - y0 + H/2`.
pub proof fn lemma_corner_anchor_matches_plain(
    root: RootExtents,
    node: NodeState,
    rule: ElementRule,
    image: ImageSize,
)
    requires
        rule.relative_x == 0,
        rule.relative_y == 0,
        node.visible,
        image.width > 0,
        image.height > 0,
    ensures
        rule_placement(root, Some(node), rule).x.same_value(
            plain_placement(root, Some(node), Some(image)).x),
        rule_placement(root, Some(node), rule).y.same_value(
            plain_placement(root, Some(node), Some(image)).y),
        plain_placement(root, Some(node), Some(image)).x.den == 2,
        plain_placement(root, Some(node), Some(image)).x.num == 2 * node.x - root.width,
        plain_placement(root, Some(node), Some(image)).y.den == 2,
        plain_placement(root, Some(node), Some(image)).y.num == 2 * (root.height - node.y)
            + root.height,
{
    assert(2 * node.width * rule.relative_x == 0) by (nonlinear_arith)
        requires rule.relative_x == 0;
    assert(2 * node.height * rule.relative_y == 0) by (nonlinear_arith)
        requires rule.relative_y == 0;
}

/// With a positive reference boundary, the fit scale is the smaller of the
/// two axis ratios: it equals one of them and exceeds neither, so the
/// element never overflows either bound.
pub proof fn lemma_fit_is_smaller_ratio(node: NodeState, rule: ElementRule)
    requires
        rule.boundary_width > 0,
        rule.boundary_height > 0,
    ensures
        ({
            let f = fit_ratio(node, rule);
            let wr = Ratio {
                num: (node.width * rule.scale_percent) as i128,
                den: (rule.boundary_width * 100) as i128,
            };
            let hr = Ratio {
                num: (node.height * rule.scale_percent) as i128,
                den: (rule.boundary_height * 100) as i128,
            };
            f.at_most(wr) && f.at_most(hr) && (f == wr || f == hr)
        }),
{
    let (w, h, bw, bh, sp) = (
        node.width as int,
        node.height as int,
        rule.boundary_width as int,
        rule.boundary_height as int,
        rule.scale_percent as int,
    );
    lemma_u32_product(node.width, rule.scale_percent);
    lemma_u32_product(node.height, rule.scale_percent);
    assert((w * sp) * (bh * 100) == (w * bh) * sp * 100) by (nonlinear_arith);
    assert((h * sp) * (bw * 100) == (h * bw) * sp * 100) by (nonlinear_arith);
    if w * bh <= h * bw {
        assert((w * bh) * sp * 100 <= (h * bw) * sp * 100) by (nonlinear_arith)
            requires w * bh <= h * bw, sp >= 0;
    } else {
        assert((h * bw) * sp * 100 <= (w * bh) * sp * 100) by (nonlinear_arith)
            requires w * bh > h * bw, sp >= 0;
    }
}

} // verus!
