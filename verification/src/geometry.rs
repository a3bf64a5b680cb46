//! Overlay geometry: turns a detected tag's four corner points and center
//! point into an axis-aligned bounding rectangle, four edge segments and a
//! center marker, ready to be drawn over the frame.

use vstd::prelude::*;

verus! {

/// A planar point in integer pixel units.
#[derive(Clone, Copy, Debug, PartialEq, Eq, Structural)]
pub struct Point {
    pub x: i32,
    pub y: i32,
}

/// The four corners of a detected tag, in the detector's fixed winding
/// order (index 0 through 3).
#[derive(Clone, Copy, Debug, PartialEq, Eq, Structural)]
pub struct CornerSet {
    pub c0: Point,
    pub c1: Point,
    pub c2: Point,
    pub c3: Point,
}

/// One normalized marker detection: identity, the four corners, the center
/// point, and the Hamming distance to the decoded tag code (the decode
/// confidence metric).
#[derive(Clone, Copy, Debug, PartialEq, Eq, Structural)]
pub struct TagObservation {
    pub id: usize,
    pub corners: CornerSet,
    pub center: Point,
    pub hamming: usize,
}

/// A BGRA color, one byte per channel.
#[derive(Clone, Copy, Debug, PartialEq, Eq, Structural)]
pub struct Color {
    pub b: u8,
    pub g: u8,
    pub r: u8,
    pub a: u8,
}

/// An axis-aligned rectangle: top-left corner and size in pixels.
#[derive(Clone, Copy, Debug, PartialEq, Eq, Structural)]
pub struct RectRegion {
    pub x: i64,
    pub y: i64,
    pub width: u64,
    pub height: u64,
}

/// One drawing instruction for the display surface.
#[derive(Clone, Copy, Debug, PartialEq, Eq, Structural)]
pub enum RenderCommand {
    Rect { region: RectRegion, color: Color, thickness: u32 },
    Line { from: Point, to: Point, color: Color, thickness: u32 },
    Circle { center: Point, radius: u32, color: Color, thickness: u32 },
}

/// Absolute value of a mathematical integer.
pub open spec fn abs_int(v: int) -> int {
    if v >= 0 { v } else { -v }
}

/// Width of the bounding region: |corner2.x - corner3.x|.
pub open spec fn spec_width(c: CornerSet) -> int {
    abs_int(c.c2.x - c.c3.x)
}

/// Height of the bounding region: |corner0.y - corner3.y|.
pub open spec fn spec_height(c: CornerSet) -> int {
    abs_int(c.c0.y - c.c3.y)
}

/// The bounding rectangle: centered on the tag's center point, with the
/// width and height taken from the corner differences.
pub open spec fn spec_rect(c: CornerSet, center: Point) -> RectRegion {
    RectRegion {
        x: (center.x - spec_width(c) / 2) as i64,
        y: (center.y - spec_height(c) / 2) as i64,
        width: spec_width(c) as u64,
        height: spec_height(c) as u64,
    }
}

/// Color of the bounding rectangle overlay.
pub open spec fn spec_rect_color() -> Color {
    Color { b: 255, g: 0, r: 0, a: 25 }
}

/// Color of the edge-segment and center-marker overlays.
pub open spec fn spec_edge_color() -> Color {
    Color { b: 255, g: 255, r: 0, a: 0 }
}

/// The six overlay commands for one observation, in emission order: the
/// bounding rectangle, the four edge segments, and the center marker. The
/// segments pair the corners 0-1, 0-3, 3-2 and 2-1: deliberately this
/// pairing, not the perimeter cycle, so any change here changes what the
/// overlay traces.
pub open spec fn spec_overlay(obs: TagObservation) -> Seq<RenderCommand> {
    seq![
        RenderCommand::Rect {
            region: spec_rect(obs.corners, obs.center),
            color: spec_rect_color(),
            thickness: 1,
        },
        RenderCommand::Line {
            from: obs.corners.c0,
            to: obs.corners.c1,
            color: spec_edge_color(),
            thickness: 4,
        },
        RenderCommand::Line {
            from: obs.corners.c0,
            to: obs.corners.c3,
            color: spec_edge_color(),
            thickness: 4,
        },
        RenderCommand::Line {
            from: obs.corners.c3,
            to: obs.corners.c2,
            color: spec_edge_color(),
            thickness: 4,
        },
        RenderCommand::Line {
            from: obs.corners.c2,
            to: obs.corners.c1,
            color: spec_edge_color(),
            thickness: 4,
        },
        RenderCommand::Circle {
            center: obs.center,
            radius: 5,
            color: spec_edge_color(),
            thickness: 2,
        },
    ]
}

/// Width of the tag's bounding region in pixels.
pub fn tag_width(c: &CornerSet) -> (w: u64)
    ensures
        w == spec_width(*c),
{
    let d: i64 = (c.c2.x as i64) - (c.c3.x as i64);
    if d >= 0 {
        d as u64
    } else {
        (-d) as u64
    }
}

/// Height of the tag's bounding region in pixels.
pub fn tag_height(c: &CornerSet) -> (h: u64)
    ensures
        h == spec_height(*c),
{
    let d: i64 = (c.c0.y as i64) - (c.c3.y as i64);
    if d >= 0 {
        d as u64
    } else {
        (-d) as u64
    }
}

/// The bounding rectangle for one observation.
pub fn bounding_rect(c: &CornerSet, center: Point) -> (r: RectRegion)
    ensures
        r == spec_rect(*c, center),
{
    let w: u64 = tag_width(c);
    let h: u64 = tag_height(c);
    let r = RectRegion {
        x: (center.x as i64) - ((w / 2) as i64),
        y: (center.y as i64) - ((h / 2) as i64),
        width: w,
        height: h,
    };
    r
}

/// All six overlay commands for one observation, in emission order.
pub fn overlay_commands(obs: &TagObservation) -> (cmds: Vec<RenderCommand>)
    ensures
        cmds@ == spec_overlay(*obs),
{
    let rect_color = Color { b: 255, g: 0, r: 0, a: 25 };
    let edge_color = Color { b: 255, g: 255, r: 0, a: 0 };
    let mut cmds: Vec<RenderCommand> = Vec::new();
    cmds.push(RenderCommand::Rect {
        region: bounding_rect(&obs.corners, obs.center),
        color: rect_color,
        thickness: 1,
    });
    cmds.push(RenderCommand::Line {
        from: obs.corners.c0,
        to: obs.corners.c1,
        color: edge_color,
        thickness: 4,
    });
    cmds.push(RenderCommand::Line {
        from: obs.corners.c0,
        to: obs.corners.c3,
        color: edge_color,
        thickness: 4,
    });
    cmds.push(RenderCommand::Line {
        from: obs.corners.c3,
        to: obs.corners.c2,
        color: edge_color,
        thickness: 4,
    });
    cmds.push(RenderCommand::Line {
        from: obs.corners.c2,
        to: obs.corners.c1,
        color: edge_color,
        thickness: 4,
    });
    cmds.push(RenderCommand::Circle {
        center: obs.center,
        radius: 5,
        color: edge_color,
        thickness: 2,
    });
    assert(cmds@ =~= spec_overlay(*obs));
    cmds
}

/// Twice the cross product term of two points, one summand of the
/// shoelace formula.
pub open spec fn spec_cross_term(a: Point, b: Point) -> int {
    a.x * b.y - b.x * a.y
}

/// Twice the signed area enclosed by the four corners, by the shoelace
/// formula over the corner cycle 0-1-2-3.
pub open spec fn spec_twice_area(c: CornerSet) -> int {
    spec_cross_term(c.c0, c.c1) + spec_cross_term(c.c1, c.c2) + spec_cross_term(c.c2, c.c3)
        + spec_cross_term(c.c3, c.c0)
}

/// A corner set is degenerate when it encloses no area: all four corners
/// collinear, or a self-cancelling winding.
pub open spec fn corners_degenerate(c: CornerSet) -> bool {
    spec_twice_area(c) == 0
}

proof fn lemma_mul_i32_bound(a: int, b: int)
    by (nonlinear_arith)
    requires
        -0x8000_0000 <= a <= 0x8000_0000,
        -0x8000_0000 <= b <= 0x8000_0000,
    ensures
        -0x4000_0000_0000_0000 <= a * b <= 0x4000_0000_0000_0000,
{
}

fn cross_term(a: Point, b: Point) -> (r: i128)
    ensures
        r == spec_cross_term(a, b),
{
    proof {
        lemma_mul_i32_bound(a.x as int, b.y as int);
        lemma_mul_i32_bound(b.x as int, a.y as int);
    }
    (a.x as i128) * (b.y as i128) - (b.x as i128) * (a.y as i128)
}

/// Twice the signed area enclosed by the four corners.
pub fn twice_area(c: &CornerSet) -> (a: i128)
    ensures
        a == spec_twice_area(*c),
{
    proof {
        lemma_mul_i32_bound(c.c0.x as int, c.c1.y as int);
        lemma_mul_i32_bound(c.c1.x as int, c.c0.y as int);
        lemma_mul_i32_bound(c.c1.x as int, c.c2.y as int);
        lemma_mul_i32_bound(c.c2.x as int, c.c1.y as int);
        lemma_mul_i32_bound(c.c2.x as int, c.c3.y as int);
        lemma_mul_i32_bound(c.c3.x as int, c.c2.y as int);
        lemma_mul_i32_bound(c.c3.x as int, c.c0.y as int);
        lemma_mul_i32_bound(c.c0.x as int, c.c3.y as int);
    }
    cross_term(c.c0, c.c1) + cross_term(c.c1, c.c2) + cross_term(c.c2, c.c3)
        + cross_term(c.c3, c.c0)
}

/// Whether a corner set is fit to hand to the pose solver: true exactly
/// when the corners are not degenerate.
pub fn pose_admissible(c: &CornerSet) -> (b: bool)
    ensures
        b == !corners_degenerate(*c),
{
    twice_area(c) != 0
}

/// The overlay commands for a whole sequence of observations, in
/// detection order: six commands per observation, concatenated.
pub open spec fn spec_overlay_all(obs: Seq<TagObservation>) -> Seq<RenderCommand>
    decreases obs.len(),
{
    if obs.len() == 0 {
        Seq::empty()
    } else {
        spec_overlay_all(obs.drop_last()) + spec_overlay(obs.last())
    }
}

/// The bounding rectangle always contains the observation's center point:
/// the rectangle is centered on it, so the center lies between the
/// rectangle's left and right edges and between its top and bottom edges.
/// This holds for every corner set, in particular for every valid
/// (non-degenerate) quadrilateral.
pub proof fn lemma_rect_contains_center(obs: TagObservation)
    ensures
        spec_rect(obs.corners, obs.center).x <= obs.center.x,
        obs.center.x <= spec_rect(obs.corners, obs.center).x
            + spec_rect(obs.corners, obs.center).width,
        spec_rect(obs.corners, obs.center).y <= obs.center.y,
        obs.center.y <= spec_rect(obs.corners, obs.center).y
            + spec_rect(obs.corners, obs.center).height,
{
    let w = spec_width(obs.corners);
    let h = spec_height(obs.corners);
    assert(0 <= w <= 0xffff_ffff);
    assert(0 <= h <= 0xffff_ffff);
    assert(w / 2 <= w);
    assert(h / 2 <= h);
}

} // verus!
