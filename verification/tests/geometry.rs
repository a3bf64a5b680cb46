use tagloop::geometry::{
    bounding_rect, overlay_commands, pose_admissible, tag_height, tag_width, twice_area, Color,
    CornerSet, Point, RectRegion, RenderCommand, TagObservation,
};

fn p(x: i32, y: i32) -> Point {
    Point { x, y }
}

fn sample_corners() -> CornerSet {
    CornerSet { c0: p(10, 10), c1: p(50, 10), c2: p(50, 60), c3: p(10, 60) }
}

#[test]
fn width_height_sample() {
    let c = sample_corners();
    assert_eq!(tag_width(&c), 40);
    assert_eq!(tag_height(&c), 50);
}

#[test]
fn width_height_reversed_differences() {
    let c = CornerSet { c0: p(10, 60), c1: p(50, 60), c2: p(10, 10), c3: p(50, 10) };
    assert_eq!(tag_width(&c), 40);
    assert_eq!(tag_height(&c), 50);
}

#[test]
fn width_height_degenerate() {
    let c = CornerSet { c0: p(7, 9), c1: p(7, 9), c2: p(7, 9), c3: p(7, 9) };
    assert_eq!(tag_width(&c), 0);
    assert_eq!(tag_height(&c), 0);
}

#[test]
fn bounding_rect_sample() {
    let c = sample_corners();
    let r = bounding_rect(&c, p(30, 35));
    assert_eq!(r, RectRegion { x: 10, y: 10, width: 40, height: 50 });
}

#[test]
fn bounding_rect_contains_center_sample() {
    let c = sample_corners();
    let center = p(30, 35);
    let r = bounding_rect(&c, center);
    assert!(r.x <= center.x as i64);
    assert!((center.x as i64) <= r.x + r.width as i64);
    assert!(r.y <= center.y as i64);
    assert!((center.y as i64) <= r.y + r.height as i64);
}

#[test]
fn bounding_rect_contains_center_odd_sizes() {
    let c = CornerSet { c0: p(-3, 2), c1: p(14, 1), c2: p(18, 22), c3: p(-1, 25) };
    let center = p(8, 12);
    let r = bounding_rect(&c, center);
    assert!(r.x <= center.x as i64);
    assert!((center.x as i64) <= r.x + r.width as i64);
    assert!(r.y <= center.y as i64);
    assert!((center.y as i64) <= r.y + r.height as i64);
}

#[test]
fn overlay_commands_one_tag() {
    let c = sample_corners();
    let obs = TagObservation { id: 3, corners: c, center: p(30, 35), hamming: 0 };
    let cmds = overlay_commands(&obs);
    assert_eq!(cmds.len(), 6);
    let rect_color = Color { b: 255, g: 0, r: 0, a: 25 };
    let edge_color = Color { b: 255, g: 255, r: 0, a: 0 };
    assert_eq!(
        cmds[0],
        RenderCommand::Rect {
            region: RectRegion { x: 10, y: 10, width: 40, height: 50 },
            color: rect_color,
            thickness: 1,
        }
    );
    // The drawn segments pair the corners 0-1, 0-3, 3-2 and 2-1, in that
    // order.
    assert_eq!(
        cmds[1],
        RenderCommand::Line { from: p(10, 10), to: p(50, 10), color: edge_color, thickness: 4 }
    );
    assert_eq!(
        cmds[2],
        RenderCommand::Line { from: p(10, 10), to: p(10, 60), color: edge_color, thickness: 4 }
    );
    assert_eq!(
        cmds[3],
        RenderCommand::Line { from: p(10, 60), to: p(50, 60), color: edge_color, thickness: 4 }
    );
    assert_eq!(
        cmds[4],
        RenderCommand::Line { from: p(50, 60), to: p(50, 10), color: edge_color, thickness: 4 }
    );
    assert_eq!(
        cmds[5],
        RenderCommand::Circle { center: p(30, 35), radius: 5, color: edge_color, thickness: 2 }
    );
}

#[test]
fn twice_area_square() {
    // A 40 x 50 axis-aligned quadrilateral encloses twice-area 2 * 2000.
    let c = sample_corners();
    assert_eq!(twice_area(&c).unsigned_abs(), 4000);
    assert!(pose_admissible(&c));
}

#[test]
fn collinear_corners_not_admissible() {
    let c = CornerSet { c0: p(0, 0), c1: p(10, 10), c2: p(20, 20), c3: p(30, 30) };
    assert_eq!(twice_area(&c), 0);
    assert!(!pose_admissible(&c));
}

#[test]
fn repeated_corner_not_admissible() {
    let c = CornerSet { c0: p(5, 5), c1: p(5, 5), c2: p(5, 5), c3: p(5, 5) };
    assert!(!pose_admissible(&c));
}
