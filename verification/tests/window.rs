use phanerite::window::{
    client_tiling, content_radii, corner_radii, edge_sizes, hit_edge, resize_cursor, resize_regions,
    Corners, Decorations, Edges, ResizeCursor, ResizeEdge, Tiling, SHADOW_INSET,
};

// The radius the frame is drawn with; any positive radius gives the same shape.
const RADIUS: i32 = 10;

#[test]
fn tiled_edges_remove_only_their_adjacent_corners() {
    let radius = RADIUS;
    assert_eq!(corner_radii(Tiling::default(), radius), Corners::all(radius));
    assert_eq!(corner_radii(Tiling::tiled(), radius), Corners::default());
    for tiling in [
        Tiling { left: true, ..Tiling::default() },
        Tiling { top: true, ..Tiling::default() },
    ] {
        let corners = corner_radii(tiling, radius);
        assert_eq!(corners.top_left, 0);
        assert_eq!(corners.bottom_right, radius);
        assert_eq!(corners.top_right, if tiling.top { 0 } else { radius });
        assert_eq!(corners.bottom_left, if tiling.left { 0 } else { radius });
    }
}

#[test]
fn resize_hits_follow_the_visible_frame_and_leave_the_shadow_alone() {
    let regions = resize_regions(1200, 760, Tiling::default());
    let hit = |x: i32, y: i32| hit_edge(&regions, x, y);
    assert_eq!(hit(20, 20), Some(ResizeEdge::TopLeft));
    assert_eq!(hit(1180, 20), Some(ResizeEdge::TopRight));
    assert_eq!(hit(20, 740), Some(ResizeEdge::BottomLeft));
    assert_eq!(hit(1180, 740), Some(ResizeEdge::BottomRight));
    assert_eq!(hit(600, 20), Some(ResizeEdge::Top));
    assert_eq!(hit(1180, 380), Some(ResizeEdge::Right));
    assert_eq!(hit(5, 380), None);
    assert_eq!(hit(600, 50), None);
}

#[test]
fn maximized_frames_have_no_insets_or_resize_regions() {
    let tiling = Tiling::tiled();
    assert_eq!(edge_sizes(tiling, SHADOW_INSET), Edges::all(0));
    assert!(resize_regions(1200, 760, tiling).is_empty());
    let regions = resize_regions(900, 760, Tiling { left: true, ..Tiling::default() });
    assert!(regions.iter().all(|region| !matches!(
        region.edge,
        ResizeEdge::Left | ResizeEdge::TopLeft | ResizeEdge::BottomLeft
    )));
}

#[test]
fn untiled_frames_offer_every_edge_sides_first() {
    let regions = resize_regions(1200, 760, Tiling::default());
    let edges: Vec<ResizeEdge> = regions.iter().map(|r| r.edge).collect();
    assert_eq!(
        edges,
        vec![
            ResizeEdge::Top,
            ResizeEdge::Bottom,
            ResizeEdge::Left,
            ResizeEdge::Right,
            ResizeEdge::TopLeft,
            ResizeEdge::TopRight,
            ResizeEdge::BottomLeft,
            ResizeEdge::BottomRight,
        ]
    );
    let top = regions[0];
    assert_eq!((top.x, top.y, top.width, top.height), (16, 16, 1168, 8));
    let right = regions[3];
    assert_eq!((right.x, right.y, right.width, right.height), (1176, 16, 8, 728));
}

#[test]
fn region_edges_are_half_open() {
    let regions = resize_regions(1200, 760, Tiling::default());
    assert_eq!(hit_edge(&regions, 16, 16), Some(ResizeEdge::TopLeft));
    assert_eq!(hit_edge(&regions, 15, 16), None);
    assert_eq!(hit_edge(&regions, 24, 24), None);
    assert_eq!(hit_edge(&regions, 1183, 743), Some(ResizeEdge::BottomRight));
    assert_eq!(hit_edge(&regions, 1184, 743), None);
}

#[test]
fn frames_follow_the_decorations() {
    let snapped = Tiling { right: true, ..Tiling::default() };
    assert_eq!(client_tiling(Decorations::Server, true, true), None);
    assert_eq!(client_tiling(Decorations::Client(snapped), false, false), Some(snapped));
    assert_eq!(client_tiling(Decorations::Client(snapped), false, true), Some(Tiling::tiled()));
    assert_eq!(client_tiling(Decorations::Client(snapped), true, false), Some(Tiling::tiled()));
    assert!(Tiling::tiled().is_tiled());
    assert!(snapped.is_tiled());
    assert!(!Tiling::default().is_tiled());
    assert_eq!(edge_sizes(snapped, 20), Edges { top: 20, right: 0, bottom: 20, left: 20 });
}

#[test]
fn content_corners_sit_inside_the_border() {
    assert_eq!(content_radii(None, RADIUS), Corners::default());
    assert_eq!(content_radii(Some(Tiling::default()), RADIUS), Corners::all(RADIUS - 1));
    let bottom = Tiling { bottom: true, ..Tiling::default() };
    assert_eq!(
        content_radii(Some(bottom), RADIUS),
        Corners { top_left: RADIUS - 1, top_right: RADIUS - 1, bottom_left: 0, bottom_right: 0 }
    );
}

#[test]
fn resize_cursors_follow_the_edge_direction() {
    assert_eq!(resize_cursor(ResizeEdge::Top), ResizeCursor::UpDown);
    assert_eq!(resize_cursor(ResizeEdge::Bottom), ResizeCursor::UpDown);
    assert_eq!(resize_cursor(ResizeEdge::Left), ResizeCursor::LeftRight);
    assert_eq!(resize_cursor(ResizeEdge::Right), ResizeCursor::LeftRight);
    assert_eq!(resize_cursor(ResizeEdge::TopLeft), ResizeCursor::UpLeftDownRight);
    assert_eq!(resize_cursor(ResizeEdge::BottomRight), ResizeCursor::UpLeftDownRight);
    assert_eq!(resize_cursor(ResizeEdge::TopRight), ResizeCursor::UpRightDownLeft);
    assert_eq!(resize_cursor(ResizeEdge::BottomLeft), ResizeCursor::UpRightDownLeft);
}
