use gridtile::geometry::{compute_rect, tile, Config, DisplayBounds, GapConfig, GridPosition, TargetRect};

const ALL: [GridPosition; 9] = [
    GridPosition::TopLeft,
    GridPosition::Top,
    GridPosition::TopRight,
    GridPosition::Left,
    GridPosition::Middle,
    GridPosition::Right,
    GridPosition::BottomLeft,
    GridPosition::Bottom,
    GridPosition::BottomRight,
];

fn full_hd() -> DisplayBounds {
    DisplayBounds { left: 0, top: 0, right: 1920, bottom: 1080 }
}

fn rect(x: i64, y: i64, width: i64, height: i64) -> TargetRect {
    TargetRect { x, y, width, height }
}

#[test]
fn middle_without_gaps_fills_work_area() {
    let gaps = GapConfig { inter_window_gap: 0, edge_gap: 0 };
    assert_eq!(compute_rect(GridPosition::Middle, gaps, full_hd()), rect(0, 0, 1920, 1080));
}

#[test]
fn left_without_gaps_is_left_half() {
    let gaps = GapConfig { inter_window_gap: 0, edge_gap: 0 };
    assert_eq!(compute_rect(GridPosition::Left, gaps, full_hd()), rect(0, 0, 960, 1080));
}

#[test]
fn top_right_with_gaps() {
    let gaps = GapConfig { inter_window_gap: 10, edge_gap: 20 };
    assert_eq!(compute_rect(GridPosition::TopRight, gaps, full_hd()), rect(970, 30, 920, 500));
}

#[test]
fn every_cell_without_gaps() {
    let gaps = GapConfig { inter_window_gap: 0, edge_gap: 0 };
    let expected = [
        rect(0, 0, 960, 540),
        rect(0, 0, 1920, 540),
        rect(960, 0, 960, 540),
        rect(0, 0, 960, 1080),
        rect(0, 0, 1920, 1080),
        rect(960, 0, 960, 1080),
        rect(0, 540, 960, 540),
        rect(0, 540, 1920, 540),
        rect(960, 540, 960, 540),
    ];
    for (p, e) in ALL.iter().zip(expected.iter()) {
        assert_eq!(compute_rect(*p, gaps, full_hd()), *e);
    }
}

#[test]
fn bottom_left_with_gaps() {
    let gaps = GapConfig { inter_window_gap: 10, edge_gap: 20 };
    assert_eq!(compute_rect(GridPosition::BottomLeft, gaps, full_hd()), rect(30, 550, 920, 500));
}

#[test]
fn odd_sizes_truncate_when_halved() {
    let gaps = GapConfig { inter_window_gap: 0, edge_gap: 0 };
    let b = DisplayBounds { left: 0, top: 0, right: 1001, bottom: 501 };
    assert_eq!(compute_rect(GridPosition::BottomRight, gaps, b), rect(501, 251, 500, 250));
}

#[test]
fn offset_work_area_uses_right_and_bottom_as_sizes() {
    let gaps = GapConfig { inter_window_gap: 0, edge_gap: 0 };
    let b = DisplayBounds { left: 100, top: 40, right: 800, bottom: 600 };
    assert_eq!(compute_rect(GridPosition::Right, gaps, b), rect(500, 40, 400, 600));
    assert_eq!(compute_rect(GridPosition::Middle, gaps, b), rect(100, 40, 800, 600));
}

#[test]
fn large_gap_gives_negative_size() {
    let gaps = GapConfig { inter_window_gap: 300, edge_gap: 0 };
    let b = DisplayBounds { left: 0, top: 0, right: 1000, bottom: 400 };
    assert_eq!(compute_rect(GridPosition::TopLeft, gaps, b), rect(300, 300, -100, -400));
}

#[test]
fn negative_work_area_halves_toward_zero() {
    let gaps = GapConfig { inter_window_gap: 0, edge_gap: 10 };
    let b = DisplayBounds { left: 0, top: 0, right: 5, bottom: 5 };
    assert_eq!(compute_rect(GridPosition::Left, gaps, b), rect(2, 10, -7, -15));
}

#[test]
fn extreme_bounds_do_not_overflow() {
    let gaps = GapConfig { inter_window_gap: i32::MAX, edge_gap: i32::MIN };
    let b = DisplayBounds { left: i32::MAX, top: i32::MIN, right: i32::MAX, bottom: i32::MIN };
    let r = compute_rect(GridPosition::BottomRight, gaps, b);
    assert_eq!(r, compute_rect(GridPosition::BottomRight, gaps, b));
}

#[test]
fn same_inputs_give_same_rect() {
    let gaps = GapConfig { inter_window_gap: 7, edge_gap: 13 };
    let b = DisplayBounds { left: -1280, top: 0, right: 1280, bottom: 1024 };
    for p in ALL.iter() {
        assert_eq!(compute_rect(*p, gaps, b), compute_rect(*p, gaps, b));
    }
}

#[test]
fn rect_stays_inside_gapped_area() {
    let gaps = GapConfig { inter_window_gap: 10, edge_gap: 20 };
    let b = DisplayBounds { left: 0, top: 0, right: 1366, bottom: 767 };
    let (dx, dy, dw, dh) = (20i64, 20i64, 1326i64, 727i64);
    for p in ALL.iter() {
        let r = compute_rect(*p, gaps, b);
        assert!(dx <= r.x && r.x + r.width <= dx + dw);
        assert!(dy <= r.y && r.y + r.height <= dy + dh);
        assert!(r.width >= 0 && r.height >= 0);
    }
}

#[test]
fn tile_uses_config_gaps() {
    let config = Config { gap: 10, edge_gap: 20, bindings: Vec::new() };
    assert_eq!(tile(GridPosition::TopRight, &config, full_hd()), rect(970, 30, 920, 500));
    assert_eq!(config.gaps(), GapConfig { inter_window_gap: 10, edge_gap: 20 });
}

#[test]
fn offsets_and_names() {
    assert_eq!(GridPosition::TopLeft.offsets(), (-1, -1));
    assert_eq!(GridPosition::Bottom.offsets(), (0, 1));
    assert_eq!(GridPosition::Right.offsets(), (1, 0));
    assert_eq!(GridPosition::TopLeft.name(), "TopLeft");
    assert_eq!(GridPosition::BottomRight.name(), "BottomRight");
    assert_eq!(GridPosition::Middle.name(), "Middle");
}
