//! The tile geometry engine: a grid position, the gaps and a display's work
//! area determine the rectangle that the window is moved to.

use vstd::prelude::*;

verus! {

/// One of the nine cells of a three by three grid.
#[derive(Clone, Copy, Debug, PartialEq, Eq, Structural)]
pub enum GridPosition {
    TopLeft,
    Top,
    TopRight,
    Left,
    Middle,
    Right,
    BottomLeft,
    Bottom,
    BottomRight,
}

/// Horizontal axis offset of a cell: -1 left, 0 centre, 1 right.
pub open spec fn offset_x(p: GridPosition) -> int {
    match p {
        GridPosition::TopLeft | GridPosition::Left | GridPosition::BottomLeft => -1,
        GridPosition::Top | GridPosition::Middle | GridPosition::Bottom => 0,
        GridPosition::TopRight | GridPosition::Right | GridPosition::BottomRight => 1,
    }
}

/// Vertical axis offset of a cell: -1 top, 0 centre, 1 bottom.
pub open spec fn offset_y(p: GridPosition) -> int {
    match p {
        GridPosition::TopLeft | GridPosition::Top | GridPosition::TopRight => -1,
        GridPosition::Left | GridPosition::Middle | GridPosition::Right => 0,
        GridPosition::BottomLeft | GridPosition::Bottom | GridPosition::BottomRight => 1,
    }
}

impl GridPosition {
    /// The pair of axis offsets `(x, y)`, each in `{-1, 0, 1}`.
    pub fn offsets(&self) -> (r: (i32, i32))
        ensures
            r.0 == offset_x(*self),
            r.1 == offset_y(*self),
    {
        match self {
            GridPosition::TopLeft => (-1, -1),
            GridPosition::Top => (0, -1),
            GridPosition::TopRight => (1, -1),
            GridPosition::Left => (-1, 0),
            GridPosition::Middle => (0, 0),
            GridPosition::Right => (1, 0),
            GridPosition::BottomLeft => (-1, 1),
            GridPosition::Bottom => (0, 1),
            GridPosition::BottomRight => (1, 1),
        }
    }

    /// The cell's symbolic name, such as `"TopLeft"`.
    pub fn name(&self) -> (r: &'static str)
        ensures
            r@ == position_name(*self),
    {
        match self {
            GridPosition::TopLeft => "TopLeft",
            GridPosition::Top => "Top",
            GridPosition::TopRight => "TopRight",
            GridPosition::Left => "Left",
            GridPosition::Middle => "Middle",
            GridPosition::Right => "Right",
            GridPosition::BottomLeft => "BottomLeft",
            GridPosition::Bottom => "Bottom",
            GridPosition::BottomRight => "BottomRight",
        }
    }
}

/// The symbolic name of each cell.
pub open spec fn position_name(p: GridPosition) -> Seq<char> {
    match p {
        GridPosition::TopLeft => "TopLeft"@,
        GridPosition::Top => "Top"@,
        GridPosition::TopRight => "TopRight"@,
        GridPosition::Left => "Left"@,
        GridPosition::Middle => "Middle"@,
        GridPosition::Right => "Right"@,
        GridPosition::BottomLeft => "BottomLeft"@,
        GridPosition::Bottom => "Bottom"@,
        GridPosition::BottomRight => "BottomRight"@,
    }
}

/// Gaps in pixels: between neighbouring windows, and between a window and the
/// edge of the display.
#[derive(Clone, Copy, Debug, PartialEq, Eq, Structural)]
pub struct GapConfig {
    pub inter_window_gap: i32,
    pub edge_gap: i32,
}

/// The usable work area of a display. `right` and `bottom` are read as the
/// area's width and height when the gapped area is computed.
#[derive(Clone, Copy, Debug, PartialEq, Eq, Structural)]
pub struct DisplayBounds {
    pub left: i32,
    pub top: i32,
    pub right: i32,
    pub bottom: i32,
}

/// The rectangle a window is moved to. Width and height are negative when the
/// gaps exceed the room the cell has.
#[derive(Clone, Copy, Debug, PartialEq, Eq, Structural)]
pub struct TargetRect {
    pub x: i64,
    pub y: i64,
    pub width: i64,
    pub height: i64,
}

impl View for TargetRect {
    type V = (int, int, int, int);

    open spec fn view(&self) -> (int, int, int, int) {
        (self.x as int, self.y as int, self.width as int, self.height as int)
    }
}

/// Division by two that truncates toward zero.
pub open spec fn half_toward_zero(v: int) -> int {
    if v >= 0 {
        v / 2
    } else {
        -((-v) / 2)
    }
}

/// Length of a cell along one axis of size `size`: the whole size at offset
/// 0, half of it at an edge.
pub open spec fn cell_len(k: int, size: int) -> int {
    if k == 0 {
        size
    } else {
        half_toward_zero(size)
    }
}

/// Start of a cell along one axis: pushed by `k` whole sizes from `origin`,
/// then brought back inside `[origin, origin + size]`.
pub open spec fn cell_start(k: int, origin: int, size: int) -> int {
    let len = cell_len(k, size);
    let raw = origin + k * size;
    if raw < origin {
        origin
    } else if raw + len > origin + size {
        origin + size - len
    } else {
        raw
    }
}

/// Left edge of the gapped work area.
pub open spec fn area_x(g: GapConfig, b: DisplayBounds) -> int {
    b.left + g.edge_gap
}

/// Top edge of the gapped work area.
pub open spec fn area_y(g: GapConfig, b: DisplayBounds) -> int {
    b.top + g.edge_gap
}

/// Width of the gapped work area.
pub open spec fn area_width(g: GapConfig, b: DisplayBounds) -> int {
    b.right - 2 * g.edge_gap
}

/// Height of the gapped work area.
pub open spec fn area_height(g: GapConfig, b: DisplayBounds) -> int {
    b.bottom - 2 * g.edge_gap
}

/// The cell's rectangle before the inter-window gap shrinks it, as
/// `(x, y, width, height)`.
pub open spec fn cell_model(p: GridPosition, g: GapConfig, b: DisplayBounds) -> (int, int, int, int) {
    let kx = offset_x(p);
    let ky = offset_y(p);
    (
        cell_start(kx, area_x(g, b), area_width(g, b)),
        cell_start(ky, area_y(g, b), area_height(g, b)),
        cell_len(kx, area_width(g, b)),
        cell_len(ky, area_height(g, b)),
    )
}

/// The target rectangle `(x, y, width, height)`: the cell shrunk by the
/// inter-window gap on every side.
pub open spec fn tile_model(p: GridPosition, g: GapConfig, b: DisplayBounds) -> (int, int, int, int) {
    let c = cell_model(p, g, b);
    let gap = g.inter_window_gap as int;
    (c.0 + gap, c.1 + gap, c.2 - 2 * gap, c.3 - 2 * gap)
}

fn half_len(size: i64) -> (r: i64)
    requires
        -0x1_0000_0000_0000 < size < 0x1_0000_0000_0000,
    ensures
        r == half_toward_zero(size as int),
{
    if size >= 0 {
        size / 2
    } else {
        -((-size) / 2)
    }
}

/// Places a cell along one axis: returns its start and its length.
fn place_on_axis(k: i32, origin: i64, size: i64) -> (r: (i64, i64))
    requires
        -1 <= k <= 1,
        -0x1_0000_0000_0000 < origin < 0x1_0000_0000_0000,
        -0x1_0000_0000_0000 < size < 0x1_0000_0000_0000,
    ensures
        r.0 == cell_start(k as int, origin as int, size as int),
        r.1 == cell_len(k as int, size as int),
{
    let len: i64 = if k == 0 {
        size
    } else {
        half_len(size)
    };
    let raw: i64 = if k == -1 {
        origin - size
    } else if k == 1 {
        origin + size
    } else {
        origin
    };
    assert(raw == origin + k * size) by (nonlinear_arith)
        requires
            k == -1 ==> raw == origin - size,
            k == 1 ==> raw == origin + size,
            k == 0 ==> raw == origin,
            -1 <= k <= 1,
    ;
    let start: i64 = if raw < origin {
        origin
    } else if raw + len > origin + size {
        origin + size - len
    } else {
        raw
    };
    (start, len)
}

/// Computes the rectangle of cell `position` on the work area `bounds`: the
/// area inset by the edge gap, the cell halved along each axis on which it
/// sits at an edge and kept inside the area, then shrunk by the inter-window
/// gap on all sides.
pub fn compute_rect(position: GridPosition, gaps: GapConfig, bounds: DisplayBounds) -> (r: TargetRect)
    ensures
        r@ == tile_model(position, gaps, bounds),
{
    let (kx, ky) = position.offsets();
    let edge = gaps.edge_gap as i64;
    let dx: i64 = bounds.left as i64 + edge;
    let dy: i64 = bounds.top as i64 + edge;
    let dw: i64 = bounds.right as i64 - 2 * edge;
    let dh: i64 = bounds.bottom as i64 - 2 * edge;
    let (wx, ww) = place_on_axis(kx, dx, dw);
    let (wy, wh) = place_on_axis(ky, dy, dh);
    let gap = gaps.inter_window_gap as i64;
    TargetRect { x: wx + gap, y: wy + gap, width: ww - 2 * gap, height: wh - 2 * gap }
}

/// The settings read at startup: the two gaps, and key bindings by name that
/// are kept for a later key-mapping feature.
#[derive(Debug)]
pub struct Config {
    pub gap: i32,
    pub edge_gap: i32,
    pub bindings: Vec<(String, String)>,
}

impl Config {
    /// The gap settings of this configuration.
    pub fn gaps(&self) -> (r: GapConfig)
        ensures
            r.inter_window_gap == self.gap,
            r.edge_gap == self.edge_gap,
    {
        GapConfig { inter_window_gap: self.gap, edge_gap: self.edge_gap }
    }
}

/// The gap settings that `config` stands for.
pub open spec fn config_gaps(config: Config) -> GapConfig {
    GapConfig { inter_window_gap: config.gap, edge_gap: config.edge_gap }
}

/// The rectangle that tiling the focused window into `position` gives, with
/// the gaps of `config`, on the work area `bounds` of the window's display.
pub fn tile(position: GridPosition, config: &Config, bounds: DisplayBounds) -> (r: TargetRect)
    ensures
        r@ == tile_model(position, config_gaps(*config), bounds),
{
    compute_rect(position, config.gaps(), bounds)
}

/// The geometry engine is a function of its inputs: two rectangles computed
/// from the same position, gaps and bounds are the same rectangle.
pub proof fn lemma_tile_deterministic(
    p: GridPosition,
    g: GapConfig,
    b: DisplayBounds,
    r1: TargetRect,
    r2: TargetRect,
)
    requires
        r1@ == tile_model(p, g, b),
        r2@ == tile_model(p, g, b),
    ensures
        r1 == r2,
{
}

/// With non-negative gaps, a gapped area of non-negative size and an
/// inter-window gap of at most a quarter of each side of that area, the
/// rectangle has non-negative size and lies inside the gapped work area, on
/// both axes; so does the cell it was shrunk from.
pub proof fn lemma_rect_within_area(p: GridPosition, g: GapConfig, b: DisplayBounds)
    requires
        g.inter_window_gap >= 0,
        g.edge_gap >= 0,
        4 * g.inter_window_gap <= area_width(g, b),
        4 * g.inter_window_gap <= area_height(g, b),
    ensures
        ({
            let c = cell_model(p, g, b);
            let t = tile_model(p, g, b);
            &&& area_x(g, b) <= c.0 <= t.0
            &&& 0 <= t.2
            &&& t.0 + t.2 <= c.0 + c.2 <= area_x(g, b) + area_width(g, b)
            &&& area_y(g, b) <= c.1 <= t.1
            &&& 0 <= t.3
            &&& t.1 + t.3 <= c.1 + c.3 <= area_y(g, b) + area_height(g, b)
        }),
{
    lemma_axis_within(offset_x(p), area_x(g, b), area_width(g, b), g.inter_window_gap as int);
    lemma_axis_within(offset_y(p), area_y(g, b), area_height(g, b), g.inter_window_gap as int);
}

proof fn lemma_axis_within(k: int, origin: int, size: int, gap: int)
    requires
        -1 <= k <= 1,
        0 <= gap,
        4 * gap <= size,
    ensures
        origin <= cell_start(k, origin, size),
        2 * gap <= cell_len(k, size),
        cell_start(k, origin, size) + cell_len(k, size) <= origin + size,
{
    assert(k == -1 || k == 0 || k == 1);
    if k == -1 {
        assert(origin + k * size == origin - size);
    } else if k == 1 {
        assert(origin + k * size == origin + size);
    } else {
        assert(origin + k * size == origin);
    }
}

} // verus!
