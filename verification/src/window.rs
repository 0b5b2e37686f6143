//! The client-side window frame: its shadow insets, borders, rounded corners
//! and the bands that start an interactive resize.
//!
//! Lengths are whole logical pixels.
use vstd::prelude::*;

verus! {

/// The transparent margin that carries the window shadow.
pub const SHADOW_INSET: i32 = 20;
/// The width of the visible frame border.
pub const BORDER_WIDTH: i32 = 1;
/// How far a resize band reaches to either side of a frame edge.
pub const RESIZE_HIT_SIZE: i32 = 4;

/// The largest window side whose band arithmetic stays within `i32`: a band
/// reaches at most 8 pixels past a side.
pub const MAX_SIDE: i32 = 2_147_483_639;

/// Which sides of the window touch a screen edge or a neighbouring window.
#[derive(Clone, Copy, Debug, PartialEq, Eq, Structural)]
pub struct Tiling {
    pub top: bool,
    pub left: bool,
    pub right: bool,
    pub bottom: bool,
}

impl Default for Tiling {
    fn default() -> (r: Tiling)
        ensures
            r == (Tiling { top: false, left: false, right: false, bottom: false }),
    {
        Tiling { top: false, left: false, right: false, bottom: false }
    }
}

impl Tiling {
    /// A window tiled on every side, as a maximized or fullscreen one.
    pub fn tiled() -> (r: Tiling)
        ensures
            r == (Tiling { top: true, left: true, right: true, bottom: true }),
    {
        Tiling { top: true, left: true, right: true, bottom: true }
    }

    /// Whether any side is tiled.
    pub fn is_tiled(&self) -> (r: bool)
        ensures
            r == (self.top || self.left || self.right || self.bottom),
    {
        self.top || self.left || self.right || self.bottom
    }
}

/// A length for each side.
#[derive(Clone, Copy, Debug, PartialEq, Eq, Structural)]
pub struct Edges {
    pub top: i32,
    pub right: i32,
    pub bottom: i32,
    pub left: i32,
}

impl Edges {
    /// The same length on every side.
    pub fn all(v: i32) -> (r: Edges)
        ensures
            r == (Edges { top: v, right: v, bottom: v, left: v }),
    {
        Edges { top: v, right: v, bottom: v, left: v }
    }
}

/// A radius for each corner.
#[derive(Clone, Copy, Debug, PartialEq, Eq, Structural)]
pub struct Corners {
    pub top_left: i32,
    pub top_right: i32,
    pub bottom_left: i32,
    pub bottom_right: i32,
}

impl Default for Corners {
    fn default() -> (r: Corners)
        ensures
            r == (Corners { top_left: 0, top_right: 0, bottom_left: 0, bottom_right: 0 }),
    {
        Corners { top_left: 0, top_right: 0, bottom_left: 0, bottom_right: 0 }
    }
}

impl Corners {
    /// The same radius on every corner.
    pub fn all(v: i32) -> (r: Corners)
        ensures
            r == (Corners { top_left: v, top_right: v, bottom_left: v, bottom_right: v }),
    {
        Corners { top_left: v, top_right: v, bottom_left: v, bottom_right: v }
    }
}

/// How the window is decorated: by the system, or by the application itself,
/// which then also learns how the window is tiled.
#[derive(Clone, Copy, Debug, PartialEq, Eq, Structural)]
pub enum Decorations {
    Server,
    Client(Tiling),
}

/// The edge or corner a resize starts from.
#[derive(Clone, Copy, Debug, PartialEq, Eq, Structural)]
pub enum ResizeEdge {
    Top,
    TopRight,
    Right,
    BottomRight,
    Bottom,
    BottomLeft,
    Left,
    TopLeft,
}

/// The pointer shape over a resize band.
#[derive(Clone, Copy, Debug, PartialEq, Eq, Structural)]
pub enum ResizeCursor {
    UpDown,
    LeftRight,
    UpLeftDownRight,
    UpRightDownLeft,
}

/// A resize band: the edge it moves and the rectangle that starts it, which
/// holds the points `x <= px < x + width`, `y <= py < y + height`.
#[derive(Clone, Copy, Debug, PartialEq, Eq, Structural)]
pub struct Region {
    pub edge: ResizeEdge,
    pub x: i32,
    pub y: i32,
    pub width: i32,
    pub height: i32,
}

/// Whether a region's rectangle holds a point.
pub open spec fn holds(r: Region, px: int, py: int) -> bool {
    r.x <= px < r.x + r.width && r.y <= py < r.y + r.height
}

impl Region {
    /// Whether the region's rectangle holds a point.
    pub fn contains(&self, px: i32, py: i32) -> (r: bool)
        ensures
            r == holds(*self, px as int, py as int),
    {
        self.x as i64 <= px as i64 && (px as i64) < self.x as i64 + self.width as i64
            && self.y as i64 <= py as i64 && (py as i64) < self.y as i64 + self.height as i64
    }
}

/// The tiling the application frame is drawn for: none under system
/// decorations, every side when maximized or fullscreen, else what the
/// system reports.
pub open spec fn tiling_for(decorations: Decorations, fullscreen: bool, maximized: bool) -> Option<Tiling> {
    match decorations {
        Decorations::Server => None,
        Decorations::Client(t) => Some(
            if fullscreen || maximized {
                Tiling { top: true, left: true, right: true, bottom: true }
            } else {
                t
            },
        ),
    }
}

/// The tiling the application frame is drawn for.
pub fn client_tiling(decorations: Decorations, fullscreen: bool, maximized: bool) -> (r: Option<Tiling>)
    ensures
        r == tiling_for(decorations, fullscreen, maximized),
{
    match decorations {
        Decorations::Server => None,
        Decorations::Client(tiling) => Some(if fullscreen || maximized { Tiling::tiled() } else { tiling }),
    }
}

/// A side's length: nothing on a tiled side.
pub open spec fn side(tiled: bool, width: i32) -> i32 {
    if tiled { 0 } else { width }
}

/// The length of each side, dropped on the tiled ones.
pub fn edge_sizes(tiling: Tiling, width: i32) -> (r: Edges)
    ensures
        r == (Edges {
            top: side(tiling.top, width),
            right: side(tiling.right, width),
            bottom: side(tiling.bottom, width),
            left: side(tiling.left, width),
        }),
{
    Edges {
        top: if tiling.top { 0 } else { width },
        right: if tiling.right { 0 } else { width },
        bottom: if tiling.bottom { 0 } else { width },
        left: if tiling.left { 0 } else { width },
    }
}

/// The corner radii: a corner is square where either of its sides is tiled.
pub fn corner_radii(tiling: Tiling, radius: i32) -> (r: Corners)
    ensures
        r.top_left == (if tiling.top || tiling.left { 0 } else { radius }),
        r.top_right == (if tiling.top || tiling.right { 0 } else { radius }),
        r.bottom_left == (if tiling.bottom || tiling.left { 0 } else { radius }),
        r.bottom_right == (if tiling.bottom || tiling.right { 0 } else { radius }),
{
    Corners {
        top_left: if tiling.top || tiling.left { 0 } else { radius },
        top_right: if tiling.top || tiling.right { 0 } else { radius },
        bottom_left: if tiling.bottom || tiling.left { 0 } else { radius },
        bottom_right: if tiling.bottom || tiling.right { 0 } else { radius },
    }
}

/// The radii of the content inside the border: none without an application
/// frame, else the window radius less the border on the untiled corners.
pub fn content_radii(tiling: Option<Tiling>, window_radius: i32) -> (r: Corners)
    requires
        window_radius >= BORDER_WIDTH,
    ensures
        tiling is None ==> r == Corners::all_spec(0),
        tiling matches Some(t) ==> r == corner_spec(t, (window_radius - BORDER_WIDTH) as i32),
{
    match tiling {
        Some(t) => corner_radii(t, window_radius - BORDER_WIDTH),
        None => Corners::default(),
    }
}

impl Corners {
    /// The same radius on every corner.
    pub open spec fn all_spec(v: i32) -> Corners {
        Corners { top_left: v, top_right: v, bottom_left: v, bottom_right: v }
    }
}

/// The corner radii for a tiling.
pub open spec fn corner_spec(t: Tiling, radius: i32) -> Corners {
    Corners {
        top_left: if t.top || t.left { 0 } else { radius },
        top_right: if t.top || t.right { 0 } else { radius },
        bottom_left: if t.bottom || t.left { 0 } else { radius },
        bottom_right: if t.bottom || t.right { 0 } else { radius },
    }
}

/// The pointer shape for a resize edge.
pub fn resize_cursor(edge: ResizeEdge) -> (r: ResizeCursor)
    ensures
        r == (match edge {
            ResizeEdge::Top | ResizeEdge::Bottom => ResizeCursor::UpDown,
            ResizeEdge::Left | ResizeEdge::Right => ResizeCursor::LeftRight,
            ResizeEdge::TopLeft | ResizeEdge::BottomRight => ResizeCursor::UpLeftDownRight,
            ResizeEdge::TopRight | ResizeEdge::BottomLeft => ResizeCursor::UpRightDownLeft,
        }),
{
    match edge {
        ResizeEdge::Top | ResizeEdge::Bottom => ResizeCursor::UpDown,
        ResizeEdge::Left | ResizeEdge::Right => ResizeCursor::LeftRight,
        ResizeEdge::TopLeft | ResizeEdge::BottomRight => ResizeCursor::UpLeftDownRight,
        ResizeEdge::TopRight | ResizeEdge::BottomLeft => ResizeCursor::UpRightDownLeft,
    }
}

/// Whether the frame offers a resize from an edge: each side it involves is
/// untiled.
pub open spec fn offered(t: Tiling, e: ResizeEdge) -> bool {
    match e {
        ResizeEdge::Top => !t.top,
        ResizeEdge::Bottom => !t.bottom,
        ResizeEdge::Left => !t.left,
        ResizeEdge::Right => !t.right,
        ResizeEdge::TopLeft => !t.top && !t.left,
        ResizeEdge::TopRight => !t.top && !t.right,
        ResizeEdge::BottomLeft => !t.bottom && !t.left,
        ResizeEdge::BottomRight => !t.bottom && !t.right,
    }
}

/// The left end of the bands: the visible frame's left side, less the reach.
pub open spec fn band_left(t: Tiling) -> int {
    side(t.left, SHADOW_INSET) - RESIZE_HIT_SIZE
}

/// The top end of the bands.
pub open spec fn band_top(t: Tiling) -> int {
    side(t.top, SHADOW_INSET) - RESIZE_HIT_SIZE
}

/// Where the right band starts: the visible frame's right side, less the reach.
pub open spec fn band_right(w: int, t: Tiling) -> int {
    w - side(t.right, SHADOW_INSET) - RESIZE_HIT_SIZE
}

/// Where the bottom band starts.
pub open spec fn band_bottom(h: int, t: Tiling) -> int {
    h - side(t.bottom, SHADOW_INSET) - RESIZE_HIT_SIZE
}

/// The thickness of a band: the reach to both sides of the frame edge.
pub open spec fn band() -> int {
    2 * RESIZE_HIT_SIZE
}

/// The band for an edge of a window of the given size.
pub open spec fn band_of(w: int, h: int, t: Tiling, e: ResizeEdge) -> (int, int, int, int) {
    let left = band_left(t);
    let top = band_top(t);
    let right = band_right(w, t);
    let bottom = band_bottom(h, t);
    let width = right - left + band();
    let height = bottom - top + band();
    match e {
        ResizeEdge::Top => (left, top, width, band()),
        ResizeEdge::Bottom => (left, bottom, width, band()),
        ResizeEdge::Left => (left, top, band(), height),
        ResizeEdge::Right => (right, top, band(), height),
        ResizeEdge::TopLeft => (left, top, band(), band()),
        ResizeEdge::TopRight => (right, top, band(), band()),
        ResizeEdge::BottomLeft => (left, bottom, band(), band()),
        ResizeEdge::BottomRight => (right, bottom, band(), band()),
    }
}

/// The band for an edge, as a region.
pub open spec fn region_of(w: int, h: int, t: Tiling, e: ResizeEdge) -> Region {
    let b = band_of(w, h, t, e);
    Region { edge: e, x: b.0 as i32, y: b.1 as i32, width: b.2 as i32, height: b.3 as i32 }
}

/// One region when the edge is offered, none otherwise.
pub open spec fn when_offered(w: int, h: int, t: Tiling, e: ResizeEdge) -> Seq<Region> {
    if offered(t, e) { seq![region_of(w, h, t, e)] } else { seq![] }
}

/// The resize regions, sides first and corners last so that a corner wins
/// over the sides it joins.
pub open spec fn regions_of(w: int, h: int, t: Tiling) -> Seq<Region> {
    when_offered(w, h, t, ResizeEdge::Top) + when_offered(w, h, t, ResizeEdge::Bottom)
        + when_offered(w, h, t, ResizeEdge::Left) + when_offered(w, h, t, ResizeEdge::Right)
        + when_offered(w, h, t, ResizeEdge::TopLeft) + when_offered(w, h, t, ResizeEdge::TopRight)
        + when_offered(w, h, t, ResizeEdge::BottomLeft) + when_offered(w, h, t, ResizeEdge::BottomRight)
}

fn push_band(regions: &mut Vec<Region>, edge: ResizeEdge, x: i32, y: i32, width: i32, height: i32)
    ensures
        final(regions)@ == old(regions)@.push(Region { edge, x, y, width, height }),
{
    regions.push(Region { edge, x, y, width, height });
}

/// The resize regions of a window of the given size.
pub fn resize_regions(width: i32, height: i32, tiling: Tiling) -> (r: Vec<Region>)
    requires
        0 <= width <= MAX_SIDE,
        0 <= height <= MAX_SIDE,
    ensures
        r@ == regions_of(width as int, height as int, tiling),
{
    let insets = edge_sizes(tiling, SHADOW_INSET);
    let left = insets.left - RESIZE_HIT_SIZE;
    let top = insets.top - RESIZE_HIT_SIZE;
    let right = width - insets.right - RESIZE_HIT_SIZE;
    let bottom = height - insets.bottom - RESIZE_HIT_SIZE;
    let band = RESIZE_HIT_SIZE * 2;
    let w = right - left + band;
    let h = bottom - top + band;
    let ghost (ww, hh) = (width as int, height as int);
    let mut regions: Vec<Region> = Vec::new();
    if !tiling.top {
        push_band(&mut regions, ResizeEdge::Top, left, top, w, band);
    }
    assert(regions@ =~= when_offered(ww, hh, tiling, ResizeEdge::Top));
    let ghost a = regions@;
    if !tiling.bottom {
        push_band(&mut regions, ResizeEdge::Bottom, left, bottom, w, band);
    }
    assert(regions@ =~= a + when_offered(ww, hh, tiling, ResizeEdge::Bottom));
    let ghost a = regions@;
    if !tiling.left {
        push_band(&mut regions, ResizeEdge::Left, left, top, band, h);
    }
    assert(regions@ =~= a + when_offered(ww, hh, tiling, ResizeEdge::Left));
    let ghost a = regions@;
    if !tiling.right {
        push_band(&mut regions, ResizeEdge::Right, right, top, band, h);
    }
    assert(regions@ =~= a + when_offered(ww, hh, tiling, ResizeEdge::Right));
    let ghost a = regions@;
    if !tiling.top && !tiling.left {
        push_band(&mut regions, ResizeEdge::TopLeft, left, top, band, band);
    }
    assert(regions@ =~= a + when_offered(ww, hh, tiling, ResizeEdge::TopLeft));
    let ghost a = regions@;
    if !tiling.top && !tiling.right {
        push_band(&mut regions, ResizeEdge::TopRight, right, top, band, band);
    }
    assert(regions@ =~= a + when_offered(ww, hh, tiling, ResizeEdge::TopRight));
    let ghost a = regions@;
    if !tiling.bottom && !tiling.left {
        push_band(&mut regions, ResizeEdge::BottomLeft, left, bottom, band, band);
    }
    assert(regions@ =~= a + when_offered(ww, hh, tiling, ResizeEdge::BottomLeft));
    let ghost a = regions@;
    if !tiling.bottom && !tiling.right {
        push_band(&mut regions, ResizeEdge::BottomRight, right, bottom, band, band);
    }
    assert(regions@ =~= a + when_offered(ww, hh, tiling, ResizeEdge::BottomRight));
    regions
}

/// The edge a press at a point starts: that of the last region holding the
/// point, as the last one painted is the one on top.
pub open spec fn hit_in(s: Seq<Region>, px: int, py: int) -> Option<ResizeEdge>
    decreases s.len(),
{
    if s.len() == 0 {
        None
    } else if holds(s.last(), px, py) {
        Some(s.last().edge)
    } else {
        hit_in(s.drop_last(), px, py)
    }
}

/// The edge a press at a point starts, if any.
pub fn hit_edge(regions: &[Region], px: i32, py: i32) -> (r: Option<ResizeEdge>)
    ensures
        r == hit_in(regions@, px as int, py as int),
{
    let mut i: usize = regions.len();
    assert(regions@.take(i as int) =~= regions@);
    while i > 0
        invariant
            i <= regions.len(),
            hit_in(regions@, px as int, py as int) == hit_in(regions@.take(i as int), px as int, py as int),
        decreases i,
    {
        let region = &regions[i - 1];
        assert(regions@.take(i - 1) =~= regions@.take(i as int).drop_last());
        if region.contains(px, py) {
            return Some(region.edge);
        }
        i -= 1;
    }
    None
}

/// A press in a concatenation starts what it starts in the later part, if
/// anything, else what it starts in the earlier part.
pub proof fn lemma_hit_concat(a: Seq<Region>, b: Seq<Region>, px: int, py: int)
    ensures
        hit_in(a + b, px, py) == (if hit_in(b, px, py) is Some { hit_in(b, px, py) } else { hit_in(a, px, py) }),
    decreases b.len(),
{
    if b.len() == 0 {
        assert(a + b =~= a);
    } else {
        assert((a + b).last() == b.last());
        assert((a + b).drop_last() =~= a + b.drop_last());
        lemma_hit_concat(a, b.drop_last(), px, py);
    }
}

/// What a press starts at one edge's band: that edge when it is offered and
/// its band holds the point.
pub open spec fn hit_at(w: int, h: int, t: Tiling, e: ResizeEdge, px: int, py: int) -> bool {
    offered(t, e) && holds(region_of(w, h, t, e), px, py)
}

/// The edge a press starts, read off the painting order: the last offered
/// edge whose band holds the point.
pub open spec fn pressed_edge(w: int, h: int, t: Tiling, px: int, py: int) -> Option<ResizeEdge> {
    if hit_at(w, h, t, ResizeEdge::BottomRight, px, py) {
        Some(ResizeEdge::BottomRight)
    } else if hit_at(w, h, t, ResizeEdge::BottomLeft, px, py) {
        Some(ResizeEdge::BottomLeft)
    } else if hit_at(w, h, t, ResizeEdge::TopRight, px, py) {
        Some(ResizeEdge::TopRight)
    } else if hit_at(w, h, t, ResizeEdge::TopLeft, px, py) {
        Some(ResizeEdge::TopLeft)
    } else if hit_at(w, h, t, ResizeEdge::Right, px, py) {
        Some(ResizeEdge::Right)
    } else if hit_at(w, h, t, ResizeEdge::Left, px, py) {
        Some(ResizeEdge::Left)
    } else if hit_at(w, h, t, ResizeEdge::Bottom, px, py) {
        Some(ResizeEdge::Bottom)
    } else if hit_at(w, h, t, ResizeEdge::Top, px, py) {
        Some(ResizeEdge::Top)
    } else {
        None
    }
}

proof fn lemma_hit_single(w: int, h: int, t: Tiling, e: ResizeEdge, px: int, py: int)
    ensures
        hit_in(when_offered(w, h, t, e), px, py) == (if hit_at(w, h, t, e, px, py) { Some(e) } else { None::<ResizeEdge> }),
{
    let s = when_offered(w, h, t, e);
    if offered(t, e) {
        assert(s.drop_last() =~= Seq::<Region>::empty());
        assert(s.last() == region_of(w, h, t, e));
        assert(hit_in(s.drop_last(), px, py) is None);
    }
}

/// A press on the resize regions starts the last offered edge, in painting
/// order, whose band holds the point: a corner wins over the sides it joins.
pub proof fn lemma_press_starts_last_band(w: int, h: int, t: Tiling, px: int, py: int)
    ensures
        hit_in(regions_of(w, h, t), px, py) == pressed_edge(w, h, t, px, py),
{
    let s1 = when_offered(w, h, t, ResizeEdge::Top);
    let s2 = when_offered(w, h, t, ResizeEdge::Bottom);
    let s3 = when_offered(w, h, t, ResizeEdge::Left);
    let s4 = when_offered(w, h, t, ResizeEdge::Right);
    let s5 = when_offered(w, h, t, ResizeEdge::TopLeft);
    let s6 = when_offered(w, h, t, ResizeEdge::TopRight);
    let s7 = when_offered(w, h, t, ResizeEdge::BottomLeft);
    let s8 = when_offered(w, h, t, ResizeEdge::BottomRight);
    lemma_hit_single(w, h, t, ResizeEdge::Top, px, py);
    lemma_hit_single(w, h, t, ResizeEdge::Bottom, px, py);
    lemma_hit_single(w, h, t, ResizeEdge::Left, px, py);
    lemma_hit_single(w, h, t, ResizeEdge::Right, px, py);
    lemma_hit_single(w, h, t, ResizeEdge::TopLeft, px, py);
    lemma_hit_single(w, h, t, ResizeEdge::TopRight, px, py);
    lemma_hit_single(w, h, t, ResizeEdge::BottomLeft, px, py);
    lemma_hit_single(w, h, t, ResizeEdge::BottomRight, px, py);
    lemma_hit_concat(s1, s2, px, py);
    lemma_hit_concat(s1 + s2, s3, px, py);
    lemma_hit_concat(s1 + s2 + s3, s4, px, py);
    lemma_hit_concat(s1 + s2 + s3 + s4, s5, px, py);
    lemma_hit_concat(s1 + s2 + s3 + s4 + s5, s6, px, py);
    lemma_hit_concat(s1 + s2 + s3 + s4 + s5 + s6, s7, px, py);
    lemma_hit_concat(s1 + s2 + s3 + s4 + s5 + s6 + s7, s8, px, py);
}

/// A press in the shadow, beyond the reach outside the visible frame, or
/// deeper inside the frame than the reach, starts no resize, on a window
/// larger than two bands each way.
pub proof fn lemma_shadow_and_content_start_no_resize(w: int, h: int, t: Tiling, px: int, py: int)
    requires
        0 <= w <= MAX_SIDE,
        0 <= h <= MAX_SIDE,
        band_right(w, t) >= band_left(t) + band(),
        band_bottom(h, t) >= band_top(t) + band(),
        ({
            ||| px < band_left(t) || px >= band_right(w, t) + band()
            ||| py < band_top(t) || py >= band_bottom(h, t) + band()
            ||| (band_left(t) + band() <= px < band_right(w, t) && band_top(t) + band() <= py < band_bottom(h, t))
        }),
    ensures
        hit_in(regions_of(w, h, t), px, py) is None,
{
    lemma_press_starts_last_band(w, h, t, px, py);
    assert(!hit_at(w, h, t, ResizeEdge::Top, px, py));
    assert(!hit_at(w, h, t, ResizeEdge::Bottom, px, py));
    assert(!hit_at(w, h, t, ResizeEdge::Left, px, py));
    assert(!hit_at(w, h, t, ResizeEdge::Right, px, py));
    assert(!hit_at(w, h, t, ResizeEdge::TopLeft, px, py));
    assert(!hit_at(w, h, t, ResizeEdge::TopRight, px, py));
    assert(!hit_at(w, h, t, ResizeEdge::BottomLeft, px, py));
    assert(!hit_at(w, h, t, ResizeEdge::BottomRight, px, py));
}

/// Near a corner of the visible frame whose sides are both untiled, a press
/// starts the diagonal resize of that corner, when the window is larger than
/// two bands each way.
pub proof fn lemma_corners_win(w: int, h: int, t: Tiling, px: int, py: int)
    requires
        0 <= w <= MAX_SIDE,
        0 <= h <= MAX_SIDE,
        band_right(w, t) >= band_left(t) + band(),
        band_bottom(h, t) >= band_top(t) + band(),
        !t.top && !t.left,
        band_left(t) <= px < band_left(t) + band(),
        band_top(t) <= py < band_top(t) + band(),
    ensures
        hit_in(regions_of(w, h, t), px, py) == Some(ResizeEdge::TopLeft),
{
    lemma_press_starts_last_band(w, h, t, px, py);
}

/// A tiled side offers no resize: every region's edge is offered.
pub proof fn lemma_tiled_sides_offer_no_resize(w: int, h: int, t: Tiling)
    ensures
        forall|i: int| 0 <= i < regions_of(w, h, t).len() ==> offered(t, #[trigger] regions_of(w, h, t)[i].edge),
        t == Tiling::tiled_spec() ==> regions_of(w, h, t).len() == 0,
{
    let s1 = when_offered(w, h, t, ResizeEdge::Top);
    let s2 = when_offered(w, h, t, ResizeEdge::Bottom);
    let s3 = when_offered(w, h, t, ResizeEdge::Left);
    let s4 = when_offered(w, h, t, ResizeEdge::Right);
    let s5 = when_offered(w, h, t, ResizeEdge::TopLeft);
    let s6 = when_offered(w, h, t, ResizeEdge::TopRight);
    let s7 = when_offered(w, h, t, ResizeEdge::BottomLeft);
    let s8 = when_offered(w, h, t, ResizeEdge::BottomRight);
    let all = s1 + s2 + s3 + s4 + s5 + s6 + s7 + s8;
    assert(all == regions_of(w, h, t));
    lemma_all_offered(t, s1, s2);
    lemma_all_offered(t, s1 + s2, s3);
    lemma_all_offered(t, s1 + s2 + s3, s4);
    lemma_all_offered(t, s1 + s2 + s3 + s4, s5);
    lemma_all_offered(t, s1 + s2 + s3 + s4 + s5, s6);
    lemma_all_offered(t, s1 + s2 + s3 + s4 + s5 + s6, s7);
    lemma_all_offered(t, s1 + s2 + s3 + s4 + s5 + s6 + s7, s8);
}

/// Every region of a sequence has an offered edge.
pub open spec fn all_offered(t: Tiling, s: Seq<Region>) -> bool {
    forall|i: int| 0 <= i < s.len() ==> offered(t, #[trigger] s[i].edge)
}

proof fn lemma_all_offered(t: Tiling, a: Seq<Region>, b: Seq<Region>)
    requires
        all_offered(t, a),
        all_offered(t, b),
    ensures
        all_offered(t, a + b),
{
    assert forall|i: int| 0 <= i < (a + b).len() implies offered(t, #[trigger] (a + b)[i].edge) by {
        if i >= a.len() {
            assert((a + b)[i] == b[i - a.len()]);
        }
    }
}

impl Tiling {
    /// Every side tiled.
    pub open spec fn tiled_spec() -> Tiling {
        Tiling { top: true, left: true, right: true, bottom: true }
    }
}

} // verus!
