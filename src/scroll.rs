//! The scrollable viewport: clamp engine, pan-to-visible, scrollbar
//! geometry, drag state machine and the layout / update / event passes.
use vstd::prelude::*;
use vstd::math::abs;
use crate::arith::{ceil_div, floor_div, ceil_div_exec, floor_div_exec, lemma_scaled_ceil, lemma_ceil_div_bounds};
use crate::geometry::{Point, Rect, Size, Vec2};

verus! {

/// Minimum length of a scrollbar thumb along its primary axis.
pub const SCROLLBAR_MIN_SIZE: u32 = 10;

/// Thickness of the vertical bar, and of the horizontal bar on viewports
/// that are not cramped.
pub const BAR_THICKNESS: u32 = 10;

/// Thickness of the horizontal bar on cramped viewports.
pub const THIN_BAR_THICKNESS: u32 = 5;

/// Viewports shorter than this get the thin horizontal bar.
pub const CRAMPED_HEIGHT: u32 = 40;

/// Largest coordinate a content rectangle edge may reach.
pub const EDGE_LIMIT: i64 = 0x1000_0000_0000_0000;

/// An RGBA colour, eight bits per channel.
#[derive(Clone, Copy, Debug, PartialEq, Eq, Structural)]
pub struct Color {
    pub r: u8,
    pub g: u8,
    pub b: u8,
    pub a: u8,
}

impl Color {
    pub fn rgba8(r: u8, g: u8, b: u8, a: u8) -> (c: Color)
        ensures
            c == (Color { r, g, b, a }),
    {
        Color { r, g, b, a }
    }
}

/// The default thumb colour: black at 179/255 (70%) opacity.
pub open spec fn default_bar_color() -> Color {
    Color { r: 0, g: 0, b: 0, a: 179 }
}

/// Which scrollbar, if any, is being dragged.
#[derive(Clone, Copy, Debug, PartialEq, Eq, Structural)]
pub enum BarHeldState {
    /// Neither scrollbar is being dragged.
    Idle,
    /// The vertical thumb is dragged: the pointer's y when the drag began,
    /// and the scroll offset at that moment.
    Vertical(i64, Vec2),
    /// The horizontal thumb is dragged: the pointer's x when the drag began,
    /// and the scroll offset at that moment.
    Horizontal(i64, Vec2),
}

/// `desired` constrained to `[0, content - view]`, or 0 when the content fits.
pub open spec fn clamp_axis_spec(desired: int, content: int, view: int) -> int {
    if view >= content {
        0
    } else if desired > content - view {
        content - view
    } else if desired < 0 {
        0
    } else {
        desired
    }
}

/// The clamp engine on one axis.
pub fn clamp_axis(desired: i128, content: u32, view: u32) -> (r: u32)
    ensures
        r == clamp_axis_spec(desired as int, content as int, view as int),
{
    if view >= content {
        0
    } else if desired > (content - view) as i128 {
        content - view
    } else if desired < 0 {
        0
    } else {
        desired as u32
    }
}

/// The delta that brings `val` within `[min, max]`: 0 when strictly
/// inside, otherwise the signed distance to the edge at or beyond which it
/// lies.
pub open spec fn closest_on_axis(val: int, min: int, max: int) -> int {
    if val > min && val < max {
        0
    } else if val <= min {
        val - min
    } else {
        val - max
    }
}

/// Pan delta on one axis for a target `[t0, t1]` and a viewport `[v0, v1]`:
/// the target's extent is cut to the viewport's at `t0`, and of the deltas
/// for its two edges the larger in magnitude wins.
pub open spec fn pan_axis_spec(t0: int, t1: int, v0: int, v1: int) -> int {
    let len = if t1 - t0 <= v1 - v0 { t1 - t0 } else { v1 - v0 };
    let e = t0 + len;
    let lo = if t0 <= e { t0 } else { e };
    let hi = if t0 <= e { e } else { t0 };
    let d0 = closest_on_axis(lo, v0, v1);
    let d1 = closest_on_axis(hi, v0, v1);
    if abs(d0) > abs(d1) { d0 } else { d1 }
}

/// Pan deltas on both axes for a viewport and a target.
pub open spec fn pan_delta(viewport: Rect, target: Rect) -> (int, int) {
    (
        pan_axis_spec(target.x0 as int, target.x1 as int, viewport.x0 as int, viewport.x1 as int),
        pan_axis_spec(target.y0 as int, target.y1 as int, viewport.y0 as int, viewport.y1 as int),
    )
}

fn closest_on_axis_exec(val: i128, min: i128, max: i128) -> (r: i128)
    requires
        min <= max,
        -0x1_0000_0000_0000_0000_0000 <= val <= 0x1_0000_0000_0000_0000_0000,
        -0x1_0000_0000_0000_0000_0000 <= min <= 0x1_0000_0000_0000_0000_0000,
        -0x1_0000_0000_0000_0000_0000 <= max <= 0x1_0000_0000_0000_0000_0000,
    ensures
        r == closest_on_axis(val as int, min as int, max as int),
{
    if val > min && val < max {
        0
    } else if val <= min {
        val - min
    } else {
        val - max
    }
}

fn pan_axis(t0: i128, t1: i128, v0: i128, v1: i128) -> (r: i128)
    requires
        i64::MIN <= t0 <= i64::MAX,
        i64::MIN <= t1 <= i64::MAX,
        i64::MIN <= v0 <= v1 <= i64::MAX,
    ensures
        r == pan_axis_spec(t0 as int, t1 as int, v0 as int, v1 as int),
        -0x1_0000_0000_0000_0000_0000 <= r <= 0x1_0000_0000_0000_0000_0000,
{
    let len = if t1 - t0 <= v1 - v0 { t1 - t0 } else { v1 - v0 };
    let e = t0 + len;
    let lo = if t0 <= e { t0 } else { e };
    let hi = if t0 <= e { e } else { t0 };
    let d0 = closest_on_axis_exec(lo, v0, v1);
    let d1 = closest_on_axis_exec(hi, v0, v1);
    let a0 = if d0 < 0 { 0 - d0 } else { d0 };
    let a1 = if d1 < 0 { 0 - d1 } else { d1 };
    if a0 > a1 { d0 } else { d1 }
}

/// Every edge within `2^40` of the origin.
pub open spec fn small_rect(r: Rect) -> bool {
    &&& -0x100_0000_0000 <= r.x0 <= 0x100_0000_0000
    &&& -0x100_0000_0000 <= r.y0 <= 0x100_0000_0000
    &&& -0x100_0000_0000 <= r.x1 <= 0x100_0000_0000
    &&& -0x100_0000_0000 <= r.y1 <= 0x100_0000_0000
}

/// Thumb length for a viewport extent and a larger content extent: the
/// visible fraction of the viewport, rounded up, but at least
/// `SCROLLBAR_MIN_SIZE`.
pub open spec fn thumb_len(view: int, content: int) -> int {
    let p = ceil_div(view * view, content);
    if p >= SCROLLBAR_MIN_SIZE { p } else { SCROLLBAR_MIN_SIZE as int }
}

/// Thickness of the horizontal bar for a viewport height.
pub open spec fn horizontal_thickness(view_h: int) -> int {
    if view_h < CRAMPED_HEIGHT { THIN_BAR_THICKNESS as int } else { BAR_THICKNESS as int }
}

fn thumb_len_exec(view: u32, content: u32) -> (r: u32)
    requires
        view < content,
    ensures
        r == thumb_len(view as int, content as int),
        SCROLLBAR_MIN_SIZE <= r,
        r <= SCROLLBAR_MIN_SIZE || r <= view,
{
    assert((view as int) * (view as int) <= 0xFFFF_FFFF * 0xFFFF_FFFF) by (nonlinear_arith)
        requires 0 <= view <= 0xFFFF_FFFF;
    let sq: u64 = view as u64 * view as u64;
    let p = ceil_div_exec(sq as i128, content as u64);
    proof {
        let v = view as int;
        let c = content as int;
        assert(0 * c <= v * v <= v * c) by (nonlinear_arith)
            requires 0 <= v < c;
        lemma_ceil_div_bounds(v * v, c, 0, v);
    }
    if p >= SCROLLBAR_MIN_SIZE as i128 { p as u32 } else { SCROLLBAR_MIN_SIZE }
}

/// Content moved by a drag of `moved` pixels: `moved / (view / content)`,
/// rounded down; nothing when the viewport has no extent.
pub open spec fn drag_distance(moved: int, content: int, view: int) -> int {
    if view > 0 { floor_div(moved * content, view) } else { 0 }
}

fn drag_distance_exec(moved: i128, content: u32, view: u32) -> (r: i128)
    requires
        -0x1_0000_0000_0000_0000 <= moved <= 0x1_0000_0000_0000_0000,
    ensures
        r == drag_distance(moved as int, content as int, view as int),
        -0x1_0000_0000_0000_0000_0000_0000 <= r <= 0x1_0000_0000_0000_0000_0000_0000,
{
    if view == 0 {
        return 0;
    }
    let c = content as i128;
    assert(-0x1_0000_0000_0000_0000_0000_0000 <= moved * c <= 0x1_0000_0000_0000_0000_0000_0000) by (nonlinear_arith)
        requires -0x1_0000_0000_0000_0000 <= moved <= 0x1_0000_0000_0000_0000, 0 <= c <= 0xFFFF_FFFF;
    floor_div_exec(moved * c, view as u64)
}

/// A padding edge: absolute pixels, or a share of the allocated width in
/// hundredths of a percent (`Percent(1250)` is 12.5%).
#[derive(Clone, Copy, Debug, PartialEq, Eq, Structural)]
pub enum LengthPercentage {
    Points(u32),
    Percent(u32),
}

/// Padding on the four edges. Percentages resolve against the allocated
/// width on every edge, top and bottom included: a deliberate choice that
/// keeps layouts unchanged for existing users, where resolving the vertical
/// edges against the height would be the alternative.
#[derive(Clone, Copy, Debug, PartialEq, Eq, Structural)]
pub struct Padding {
    pub left: LengthPercentage,
    pub right: LengthPercentage,
    pub top: LengthPercentage,
    pub bottom: LengthPercentage,
}

/// A padding edge in pixels for an allocated width; shares round down.
pub open spec fn resolve(lp: LengthPercentage, width: int) -> int {
    match lp {
        LengthPercentage::Points(p) => p as int,
        LengthPercentage::Percent(p) => p * width / 10000,
    }
}

fn resolve_exec(lp: LengthPercentage, width: u32) -> (r: u64)
    ensures
        r == resolve(lp, width as int),
        r <= 0x400_0000_0000_0000,
{
    match lp {
        LengthPercentage::Points(p) => p as u64,
        LengthPercentage::Percent(p) => {
            assert((p as int) * (width as int) <= 0xFFFF_FFFF * 0xFFFF_FFFF) by (nonlinear_arith)
                requires 0 <= p <= 0xFFFF_FFFF, 0 <= width <= 0xFFFF_FFFF;
            let r = (p as u64 * width as u64) / 10000;
            assert(r <= 0x400_0000_0000_0000) by (nonlinear_arith)
                requires r == (p as u64 * width as u64) / 10000, (p as u64 * width as u64) <= 0xFFFF_FFFF * 0xFFFF_FFFF;
            r
        },
    }
}

/// The content rectangle inside `outer`: each edge moved in by its padding.
/// Padding larger than the allocated size leaves the far edge before the
/// origin edge; the viewport is then empty on that axis.
pub open spec fn content_rect(outer: Size, padding: Padding) -> Rect {
    let w = outer.width as int;
    let h = outer.height as int;
    let l = resolve(padding.left, w);
    let r = resolve(padding.right, w);
    let t = resolve(padding.top, w);
    let b = resolve(padding.bottom, w);
    Rect {
        x0: l as i64,
        y0: t as i64,
        x1: (w - r) as i64,
        y1: (h - b) as i64,
    }
}

fn content_rect_exec(outer: Size, padding: &Padding) -> (r: Rect)
    ensures
        r == content_rect(outer, *padding),
        0 <= r.x0 <= EDGE_LIMIT,
        0 <= r.y0 <= EDGE_LIMIT,
        -EDGE_LIMIT <= r.x1 <= u32::MAX,
        -EDGE_LIMIT <= r.y1 <= u32::MAX,
{
    let w = outer.width as i64;
    let h = outer.height as i64;
    let l = resolve_exec(padding.left, outer.width) as i64;
    let r = resolve_exec(padding.right, outer.width) as i64;
    let t = resolve_exec(padding.top, outer.width) as i64;
    let b = resolve_exec(padding.bottom, outer.width) as i64;
    Rect::new(l, t, w - r, h - b)
}

/// A measured size, or zero when there is none.
pub open spec fn measured_or_zero(measured: Option<Size>) -> Size {
    match measured {
        Some(m) => m,
        None => Size { width: 0, height: 0 },
    }
}

/// A message that changes a viewport during the update pass.
#[derive(Clone, Copy, Debug, PartialEq, Eq, Structural)]
pub enum ScrollUpdate {
    EnsureVisible(Rect),
    ScrollDelta(Vec2),
    ScrollTo(Point),
    ScrollBarColor(Color),
    HiddenBar(bool),
}

/// An input event, in viewport-local coordinates. A wheel event carries
/// its delta (zero for devices other than a mouse).
#[derive(Clone, Copy, Debug, PartialEq, Eq, Structural)]
pub enum ScrollEvent {
    PointerDown(Point),
    PointerUp,
    PointerMove(Point),
    Wheel(Vec2),
    Other,
}

/// The result of a pointer event: whether it was consumed, and the new
/// viewport if it changed.
#[derive(Clone, Copy, Debug, PartialEq, Eq, Structural)]
pub struct PointerOutcome {
    pub consumed: bool,
    pub scrolled: Option<Rect>,
}

/// The result of a layout pass: whether the child's size changed (a fresh
/// layout is due), and the new viewport if it changed.
#[derive(Clone, Copy, Debug, PartialEq, Eq, Structural)]
pub struct LayoutOutcome {
    pub size_changed: bool,
    pub scrolled: Option<Rect>,
}

/// How to paint a viewport: clip, translation for the child, thumb colour
/// and the thumbs to fill.
#[derive(Debug)]
pub struct PaintPlan {
    pub clip: Rect,
    pub offset: Vec2,
    pub color: Color,
    pub bars: Vec<Rect>,
}

/// The state of a scrollable viewport, apart from its child.
#[derive(Clone, Copy, Debug, PartialEq, Eq, Structural)]
pub struct ScrollCore {
    /// Total allocated size, padding included.
    pub size: Size,
    /// The padding-adjusted rectangle in which content is shown.
    pub actual_rect: Rect,
    /// Laid-out size of the child's content.
    pub child_size: Size,
    /// The visible part of the content: origin is the scroll offset, size
    /// that of `actual_rect`.
    pub child_viewport: Rect,
    pub held: BarHeldState,
    pub hide_bar: bool,
    pub scroll_bar_color: Color,
}

impl ScrollCore {
    /// Width of the viewport: that of the content rectangle, or 0 when the
    /// padding leaves its far edge before its origin edge.
    pub open spec fn view_w(self) -> int {
        if self.actual_rect.x1 >= self.actual_rect.x0 { self.actual_rect.width_spec() } else { 0 }
    }

    /// Height of the viewport: that of the content rectangle, or 0 when the
    /// padding leaves its far edge before its origin edge.
    pub open spec fn view_h(self) -> int {
        if self.actual_rect.y1 >= self.actual_rect.y0 { self.actual_rect.height_spec() } else { 0 }
    }

    /// The content rectangle is well formed: origin edges within
    /// `[0, EDGE_LIMIT]`, far edges within `EDGE_LIMIT` of 0, and extents
    /// that fit a `u32`.
    pub open spec fn rect_ok(self) -> bool {
        &&& 0 <= self.actual_rect.x0 <= EDGE_LIMIT
        &&& 0 <= self.actual_rect.y0 <= EDGE_LIMIT
        &&& -EDGE_LIMIT <= self.actual_rect.x1 <= EDGE_LIMIT
        &&& -EDGE_LIMIT <= self.actual_rect.y1 <= EDGE_LIMIT
        &&& self.view_w() <= u32::MAX
        &&& self.view_h() <= u32::MAX
    }

    /// Largest scroll offset on the horizontal axis.
    pub open spec fn max_x(self) -> int {
        if self.view_w() >= self.child_size.width { 0 } else { self.child_size.width - self.view_w() }
    }

    /// Largest scroll offset on the vertical axis.
    pub open spec fn max_y(self) -> int {
        if self.view_h() >= self.child_size.height { 0 } else { self.child_size.height - self.view_h() }
    }

    /// The viewport has the content rectangle's size and an in-bounds origin.
    pub open spec fn wf(self) -> bool {
        &&& self.rect_ok()
        &&& self.child_viewport.width_spec() == self.view_w()
        &&& self.child_viewport.height_spec() == self.view_h()
        &&& 0 <= self.child_viewport.x0 <= self.max_x()
        &&& 0 <= self.child_viewport.y0 <= self.max_y()
    }

    /// The state of a freshly built viewport.
    pub open spec fn initial() -> ScrollCore {
        ScrollCore {
            size: Size { width: 0, height: 0 },
            actual_rect: Rect { x0: 0, y0: 0, x1: 0, y1: 0 },
            child_size: Size { width: 0, height: 0 },
            child_viewport: Rect { x0: 0, y0: 0, x1: 0, y1: 0 },
            held: BarHeldState::Idle,
            hide_bar: false,
            scroll_bar_color: default_bar_color(),
        }
    }

    pub fn new() -> (r: ScrollCore)
        ensures
            r == ScrollCore::initial(),
            r.wf(),
    {
        ScrollCore {
            size: Size::new(0, 0),
            actual_rect: Rect::new(0, 0, 0, 0),
            child_size: Size::new(0, 0),
            child_viewport: Rect::new(0, 0, 0, 0),
            held: BarHeldState::Idle,
            hide_bar: false,
            scroll_bar_color: Color::rgba8(0, 0, 0, 179),
        }
    }

    /// The viewport that the clamp engine makes of a desired origin.
    pub open spec fn clamped(self, x: int, y: int) -> Rect {
        let cx = clamp_axis_spec(x, self.child_size.width as int, self.view_w());
        let cy = clamp_axis_spec(y, self.child_size.height as int, self.view_h());
        Rect {
            x0: cx as i64,
            y0: cy as i64,
            x1: (cx + self.view_w()) as i64,
            y1: (cy + self.view_h()) as i64,
        }
    }

    /// The state after the clamp engine ran on a desired origin.
    pub open spec fn clamp_spec(self, x: int, y: int) -> ScrollCore {
        ScrollCore { child_viewport: self.clamped(x, y), ..self }
    }

    /// What a clamp reports: the new viewport, when it differs from the old.
    pub open spec fn clamp_change(self, x: int, y: int) -> Option<Rect> {
        if self.clamped(x, y) == self.child_viewport {
            None
        } else {
            Some(self.clamped(x, y))
        }
    }

    /// Extents of the content rectangle.
    fn view_extent(&self) -> (r: (u32, u32))
        requires
            self.rect_ok(),
        ensures
            r.0 == self.view_w(),
            r.1 == self.view_h(),
    {
        let r = self.actual_rect;
        (
            if r.x1 >= r.x0 { (r.x1 - r.x0) as u32 } else { 0 },
            if r.y1 >= r.y0 { (r.y1 - r.y0) as u32 } else { 0 },
        )
    }

    /// The clamp engine: the viewport for a desired origin, without
    /// changing anything.
    pub fn clamp(&self, origin: Point) -> (r: Rect)
        requires
            self.rect_ok(),
        ensures
            r == self.clamped(origin.x as int, origin.y as int),
    {
        self.clamp_exec(origin.x as i128, origin.y as i128)
    }

    fn clamp_exec(&self, x: i128, y: i128) -> (r: Rect)
        requires
            self.rect_ok(),
        ensures
            r == self.clamped(x as int, y as int),
    {
        let (w, h) = self.view_extent();
        let cx = clamp_axis(x, self.child_size.width, w);
        let cy = clamp_axis(y, self.child_size.height, h);
        Rect::new(cx as i64, cy as i64, cx as i64 + w as i64, cy as i64 + h as i64)
    }

    /// The single path by which the viewport changes: clamps the desired
    /// origin, stores the result, and returns it when it differs from the
    /// previous viewport.
    pub fn clamp_child_viewport(&mut self, x: i128, y: i128) -> (changed: Option<Rect>)
        requires
            old(self).rect_ok(),
        ensures
            *final(self) == old(self).clamp_spec(x as int, y as int),
            changed == old(self).clamp_change(x as int, y as int),
            final(self).wf(),
    {
        let v = self.clamp_exec(x, y);
        if v == self.child_viewport {
            None
        } else {
            self.child_viewport = v;
            Some(v)
        }
    }

    /// The state after a relative scroll.
    pub open spec fn delta_spec(self, delta: Vec2) -> ScrollCore {
        self.clamp_spec(self.child_viewport.x0 + delta.x, self.child_viewport.y0 + delta.y)
    }

    /// Scrolls by `delta`, through the clamp engine.
    pub fn scroll_delta(&mut self, delta: Vec2) -> (changed: Option<Rect>)
        requires
            old(self).wf(),
        ensures
            *final(self) == old(self).delta_spec(delta),
            changed == old(self).clamp_change(
                old(self).child_viewport.x0 + delta.x,
                old(self).child_viewport.y0 + delta.y,
            ),
            final(self).wf(),
    {
        let x = self.child_viewport.x0 as i128 + delta.x as i128;
        let y = self.child_viewport.y0 as i128 + delta.y as i128;
        self.clamp_child_viewport(x, y)
    }

    /// Scrolls to an absolute origin, through the clamp engine.
    pub fn scroll_to(&mut self, origin: Point) -> (changed: Option<Rect>)
        requires
            old(self).wf(),
        ensures
            *final(self) == old(self).clamp_spec(origin.x as int, origin.y as int),
            changed == old(self).clamp_change(origin.x as int, origin.y as int),
            final(self).wf(),
    {
        self.clamp_child_viewport(origin.x as i128, origin.y as i128)
    }

    /// The state after panning the smallest distance that shows `rect`.
    pub open spec fn pan_spec(self, rect: Rect) -> ScrollCore {
        let (dx, dy) = pan_delta(self.child_viewport, rect);
        self.clamp_spec(self.child_viewport.x0 + dx, self.child_viewport.y0 + dy)
    }

    /// Pans the smallest distance that makes `rect` visible. A target larger
    /// than the viewport is cut to the viewport's size at its origin corner,
    /// so the part nearest that corner is shown.
    pub fn pan_to_visible(&mut self, rect: Rect) -> (changed: Option<Rect>)
        requires
            old(self).wf(),
        ensures
            *final(self) == old(self).pan_spec(rect),
            changed == old(self).clamp_change(
                old(self).child_viewport.x0 + pan_delta(old(self).child_viewport, rect).0,
                old(self).child_viewport.y0 + pan_delta(old(self).child_viewport, rect).1,
            ),
            final(self).wf(),
    {
        let v = self.child_viewport;
        let dx = pan_axis(rect.x0 as i128, rect.x1 as i128, v.x0 as i128, v.x1 as i128);
        let dy = pan_axis(rect.y0 as i128, rect.y1 as i128, v.y0 as i128, v.y1 as i128);
        self.clamp_child_viewport(v.x0 as i128 + dx, v.y0 as i128 + dy)
    }

    /// Content-space bounds of the vertical thumb, or none when the content
    /// fits vertically.
    pub open spec fn vertical_bar(self) -> Option<Rect> {
        let vw = self.child_viewport.width_spec();
        let vh = self.child_viewport.height_spec();
        let ch = self.child_size.height as int;
        let ox = self.child_viewport.x0 as int;
        let oy = self.child_viewport.y0 as int;
        if vh == 0 || vh >= ch {
            None
        } else {
            let len = thumb_len(vh, ch);
            let top = ceil_div((vh - len) * oy, ch - vh);
            Some(Rect {
                x0: (ox + vw - BAR_THICKNESS) as i64,
                y0: (oy + top) as i64,
                x1: (ox + vw) as i64,
                y1: (oy + top + len) as i64,
            })
        }
    }

    /// Content-space bounds of the horizontal thumb, or none when the content
    /// fits horizontally. When the vertical bar is present the travel range
    /// leaves room for its thickness, so the thumbs do not meet in the corner.
    pub open spec fn horizontal_bar(self) -> Option<Rect> {
        let vw = self.child_viewport.width_spec();
        let vh = self.child_viewport.height_spec();
        let cw = self.child_size.width as int;
        let ch = self.child_size.height as int;
        let ox = self.child_viewport.x0 as int;
        let oy = self.child_viewport.y0 as int;
        if vw == 0 || vw >= cw {
            None
        } else {
            let thickness = horizontal_thickness(vh);
            let len = thumb_len(vw, cw);
            let reserve = if vh == 0 || vh >= ch { 0 } else { BAR_THICKNESS as int };
            let left = ceil_div((vw - len - reserve) * ox, cw - vw);
            Some(Rect {
                x0: (ox + left) as i64,
                y0: (oy + vh - thickness) as i64,
                x1: (ox + left + len) as i64,
                y1: (oy + vh) as i64,
            })
        }
    }

    /// The vertical thumb stretched to the viewport's right edge.
    pub open spec fn vertical_hit_region(self) -> Option<Rect> {
        match self.vertical_bar() {
            Some(b) => Some(Rect { x1: (self.child_viewport.x0 + self.child_viewport.width_spec()) as i64, ..b }),
            None => None,
        }
    }

    /// The horizontal thumb stretched to the viewport's bottom edge.
    pub open spec fn horizontal_hit_region(self) -> Option<Rect> {
        match self.horizontal_bar() {
            Some(b) => Some(Rect { y1: (self.child_viewport.y0 + self.child_viewport.height_spec()) as i64, ..b }),
            None => None,
        }
    }

    /// A content-space position hits the vertical thumb's region.
    pub open spec fn hits_vertical(self, x: int, y: int) -> bool {
        match self.vertical_hit_region() {
            Some(r) => r.x0 <= x < r.x1 && r.y0 <= y < r.y1,
            None => false,
        }
    }

    /// A content-space position hits the horizontal thumb's region.
    pub open spec fn hits_horizontal(self, x: int, y: int) -> bool {
        match self.horizontal_hit_region() {
            Some(r) => r.x0 <= x < r.x1 && r.y0 <= y < r.y1,
            None => false,
        }
    }

    pub fn calc_vertical_bar_bounds(&self) -> (r: Option<Rect>)
        requires
            self.wf(),
        ensures
            r == self.vertical_bar(),
            r matches Some(b) ==> small_rect(b),
    {
        let (vw, vh) = self.view_extent();
        let ch = self.child_size.height;
        if vh == 0 || vh >= ch {
            return None;
        }
        let len = thumb_len_exec(vh, ch);
        let ox = self.child_viewport.x0;
        let oy = self.child_viewport.y0;
        let travel: i128 = vh as i128 - len as i128;
        assert(-0x1_0000_0000 <= travel <= 0x1_0000_0000);
        assert(-0x1_0000_0000_0000_0000 <= travel * oy <= 0x1_0000_0000_0000_0000) by (nonlinear_arith)
            requires -0x1_0000_0000 <= travel <= 0x1_0000_0000, 0 <= oy <= 0x1_0000_0000;
        let top = ceil_div_exec(travel * oy as i128, (ch - vh) as u64);
        proof {
            lemma_scaled_ceil(travel as int, oy as int, ch - vh);
        }
        let top = top as i64;
        let len = len as i64;
        Some(Rect::new(ox + vw as i64 - BAR_THICKNESS as i64, oy + top, ox + vw as i64, oy + top + len))
    }

    pub fn calc_horizontal_bar_bounds(&self) -> (r: Option<Rect>)
        requires
            self.wf(),
        ensures
            r == self.horizontal_bar(),
            r matches Some(b) ==> small_rect(b),
    {
        let (vw, vh) = self.view_extent();
        let cw = self.child_size.width;
        let ch = self.child_size.height;
        if vw == 0 || vw >= cw {
            return None;
        }
        let thickness: u32 = if vh < CRAMPED_HEIGHT { THIN_BAR_THICKNESS } else { BAR_THICKNESS };
        let len = thumb_len_exec(vw, cw);
        let reserve: u32 = if vh == 0 || vh >= ch { 0 } else { BAR_THICKNESS };
        let ox = self.child_viewport.x0;
        let oy = self.child_viewport.y0;
        let travel: i128 = vw as i128 - len as i128 - reserve as i128;
        assert(-0x10_0000_0000_0000_0000 <= travel * ox <= 0x10_0000_0000_0000_0000) by (nonlinear_arith)
            requires -0x2_0000_0000 <= travel <= 0x1_0000_0000, 0 <= ox <= 0x1_0000_0000;
        let left = ceil_div_exec(travel * ox as i128, (cw - vw) as u64);
        proof {
            lemma_scaled_ceil(travel as int, ox as int, cw - vw);
        }
        let left = left as i64;
        let len = len as i64;
        Some(Rect::new(ox + left, oy + vh as i64 - thickness as i64, ox + left + len, oy + vh as i64))
    }

    /// Whether a content-space position hits the vertical thumb, stretched to
    /// the viewport's right edge.
    pub fn point_hits_vertical_bar(&self, x: i128, y: i128) -> (r: bool)
        requires
            self.wf(),
        ensures
            r == self.hits_vertical(x as int, y as int),
    {
        match self.calc_vertical_bar_bounds() {
            Some(b) => {
                let right = self.child_viewport.x0 + (self.child_viewport.x1 - self.child_viewport.x0);
                b.x0 as i128 <= x && x < right as i128 && b.y0 as i128 <= y && y < b.y1 as i128
            },
            None => false,
        }
    }

    /// Whether a content-space position hits the horizontal thumb, stretched
    /// to the viewport's bottom edge.
    pub fn point_hits_horizontal_bar(&self, x: i128, y: i128) -> (r: bool)
        requires
            self.wf(),
        ensures
            r == self.hits_horizontal(x as int, y as int),
    {
        match self.calc_horizontal_bar_bounds() {
            Some(b) => {
                let bottom = self.child_viewport.y0 + (self.child_viewport.y1 - self.child_viewport.y0);
                b.x0 as i128 <= x && x < b.x1 as i128 && b.y0 as i128 <= y && y < bottom as i128
            },
            None => false,
        }
    }

    /// A thumb moved from content space into the unscrolled outer space.
    pub open spec fn unscrolled(self, r: Rect) -> Rect {
        Rect {
            x0: (r.x0 - self.child_viewport.x0) as i64,
            y0: (r.y0 - self.child_viewport.y0) as i64,
            x1: (r.x1 - self.child_viewport.x0) as i64,
            y1: (r.y1 - self.child_viewport.y0) as i64,
        }
    }

    /// The thumbs to fill, vertical first, in unscrolled outer space.
    pub open spec fn painted_bars(self) -> Seq<Rect> {
        let v = match self.vertical_bar() {
            Some(b) => seq![self.unscrolled(b)],
            None => Seq::empty(),
        };
        let h = match self.horizontal_bar() {
            Some(b) => seq![self.unscrolled(b)],
            None => Seq::empty(),
        };
        v + h
    }

    /// The thumbs to fill, vertical first, in unscrolled outer space.
    pub fn draw_bars(&self) -> (r: Vec<Rect>)
        requires
            self.wf(),
        ensures
            r@ == self.painted_bars(),
    {
        let mut out: Vec<Rect> = Vec::new();
        let ox = self.child_viewport.x0;
        let oy = self.child_viewport.y0;
        if let Some(b) = self.calc_vertical_bar_bounds() {
            out.push(Rect::new(b.x0 - ox, b.y0 - oy, b.x1 - ox, b.y1 - oy));
        }
        if let Some(b) = self.calc_horizontal_bar_bounds() {
            out.push(Rect::new(b.x0 - ox, b.y0 - oy, b.x1 - ox, b.y1 - oy));
        }
        proof {
            assert(out@ =~= self.painted_bars());
        }
        out
    }

    /// The scroll offset as a vector.
    pub open spec fn offset(self) -> Vec2 {
        Vec2 { x: self.child_viewport.x0, y: self.child_viewport.y0 }
    }

    /// The state after a pointer press at `pos` (viewport-local), and
    /// whether the press was consumed. A press on a thumb's region starts a
    /// drag, the vertical thumb taking priority; any other press ends one.
    /// With the bars hidden nothing changes.
    pub open spec fn pointer_down_spec(self, pos: Point) -> (ScrollCore, bool) {
        let x = pos.x + self.child_viewport.x0;
        let y = pos.y + self.child_viewport.y0;
        if self.hide_bar {
            (self, false)
        } else if self.hits_vertical(x, y) {
            (ScrollCore { held: BarHeldState::Vertical(pos.y, self.offset()), ..self }, true)
        } else if self.hits_horizontal(x, y) {
            (ScrollCore { held: BarHeldState::Horizontal(pos.x, self.offset()), ..self }, true)
        } else {
            (ScrollCore { held: BarHeldState::Idle, ..self }, false)
        }
    }

    /// Handles a pointer press; returns whether it was consumed, in which
    /// case the pointer should be captured for this viewport.
    pub fn pointer_down(&mut self, pos: Point) -> (consumed: bool)
        requires
            old(self).wf(),
        ensures
            (*final(self), consumed) == old(self).pointer_down_spec(pos),
            final(self).wf(),
    {
        if self.hide_bar {
            return false;
        }
        let x = pos.x as i128 + self.child_viewport.x0 as i128;
        let y = pos.y as i128 + self.child_viewport.y0 as i128;
        let offset = Vec2::new(self.child_viewport.x0, self.child_viewport.y0);
        if self.point_hits_vertical_bar(x, y) {
            self.held = BarHeldState::Vertical(pos.y, offset);
            true
        } else if self.point_hits_horizontal_bar(x, y) {
            self.held = BarHeldState::Horizontal(pos.x, offset);
            true
        } else {
            self.held = BarHeldState::Idle;
            false
        }
    }

    /// A pointer release ends any drag; the release is never consumed.
    pub fn pointer_up(&mut self)
        requires
            old(self).wf(),
        ensures
            *final(self) == (ScrollCore { held: BarHeldState::Idle, ..*old(self) }),
            final(self).wf(),
    {
        self.held = BarHeldState::Idle;
    }

    /// The origin a drag asks for, on the dragged axis, when the pointer
    /// has moved `moved` since the drag began.
    pub open spec fn drag_target(anchor_offset: int, moved: int, content: int, view: int) -> int {
        anchor_offset + drag_distance(moved, content, view)
    }

    /// The state after a pointer move at `pos` (viewport-local), whether the
    /// move was consumed, and the new viewport if it changed. During a drag
    /// the dragged axis follows the pointer scaled by content / viewport from
    /// the anchor, the other axis keeps the anchor offset, and the move is
    /// still passed on. Otherwise a move over a thumb's region is consumed.
    pub open spec fn pointer_move_spec(self, pos: Point) -> (ScrollCore, bool, Option<Rect>) {
        if self.hide_bar {
            (self, false, None)
        } else {
            match self.held {
                BarHeldState::Vertical(anchor, off) => {
                    let y = ScrollCore::drag_target(
                        off.y as int,
                        pos.y - anchor,
                        self.child_size.height as int,
                        self.child_viewport.height_spec(),
                    );
                    (self.clamp_spec(off.x as int, y), false, self.clamp_change(off.x as int, y))
                },
                BarHeldState::Horizontal(anchor, off) => {
                    let x = ScrollCore::drag_target(
                        off.x as int,
                        pos.x - anchor,
                        self.child_size.width as int,
                        self.child_viewport.width_spec(),
                    );
                    (self.clamp_spec(x, off.y as int), false, self.clamp_change(x, off.y as int))
                },
                BarHeldState::Idle => {
                    let x = pos.x + self.child_viewport.x0;
                    let y = pos.y + self.child_viewport.y0;
                    (self, self.hits_vertical(x, y) || self.hits_horizontal(x, y), None)
                },
            }
        }
    }

    /// Handles a pointer move.
    pub fn pointer_move(&mut self, pos: Point) -> (r: PointerOutcome)
        requires
            old(self).wf(),
        ensures
            (*final(self), r.consumed, r.scrolled) == old(self).pointer_move_spec(pos),
            final(self).wf(),
    {
        if self.hide_bar {
            return PointerOutcome { consumed: false, scrolled: None };
        }
        let (vw, vh) = self.view_extent();
        match self.held {
            BarHeldState::Vertical(anchor, off) => {
                let d = drag_distance_exec(pos.y as i128 - anchor as i128, self.child_size.height, vh);
                let y = off.y as i128 + d;
                let scrolled = self.clamp_child_viewport(off.x as i128, y);
                PointerOutcome { consumed: false, scrolled }
            },
            BarHeldState::Horizontal(anchor, off) => {
                let d = drag_distance_exec(pos.x as i128 - anchor as i128, self.child_size.width, vw);
                let x = off.x as i128 + d;
                let scrolled = self.clamp_child_viewport(x, off.y as i128);
                PointerOutcome { consumed: false, scrolled }
            },
            BarHeldState::Idle => {
                let x = pos.x as i128 + self.child_viewport.x0 as i128;
                let y = pos.y as i128 + self.child_viewport.y0 as i128;
                let hit = self.point_hits_vertical_bar(x, y) || self.point_hits_horizontal_bar(x, y);
                PointerOutcome { consumed: hit, scrolled: None }
            },
        }
    }

    /// Either scrollbar is being dragged.
    pub fn are_bars_held(&self) -> (r: bool)
        ensures
            r == !(self.held is Idle),
    {
        !matches!(self.held, BarHeldState::Idle)
    }

    /// The state after a layout pass that measured the child (none when it
    /// has not been laid out yet) and allocated `outer`: sizes are replaced
    /// and the old viewport origin is clamped against them.
    pub open spec fn layout_spec(self, measured: Option<Size>, outer: Size, padding: Padding) -> ScrollCore {
        let sized = ScrollCore {
            size: outer,
            actual_rect: content_rect(outer, padding),
            child_size: measured_or_zero(measured),
            ..self
        };
        sized.clamp_spec(self.child_viewport.x0 as int, self.child_viewport.y0 as int)
    }

    /// Replaces the sizes from a layout pass; returns whether the child's
    /// size changed, in which case a fresh layout is due.
    pub fn update_size(&mut self, measured: Option<Size>, outer: Size, padding: &Padding) -> (changed: bool)
        ensures
            *final(self) == (ScrollCore {
                size: outer,
                actual_rect: content_rect(outer, *padding),
                child_size: measured_or_zero(measured),
                ..*old(self)
            }),
            changed == (old(self).child_size != measured_or_zero(measured)),
            final(self).rect_ok(),
    {
        let new_child = match measured {
            Some(m) => m,
            None => Size::new(0, 0),
        };
        let changed = new_child != self.child_size;
        self.child_size = new_child;
        self.size = outer;
        self.actual_rect = content_rect_exec(outer, padding);
        changed
    }

    /// A layout pass: sizes are replaced, then the viewport is clamped again,
    /// since content or viewport may have shrunk.
    pub fn compute_layout(&mut self, measured: Option<Size>, outer: Size, padding: &Padding) -> (r: LayoutOutcome)
        ensures
            *final(self) == old(self).layout_spec(measured, outer, *padding),
            r.size_changed == (old(self).child_size != measured_or_zero(measured)),
            r.scrolled == (if final(self).child_viewport == old(self).child_viewport {
                None
            } else {
                Some(final(self).child_viewport)
            }),
            final(self).wf(),
    {
        let x = self.child_viewport.x0 as i128;
        let y = self.child_viewport.y0 as i128;
        let size_changed = self.update_size(measured, outer, padding);
        let scrolled = self.clamp_child_viewport(x, y);
        LayoutOutcome { size_changed, scrolled }
    }

    /// The state after an update message.
    pub open spec fn update_spec(self, msg: ScrollUpdate) -> ScrollCore {
        match msg {
            ScrollUpdate::EnsureVisible(r) => self.pan_spec(r),
            ScrollUpdate::ScrollDelta(d) => self.delta_spec(d),
            ScrollUpdate::ScrollTo(p) => self.clamp_spec(p.x as int, p.y as int),
            ScrollUpdate::ScrollBarColor(c) => ScrollCore { scroll_bar_color: c, ..self },
            ScrollUpdate::HiddenBar(b) => ScrollCore { hide_bar: b, ..self },
        }
    }

    /// Applies an update message; returns the new viewport if it changed.
    /// Every message asks for a fresh layout.
    pub fn update(&mut self, msg: ScrollUpdate) -> (scrolled: Option<Rect>)
        requires
            old(self).wf(),
        ensures
            *final(self) == old(self).update_spec(msg),
            scrolled == (if final(self).child_viewport == old(self).child_viewport {
                None
            } else {
                Some(final(self).child_viewport)
            }),
            final(self).wf(),
    {
        match msg {
            ScrollUpdate::EnsureVisible(r) => self.pan_to_visible(r),
            ScrollUpdate::ScrollDelta(d) => self.scroll_delta(d),
            ScrollUpdate::ScrollTo(p) => self.scroll_to(p),
            ScrollUpdate::ScrollBarColor(c) => {
                self.scroll_bar_color = c;
                None
            },
            ScrollUpdate::HiddenBar(b) => {
                self.hide_bar = b;
                None
            },
        }
    }

    /// What to paint: clip to the content rectangle, translate by the
    /// negated scroll offset and paint the child; then, unless hidden, fill
    /// the thumbs, unclipped and untranslated.
    pub fn paint(&self) -> (r: PaintPlan)
        requires
            self.wf(),
        ensures
            r.clip == self.actual_rect,
            r.offset == (Vec2 { x: -self.child_viewport.x0 as i64, y: -self.child_viewport.y0 as i64 }),
            r.color == self.scroll_bar_color,
            r.bars@ == (if self.hide_bar { Seq::empty() } else { self.painted_bars() }),
    {
        let bars = if self.hide_bar { Vec::new() } else { self.draw_bars() };
        PaintPlan {
            clip: self.actual_rect,
            offset: Vec2::new(0 - self.child_viewport.x0, 0 - self.child_viewport.y0),
            color: self.scroll_bar_color,
            bars,
        }
    }

    /// The first step of event dispatch, before the child sees the event:
    /// scrollbar hit-testing and drags. A consumed event goes no further.
    pub fn event(&mut self, ev: ScrollEvent) -> (r: PointerOutcome)
        requires
            old(self).wf(),
        ensures
            match ev {
                ScrollEvent::PointerDown(p) => {
                    &&& (*final(self), r.consumed) == old(self).pointer_down_spec(p)
                    &&& r.scrolled is None
                },
                ScrollEvent::PointerUp => {
                    &&& *final(self) == (ScrollCore { held: BarHeldState::Idle, ..*old(self) })
                    &&& !r.consumed && r.scrolled is None
                },
                ScrollEvent::PointerMove(p) => (*final(self), r.consumed, r.scrolled)
                    == old(self).pointer_move_spec(p),
                _ => *final(self) == *old(self) && !r.consumed && r.scrolled is None,
            },
            final(self).wf(),
    {
        match ev {
            ScrollEvent::PointerDown(p) => {
                let consumed = self.pointer_down(p);
                PointerOutcome { consumed, scrolled: None }
            },
            ScrollEvent::PointerUp => {
                self.pointer_up();
                PointerOutcome { consumed: false, scrolled: None }
            },
            ScrollEvent::PointerMove(p) => self.pointer_move(p),
            _ => PointerOutcome { consumed: false, scrolled: None },
        }
    }

    /// Whether the registered listener gets the event after the child:
    /// only a wheel event that the child did not consume.
    pub fn asks_listener(ev: ScrollEvent, child_consumed: bool) -> (r: bool)
        ensures
            r == (!child_consumed && ev is Wheel),
    {
        !child_consumed && matches!(ev, ScrollEvent::Wheel(_))
    }

    /// The steps of event dispatch after the first one: an event the child
    /// consumed stops there; a wheel event that the listener consumed stops
    /// there; any other wheel event scrolls by its delta and is consumed; any
    /// other event is left alone. `listener_consumed` is only read for a
    /// wheel event that the child did not consume.
    pub fn finish_event(&mut self, ev: ScrollEvent, child_consumed: bool, listener_consumed: bool) -> (r: PointerOutcome)
        requires
            old(self).wf(),
        ensures
            child_consumed ==> *final(self) == *old(self) && r.consumed && r.scrolled is None,
            !child_consumed ==> match ev {
                ScrollEvent::Wheel(d) => if listener_consumed {
                    *final(self) == *old(self) && r.consumed && r.scrolled is None
                } else {
                    &&& *final(self) == old(self).delta_spec(d)
                    &&& r.consumed
                    &&& r.scrolled == old(self).clamp_change(
                        old(self).child_viewport.x0 + d.x,
                        old(self).child_viewport.y0 + d.y,
                    )
                },
                _ => *final(self) == *old(self) && !r.consumed && r.scrolled is None,
            },
            final(self).wf(),
    {
        if child_consumed {
            return PointerOutcome { consumed: true, scrolled: None };
        }
        match ev {
            ScrollEvent::Wheel(d) => {
                if listener_consumed {
                    PointerOutcome { consumed: true, scrolled: None }
                } else {
                    let scrolled = self.scroll_delta(d);
                    PointerOutcome { consumed: true, scrolled }
                }
            },
            _ => PointerOutcome { consumed: false, scrolled: None },
        }
    }

    /// Tests the well-formedness that every state-changing method asks for.
    pub fn is_wf(&self) -> (r: bool)
        ensures
            r == self.wf(),
    {
        let a = self.actual_rect;
        if !(0 <= a.x0 && a.x0 <= EDGE_LIMIT && 0 <= a.y0 && a.y0 <= EDGE_LIMIT) {
            return false;
        }
        if !(-EDGE_LIMIT <= a.x1 && a.x1 <= EDGE_LIMIT && -EDGE_LIMIT <= a.y1 && a.y1 <= EDGE_LIMIT) {
            return false;
        }
        let w: i64 = if a.x1 >= a.x0 { a.x1 - a.x0 } else { 0 };
        let h: i64 = if a.y1 >= a.y0 { a.y1 - a.y0 } else { 0 };
        if w > u32::MAX as i64 || h > u32::MAX as i64 {
            return false;
        }
        let v = self.child_viewport;
        let cw = self.child_size.width as i64;
        let ch = self.child_size.height as i64;
        let max_x: i64 = if w >= cw { 0 } else { cw - w };
        let max_y: i64 = if h >= ch { 0 } else { ch - h };
        0 <= v.x0 && v.x0 <= max_x && 0 <= v.y0 && v.y0 <= max_y
            && v.x1 as i128 - v.x0 as i128 == w as i128
            && v.y1 as i128 - v.y0 as i128 == h as i128
    }
}

} // verus!
