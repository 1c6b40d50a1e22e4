//! Laws of the scroll viewport, proved over the state model.
use vstd::prelude::*;
use crate::arith::{lemma_ceil_div_bounds, lemma_scaled_ceil};
use crate::geometry::{Point, Rect, Size};
use crate::scroll::{
    clamp_axis_spec, content_rect, drag_distance, pan_delta, thumb_len, BarHeldState, LengthPercentage, Padding, resolve,
    ScrollCore, BAR_THICKNESS, SCROLLBAR_MIN_SIZE,
};

verus! {

/// Whatever origin is asked for, the clamp engine leaves a well-formed
/// viewport.
pub proof fn lemma_clamp_wf(s: ScrollCore, x: int, y: int)
    requires
        s.rect_ok(),
    ensures
        s.clamp_spec(x, y).wf(),
{
}

/// Clamping is idempotent: clamping the origin of a clamped viewport gives
/// that viewport back, for every desired origin, negative or far out of range.
pub proof fn lemma_clamp_idempotent(s: ScrollCore, x: int, y: int)
    requires
        s.rect_ok(),
    ensures
        s.clamped(s.clamped(x, y).x0 as int, s.clamped(x, y).y0 as int) == s.clamped(x, y),
        s.clamp_spec(x, y).clamp_spec(s.clamped(x, y).x0 as int, s.clamped(x, y).y0 as int)
            == s.clamp_spec(x, y),
        s.clamp_spec(x, y).clamp_change(s.clamped(x, y).x0 as int, s.clamped(x, y).y0 as int)
            is None,
{
}

/// On an axis where the content fits in the viewport, the clamped origin is
/// 0 whatever origin was asked for.
pub proof fn lemma_fit_forces_zero(s: ScrollCore, x: int, y: int)
    requires
        s.rect_ok(),
    ensures
        s.child_size.width <= s.view_w() ==> s.clamped(x, y).x0 == 0,
        s.child_size.height <= s.view_h() ==> s.clamped(x, y).y0 == 0,
{
}

/// A target already fully inside the viewport changes nothing.
pub proof fn lemma_pan_inside_is_still(s: ScrollCore, target: Rect)
    requires
        s.wf(),
        s.child_viewport.x0 <= target.x0 <= target.x1 <= s.child_viewport.x1,
        s.child_viewport.y0 <= target.y0 <= target.y1 <= s.child_viewport.y1,
    ensures
        pan_delta(s.child_viewport, target) == (0int, 0int),
        s.pan_spec(target) == s,
{
    assert(s.clamped(s.child_viewport.x0 as int, s.child_viewport.y0 as int) == s.child_viewport);
}

/// When the content extent equals the viewport extent on an axis, that
/// axis has no thumb.
pub proof fn lemma_no_thumb_when_equal(s: ScrollCore)
    requires
        s.wf(),
    ensures
        s.child_size.height == s.view_h() ==> s.vertical_bar() is None,
        s.child_size.width == s.view_w() ==> s.horizontal_bar() is None,
{
}

/// A thumb is never shorter than `SCROLLBAR_MIN_SIZE`, nor longer than the
/// viewport when the viewport is at least that long.
pub proof fn lemma_thumb_length(view: int, content: int)
    requires
        0 <= view < content,
    ensures
        thumb_len(view, content) >= SCROLLBAR_MIN_SIZE,
        view >= SCROLLBAR_MIN_SIZE ==> thumb_len(view, content) <= view,
{
    assert(0 * content <= view * view <= view * content) by (nonlinear_arith)
        requires 0 <= view < content;
    lemma_ceil_div_bounds(view * view, content, 0, view);
}

/// Dragging the vertical thumb from offset 0: a press on the thumb followed
/// by a move of `moved` pixels scrolls the content by `moved` divided by the
/// viewport / content scale, rounded down to a whole pixel (exact when the
/// division is), clamped, and keeps the horizontal offset.
pub proof fn lemma_drag_round_trip(s: ScrollCore, press: Point, moved: int, to: Point)
    requires
        s.wf(),
        !s.hide_bar,
        s.child_viewport.y0 == 0,
        s.hits_vertical(press.x + s.child_viewport.x0, press.y + s.child_viewport.y0),
        to.y == press.y + moved,
    ensures
        s.pointer_down_spec(press).1,
        s.pointer_down_spec(press).0.held == BarHeldState::Vertical(press.y, s.offset()),
        ({
            let after = s.pointer_down_spec(press).0.pointer_move_spec(to).0;
            &&& after.child_viewport.y0 == clamp_axis_spec(
                drag_distance(moved, s.child_size.height as int, s.view_h()),
                s.child_size.height as int,
                s.view_h(),
            )
            &&& after.child_viewport.x0 == s.child_viewport.x0
            &&& after.wf()
        }),
        s.view_h() > 0,
        s.view_h() > 0 && (moved * s.child_size.height) % s.view_h() == 0 ==> drag_distance(
            moved,
            s.child_size.height as int,
            s.view_h(),
        ) * s.view_h() == moved * s.child_size.height,
{
    if (moved * s.child_size.height) % s.view_h() == 0 {
        let x = moved * s.child_size.height;
        let d = s.view_h();
        vstd::arithmetic::div_mod::lemma_fundamental_div_mod(x, d);
        assert((x / d) * d == x) by (nonlinear_arith)
            requires x == d * (x / d) + x % d, x % d == 0;
    }
}

/// No position hits both thumbs' regions, unless both bars are present and
/// the viewport is too narrow for the horizontal thumb to travel beside the
/// vertical bar.
pub proof fn lemma_hit_exclusive(s: ScrollCore, x: int, y: int)
    requires
        s.wf(),
        0 < s.view_w() < s.child_size.width && 0 < s.view_h() < s.child_size.height ==> s.view_w()
            >= thumb_len(s.view_w(), s.child_size.width as int) + BAR_THICKNESS,
    ensures
        !(s.hits_vertical(x, y) && s.hits_horizontal(x, y)),
{
    let vw = s.view_w();
    let vh = s.view_h();
    let cw = s.child_size.width as int;
    let ch = s.child_size.height as int;
    if s.hits_vertical(x, y) && s.hits_horizontal(x, y) {
        let len = thumb_len(vw, cw);
        let travel = vw - len - BAR_THICKNESS;
        lemma_thumb_length(vw, cw);
        lemma_scaled_ceil(travel, s.child_viewport.x0 as int, cw - vw);
    }
}

/// A press whose content-space position hits the vertical region starts a
/// vertical drag, never a horizontal one.
pub proof fn lemma_press_prefers_vertical(s: ScrollCore, press: Point)
    requires
        s.wf(),
        !s.hide_bar,
        s.hits_vertical(press.x + s.child_viewport.x0, press.y + s.child_viewport.y0),
    ensures
        s.pointer_down_spec(press).0.held is Vertical,
{
}

/// Shrinking the allocated size below the content on an axis that used to
/// fit, without emptying the viewport, brings that axis's thumb in on the
/// next layout pass, with the viewport clamped again.
pub proof fn lemma_resize_reflow(s: ScrollCore, content: Size, outer: Size, padding: Padding)
    requires
        s.wf(),
        s.child_size == content,
        s.view_h() >= content.height,
        0 < content_rect(outer, padding).height_spec() < content.height,
    ensures
        s.vertical_bar() is None,
        s.layout_spec(Some(content), outer, padding).vertical_bar() is Some,
        s.layout_spec(Some(content), outer, padding).wf(),
{
    lemma_resolve_bound(padding.left, outer.width as int);
    lemma_resolve_bound(padding.right, outer.width as int);
    lemma_resolve_bound(padding.top, outer.width as int);
    lemma_resolve_bound(padding.bottom, outer.width as int);
}

proof fn lemma_resolve_bound(lp: LengthPercentage, width: int)
    requires
        0 <= width <= u32::MAX,
    ensures
        0 <= resolve(lp, width) <= 0x400_0000_0000_0000,
{
    if let LengthPercentage::Percent(p) = lp {
        assert(0 <= p * width <= 0xFFFF_FFFF * 0xFFFF_FFFF) by (nonlinear_arith)
            requires 0 <= p <= 0xFFFF_FFFF, 0 <= width <= 0xFFFF_FFFF;
        assert(0 <= (p * width) / 10000 <= 0x400_0000_0000_0000) by (nonlinear_arith)
            requires 0 <= p * width <= 0xFFFF_FFFF * 0xFFFF_FFFF;
    }
}

} // verus!
