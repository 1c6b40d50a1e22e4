use floem::geometry::{Point, Rect, Size, Vec2};
use floem::scroll::{
    BarHeldState, Color, LengthPercentage, Padding, ScrollCore, ScrollEvent, ScrollUpdate,
};
use floem::view::scroll;

fn no_padding() -> Padding {
    Padding {
        left: LengthPercentage::Points(0),
        right: LengthPercentage::Points(0),
        top: LengthPercentage::Points(0),
        bottom: LengthPercentage::Points(0),
    }
}

fn laid_out(content: (u32, u32), outer: (u32, u32)) -> ScrollCore {
    let mut s = ScrollCore::new();
    s.compute_layout(
        Some(Size::new(content.0, content.1)),
        Size::new(outer.0, outer.1),
        &no_padding(),
    );
    s
}

#[test]
fn clamp_far_out_negative_and_inside() {
    let s = laid_out((500, 500), (100, 100));
    assert_eq!(s.clamp(Point::new(1000, 1000)), Rect::new(400, 400, 500, 500));
    assert_eq!(s.clamp(Point::new(-50, -50)), Rect::new(0, 0, 100, 100));
    assert_eq!(s.clamp(Point::new(50, 50)), Rect::new(50, 50, 150, 150));
}

#[test]
fn clamp_twice_is_clamp_once() {
    let s = laid_out((500, 300), (100, 100));
    for p in [
        Point::new(i64::MIN, i64::MAX),
        Point::new(-7, 1000),
        Point::new(123, 45),
        Point::new(999, -999),
    ] {
        let once = s.clamp(p);
        let twice = s.clamp(Point::new(once.x0, once.y0));
        assert_eq!(once, twice);
    }
}

#[test]
fn fitting_axis_stays_at_zero() {
    let mut s = laid_out((50, 500), (100, 100));
    s.scroll_to(Point::new(30, 30));
    assert_eq!(s.child_viewport, Rect::new(0, 30, 100, 130));
    s.scroll_to(Point::new(-30, i64::MAX));
    assert_eq!(s.child_viewport, Rect::new(0, 400, 100, 500));
}

#[test]
fn pan_inside_changes_nothing() {
    let mut s = laid_out((500, 500), (100, 100));
    s.scroll_to(Point::new(20, 20));
    let before = s;
    assert_eq!(s.pan_to_visible(Rect::new(30, 30, 80, 80)), None);
    assert_eq!(s, before);
    assert_eq!(s.pan_to_visible(Rect::new(20, 20, 120, 120)), None);
    assert_eq!(s, before);
}

#[test]
fn pan_right_by_overshoot() {
    let mut s = laid_out((500, 500), (100, 100));
    let changed = s.pan_to_visible(Rect::new(150, 0, 250, 50));
    assert_eq!(changed, Some(Rect::new(150, 0, 250, 100)));
    assert_eq!(s.child_viewport.x0, 150);
    assert_eq!(s.child_viewport.y0, 0);
}

#[test]
fn pan_left_and_oversized_target() {
    let mut s = laid_out((500, 500), (100, 100));
    s.scroll_to(Point::new(300, 300));
    // Target before the viewport: pan back to its min edge.
    s.pan_to_visible(Rect::new(250, 320, 260, 330));
    assert_eq!(s.child_viewport, Rect::new(250, 300, 350, 400));
    // Oversized target: its origin corner is shown.
    s.pan_to_visible(Rect::new(10, 10, 400, 400));
    assert_eq!(s.child_viewport, Rect::new(10, 10, 110, 110));
}

#[test]
fn no_thumb_when_content_equals_viewport() {
    let s = laid_out((100, 100), (100, 100));
    assert_eq!(s.calc_vertical_bar_bounds(), None);
    assert_eq!(s.calc_horizontal_bar_bounds(), None);
    assert!(s.draw_bars().is_empty());
}

#[test]
fn thumb_has_minimum_length() {
    let s = laid_out((100, 10000), (100, 100));
    let b = s.calc_vertical_bar_bounds().unwrap();
    assert_eq!(b, Rect::new(90, 0, 100, 10));
    assert_eq!(b.y1 - b.y0, 10);
}

#[test]
fn vertical_thumb_follows_offset() {
    let mut s = laid_out((100, 1000), (100, 100));
    s.scroll_to(Point::new(0, 450));
    assert_eq!(s.calc_vertical_bar_bounds(), Some(Rect::new(90, 495, 100, 505)));
    assert_eq!(s.draw_bars(), vec![Rect::new(90, 45, 100, 55)]);
}

#[test]
fn proportional_thumb_length() {
    let s = laid_out((100, 300), (100, 200));
    // ceil(200 * 200 / 300) = 134
    let b = s.calc_vertical_bar_bounds().unwrap();
    assert_eq!(b.y1 - b.y0, 134);
}

#[test]
fn thin_horizontal_bar_on_cramped_viewport() {
    let mut s = laid_out((1000, 30), (100, 30));
    assert_eq!(s.calc_horizontal_bar_bounds(), Some(Rect::new(0, 25, 10, 30)));
    s.scroll_to(Point::new(900, 0));
    assert_eq!(s.calc_horizontal_bar_bounds(), Some(Rect::new(990, 25, 1000, 30)));
}

#[test]
fn horizontal_bar_leaves_room_for_vertical() {
    let mut s = laid_out((1000, 1000), (100, 100));
    s.scroll_to(Point::new(900, 0));
    // travel range 100 - 10 - 10 = 80
    assert_eq!(s.calc_horizontal_bar_bounds(), Some(Rect::new(980, 90, 990, 100)));
    assert_eq!(s.calc_vertical_bar_bounds(), Some(Rect::new(990, 0, 1000, 10)));
}

#[test]
fn vertical_drag_scales_pointer_motion() {
    let mut s = laid_out((100, 1000), (100, 100));
    assert!(s.pointer_down(Point::new(95, 5)));
    assert_eq!(s.held, BarHeldState::Vertical(5, Vec2::new(0, 0)));
    assert!(s.are_bars_held());
    let out = s.pointer_move(Point::new(95, 15));
    assert!(!out.consumed);
    assert_eq!(out.scrolled, Some(Rect::new(0, 100, 100, 200)));
    let out = s.pointer_move(Point::new(95, 200));
    assert_eq!(out.scrolled, Some(Rect::new(0, 900, 100, 1000)));
    s.pointer_up();
    assert_eq!(s.held, BarHeldState::Idle);
    assert!(!s.are_bars_held());
}

#[test]
fn drag_rounds_down() {
    let mut s = laid_out((100, 1000), (100, 300));
    s.scroll_to(Point::new(0, 500));
    assert_eq!(s.calc_vertical_bar_bounds(), Some(Rect::new(90, 650, 100, 740)));
    assert!(s.pointer_down(Point::new(95, 160)));
    // -1 * 1000 / 300 rounds down to -4
    s.pointer_move(Point::new(95, 159));
    assert_eq!(s.child_viewport.y0, 496);
}

#[test]
fn horizontal_drag() {
    let mut s = laid_out((1000, 100), (100, 100));
    assert!(s.pointer_down(Point::new(5, 95)));
    assert_eq!(s.held, BarHeldState::Horizontal(5, Vec2::new(0, 0)));
    let out = s.pointer_move(Point::new(8, 95));
    assert_eq!(out.scrolled, Some(Rect::new(30, 0, 130, 100)));
}

#[test]
fn hit_regions_are_exclusive() {
    let mut s = laid_out((1000, 1000), (100, 100));
    assert!(s.point_hits_vertical_bar(95, 5));
    assert!(!s.point_hits_horizontal_bar(95, 5));
    assert!(s.point_hits_horizontal_bar(5, 95));
    assert!(!s.point_hits_vertical_bar(5, 95));
    assert!(!s.point_hits_vertical_bar(50, 50));
    assert!(s.pointer_down(Point::new(95, 5)));
    assert!(matches!(s.held, BarHeldState::Vertical(..)));
}

#[test]
fn press_off_thumbs_is_passed_on() {
    let mut s = laid_out((1000, 1000), (100, 100));
    assert!(!s.pointer_down(Point::new(50, 50)));
    assert_eq!(s.held, BarHeldState::Idle);
}

#[test]
fn hover_over_thumb_is_consumed() {
    let mut s = laid_out((1000, 1000), (100, 100));
    let out = s.pointer_move(Point::new(95, 5));
    assert!(out.consumed);
    assert_eq!(out.scrolled, None);
    assert!(!s.pointer_move(Point::new(50, 50)).consumed);
}

#[test]
fn hidden_bars_take_no_input() {
    let mut s = laid_out((1000, 1000), (100, 100));
    s.update(ScrollUpdate::HiddenBar(true));
    assert!(!s.pointer_down(Point::new(95, 5)));
    assert_eq!(s.held, BarHeldState::Idle);
    assert!(!s.pointer_move(Point::new(95, 5)).consumed);
    assert!(s.paint().bars.is_empty());
}

#[test]
fn shrinking_brings_the_thumb_in() {
    let mut s = laid_out((100, 300), (100, 400));
    assert_eq!(s.calc_vertical_bar_bounds(), None);
    let out = s.compute_layout(Some(Size::new(100, 300)), Size::new(100, 200), &no_padding());
    assert!(!out.size_changed);
    assert_eq!(out.scrolled, Some(Rect::new(0, 0, 100, 200)));
    assert!(s.calc_vertical_bar_bounds().is_some());
}

#[test]
fn growing_reclamps_the_offset() {
    let mut s = laid_out((100, 300), (100, 250));
    s.scroll_to(Point::new(0, 50));
    assert_eq!(s.child_viewport.y0, 50);
    let out = s.compute_layout(Some(Size::new(100, 300)), Size::new(100, 280), &no_padding());
    assert_eq!(out.scrolled, Some(Rect::new(0, 20, 100, 300)));
}

#[test]
fn missing_measurement_is_zero_size() {
    let mut s = laid_out((100, 300), (100, 100));
    let out = s.compute_layout(None, Size::new(100, 100), &no_padding());
    assert!(out.size_changed);
    assert_eq!(s.child_size, Size::new(0, 0));
    assert_eq!(s.calc_vertical_bar_bounds(), None);
}

#[test]
fn percentage_padding_uses_width() {
    let mut s = ScrollCore::new();
    let padding = Padding {
        left: LengthPercentage::Points(10),
        right: LengthPercentage::Percent(1000),
        top: LengthPercentage::Percent(500),
        bottom: LengthPercentage::Points(0),
    };
    let changed = s.update_size(Some(Size::new(50, 50)), Size::new(200, 100), &padding);
    assert!(changed);
    assert_eq!(s.actual_rect, Rect::new(10, 10, 180, 100));
    assert_eq!(s.size, Size::new(200, 100));
}

#[test]
fn oversized_padding_gives_empty_rect() {
    let mut s = ScrollCore::new();
    let padding = Padding {
        left: LengthPercentage::Points(150),
        right: LengthPercentage::Points(100),
        top: LengthPercentage::Points(0),
        bottom: LengthPercentage::Points(0),
    };
    s.compute_layout(Some(Size::new(50, 50)), Size::new(200, 100), &padding);
    assert_eq!(s.actual_rect, Rect::new(150, 0, 100, 100));
    assert_eq!(s.child_viewport, Rect::new(0, 0, 0, 100));
    assert!(s.is_wf());
    assert_eq!(s.calc_horizontal_bar_bounds(), None);
}

#[test]
fn wheel_delta_is_clamped() {
    let mut s = laid_out((500, 500), (100, 100));
    assert_eq!(s.scroll_delta(Vec2::new(0, 30)), Some(Rect::new(0, 30, 100, 130)));
    assert_eq!(s.scroll_delta(Vec2::new(i64::MAX, i64::MIN)), Some(Rect::new(400, 0, 500, 100)));
    assert_eq!(s.scroll_delta(Vec2::new(0, 0)), None);
}

#[test]
fn paint_plan() {
    let mut s = laid_out((1000, 1000), (100, 100));
    s.scroll_to(Point::new(900, 450));
    let plan = s.paint();
    assert_eq!(plan.clip, Rect::new(0, 0, 100, 100));
    assert_eq!(plan.offset, Vec2::new(-900, -450));
    assert_eq!(plan.color, Color::rgba8(0, 0, 0, 179));
    assert_eq!(
        plan.bars,
        vec![Rect::new(90, 45, 100, 55), Rect::new(80, 90, 90, 100)]
    );
}

#[test]
fn builder_messages_apply_in_order() {
    let red = Color::rgba8(255, 0, 0, 255);
    let mut v = scroll(7, "child")
        .hide_bar(true)
        .scroll_bar_color(red)
        .on_scroll_to(Some(Point::new(10, 10)))
        .on_scroll_to(None)
        .on_scroll_delta(Vec2::new(5, 0))
        .on_ensure_visible(Rect::new(300, 0, 310, 10));
    assert_eq!(v.id(), 7);
    assert_eq!(v.debug_name(), "Scroll");
    assert_eq!(v.pending.len(), 5);
    v.core.compute_layout(Some(Size::new(500, 500)), Size::new(100, 100), &no_padding());
    assert!(v.apply_pending());
    assert!(v.pending.is_empty());
    assert!(v.core.hide_bar);
    assert_eq!(v.core.scroll_bar_color, red);
    assert_eq!(v.core.child_viewport, Rect::new(210, 0, 310, 100));
    assert_eq!(v.pan_to_visible(Rect::new(150, 0, 250, 50)), Some(Rect::new(150, 0, 250, 100)));
    assert_eq!(v.child, "child");
}

#[test]
fn press_on_overlapping_regions_prefers_vertical() {
    // A viewport too narrow for the horizontal thumb to travel beside the
    // vertical bar: the two regions overlap in the corner.
    let mut s = laid_out((1000, 1000), (15, 15));
    s.scroll_to(Point::new(0, 985));
    assert!(s.point_hits_vertical_bar(5, 997));
    assert!(s.point_hits_horizontal_bar(5, 997));
    assert!(s.pointer_down(Point::new(5, 12)));
    assert_eq!(s.held, BarHeldState::Vertical(12, Vec2::new(0, 985)));
}

#[test]
fn event_dispatch_steps() {
    let mut s = laid_out((100, 1000), (100, 100));
    assert!(s.event(ScrollEvent::PointerDown(Point::new(95, 5))).consumed);
    let out = s.event(ScrollEvent::PointerMove(Point::new(95, 6)));
    assert!(!out.consumed);
    assert_eq!(out.scrolled, Some(Rect::new(0, 10, 100, 110)));
    assert!(!s.event(ScrollEvent::PointerUp).consumed);
    assert_eq!(s.held, BarHeldState::Idle);
    let wheel = ScrollEvent::Wheel(Vec2::new(0, 40));
    assert!(!s.event(wheel).consumed);
    assert!(ScrollCore::asks_listener(wheel, false));
    assert!(!ScrollCore::asks_listener(wheel, true));
    assert!(!ScrollCore::asks_listener(ScrollEvent::PointerUp, false));
    let before = s;
    let out = s.finish_event(wheel, true, false);
    assert!(out.consumed);
    assert_eq!(s, before);
    let out = s.finish_event(wheel, false, true);
    assert!(out.consumed);
    assert_eq!(s, before);
    let out = s.finish_event(wheel, false, false);
    assert!(out.consumed);
    assert_eq!(out.scrolled, Some(Rect::new(0, 50, 100, 150)));
    let before = s;
    let out = s.finish_event(ScrollEvent::Other, false, false);
    assert!(!out.consumed);
    assert_eq!(s, before);
}

#[test]
fn fractional_percentage_padding() {
    let mut s = ScrollCore::new();
    let padding = Padding {
        left: LengthPercentage::Percent(1250),
        right: LengthPercentage::Points(0),
        top: LengthPercentage::Points(0),
        bottom: LengthPercentage::Points(0),
    };
    s.update_size(None, Size::new(200, 100), &padding);
    assert_eq!(s.actual_rect, Rect::new(25, 0, 200, 100));
}

#[test]
fn zero_size_viewport_has_no_thumbs() {
    let s = laid_out((100, 100), (0, 0));
    assert_eq!(s.child_viewport, Rect::new(0, 0, 0, 0));
    assert_eq!(s.calc_vertical_bar_bounds(), None);
    assert_eq!(s.calc_horizontal_bar_bounds(), None);
    assert!(s.draw_bars().is_empty());
    let s = laid_out((0, 0), (100, 100));
    assert_eq!(s.calc_vertical_bar_bounds(), None);
    assert_eq!(s.calc_horizontal_bar_bounds(), None);
}

#[test]
fn zero_height_viewport_keeps_full_horizontal_travel() {
    // No vertical bar on an empty-height viewport, so no room is reserved.
    let mut s = laid_out((1000, 1000), (100, 0));
    s.scroll_to(Point::new(900, 0));
    assert_eq!(s.calc_vertical_bar_bounds(), None);
    assert_eq!(s.calc_horizontal_bar_bounds(), Some(Rect::new(990, -5, 1000, 0)));
}

#[test]
fn drag_with_exact_scale() {
    // scale 100 / 400: a 3 pixel move scrolls 12 pixels.
    let mut s = laid_out((100, 400), (100, 100));
    let b = s.calc_vertical_bar_bounds().unwrap();
    assert_eq!(b, Rect::new(90, 0, 100, 25));
    assert!(s.pointer_down(Point::new(95, 1)));
    s.pointer_move(Point::new(95, 4));
    assert_eq!(s.child_viewport.y0, 12);
}
