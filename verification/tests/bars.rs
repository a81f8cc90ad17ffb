use scroll_widget::bars::{BarAction, BarEvent, ScrollBars, TimerToken};
use BarAction::{
    DragHorizontal, DragVertical, FadeStep, ForwardToChild, HoldHorizontal, HoldVertical, Invalidate,
    RequestAnimFrame, ResetFade, ScrollWheel, SetHandled, Show,
};

fn held_vertical() -> ScrollBars {
    ScrollBars { hovered: false, vertical_held: true, horizontal_held: false, timer_id: TimerToken(0) }
}

#[test]
fn fresh_bars_are_idle() {
    let b = ScrollBars::new();
    assert_eq!(b, ScrollBars { hovered: false, vertical_held: false, horizontal_held: false, timer_id: TimerToken(0) });
    assert_eq!(ScrollBars::default(), b);
    assert_eq!(TimerToken::invalid(), TimerToken(0));
}

#[test]
fn drag_moves_vertical_bar() {
    let mut b = held_vertical();
    let a = b.step(BarEvent::MouseMoved { over_vertical: false, over_horizontal: false });
    assert_eq!(a, vec![DragVertical, Invalidate]);
    assert_eq!(b, held_vertical());
}

#[test]
fn drag_moves_horizontal_bar() {
    let mut b = ScrollBars { horizontal_held: true, ..ScrollBars::new() };
    let a = b.step(BarEvent::MouseMoved { over_vertical: true, over_horizontal: true });
    assert_eq!(a, vec![DragHorizontal, Invalidate]);
}

#[test]
fn vertical_drag_wins_when_both_held() {
    let mut b = ScrollBars { vertical_held: true, horizontal_held: true, ..ScrollBars::new() };
    let a = b.step(BarEvent::MouseMoved { over_vertical: false, over_horizontal: false });
    assert_eq!(a, vec![DragVertical, Invalidate]);
}

#[test]
fn mouse_up_ends_drag_without_child() {
    let mut b = ScrollBars { vertical_held: true, horizontal_held: true, ..ScrollBars::new() };
    let a = b.step(BarEvent::MouseUp);
    assert!(a.is_empty());
    assert!(!b.vertical_held && !b.horizontal_held);
}

#[test]
fn mouse_up_without_drag_goes_to_child() {
    let mut b = ScrollBars::new();
    assert_eq!(b.step(BarEvent::MouseUp), vec![ForwardToChild]);
    assert_eq!(b, ScrollBars::new());
}

#[test]
fn press_on_vertical_bar_holds_it() {
    let mut b = ScrollBars::new();
    let a = b.step(BarEvent::MouseDown { over_vertical: true, over_horizontal: true });
    assert_eq!(a, vec![HoldVertical]);
    assert!(b.vertical_held && !b.horizontal_held);
}

#[test]
fn press_on_horizontal_bar_holds_it() {
    let mut b = ScrollBars::new();
    let a = b.step(BarEvent::MouseDown { over_vertical: false, over_horizontal: true });
    assert_eq!(a, vec![HoldHorizontal]);
    assert!(!b.vertical_held && b.horizontal_held);
}

#[test]
fn press_on_horizontal_bar_while_vertical_held() {
    let mut b = held_vertical();
    let a = b.step(BarEvent::MouseDown { over_vertical: false, over_horizontal: true });
    assert_eq!(a, vec![HoldHorizontal]);
    assert!(b.vertical_held && b.horizontal_held);
}

#[test]
fn press_elsewhere_goes_to_child() {
    let mut b = ScrollBars::new();
    let a = b.step(BarEvent::MouseDown { over_vertical: false, over_horizontal: false });
    assert_eq!(a, vec![ForwardToChild]);
    assert_eq!(b, ScrollBars::new());
}

#[test]
fn hovering_cancels_fade() {
    let mut b = ScrollBars { timer_id: TimerToken(7), ..ScrollBars::new() };
    let a = b.step(BarEvent::MouseMoved { over_vertical: false, over_horizontal: true });
    assert_eq!(a, vec![Show, Invalidate]);
    assert!(b.hovered);
    assert_eq!(b.timer_id, TimerToken(0));
}

#[test]
fn leaving_bar_restarts_fade() {
    let mut b = ScrollBars { hovered: true, ..ScrollBars::new() };
    let a = b.step(BarEvent::MouseMoved { over_vertical: false, over_horizontal: false });
    assert_eq!(a, vec![ForwardToChild, ResetFade]);
    assert!(!b.hovered);
}

#[test]
fn moving_elsewhere_without_hover() {
    let mut b = ScrollBars::new();
    let a = b.step(BarEvent::MouseMoved { over_vertical: false, over_horizontal: false });
    assert_eq!(a, vec![ForwardToChild]);
}

#[test]
fn resize_shows_bars() {
    let mut b = ScrollBars { timer_id: TimerToken(3), ..ScrollBars::new() };
    assert_eq!(b.step(BarEvent::Size), vec![ForwardToChild, ResetFade]);
    assert_eq!(b.timer_id, TimerToken(3));
}

#[test]
fn anim_frame_fades_without_timer() {
    let mut b = ScrollBars::new();
    assert_eq!(b.step(BarEvent::AnimFrame), vec![ForwardToChild, FadeStep]);
}

#[test]
fn anim_frame_waits_for_timer() {
    let mut b = ScrollBars { timer_id: TimerToken(5), ..ScrollBars::new() };
    assert_eq!(b.step(BarEvent::AnimFrame), vec![ForwardToChild]);
}

#[test]
fn fade_timer_firing_schedules_animation() {
    let mut b = ScrollBars::new();
    b.fade_timer_started(TimerToken(9));
    assert_eq!(b.timer_id, TimerToken(9));
    let a = b.step(BarEvent::Timer(TimerToken(9)));
    assert_eq!(a, vec![ForwardToChild, RequestAnimFrame]);
    assert_eq!(b.timer_id, TimerToken(0));
}

#[test]
fn other_timer_is_ignored() {
    let mut b = ScrollBars { timer_id: TimerToken(9), ..ScrollBars::new() };
    let a = b.step(BarEvent::Timer(TimerToken(4)));
    assert_eq!(a, vec![ForwardToChild]);
    assert_eq!(b.timer_id, TimerToken(9));
}

#[test]
fn wheel_goes_to_child_then_scrolls() {
    let mut b = held_vertical();
    assert_eq!(b.step(BarEvent::Wheel), vec![ForwardToChild, ScrollWheel]);
    assert_eq!(b, held_vertical());
}

#[test]
fn wheel_scroll_that_moved_is_handled() {
    assert_eq!(ScrollBars::wheel_scrolled(true), vec![Invalidate, SetHandled, ResetFade]);
    assert!(ScrollBars::wheel_scrolled(false).is_empty());
}

#[test]
fn other_events_go_to_child() {
    let mut b = ScrollBars { hovered: true, timer_id: TimerToken(2), ..ScrollBars::new() };
    let before = b;
    assert_eq!(b.step(BarEvent::Other), vec![ForwardToChild]);
    assert_eq!(b, before);
}

#[test]
fn handled_wheel_never_scrolls() {
    assert!(!ScrollBars::wheel_should_scroll(true));
    assert!(ScrollBars::wheel_should_scroll(false));
}
