//! How the scroll bars react to events: which bar is being dragged, whether
//! the pointer hovers a bar, and when the bars fade out.
//!
//! The geometry (where the bars are, whether the pointer is over one, how far
//! a drag scrolls) and the fading opacity are computed by the caller; this
//! module decides what happens, as a step from the current state and an event
//! to the next state and the actions the caller then carries out, in order.
use vstd::prelude::*;

verus! {

/// Names a timer that was requested from the host; `TimerToken(0)` names none.
#[derive(Debug, Clone, Copy, PartialEq, Eq, Structural)]
pub struct TimerToken(pub u64);

impl TimerToken {
    /// The token that names no timer.
    pub open spec fn none() -> TimerToken {
        TimerToken(0)
    }

    /// The token that names no timer.
    pub fn invalid() -> (t: TimerToken)
        ensures
            t == TimerToken::none(),
    {
        TimerToken(0)
    }
}

/// An event, with what the caller measured of it.
///
/// For pointer events the caller says whether the pointer, in content
/// coordinates, lies on the vertical or the horizontal bar (a bar that is not
/// shown, because the content fits along its axis, is never under the pointer).
#[derive(Debug, Clone, Copy, PartialEq, Eq, Structural)]
pub enum BarEvent {
    MouseMoved { over_vertical: bool, over_horizontal: bool },
    MouseDown { over_vertical: bool, over_horizontal: bool },
    MouseUp,
    Wheel,
    /// The container's size changed.
    Size,
    /// An animation frame.
    AnimFrame,
    /// A timer fired.
    Timer(TimerToken),
    /// Any other event.
    Other,
}

/// What the caller does in answer to an event.
#[derive(Debug, Clone, Copy, PartialEq, Eq, Structural)]
pub enum BarAction {
    /// Scroll vertically so that the held vertical bar follows the pointer.
    DragVertical,
    /// Scroll horizontally so that the held horizontal bar follows the pointer.
    DragHorizontal,
    /// Ask for a repaint.
    Invalidate,
    /// Show the bars at full visibility.
    Show,
    /// Remember where on the vertical bar the pointer went down.
    HoldVertical,
    /// Remember where on the horizontal bar the pointer went down.
    HoldHorizontal,
    /// Hand the event, shifted by the scroll offset, to the child.
    ForwardToChild,
    /// Show the bars and start the timer after which they fade; report the
    /// new timer with `fade_timer_started`.
    ResetFade,
    /// Lower the bars' visibility by the frame's interval and ask for another
    /// animation frame while they are still visible.
    FadeStep,
    /// Ask for an animation frame.
    RequestAnimFrame,
    /// Unless the child handled the event, scroll by the wheel's delta and
    /// report with `wheel_scrolled` whether the content moved.
    ScrollWheel,
    /// Mark the event as handled.
    SetHandled,
}

/// The interaction state of the two scroll bars.
#[derive(Debug, Clone, Copy, PartialEq, Eq, Structural)]
pub struct ScrollBars {
    /// The pointer is over a bar.
    pub hovered: bool,
    /// The vertical bar is being dragged.
    pub vertical_held: bool,
    /// The horizontal bar is being dragged.
    pub horizontal_held: bool,
    /// The pending fade timer, or `TimerToken(0)`.
    pub timer_id: TimerToken,
}

/// Whether a bar is being dragged.
pub open spec fn dragging(s: ScrollBars) -> bool {
    s.vertical_held || s.horizontal_held
}

/// Whether the event belongs to a drag in progress: pointer moves and
/// releases while a bar is held.
pub open spec fn taken_by_drag(s: ScrollBars, e: BarEvent) -> bool {
    dragging(s) && (e is MouseMoved || e is MouseUp)
}

/// Whether the event is a pointer move or press over a bar.
pub open spec fn over_a_bar(e: BarEvent) -> bool {
    match e {
        BarEvent::MouseMoved { over_vertical, over_horizontal } => over_vertical || over_horizontal,
        BarEvent::MouseDown { over_vertical, over_horizontal } => over_vertical || over_horizontal,
        _ => false,
    }
}

/// The state after the event, and the actions it calls for, in order.
pub open spec fn step_result(s: ScrollBars, e: BarEvent) -> (ScrollBars, Seq<BarAction>) {
    if taken_by_drag(s, e) {
        if e is MouseMoved {
            if s.vertical_held {
                (s, seq![BarAction::DragVertical, BarAction::Invalidate])
            } else {
                (s, seq![BarAction::DragHorizontal, BarAction::Invalidate])
            }
        } else {
            (ScrollBars { vertical_held: false, horizontal_held: false, ..s }, seq![])
        }
    } else if over_a_bar(e) {
        match e {
            BarEvent::MouseDown { over_vertical, .. } => if over_vertical {
                (ScrollBars { vertical_held: true, ..s }, seq![BarAction::HoldVertical])
            } else {
                (ScrollBars { horizontal_held: true, ..s }, seq![BarAction::HoldHorizontal])
            },
            _ => (
                ScrollBars { hovered: true, timer_id: TimerToken::none(), ..s },
                seq![BarAction::Show, BarAction::Invalidate],
            ),
        }
    } else {
        let fwd = seq![BarAction::ForwardToChild];
        match e {
            BarEvent::MouseMoved { .. } => if s.hovered {
                (ScrollBars { hovered: false, ..s }, fwd.push(BarAction::ResetFade))
            } else {
                (s, fwd)
            },
            BarEvent::Size => (s, fwd.push(BarAction::ResetFade)),
            BarEvent::AnimFrame => if s.timer_id == TimerToken::none() {
                (s, fwd.push(BarAction::FadeStep))
            } else {
                (s, fwd)
            },
            BarEvent::Timer(id) => if id == s.timer_id {
                (ScrollBars { timer_id: TimerToken::none(), ..s }, fwd.push(BarAction::RequestAnimFrame))
            } else {
                (s, fwd)
            },
            BarEvent::Wheel => (s, fwd.push(BarAction::ScrollWheel)),
            _ => (s, fwd),
        }
    }
}

impl ScrollBars {
    /// Bars in their initial state.
    pub fn new() -> (r: ScrollBars)
        ensures
            r == ScrollBars::initial(),
    {
        ScrollBars { hovered: false, vertical_held: false, horizontal_held: false, timer_id: TimerToken::invalid() }
    }

    /// Takes one event: updates the state and returns the actions to carry
    /// out, in order.
    pub fn step(&mut self, e: BarEvent) -> (actions: Vec<BarAction>)
        ensures
            (*final(self), actions@) == step_result(*old(self), e),
    {
        let mut actions: Vec<BarAction> = Vec::new();
        let held = self.vertical_held || self.horizontal_held;
        let drag_event = match e {
            BarEvent::MouseMoved { .. } => true,
            BarEvent::MouseUp => true,
            _ => false,
        };
        if held && drag_event {
            match e {
                BarEvent::MouseMoved { .. } => {
                    if self.vertical_held {
                        actions.push(BarAction::DragVertical);
                    } else {
                        actions.push(BarAction::DragHorizontal);
                    }
                    actions.push(BarAction::Invalidate);
                },
                _ => {
                    self.vertical_held = false;
                    self.horizontal_held = false;
                },
            }
            return actions;
        }
        match e {
            BarEvent::MouseMoved { over_vertical, over_horizontal } => {
                if over_vertical || over_horizontal {
                    self.hovered = true;
                    self.timer_id = TimerToken::invalid();
                    actions.push(BarAction::Show);
                    actions.push(BarAction::Invalidate);
                } else {
                    actions.push(BarAction::ForwardToChild);
                    if self.hovered {
                        self.hovered = false;
                        actions.push(BarAction::ResetFade);
                    }
                }
            },
            BarEvent::MouseDown { over_vertical, over_horizontal } => {
                if over_vertical {
                    self.vertical_held = true;
                    actions.push(BarAction::HoldVertical);
                } else if over_horizontal {
                    self.horizontal_held = true;
                    actions.push(BarAction::HoldHorizontal);
                } else {
                    actions.push(BarAction::ForwardToChild);
                }
            },
            BarEvent::Size => {
                actions.push(BarAction::ForwardToChild);
                actions.push(BarAction::ResetFade);
            },
            BarEvent::AnimFrame => {
                actions.push(BarAction::ForwardToChild);
                if self.timer_id.0 == 0 {
                    actions.push(BarAction::FadeStep);
                }
            },
            BarEvent::Timer(id) => {
                actions.push(BarAction::ForwardToChild);
                if id.0 == self.timer_id.0 {
                    self.timer_id = TimerToken::invalid();
                    actions.push(BarAction::RequestAnimFrame);
                }
            },
            BarEvent::Wheel => {
                actions.push(BarAction::ForwardToChild);
                actions.push(BarAction::ScrollWheel);
            },
            _ => {
                actions.push(BarAction::ForwardToChild);
            },
        }
        actions
    }

    /// Records the fade timer that a `ResetFade` action started.
    pub fn fade_timer_started(&mut self, timer: TimerToken)
        ensures
            *final(self) == (ScrollBars { timer_id: timer, ..*old(self) }),
    {
        self.timer_id = timer;
    }

    /// Whether a `ScrollWheel` action scrolls: a wheel event that the child
    /// handled never scrolls the container.
    pub fn wheel_should_scroll(handled: bool) -> (r: bool)
        ensures
            r == !handled,
    {
        !handled
    }

    /// The actions that follow a `ScrollWheel` action, given whether the
    /// wheel moved the content: a move is repainted, marks the event as
    /// handled and shows the bars.
    pub fn wheel_scrolled(moved: bool) -> (actions: Vec<BarAction>)
        ensures
            actions@ == (if moved {
                seq![BarAction::Invalidate, BarAction::SetHandled, BarAction::ResetFade]
            } else {
                seq![]
            }),
    {
        let mut actions: Vec<BarAction> = Vec::new();
        if moved {
            actions.push(BarAction::Invalidate);
            actions.push(BarAction::SetHandled);
            actions.push(BarAction::ResetFade);
        }
        actions
    }
}

impl Default for ScrollBars {
    fn default() -> (r: ScrollBars)
        ensures
            r == ScrollBars::initial(),
    {
        ScrollBars::new()
    }
}

impl ScrollBars {
    /// No bar hovered or held, and no fade timer pending.
    pub open spec fn initial() -> ScrollBars {
        ScrollBars { hovered: false, vertical_held: false, horizontal_held: false, timer_id: TimerToken::none() }
    }
}

/// The child receives an event exactly when the bars do not take it: the
/// bars take pointer moves and releases while a bar is dragged, and pointer
/// moves and presses over a bar.
pub proof fn lemma_child_sees_untaken_events(s: ScrollBars, e: BarEvent)
    ensures
        step_result(s, e).1.contains(BarAction::ForwardToChild) <==> !taken_by_drag(s, e) && !over_a_bar(e),
{
    let r = step_result(s, e).1;
    if !taken_by_drag(s, e) && !over_a_bar(e) {
        assert(r[0] == BarAction::ForwardToChild);
    }
}

/// Releasing the mouse ends every drag.
pub proof fn lemma_mouse_up_releases(s: ScrollBars)
    ensures
        !step_result(s, BarEvent::MouseUp).0.vertical_held,
        !step_result(s, BarEvent::MouseUp).0.horizontal_held,
{
}

/// A drag starts only when the mouse goes down over a bar, and the bar under
/// the pointer is the one held, the vertical one first.
pub proof fn lemma_drag_starts_on_press(s: ScrollBars, e: BarEvent)
    ensures
        (!s.vertical_held && step_result(s, e).0.vertical_held)
            <==> (!s.vertical_held && e is MouseDown && e->MouseDown_over_vertical),
        (!s.horizontal_held && step_result(s, e).0.horizontal_held)
            <==> (!s.horizontal_held && e is MouseDown && !e->MouseDown_over_vertical
                && e->MouseDown_over_horizontal),
{
}

/// Moving the pointer onto a bar, when no bar is dragged, shows the bars and
/// cancels any fade in progress.
pub proof fn lemma_hover_cancels_fade(s: ScrollBars, over_vertical: bool, over_horizontal: bool)
    requires
        !dragging(s),
        over_vertical || over_horizontal,
    ensures
        ({
            let (n, a) = step_result(s, BarEvent::MouseMoved { over_vertical, over_horizontal });
            &&& n.hovered
            &&& n.timer_id == TimerToken::none()
            &&& a == seq![BarAction::Show, BarAction::Invalidate]
        }),
{
}

/// Moving the pointer off a hovered bar starts the fade again.
pub proof fn lemma_leaving_restarts_fade(s: ScrollBars)
    requires
        !dragging(s),
        s.hovered,
    ensures
        ({
            let (n, a) = step_result(s, BarEvent::MouseMoved { over_vertical: false, over_horizontal: false });
            &&& !n.hovered
            &&& a == seq![BarAction::ForwardToChild, BarAction::ResetFade]
        }),
{
}

/// The bars show whenever the container's size changes.
pub proof fn lemma_resize_shows_bars(s: ScrollBars)
    ensures
        step_result(s, BarEvent::Size) == (s, seq![BarAction::ForwardToChild, BarAction::ResetFade]),
{
}

/// The bars fade only on animation frames and only while no fade timer is
/// pending; such frames always fade them.
pub proof fn lemma_fade_needs_no_timer(s: ScrollBars, e: BarEvent)
    ensures
        step_result(s, e).1.contains(BarAction::FadeStep)
            <==> (e is AnimFrame && s.timer_id == TimerToken::none()),
{
    let r = step_result(s, e).1;
    if e is AnimFrame && s.timer_id == TimerToken::none() {
        assert(r[1] == BarAction::FadeStep);
    }
}

/// When the pending fade timer fires, it is cleared and the fade animation
/// is scheduled; any other timer leaves the bars as they are.
pub proof fn lemma_fade_timer_fires(s: ScrollBars, id: TimerToken)
    ensures
        id == s.timer_id ==> step_result(s, BarEvent::Timer(id)) == (
            ScrollBars { timer_id: TimerToken::none(), ..s },
            seq![BarAction::ForwardToChild, BarAction::RequestAnimFrame],
        ),
        id != s.timer_id ==> step_result(s, BarEvent::Timer(id)) == (s, seq![BarAction::ForwardToChild]),
{
}

/// A wheel event goes to the child first, and the bars scroll only after.
pub proof fn lemma_wheel_goes_to_child_first(s: ScrollBars)
    ensures
        step_result(s, BarEvent::Wheel) == (s, seq![BarAction::ForwardToChild, BarAction::ScrollWheel]),
{
}

/// Only pointer moves change whether a bar is hovered.
pub proof fn lemma_hover_changes_on_moves(s: ScrollBars, e: BarEvent)
    requires
        step_result(s, e).0.hovered != s.hovered,
    ensures
        e is MouseMoved,
{
}

/// While a bar is held, every pointer move scrolls so that the held bar
/// follows the pointer (the vertical one when both are held) and repaints,
/// and changes nothing of the bars' state, whatever the hover or the timer.
pub proof fn lemma_drag_follows_pointer(s: ScrollBars, over_vertical: bool, over_horizontal: bool)
    requires
        dragging(s),
    ensures
        ({
            let (n, a) = step_result(s, BarEvent::MouseMoved { over_vertical, over_horizontal });
            &&& n == s
            &&& s.vertical_held ==> a == seq![BarAction::DragVertical, BarAction::Invalidate]
            &&& !s.vertical_held ==> a == seq![BarAction::DragHorizontal, BarAction::Invalidate]
        }),
{
}

/// A press over a bar grabs it, whatever else holds: over the vertical bar
/// it holds the vertical bar and records the grab point on it; over the
/// horizontal bar only, it does the same for the horizontal bar. Nothing else
/// of the state changes and the child does not see the press.
pub proof fn lemma_press_grabs_bar(s: ScrollBars, over_vertical: bool, over_horizontal: bool)
    ensures
        over_vertical ==> step_result(s, BarEvent::MouseDown { over_vertical, over_horizontal }) == (
            ScrollBars { vertical_held: true, ..s },
            seq![BarAction::HoldVertical],
        ),
        !over_vertical && over_horizontal ==> step_result(
            s,
            BarEvent::MouseDown { over_vertical, over_horizontal },
        ) == (ScrollBars { horizontal_held: true, ..s }, seq![BarAction::HoldHorizontal]),
        !over_vertical && !over_horizontal ==> step_result(
            s,
            BarEvent::MouseDown { over_vertical, over_horizontal },
        ) == (s, seq![BarAction::ForwardToChild]),
{
}

/// Each event the bars do not take reaches the child exactly once, and before
/// anything else is done about it.
pub proof fn lemma_child_sees_event_once_first(s: ScrollBars, e: BarEvent)
    requires
        !taken_by_drag(s, e),
        !over_a_bar(e),
    ensures
        step_result(s, e).1.len() >= 1,
        step_result(s, e).1[0] == BarAction::ForwardToChild,
        !step_result(s, e).1.drop_first().contains(BarAction::ForwardToChild),
{
    let a = step_result(s, e).1;
    assert(a.drop_first().len() <= 1);
    if a.drop_first().len() == 1 {
        assert(a.drop_first()[0] == a[1]);
    }
}

/// No event calls for the same action twice.
pub proof fn lemma_actions_distinct(s: ScrollBars, e: BarEvent)
    ensures
        forall|i: int, j: int|
            0 <= i < j < step_result(s, e).1.len() ==> step_result(s, e).1[i] != step_result(s, e).1[j],
{
}

/// An animation frame never changes the bars' state: in particular a pending
/// fade timer stays pending, so the bars stay visible until it fires.
pub proof fn lemma_anim_frame_keeps_state(s: ScrollBars)
    ensures
        step_result(s, BarEvent::AnimFrame).0 == s,
{
}

/// A pointer move off the bars, when no bar is hovered or held, is only the
/// child's business: the bars' state, including a pending fade, is kept.
pub proof fn lemma_move_elsewhere_keeps_state(s: ScrollBars, e: BarEvent)
    requires
        !dragging(s),
        !s.hovered,
        e is MouseMoved,
        !over_a_bar(e),
    ensures
        step_result(s, e) == (s, seq![BarAction::ForwardToChild]),
{
}

/// How each part of the state changes, field by field:
/// - the fade timer is cleared when it fires or when the pointer moves onto
///   a bar with no bar held, and is otherwise kept;
/// - a bar is hovered after a pointer move with no bar held exactly when the
///   move is over a bar, and hover is otherwise kept;
/// - a bar becomes held when pressed, both are released when the mouse goes up
///   during a drag, and holds are otherwise kept.
pub proof fn lemma_state_changes(s: ScrollBars, e: BarEvent)
    ensures
        step_result(s, e).0.timer_id == (if e == BarEvent::Timer(s.timer_id) || (!dragging(s) && e is MouseMoved
            && over_a_bar(e)) {
            TimerToken::none()
        } else {
            s.timer_id
        }),
        step_result(s, e).0.hovered == (if !dragging(s) && e is MouseMoved {
            over_a_bar(e)
        } else {
            s.hovered
        }),
        step_result(s, e).0.vertical_held == (if dragging(s) && e is MouseUp {
            false
        } else if e is MouseDown && e->MouseDown_over_vertical {
            true
        } else {
            s.vertical_held
        }),
        step_result(s, e).0.horizontal_held == (if dragging(s) && e is MouseUp {
            false
        } else if e is MouseDown && !e->MouseDown_over_vertical && e->MouseDown_over_horizontal {
            true
        } else {
            s.horizontal_held
        }),
{
}

/// When each action is called for:
/// - a repaint exactly on pointer moves during a drag or over a bar;
/// - showing the bars without a timer exactly on pointer moves onto a bar with
///   no bar held;
/// - restarting the fade exactly on resizes and on moves off a hovered bar
///   with no bar held;
/// - fading exactly on animation frames with no fade timer pending;
/// - an animation frame exactly when the pending fade timer fires;
/// - wheel scrolling exactly on wheel events;
/// - marking handled never (only after a wheel scroll moved the content).
pub proof fn lemma_when_actions_happen(s: ScrollBars, e: BarEvent)
    ensures
        step_result(s, e).1.contains(BarAction::Invalidate) <==> (e is MouseMoved && (dragging(s) || over_a_bar(e))),
        step_result(s, e).1.contains(BarAction::Show) <==> (!dragging(s) && e is MouseMoved && over_a_bar(e)),
        step_result(s, e).1.contains(BarAction::ResetFade) <==> (e is Size || (!dragging(s) && e is MouseMoved
            && !over_a_bar(e) && s.hovered)),
        step_result(s, e).1.contains(BarAction::FadeStep) <==> (e is AnimFrame && s.timer_id == TimerToken::none()),
        step_result(s, e).1.contains(BarAction::RequestAnimFrame) <==> e == BarEvent::Timer(s.timer_id),
        step_result(s, e).1.contains(BarAction::ScrollWheel) <==> e is Wheel,
        !step_result(s, e).1.contains(BarAction::SetHandled),
{
    let a = step_result(s, e).1;
    if a.len() >= 1 {
        assert(a.contains(a[0]));
    }
    if a.len() >= 2 {
        assert(a.contains(a[1]));
    }
}

} // verus!
