//! Decisions of the canvas pan/zoom interaction: when an interaction
//! session starts and ends, and what happens to the inactivity timer. The
//! driver keeps the preview geometry (offsets, zoom, transform sequence)
//! and performs the actions these functions ask for.

use vstd::prelude::*;

verus! {

/// Milliseconds of inactivity after which an interaction session ends.
pub const INTERACTION_TIMEOUT_MS: u64 = 1500;

/// Interaction flags of the canvas.
#[derive(Clone, Copy, Debug, PartialEq, Eq, Structural)]
pub struct InteractionState {
    /// A session is open: the canvas image was captured at its start.
    pub session_active: bool,
    pub dragging: bool,
    pub zooming: bool,
    pub resizing: bool,
}

/// Input events of the canvas interaction.
#[derive(Clone, Copy, Debug, PartialEq, Eq, Structural)]
pub enum InteractionEvent {
    PointerDown,
    PointerMove,
    PointerUp,
    Wheel,
    DoubleClick,
    Resize,
    /// The inactivity timer fired.
    Timeout,
}

/// What the driver does in response to an event.
#[derive(Clone, Copy, Debug, PartialEq, Eq, Structural)]
pub struct InteractionActions {
    /// Capture the canvas image and reset the preview geometry; on success
    /// the driver marks the session active.
    pub start_session: bool,
    /// Cancel the pending inactivity timer.
    pub clear_timer: bool,
    /// (Re)start the inactivity timer.
    pub restart_timer: bool,
    /// Record the pointer position as the drag offset.
    pub track_drag: bool,
    /// Compose the recorded transforms, report the result, empty the
    /// transform sequence, and close the session.
    pub end_session: bool,
}

/// No action.
pub open spec fn no_actions() -> InteractionActions {
    InteractionActions { start_session: false, clear_timer: false, restart_timer: false, track_drag: false, end_session: false }
}

/// The state and actions that follow `event` in state `s`.
pub open spec fn interaction_transition(s: InteractionState, event: InteractionEvent) -> (InteractionState, InteractionActions) {
    match event {
        InteractionEvent::PointerDown => (
            InteractionState { dragging: true, ..s },
            InteractionActions { start_session: !s.session_active, clear_timer: true, ..no_actions() },
        ),
        InteractionEvent::PointerMove => (s, InteractionActions { track_drag: s.dragging, ..no_actions() }),
        InteractionEvent::PointerUp => (
            InteractionState { dragging: false, ..s },
            InteractionActions { restart_timer: true, ..no_actions() },
        ),
        InteractionEvent::Wheel | InteractionEvent::DoubleClick => (
            InteractionState { zooming: true, ..s },
            InteractionActions { start_session: !s.session_active, restart_timer: true, ..no_actions() },
        ),
        InteractionEvent::Resize => (
            InteractionState { resizing: true, ..s },
            InteractionActions { start_session: !s.dragging && !s.zooming && !s.resizing, restart_timer: true, ..no_actions() },
        ),
        InteractionEvent::Timeout => if s.dragging {
            (s, no_actions())
        } else {
            (
                InteractionState { session_active: false, zooming: false, resizing: false, ..s },
                InteractionActions { end_session: true, ..no_actions() },
            )
        },
    }
}

/// The user is interacting: dragging, zooming or resizing.
pub open spec fn interacting(s: InteractionState) -> bool {
    s.dragging || s.zooming || s.resizing
}

impl InteractionState {
    /// No session, no interaction.
    pub fn new() -> (r: Self)
        ensures
            r == (InteractionState { session_active: false, dragging: false, zooming: false, resizing: false }),
    {
        InteractionState { session_active: false, dragging: false, zooming: false, resizing: false }
    }

    /// Whether the user is interacting (dragging, zooming or resizing).
    pub fn is_interacting(&self) -> (r: bool)
        ensures
            r == interacting(*self),
    {
        self.dragging || self.zooming || self.resizing
    }
}

/// Apply `event` to the interaction state and return the driver's actions.
pub fn interaction_step(state: &mut InteractionState, event: InteractionEvent) -> (actions: InteractionActions)
    ensures
        (*final(state), actions) == interaction_transition(*old(state), event),
{
    let none = InteractionActions { start_session: false, clear_timer: false, restart_timer: false, track_drag: false, end_session: false };
    match event {
        InteractionEvent::PointerDown => {
            let start = !state.session_active;
            state.dragging = true;
            InteractionActions { start_session: start, clear_timer: true, ..none }
        },
        InteractionEvent::PointerMove => InteractionActions { track_drag: state.dragging, ..none },
        InteractionEvent::PointerUp => {
            state.dragging = false;
            InteractionActions { restart_timer: true, ..none }
        },
        InteractionEvent::Wheel | InteractionEvent::DoubleClick => {
            let start = !state.session_active;
            state.zooming = true;
            InteractionActions { start_session: start, restart_timer: true, ..none }
        },
        InteractionEvent::Resize => {
            let start = !state.dragging && !state.zooming && !state.resizing;
            state.resizing = true;
            InteractionActions { start_session: start, restart_timer: true, ..none }
        },
        InteractionEvent::Timeout => {
            if state.dragging {
                none
            } else {
                state.session_active = false;
                state.zooming = false;
                state.resizing = false;
                InteractionActions { end_session: true, ..none }
            }
        },
    }
}

/// Pressing the pointer starts a drag and stops the timer, and captures
/// the canvas only when no session is open: inside an open session (say a
/// drag released less than the timeout ago) the session and its preview
/// are kept. Wheel and double-click likewise start a session only when none
/// is open.
pub proof fn lemma_capture_only_without_open_session(s: InteractionState)
    ensures
        interaction_transition(s, InteractionEvent::PointerDown).1.start_session == !s.session_active,
        interaction_transition(s, InteractionEvent::PointerDown).1.clear_timer,
        !interaction_transition(s, InteractionEvent::PointerDown).1.restart_timer,
        !interaction_transition(s, InteractionEvent::PointerDown).1.end_session,
        interaction_transition(s, InteractionEvent::PointerDown).0.dragging,
        interaction_transition(s, InteractionEvent::PointerDown).0.session_active == s.session_active,
        interaction_transition(s, InteractionEvent::Wheel).1.start_session == !s.session_active,
        interaction_transition(s, InteractionEvent::DoubleClick).1.start_session == !s.session_active,
{
}

/// The inactivity timeout never ends a session during a drag; otherwise it
/// ends the session and the interaction. Every event that can start an
/// interaction leaves the user interacting, and releasing the pointer
/// always ends the drag and arms the timer.
pub proof fn lemma_interaction_properties(s: InteractionState)
    ensures
        s.dragging ==> interaction_transition(s, InteractionEvent::Timeout) == (s, no_actions()),
        !s.dragging ==> !interacting(interaction_transition(s, InteractionEvent::Timeout).0)
            && !interaction_transition(s, InteractionEvent::Timeout).0.session_active
            && interaction_transition(s, InteractionEvent::Timeout).1.end_session,
        interacting(interaction_transition(s, InteractionEvent::PointerDown).0),
        interacting(interaction_transition(s, InteractionEvent::Wheel).0),
        interacting(interaction_transition(s, InteractionEvent::DoubleClick).0),
        interacting(interaction_transition(s, InteractionEvent::Resize).0),
        !interaction_transition(s, InteractionEvent::PointerUp).0.dragging,
        interaction_transition(s, InteractionEvent::PointerUp).1.restart_timer,
{
}


/// The interaction state with the deadline of its inactivity timer
/// (milliseconds on the driver's clock; `None` when the timer is off).
#[derive(Clone, Copy, Debug, PartialEq, Eq, Structural)]
pub struct InteractionTimer {
    pub state: InteractionState,
    pub deadline: Option<u64>,
}

/// The timer and actions after input `event` at time `now`: the event's
/// transition, with the deadline moved to `now + INTERACTION_TIMEOUT_MS`
/// when the timer restarts and cleared when it is cancelled.
pub open spec fn timed_event_transition(t: InteractionTimer, event: InteractionEvent, now: u64) -> (InteractionTimer, InteractionActions) {
    let (s, a) = interaction_transition(t.state, event);
    let deadline = if a.restart_timer {
        Some((now + INTERACTION_TIMEOUT_MS) as u64)
    } else if a.clear_timer {
        None
    } else {
        t.deadline
    };
    (InteractionTimer { state: s, deadline }, a)
}

/// The timer and actions when the clock reads `now`: once the deadline is
/// reached the timer fires (the Timeout transition) and is off afterwards;
/// before that nothing happens.
pub open spec fn timed_tick_transition(t: InteractionTimer, now: u64) -> (InteractionTimer, InteractionActions) {
    if t.deadline is Some && now >= t.deadline.unwrap() {
        let (s, a) = interaction_transition(t.state, InteractionEvent::Timeout);
        (InteractionTimer { state: s, deadline: None }, a)
    } else {
        (t, no_actions())
    }
}

impl InteractionTimer {
    /// No session, timer off.
    pub fn new() -> (r: Self)
        ensures
            r == (InteractionTimer { state: InteractionState { session_active: false, dragging: false, zooming: false, resizing: false }, deadline: None }),
    {
        InteractionTimer { state: InteractionState::new(), deadline: None }
    }

    /// An input event at time `now`.
    pub fn on_event(&mut self, event: InteractionEvent, now: u64) -> (actions: InteractionActions)
        requires
            now + INTERACTION_TIMEOUT_MS <= u64::MAX,
        ensures
            (*final(self), actions) == timed_event_transition(*old(self), event, now),
    {
        let actions = interaction_step(&mut self.state, event);
        if actions.restart_timer {
            self.deadline = Some(now + INTERACTION_TIMEOUT_MS);
        } else if actions.clear_timer {
            self.deadline = None;
        }
        actions
    }

    /// The clock reads `now`.
    pub fn on_tick(&mut self, now: u64) -> (actions: InteractionActions)
        ensures
            (*final(self), actions) == timed_tick_transition(*old(self), now),
    {
        match self.deadline {
            Some(d) => {
                if now >= d {
                    let actions = interaction_step(&mut self.state, InteractionEvent::Timeout);
                    self.deadline = None;
                    actions
                } else {
                    InteractionActions { start_session: false, clear_timer: false, restart_timer: false, track_drag: false, end_session: false }
                }
            },
            None => InteractionActions { start_session: false, clear_timer: false, restart_timer: false, track_drag: false, end_session: false },
        }
    }
}

/// A session ends once, `INTERACTION_TIMEOUT_MS` after the last input:
/// pointer-up, wheel, double-click and resize at time `t` set the deadline
/// to `t + INTERACTION_TIMEOUT_MS` (so each one restarts the wait) and a
/// pointer-down turns the timer off. With no further input, a tick before
/// the deadline does nothing; a tick at or after it ends the session unless
/// a drag is in progress, and turns the timer off, so a later tick does
/// nothing more.
pub proof fn lemma_session_ends_once_after_timeout(tm: InteractionTimer, event: InteractionEvent, t: u64, now: u64, later: u64)
    requires
        t + INTERACTION_TIMEOUT_MS <= u64::MAX,
    ensures
        (event == InteractionEvent::PointerUp || event == InteractionEvent::Wheel
            || event == InteractionEvent::DoubleClick || event == InteractionEvent::Resize)
            ==> timed_event_transition(tm, event, t).0.deadline == Some((t + INTERACTION_TIMEOUT_MS) as u64),
        event == InteractionEvent::PointerDown ==> timed_event_transition(tm, event, t).0.deadline is None,
        tm.deadline == Some((t + INTERACTION_TIMEOUT_MS) as u64) && now < t + INTERACTION_TIMEOUT_MS
            ==> timed_tick_transition(tm, now) == (tm, no_actions()),
        tm.deadline == Some((t + INTERACTION_TIMEOUT_MS) as u64) && now >= t + INTERACTION_TIMEOUT_MS && !tm.state.dragging
            ==> ({
                let (after, a) = timed_tick_transition(tm, now);
                &&& a.end_session
                &&& !after.state.session_active
                &&& after.deadline is None
                &&& timed_tick_transition(after, later) == (after, no_actions())
            }),
        tm.state.dragging ==> !timed_tick_transition(tm, now).1.end_session,
{
}

} // verus!
