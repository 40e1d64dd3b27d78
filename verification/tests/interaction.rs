use fractalwonder_ui::interaction::{
    interaction_step, InteractionEvent, InteractionState, InteractionTimer, INTERACTION_TIMEOUT_MS,
};

#[test]
fn drag_then_timeout_ends_session() {
    let mut s = InteractionState::new();
    let a = interaction_step(&mut s, InteractionEvent::PointerDown);
    assert!(a.start_session && a.clear_timer);
    s.session_active = true; // the driver captured the canvas
    assert!(s.is_interacting());
    let a = interaction_step(&mut s, InteractionEvent::PointerMove);
    assert!(a.track_drag);
    let a = interaction_step(&mut s, InteractionEvent::Timeout);
    assert!(!a.end_session, "no end while dragging");
    let a = interaction_step(&mut s, InteractionEvent::PointerUp);
    assert!(a.restart_timer);
    assert!(!s.is_interacting());
    let a = interaction_step(&mut s, InteractionEvent::Timeout);
    assert!(a.end_session);
    assert!(!s.session_active);
}

#[test]
fn wheel_keeps_existing_session() {
    let mut s = InteractionState::new();
    let a = interaction_step(&mut s, InteractionEvent::Wheel);
    assert!(a.start_session && a.restart_timer);
    s.session_active = true;
    let a = interaction_step(&mut s, InteractionEvent::DoubleClick);
    assert!(!a.start_session);
    let a = interaction_step(&mut s, InteractionEvent::Resize);
    assert!(!a.start_session, "already zooming");
    assert!(s.resizing && s.zooming);
    let a = interaction_step(&mut s, InteractionEvent::PointerMove);
    assert!(!a.track_drag);
}

#[test]
fn resize_starts_session_when_idle() {
    let mut s = InteractionState::new();
    let a = interaction_step(&mut s, InteractionEvent::Resize);
    assert!(a.start_session);
    assert!(s.is_interacting());
}

#[test]
fn session_ends_once_after_timeout() {
    assert_eq!(INTERACTION_TIMEOUT_MS, 1500);
    let mut tm = InteractionTimer::new();
    let a = tm.on_event(InteractionEvent::Wheel, 1000);
    assert!(a.start_session);
    tm.state.session_active = true;
    assert_eq!(tm.deadline, Some(2500));
    tm.on_event(InteractionEvent::Wheel, 2000);
    assert_eq!(tm.deadline, Some(3500));
    assert!(!tm.on_tick(3499).end_session);
    let a = tm.on_tick(3500);
    assert!(a.end_session);
    assert!(!tm.state.session_active);
    assert_eq!(tm.deadline, None);
    assert!(!tm.on_tick(9999).end_session);
}

#[test]
fn no_timeout_during_drag() {
    let mut tm = InteractionTimer::new();
    tm.on_event(InteractionEvent::PointerDown, 0);
    assert_eq!(tm.deadline, None);
    assert!(!tm.on_tick(100_000).end_session);
    tm.on_event(InteractionEvent::PointerUp, 500);
    assert_eq!(tm.deadline, Some(2000));
    assert!(tm.on_tick(2000).end_session);
}
