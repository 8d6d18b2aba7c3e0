use deurbel::controller::{Controller, Step, COOLDOWN_MS, IDLE_POLL_MS};

fn idle() -> Step {
    Step { message: None, ring: false, pause_ms: IDLE_POLL_MS }
}

#[test]
fn press_with_mute_released_dispatches_and_rings() {
    let mut c = Controller::new();
    assert_eq!(c.poll(true, true, true, 7, 5), idle());
    let s = c.poll(false, true, true, 7, 5);
    assert_eq!(s, Step { message: Some(2), ring: true, pause_ms: COOLDOWN_MS });
    assert_eq!(c.poll(false, true, true, 7, 5), idle());
}

#[test]
fn press_with_mute_asserted_dispatches_without_ringing() {
    let mut c = Controller::new();
    c.poll(true, true, false, 0, 3);
    let s = c.poll(false, true, false, 4, 3);
    assert_eq!(s, Step { message: Some(1), ring: false, pause_ms: 1000 });
}

#[test]
fn test_button_also_triggers() {
    let mut c = Controller::new();
    c.poll(false, true, true, 0, 4);
    assert_eq!(
        c.poll(false, false, true, 9, 4),
        Step { message: Some(1), ring: true, pause_ms: 1000 }
    );
}

#[test]
fn test_button_not_sampled_when_bell_falls() {
    let mut c = Controller::new();
    c.poll(true, true, true, 0, 4);
    // both fall together: one press, and the test button keeps its old level
    assert!(c.poll(false, false, true, 0, 4).message.is_some());
    assert_eq!(c.poll(false, false, true, 0, 4).message, Some(0));
}

#[test]
fn idle_poll_waits_fifty_ms() {
    let mut c = Controller::new();
    assert_eq!(c.poll(false, false, true, 0, 1), Step { message: None, ring: false, pause_ms: 50 });
}

#[test]
fn halted_controller_does_nothing() {
    let mut c = Controller::new();
    c.poll(true, true, true, 0, 2);
    deurbel::controller::panic(&mut c);
    assert_eq!(c.poll(false, false, true, 0, 2), idle());
}
