use push2talk::{
    check_pressed, parse_keybind, poll_step, Controller, ControllerError, InputEvent, KeyEvent,
    KeyState, PollStep, Session, write_requested,
};

fn press(key: u32) -> InputEvent {
    InputEvent::Keyboard(KeyEvent { key, state: KeyState::Pressed })
}

fn release(key: u32) -> InputEvent {
    InputEvent::Keyboard(KeyEvent { key, state: KeyState::Released })
}

fn started() -> Session {
    let controller = Controller::new(None).unwrap();
    let (session, signals) = Session::start(controller);
    assert_eq!(signals, vec![false, true]);
    session
}

#[test]
fn keybind_defaults_to_68() {
    assert_eq!(parse_keybind(None), Ok(68));
}

#[test]
fn keybind_reads_decimal() {
    assert_eq!(parse_keybind(Some("30")), Ok(30));
    assert_eq!(parse_keybind(Some("+68")), Ok(68));
    assert_eq!(parse_keybind(Some("0")), Ok(0));
    assert_eq!(parse_keybind(Some("4294967295")), Ok(u32::MAX));
}

#[test]
fn keybind_rejects_non_numbers() {
    for bad in ["abc", "", "+", "-1", " 68", "68 ", "6a8", "4294967296", "99999999999"] {
        assert_eq!(parse_keybind(Some(bad)), Err(ControllerError::Config), "{bad:?}");
    }
}

#[test]
fn default_controller_watches_68() {
    let controller = Controller::new(None).unwrap();
    assert_eq!(controller.key(), 68);
    assert!(!controller.key_pressed());
    assert!(controller.should_mute());
}

#[test]
fn bad_keybind_fails_construction() {
    assert!(matches!(Controller::new(Some("abc")), Err(ControllerError::Config)));
}

#[test]
fn press_and_release_default_key() {
    let mut session = started();
    assert_eq!(session.offer(&press(68)), Some(false));
    assert_eq!(session.offer(&release(68)), Some(true));
}

#[test]
fn startup_sends_unmute_then_mute() {
    let mut controller = Controller::new(Some("30")).unwrap();
    assert_eq!(controller.bootstrap(), vec![false, true]);
    assert!(controller.last_mute());
    let (session, signals) = Session::start(Controller::new(Some("30")).unwrap());
    assert_eq!(signals, vec![false, true]);
    assert!(session.is_running());
    assert!(session.controller().last_mute());
}

#[test]
fn pressed_follows_last_event_of_key() {
    let mut session = started();
    let events = vec![press(68), release(68), press(68), press(30), release(30)];
    assert_eq!(session.offer_all(&events), vec![false, true, false]);
    assert!(session.controller().key_pressed());
    assert_eq!(session.offer_all(&vec![release(68)]), vec![true]);
    assert!(!session.controller().key_pressed());
}

#[test]
fn repeated_state_sends_once() {
    let mut session = started();
    assert_eq!(session.offer_all(&vec![press(68), press(68), press(68)]), vec![false]);
    assert_eq!(session.offer_all(&vec![release(68), release(68)]), vec![true]);
    assert_eq!(session.offer(&release(68)), None);
}

#[test]
fn paused_session_sends_nothing() {
    let mut session = started();
    let step = session.sync_pause(true);
    assert_eq!(step.signal, Some(false));
    assert!(!step.discard_pending);
    assert!(!session.is_running());
    assert_eq!(session.offer_all(&vec![press(68), release(68), press(68)]), Vec::<bool>::new());
    let again = session.sync_pause(true);
    assert_eq!(again.signal, None);
    assert!(!again.discard_pending);
}

#[test]
fn resume_keeps_state_from_pause_time() {
    let mut session = started();
    assert_eq!(session.offer(&press(68)), Some(false));
    assert_eq!(session.sync_pause(true).signal, Some(false));
    assert_eq!(session.offer(&release(68)), None);
    let step = session.sync_pause(false);
    assert_eq!(step.signal, Some(true));
    assert!(step.discard_pending);
    assert!(session.is_running());
    assert!(session.controller().key_pressed());
    assert!(!session.controller().last_mute());
    let steady = session.sync_pause(false);
    assert_eq!(steady.signal, None);
    assert!(!steady.discard_pending);
}

#[test]
fn other_keys_are_ignored() {
    let mut session = started();
    let events = vec![press(30), release(30), InputEvent::Other, press(69)];
    assert_eq!(session.offer_all(&events), Vec::<bool>::new());
    assert!(!session.controller().key_pressed());
    assert!(session.controller().last_mute());
}

#[test]
fn controller_handle_and_update() {
    let mut controller = Controller::new(Some("5")).unwrap();
    controller.update(&KeyEvent { key: 6, state: KeyState::Pressed }, true);
    assert!(!controller.key_pressed());
    controller.update(&KeyEvent { key: 5, state: KeyState::Pressed }, true);
    assert!(controller.key_pressed());
    assert!(!controller.should_mute());
    assert_eq!(controller.handle(&InputEvent::Other), None);
    assert_eq!(controller.handle(&press(5)), None);
    assert_eq!(controller.handle(&release(5)), Some(true));
    assert!(controller.last_mute());
}

#[test]
fn check_pressed_reads_state() {
    assert!(check_pressed(&KeyEvent { key: 1, state: KeyState::Pressed }));
    assert!(!check_pressed(&KeyEvent { key: 1, state: KeyState::Released }));
}

#[test]
fn poll_outcomes() {
    assert_eq!(poll_step(-1, true), Ok(PollStep::Retry));
    assert_eq!(poll_step(-1, false), Err(ControllerError::Poll));
    assert_eq!(poll_step(0, false), Ok(PollStep::Dispatch));
    assert_eq!(poll_step(1, true), Ok(PollStep::Dispatch));
}

#[test]
fn write_access_from_flags() {
    let (write_only, read_write) = (1, 2);
    assert!(!write_requested(0, write_only, read_write));
    assert!(write_requested(1, write_only, read_write));
    assert!(write_requested(2, write_only, read_write));
    assert!(write_requested(0o2000 | 2, write_only, read_write));
    assert!(!write_requested(0o4000, write_only, read_write));
}
