//! The key/mute controller and the decisions of the loop that drives it.
//!
//! Holding the watched key down means "talk" (unmuted); releasing it means
//! muted. The loop that waits on the input device, reads the shared pause
//! flag and sends the signals lives outside this module: it hands each
//! observation to a [`Session`] and performs what comes back.

use crate::keybind::{configured_key, parse_keybind, setting_chars, ControllerError};
use vstd::prelude::*;

verus! {

/// Whether a key went down or came up.
#[derive(Debug, Clone, Copy, PartialEq, Eq, Structural)]
pub enum KeyState {
    Released,
    Pressed,
}

/// A keyboard event: the key's code and its new state.
#[derive(Debug, Clone, Copy, PartialEq, Eq, Structural)]
pub struct KeyEvent {
    pub key: u32,
    pub state: KeyState,
}

/// A decoded input event, as far as the controller looks into it.
#[derive(Debug, Clone, Copy, PartialEq, Eq, Structural)]
pub enum InputEvent {
    Keyboard(KeyEvent),
    Other,
}

/// Whether a keyboard event is a press.
pub fn check_pressed(key_event: &KeyEvent) -> (r: bool)
    ensures
        r == (key_event.state == KeyState::Pressed),
{
    match key_event.state {
        KeyState::Released => false,
        KeyState::Pressed => true,
    }
}

/// What a [`Controller`] holds: the watched keycode, whether that key is held
/// down, and the mute state that was last signalled for it.
pub struct ControllerState {
    pub key: u32,
    pub key_pressed: bool,
    pub last_mute: bool,
}

impl ControllerState {
    pub open spec fn should_mute(self) -> bool {
        !self.key_pressed
    }

    /// The state once `ev` has been looked at: only the watched key counts.
    pub open spec fn updated(self, ev: KeyEvent) -> ControllerState {
        if ev.key == self.key {
            ControllerState {
                key: self.key,
                key_pressed: ev.state == KeyState::Pressed,
                last_mute: self.last_mute,
            }
        } else {
            self
        }
    }

    /// The mute signal that handling `ev` sends, if any: the new mute state,
    /// when it differs from the last one signalled.
    pub open spec fn signal_for(self, ev: InputEvent) -> Option<bool> {
        match ev {
            InputEvent::Keyboard(k) => {
                let m = self.updated(k).should_mute();
                if m != self.last_mute {
                    Some(m)
                } else {
                    None
                }
            },
            InputEvent::Other => None,
        }
    }

    /// The state after handling `ev`.
    pub open spec fn handled(self, ev: InputEvent) -> ControllerState {
        match ev {
            InputEvent::Keyboard(k) => {
                let u = self.updated(k);
                ControllerState { key: u.key, key_pressed: u.key_pressed, last_mute: u.should_mute() }
            },
            InputEvent::Other => self,
        }
    }

    /// The last signalled mute state agrees with the key.
    pub open spec fn in_sync(self) -> bool {
        self.last_mute == self.should_mute()
    }
}

/// Watches one key and tells when the mute state changes.
pub struct Controller {
    key: u32,
    key_pressed: bool,
    last_mute: bool,
}

impl View for Controller {
    type V = ControllerState;

    closed spec fn view(&self) -> ControllerState {
        ControllerState { key: self.key, key_pressed: self.key_pressed, last_mute: self.last_mute }
    }
}

impl Controller {
    /// A controller for the key that `keybind` selects (the default keycode
    /// when it is `None`), with the key up.
    pub fn new(keybind: Option<&str>) -> (r: Result<Controller, ControllerError>)
        ensures
            match configured_key(setting_chars(keybind)) {
                Some(k) => match r {
                    Ok(c) => c@ == (ControllerState { key: k, key_pressed: false, last_mute: false }),
                    Err(_) => false,
                },
                None => r is Err && r->Err_0 == ControllerError::Config,
            },
    {
        let keybind_parsed = parse_keybind(keybind)?;
        Ok(Controller { key: keybind_parsed, key_pressed: false, last_mute: false })
    }

    pub fn key(&self) -> (r: u32)
        ensures
            r == self@.key,
    {
        self.key
    }

    pub fn key_pressed(&self) -> (r: bool)
        ensures
            r == self@.key_pressed,
    {
        self.key_pressed
    }

    pub fn last_mute(&self) -> (r: bool)
        ensures
            r == self@.last_mute,
    {
        self.last_mute
    }

    /// The mute state that the key asks for: muted unless it is held down.
    pub fn should_mute(&self) -> (r: bool)
        ensures
            r == self@.should_mute(),
    {
        !self.key_pressed
    }

    /// Records `pressed` as the watched key's state when `key_event` is about it.
    pub fn update(&mut self, key_event: &KeyEvent, pressed: bool)
        ensures
            final(self)@ == (ControllerState {
                key: old(self)@.key,
                key_pressed: if key_event.key == old(self)@.key {
                    pressed
                } else {
                    old(self)@.key_pressed
                },
                last_mute: old(self)@.last_mute,
            }),
    {
        if key_event.key == self.key {
            self.key_pressed = pressed;
        }
    }

    /// Handles one event; returns the mute signal to send, if the mute state
    /// changed.
    pub fn handle(&mut self, event: &InputEvent) -> (r: Option<bool>)
        ensures
            r == old(self)@.signal_for(*event),
            final(self)@ == old(self)@.handled(*event),
    {
        match event {
            InputEvent::Keyboard(key_event) => {
                let pressed = check_pressed(key_event);
                self.update(key_event, pressed);
                let should_mute = self.should_mute();
                if should_mute != self.last_mute {
                    self.last_mute = should_mute;
                    Some(should_mute)
                } else {
                    None
                }
            },
            InputEvent::Other => None,
        }
    }

    /// The signals sent before any key is looked at: unmute, then mute, so
    /// that the receiver sees a change on the first real transition.
    pub fn bootstrap(&mut self) -> (r: Vec<bool>)
        ensures
            r@ == seq![false, true],
            final(self)@ == (ControllerState {
                key: old(self)@.key,
                key_pressed: old(self)@.key_pressed,
                last_mute: true,
            }),
    {
        let signals = vec![false, true];
        self.last_mute = true;
        signals
    }
}

/// What a [`Session`] holds: the controller's state and whether key events
/// are acted upon (not paused).
pub struct SessionState {
    pub controller: ControllerState,
    pub running: bool,
}

impl SessionState {
    /// The state after `ev` is offered: handled while running, dropped while paused.
    pub open spec fn offered(self, ev: InputEvent) -> SessionState {
        if self.running {
            SessionState { controller: self.controller.handled(ev), running: true }
        } else {
            self
        }
    }

    /// The mute signal that offering `ev` sends, if any.
    pub open spec fn signal_for(self, ev: InputEvent) -> Option<bool> {
        if self.running {
            self.controller.signal_for(ev)
        } else {
            None
        }
    }

    /// The state once the pause flag has been read as `paused`.
    pub open spec fn after_pause_flag(self, paused: bool) -> SessionState {
        SessionState { controller: self.controller, running: !paused }
    }

    /// The override signal that reading the pause flag as `paused` sends:
    /// one on each change between running and paused, unmuted while paused.
    pub open spec fn override_for(self, paused: bool) -> Option<bool> {
        if self.running == paused {
            Some(!paused)
        } else {
            None
        }
    }

    pub open spec fn wf(self) -> bool {
        self.controller.in_sync()
    }
}

/// The session state after offering each of `events` in turn.
pub open spec fn session_after(s: SessionState, events: Seq<InputEvent>) -> SessionState
    decreases events.len(),
{
    if events.len() == 0 {
        s
    } else {
        session_after(s, events.drop_last()).offered(events.last())
    }
}

pub open spec fn with_signal(out: Seq<bool>, signal: Option<bool>) -> Seq<bool> {
    match signal {
        Some(b) => out.push(b),
        None => out,
    }
}

/// The signals sent while offering each of `events` in turn.
pub open spec fn signals_after(s: SessionState, events: Seq<InputEvent>) -> Seq<bool>
    decreases events.len(),
{
    if events.len() == 0 {
        seq![]
    } else {
        with_signal(
            signals_after(s, events.drop_last()),
            session_after(s, events.drop_last()).signal_for(events.last()),
        )
    }
}

/// What the loop does after reading the pause flag.
pub struct PauseStep {
    /// The override signal to send first, if any.
    pub signal: Option<bool>,
    /// Whether the events already pending are to be dropped unprocessed.
    pub discard_pending: bool,
}

/// What the loop does after waiting on the device.
#[derive(Debug, Clone, Copy, PartialEq, Eq, Structural)]
pub enum PollStep {
    /// The wait was interrupted: wait again.
    Retry,
    /// Read and handle what is pending.
    Dispatch,
}

/// Decides on the outcome of a wait on the device: `result` is the wait's
/// return value, `interrupted` whether a failure came from a signal.
pub fn poll_step(result: i32, interrupted: bool) -> (r: Result<PollStep, ControllerError>)
    ensures
        result < 0 && interrupted ==> r == Ok::<PollStep, ControllerError>(PollStep::Retry),
        result < 0 && !interrupted ==> r == Err::<PollStep, ControllerError>(ControllerError::Poll),
        result >= 0 ==> r == Ok::<PollStep, ControllerError>(PollStep::Dispatch),
{
    if result < 0 {
        if interrupted {
            Ok(PollStep::Retry)
        } else {
            Err(ControllerError::Poll)
        }
    } else {
        Ok(PollStep::Dispatch)
    }
}

/// The run loop's state: a controller that has sent its bootstrap signals,
/// and whether the loop is running or paused.
pub struct Session {
    controller: Controller,
    running: bool,
}

impl View for Session {
    type V = SessionState;

    closed spec fn view(&self) -> SessionState {
        SessionState { controller: self.controller@, running: self.running }
    }
}

impl Session {
    /// Starts running `controller`; returns the session and the bootstrap
    /// signals, to be sent before anything else.
    pub fn start(controller: Controller) -> (r: (Session, Vec<bool>))
        ensures
            r.1@ == seq![false, true],
            r.0@ == (SessionState {
                controller: ControllerState {
                    key: controller@.key,
                    key_pressed: controller@.key_pressed,
                    last_mute: true,
                },
                running: true,
            }),
            !controller@.key_pressed ==> r.0@.wf(),
    {
        let mut controller = controller;
        let signals = controller.bootstrap();
        (Session { controller, running: true }, signals)
    }

    pub fn controller(&self) -> (r: &Controller)
        ensures
            r@ == self@.controller,
    {
        &self.controller
    }

    pub fn is_running(&self) -> (r: bool)
        ensures
            r == self@.running,
    {
        self.running
    }

    /// Takes in a fresh reading of the pause flag (`true`: paused). The
    /// override signal stands apart from the key: the controller's record of
    /// the last key-driven mute state is left as it is.
    pub fn sync_pause(&mut self, paused: bool) -> (r: PauseStep)
        ensures
            r.signal == old(self)@.override_for(paused),
            r.discard_pending == (old(self)@.running == paused && !paused),
            final(self)@ == old(self)@.after_pause_flag(paused),
    {
        if self.running == paused {
            self.running = !self.running;
            PauseStep { signal: Some(self.running), discard_pending: self.running }
        } else {
            PauseStep { signal: None, discard_pending: false }
        }
    }

    /// Offers one event: handled while running, dropped while paused.
    /// Returns the mute signal to send, if any.
    pub fn offer(&mut self, event: &InputEvent) -> (r: Option<bool>)
        ensures
            r == old(self)@.signal_for(*event),
            final(self)@ == old(self)@.offered(*event),
    {
        if self.running {
            self.controller.handle(event)
        } else {
            None
        }
    }

    /// Offers each of `events` in turn; returns the signals to send, in order.
    pub fn offer_all(&mut self, events: &Vec<InputEvent>) -> (r: Vec<bool>)
        ensures
            r@ == signals_after(old(self)@, events@),
            final(self)@ == session_after(old(self)@, events@),
    {
        let ghost s0 = self@;
        let mut out: Vec<bool> = Vec::new();
        let mut i: usize = 0;
        while i < events.len()
            invariant
                i <= events@.len(),
                self@ == session_after(s0, events@.take(i as int)),
                out@ == signals_after(s0, events@.take(i as int)),
            decreases events@.len() - i,
        {
            let ghost prefix = events@.take(i + 1);
            assert(prefix.drop_last() =~= events@.take(i as int));
            assert(prefix.last() == events@[i as int]);
            match self.offer(&events[i]) {
                Some(b) => out.push(b),
                None => {},
            }
            i = i + 1;
        }
        assert(events@.take(i as int) =~= events@);
        out
    }
}

} // verus!
