//! Push-to-talk key watching: the keybind setting, the controller that turns
//! key events into mute signals, and the decisions of the loop around it.

pub mod access;
pub mod controller;
pub mod keybind;
pub mod lemmas;

pub use access::write_requested;
pub use controller::{
    check_pressed, poll_step, Controller, InputEvent, KeyEvent, KeyState, PauseStep, PollStep,
    Session,
};
pub use keybind::{parse_keybind, ControllerError, DEFAULT_KEY};
