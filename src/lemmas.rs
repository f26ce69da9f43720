//! What holds of every run of a session over any sequence of events.

use crate::controller::{session_after, signals_after, InputEvent, KeyState, SessionState};
use vstd::prelude::*;

verus! {

/// The state of the watched key that the most recent event about it shows,
/// if any event of `events` is about it.
pub open spec fn last_watched_state(key: u32, events: Seq<InputEvent>) -> Option<bool>
    decreases events.len(),
{
    if events.len() == 0 {
        None
    } else {
        match events.last() {
            InputEvent::Keyboard(k) if k.key == key => Some(k.state == KeyState::Pressed),
            _ => last_watched_state(key, events.drop_last()),
        }
    }
}

/// Whether `ev` is a keyboard event about `key`.
pub open spec fn is_about(ev: InputEvent, key: u32) -> bool {
    match ev {
        InputEvent::Keyboard(k) => k.key == key,
        InputEvent::Other => false,
    }
}

/// Offering events never changes the watched key nor whether the session runs.
pub proof fn lemma_key_and_phase_kept(s: SessionState, events: Seq<InputEvent>)
    ensures
        session_after(s, events).controller.key == s.controller.key,
        session_after(s, events).running == s.running,
    decreases events.len(),
{
    if events.len() > 0 {
        lemma_key_and_phase_kept(s, events.drop_last());
    }
}

/// While running, the watched key counts as held down exactly when the most
/// recent event about it was a press (and keeps its state when none came).
pub proof fn lemma_pressed_follows_last_event(s: SessionState, events: Seq<InputEvent>)
    requires
        s.running,
    ensures
        session_after(s, events).controller.key_pressed == match last_watched_state(
            s.controller.key,
            events,
        ) {
            Some(p) => p,
            None => s.controller.key_pressed,
        },
    decreases events.len(),
{
    if events.len() > 0 {
        lemma_pressed_follows_last_event(s, events.drop_last());
        lemma_key_and_phase_kept(s, events.drop_last());
    }
}

/// No two consecutive signals are equal: the first differs from the mute
/// state last signalled before, and the last is the mute state recorded after.
pub proof fn lemma_signals_alternate(s: SessionState, events: Seq<InputEvent>)
    ensures
        ({
            let out = signals_after(s, events);
            &&& forall|i: int| 0 <= i < out.len() - 1 ==> #[trigger] out[i] != out[i + 1]
            &&& out.len() > 0 ==> out[0] != s.controller.last_mute
            &&& session_after(s, events).controller.last_mute == if out.len() == 0 {
                s.controller.last_mute
            } else {
                out.last()
            }
        }),
    decreases events.len(),
{
    if events.len() > 0 {
        let prev = events.drop_last();
        lemma_signals_alternate(s, prev);
        let before = signals_after(s, prev);
        let out = signals_after(s, events);
        let t = session_after(s, prev);
        match t.signal_for(events.last()) {
            Some(b) => {
                assert(out == before.push(b));
                assert forall|i: int| 0 <= i < out.len() - 1 implies #[trigger] out[i] != out[i
                    + 1] by {
                    if i < before.len() - 1 {
                        assert(out[i] == before[i] && out[i + 1] == before[i + 1]);
                    }
                }
            },
            None => {
                assert(out == before);
            },
        }
    }
}

/// A session whose last signalled mute state agrees with the key keeps it so.
pub proof fn lemma_in_sync_kept(s: SessionState, events: Seq<InputEvent>)
    requires
        s.wf(),
    ensures
        session_after(s, events).wf(),
    decreases events.len(),
{
    if events.len() > 0 {
        lemma_in_sync_kept(s, events.drop_last());
    }
}

/// While paused, offering events changes nothing and sends nothing.
pub proof fn lemma_paused_is_silent(s: SessionState, events: Seq<InputEvent>)
    requires
        !s.running,
    ensures
        session_after(s, events) == s,
        signals_after(s, events) == Seq::<bool>::empty(),
    decreases events.len(),
{
    if events.len() > 0 {
        lemma_paused_is_silent(s, events.drop_last());
    }
}

/// Pausing a running session, offering any events, then resuming it, leaves
/// the controller as it was when paused: what came meanwhile is dropped. The
/// pause sends one override (unmuted), the resume one (muted), and nothing
/// else is sent between them.
pub proof fn lemma_resume_restores_paused_state(s: SessionState, events: Seq<InputEvent>)
    requires
        s.running,
    ensures
        ({
            let paused = s.after_pause_flag(true);
            let meanwhile = session_after(paused, events);
            &&& s.override_for(true) == Some(false)
            &&& signals_after(paused, events) == Seq::<bool>::empty()
            &&& meanwhile.override_for(false) == Some(true)
            &&& meanwhile.after_pause_flag(false) == s
        }),
{
    lemma_paused_is_silent(s.after_pause_flag(true), events);
}

/// In a session in step, events about other keys (or no key) change nothing
/// and send nothing.
pub proof fn lemma_other_keys_ignored(s: SessionState, events: Seq<InputEvent>)
    requires
        s.wf(),
        forall|i: int| 0 <= i < events.len() ==> !is_about(#[trigger] events[i], s.controller.key),
    ensures
        session_after(s, events) == s,
        signals_after(s, events) == Seq::<bool>::empty(),
    decreases events.len(),
{
    if events.len() > 0 {
        let prev = events.drop_last();
        assert(forall|i: int| 0 <= i < prev.len() ==> prev[i] == events[i]);
        assert(!is_about(events[events.len() - 1], s.controller.key));
        lemma_other_keys_ignored(s, prev);
    }
}

} // verus!
