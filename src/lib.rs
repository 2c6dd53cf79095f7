//! Input handling for a first-person fly camera: the key bindings, the
//! direction of travel that the held keys ask for, and the state machine that
//! locks and releases the pointer as the window gains or loses focus, the
//! unlock key is pressed or a mouse button goes down.

mod cursor;
mod keys;
mod motion;

pub use cursor::{
    after_buttons, after_focus, after_keys, lemma_focus_lost_then_gained,
    lemma_transitions_idempotent, lemma_transitions_keep_wf, lemma_unlock_key_releases,
    lock_cursor, lock_on_focus, lock_state, press_seen, unlock_cursor, unlock_requested, unlocks,
    CursorLock, FocusChange,
};
pub use keys::{is_bound, matches_binding, move_of, KeyBindings, Move};
pub use motion::{
    axes_of, axis, balanced, held, lemma_still_iff_balanced, lemma_unbound_keys_are_still,
    lemma_unlocked_is_still, move_axes, MoveAxes,
};
