use crate::keys::{is_bound, KeyBindings};
use bevy::input::keyboard::KeyCode;
use bevy::input::ElementState;
use bevy::window::WindowId;
use vstd::prelude::*;

verus! {

/// bevy's `WindowId`, carried through as an opaque identifier.
#[verifier::external_type_specification]
#[verifier::external_body]
pub struct ExWindowId(WindowId);

/// bevy's `ElementState`, the fieldless enum `Pressed` / `Released` of a
/// button event, with its variants visible.
#[verifier::external_type_specification]
pub struct ExElementState(ElementState);

/// Relies on the derived `PartialEq` of bevy's `WindowId`, which compares the
/// identifiers it wraps: equal exactly when they name the same window.
#[verifier::external_body]
fn same_window(a: &WindowId, b: &WindowId) -> (r: bool)
    ensures
        r == (*a == *b),
{
    *a == *b
}

/// Whether the pointer is captured by the window, and whether it is drawn.
/// A camera that holds the pointer hides it: see `wf`.
#[derive(Clone, Copy, Debug, PartialEq, Eq, Structural)]
pub struct CursorLock {
    pub locked: bool,
    pub visible: bool,
}

/// A change of focus of a window.
#[derive(Clone, Copy, Debug)]
pub struct FocusChange {
    pub window: WindowId,
    pub focused: bool,
}

/// The pointer state after locking (`true`) or releasing (`false`) it: the
/// cursor shows exactly when it is released.
pub open spec fn lock_state(locked: bool) -> CursorLock {
    CursorLock { locked, visible: !locked }
}

/// The pointer state after the focus changes `events` of one frame, in order,
/// starting from `s`: the last change of the window `primary` decides, and
/// changes of other windows are ignored.
pub open spec fn after_focus(
    s: CursorLock,
    primary: WindowId,
    events: Seq<FocusChange>,
) -> CursorLock
    decreases events.len(),
{
    if events.len() == 0 {
        s
    } else if events.last().window == primary {
        lock_state(events.last().focused)
    } else {
        after_focus(s, primary, events.drop_last())
    }
}

/// Whether a key event of `key` releases the cursor; an event without a key
/// code releases nothing.
pub open spec fn unlocks(b: KeyBindings, key: Option<KeyCode>) -> bool {
    match key {
        Some(k) => is_bound(b.unlock, k),
        None => false,
    }
}

/// Whether one of the key events `keys` is of the key that releases the
/// cursor.
pub open spec fn unlock_requested(b: KeyBindings, keys: Seq<Option<KeyCode>>) -> bool {
    exists|i: int| 0 <= i < keys.len() && #[trigger] unlocks(b, keys[i])
}

/// The pointer state after the key events `keys` of one frame: released if
/// one of them is of the unlock key, else `s`.
pub open spec fn after_keys(
    s: CursorLock,
    b: KeyBindings,
    keys: Seq<Option<KeyCode>>,
) -> CursorLock {
    if unlock_requested(b, keys) {
        lock_state(false)
    } else {
        s
    }
}

/// Whether one of the mouse button events `buttons` is a press.
pub open spec fn press_seen(buttons: Seq<ElementState>) -> bool {
    exists|i: int| 0 <= i < buttons.len() && #[trigger] buttons[i] == ElementState::Pressed
}

/// The pointer state after the mouse button events `buttons` of one frame:
/// locked if any button went down, even when already locked, else `s`.
pub open spec fn after_buttons(s: CursorLock, buttons: Seq<ElementState>) -> CursorLock {
    if press_seen(buttons) {
        lock_state(true)
    } else {
        s
    }
}

impl CursorLock {
    /// The cursor is hidden exactly when the pointer is locked.
    pub open spec fn wf(self) -> bool {
        self.visible == !self.locked
    }

    /// The pointer locked (`true`) or released (`false`), with the cursor
    /// hidden exactly when locked.
    pub fn set_cursor_lock(locked: bool) -> (r: CursorLock)
        ensures
            r == lock_state(locked),
            r.wf(),
    {
        CursorLock { locked, visible: !locked }
    }
}

/// Follows the focus of the window `primary` over the focus changes of one
/// frame: gaining focus locks the pointer, losing it releases the pointer.
pub fn lock_on_focus(
    state: CursorLock,
    primary: &WindowId,
    events: &Vec<FocusChange>,
) -> (r: CursorLock)
    ensures
        r == after_focus(state, *primary, events@),
{
    let mut s = state;
    let mut i: usize = 0;
    while i < events.len()
        invariant
            0 <= i <= events.len(),
            s == after_focus(state, *primary, events@.take(i as int)),
        decreases events.len() - i,
    {
        proof {
            assert(events@.take(i + 1).drop_last() =~= events@.take(i as int));
        }
        if same_window(&events[i].window, primary) {
            s = CursorLock::set_cursor_lock(events[i].focused);
        }
        i = i + 1;
    }
    proof {
        assert(events@.take(events@.len() as int) =~= events@);
    }
    s
}

/// Releases the pointer when one of the key events `keys` of one frame is of
/// the unlock key; the other keys leave it as it is.
pub fn unlock_cursor(
    state: CursorLock,
    bindings: &KeyBindings,
    keys: &Vec<Option<KeyCode>>,
) -> (r: CursorLock)
    ensures
        r == after_keys(state, *bindings, keys@),
{
    let mut i: usize = 0;
    while i < keys.len()
        invariant
            0 <= i <= keys.len(),
            forall|j: int| 0 <= j < i ==> !#[trigger] unlocks(*bindings, keys@[j]),
        decreases keys.len() - i,
    {
        if let Some(code) = &keys[i] {
            if bindings.is_unlock(code) {
                assert(unlocks(*bindings, keys@[i as int]));
                return CursorLock::set_cursor_lock(false);
            }
        }
        i = i + 1;
    }
    state
}

/// Locks the pointer when a mouse button goes down among the button events
/// `buttons` of one frame, whether or not it is locked already.
pub fn lock_cursor(state: CursorLock, buttons: &Vec<ElementState>) -> (r: CursorLock)
    ensures
        r == after_buttons(state, buttons@),
{
    let mut i: usize = 0;
    while i < buttons.len()
        invariant
            0 <= i <= buttons.len(),
            forall|j: int| 0 <= j < i ==> #[trigger] buttons@[j] != ElementState::Pressed,
        decreases buttons.len() - i,
    {
        match buttons[i] {
            ElementState::Pressed => {
                assert(buttons@[i as int] == ElementState::Pressed);
                return CursorLock::set_cursor_lock(true);
            },
            ElementState::Released => {},
        }
        i = i + 1;
    }
    state
}

/// Losing focus releases the pointer and shows the cursor whatever the state
/// was; gaining focus again for the same window locks it and hides the cursor.
pub proof fn lemma_focus_lost_then_gained(s: CursorLock, primary: WindowId)
    ensures
        ({
            let lost = after_focus(s, primary, seq![FocusChange { window: primary, focused: false }]);
            let gained = after_focus(lost, primary, seq![FocusChange { window: primary, focused: true }]);
            !lost.locked && lost.visible && gained.locked && !gained.visible
        }),
{
    let lost_ev = seq![FocusChange { window: primary, focused: false }];
    let gained_ev = seq![FocusChange { window: primary, focused: true }];
    assert(lost_ev.last() == FocusChange { window: primary, focused: false });
    assert(gained_ev.last() == FocusChange { window: primary, focused: true });
}

/// Pressing the unlock key while locked releases the pointer and shows the
/// cursor; pressing it again once released changes nothing.
pub proof fn lemma_unlock_key_releases(s: CursorLock, b: KeyBindings, key: KeyCode)
    requires
        b.unlock == Some(key),
        s.locked,
    ensures
        ({
            let once = after_keys(s, b, seq![Some(key)]);
            !once.locked && once.visible && after_keys(once, b, seq![Some(key)]) == once
        }),
{
    let press = seq![Some(key)];
    assert(unlocks(b, press[0]));
}

/// Every transition keeps the cursor hidden exactly while the pointer is
/// locked.
pub proof fn lemma_transitions_keep_wf(
    s: CursorLock,
    primary: WindowId,
    events: Seq<FocusChange>,
    b: KeyBindings,
    keys: Seq<Option<KeyCode>>,
    buttons: Seq<ElementState>,
)
    requires
        s.wf(),
    ensures
        after_focus(s, primary, events).wf(),
        after_keys(s, b, keys).wf(),
        after_buttons(s, buttons).wf(),
    decreases events.len(),
{
    if events.len() > 0 {
        lemma_transitions_keep_wf(s, primary, events.drop_last(), b, keys, buttons);
    }
}

/// Handling the same events of a frame a second time changes nothing: every
/// transition sets the state outright.
pub proof fn lemma_transitions_idempotent(
    s: CursorLock,
    primary: WindowId,
    events: Seq<FocusChange>,
    b: KeyBindings,
    keys: Seq<Option<KeyCode>>,
    buttons: Seq<ElementState>,
)
    ensures
        after_focus(after_focus(s, primary, events), primary, events)
            == after_focus(s, primary, events),
        after_keys(after_keys(s, b, keys), b, keys) == after_keys(s, b, keys),
        after_buttons(after_buttons(s, buttons), buttons) == after_buttons(s, buttons),
{
    lemma_focus_idempotent(s, after_focus(s, primary, events), primary, events);
}

proof fn lemma_focus_idempotent(
    s: CursorLock,
    t: CursorLock,
    primary: WindowId,
    events: Seq<FocusChange>,
)
    requires
        t == after_focus(s, primary, events),
    ensures
        after_focus(t, primary, events) == t,
    decreases events.len(),
{
    if events.len() > 0 && events.last().window != primary {
        lemma_focus_idempotent(s, t, primary, events.drop_last());
    }
}

} // verus!
