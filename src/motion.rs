use crate::keys::{move_of, KeyBindings, Move};
use bevy::input::keyboard::KeyCode;
use vstd::prelude::*;

verus! {

/// The direction of travel in the camera's own frame, one signed unit per
/// axis: `forward` along the view direction, `right` along the camera's
/// right, `up` along the world's vertical. Each component is -1, 0 or 1.
#[derive(Clone, Copy, Debug, PartialEq, Eq, Structural)]
pub struct MoveAxes {
    pub forward: i8,
    pub right: i8,
    pub up: i8,
}

/// Whether some key in `pressed` triggers the movement `m`.
pub open spec fn held(b: KeyBindings, pressed: Seq<KeyCode>, m: Move) -> bool {
    exists|i: int| 0 <= i < pressed.len() && #[trigger] move_of(b, pressed[i]) == Some(m)
}

/// One unit towards `plus`, one away for `minus`: 1, -1, or 0 when both or
/// neither are held.
pub open spec fn axis(plus: bool, minus: bool) -> int {
    (if plus { 1int } else { 0int }) - (if minus { 1int } else { 0int })
}

/// The direction that the set of held keys `pressed` asks for. While the
/// pointer is not locked no key moves the camera.
pub open spec fn axes_of(b: KeyBindings, pressed: Seq<KeyCode>, locked: bool) -> MoveAxes {
    if !locked {
        MoveAxes { forward: 0, right: 0, up: 0 }
    } else {
        MoveAxes {
            forward: axis(held(b, pressed, Move::Forward), held(b, pressed, Move::Back)) as i8,
            right: axis(held(b, pressed, Move::Right), held(b, pressed, Move::Left)) as i8,
            up: axis(held(b, pressed, Move::Up), held(b, pressed, Move::Down)) as i8,
        }
    }
}

impl MoveAxes {
    /// No movement at all.
    pub open spec fn is_zero(self) -> bool {
        self.forward == 0 && self.right == 0 && self.up == 0
    }
}

fn axis_value(plus: bool, minus: bool) -> (r: i8)
    ensures
        r as int == axis(plus, minus),
{
    if plus && !minus {
        1
    } else if minus && !plus {
        -1
    } else {
        0
    }
}

/// The direction of travel for this frame, from the set of held keys
/// `pressed`, the bindings and whether the pointer is locked. A key held
/// twice in `pressed` counts once.
pub fn move_axes(bindings: &KeyBindings, pressed: &Vec<KeyCode>, locked: bool) -> (r: MoveAxes)
    ensures
        r == axes_of(*bindings, pressed@, locked),
{
    if !locked {
        return MoveAxes { forward: 0, right: 0, up: 0 };
    }
    let mut fwd = false;
    let mut back = false;
    let mut left = false;
    let mut right = false;
    let mut up = false;
    let mut down = false;
    let mut i: usize = 0;
    while i < pressed.len()
        invariant
            0 <= i <= pressed.len(),
            fwd == held(*bindings, pressed@.take(i as int), Move::Forward),
            back == held(*bindings, pressed@.take(i as int), Move::Back),
            left == held(*bindings, pressed@.take(i as int), Move::Left),
            right == held(*bindings, pressed@.take(i as int), Move::Right),
            up == held(*bindings, pressed@.take(i as int), Move::Up),
            down == held(*bindings, pressed@.take(i as int), Move::Down),
        decreases pressed.len() - i,
    {
        let ghost before = pressed@.take(i as int);
        let ghost after = pressed@.take(i + 1);
        proof {
            assert(after =~= before.push(pressed@[i as int]));
            lemma_held_push(*bindings, before, pressed@[i as int]);
        }
        match bindings.move_for(&pressed[i]) {
            Some(Move::Forward) => fwd = true,
            Some(Move::Back) => back = true,
            Some(Move::Left) => left = true,
            Some(Move::Right) => right = true,
            Some(Move::Up) => up = true,
            Some(Move::Down) => down = true,
            None => {},
        }
        i = i + 1;
    }
    proof {
        assert(pressed@.take(pressed@.len() as int) =~= pressed@);
    }
    MoveAxes {
        forward: axis_value(fwd, back),
        right: axis_value(right, left),
        up: axis_value(up, down),
    }
}

proof fn lemma_held_push(b: KeyBindings, s: Seq<KeyCode>, k: KeyCode)
    ensures
        forall|m: Move|
            #[trigger] held(b, s.push(k), m) == (held(b, s, m) || move_of(b, k) == Some(m)),
{
    assert forall|m: Move| #[trigger]
        held(b, s.push(k), m) == (held(b, s, m) || move_of(b, k) == Some(m)) by {
        let t = s.push(k);
        if held(b, s, m) {
            let i = choose|i: int| 0 <= i < s.len() && #[trigger] move_of(b, s[i]) == Some(m);
            assert(t[i] == s[i]);
        }
        if move_of(b, k) == Some(m) {
            assert(t[s.len() as int] == k);
        }
        if held(b, t, m) {
            let i = choose|i: int| 0 <= i < t.len() && #[trigger] move_of(b, t[i]) == Some(m);
            if i < s.len() {
                assert(t[i] == s[i]);
            }
        }
    }
}

/// With the pointer unlocked, no set of held keys moves the camera.
pub proof fn lemma_unlocked_is_still(b: KeyBindings, pressed: Seq<KeyCode>)
    ensures
        axes_of(b, pressed, false).is_zero(),
{
}

/// When no held key is bound to a movement, the camera stays where it is.
pub proof fn lemma_unbound_keys_are_still(b: KeyBindings, pressed: Seq<KeyCode>, locked: bool)
    requires
        forall|i: int| 0 <= i < pressed.len() ==> move_of(b, #[trigger] pressed[i]) is None,
    ensures
        axes_of(b, pressed, locked).is_zero(),
{
}

/// Whether each pair of opposing movements is held on both sides or on
/// neither.
pub open spec fn balanced(b: KeyBindings, pressed: Seq<KeyCode>) -> bool {
    &&& held(b, pressed, Move::Forward) == held(b, pressed, Move::Back)
    &&& held(b, pressed, Move::Right) == held(b, pressed, Move::Left)
    &&& held(b, pressed, Move::Up) == held(b, pressed, Move::Down)
}

/// The direction of travel is zero exactly when the pointer is unlocked or
/// the held keys are balanced: opposing keys cancel out.
pub proof fn lemma_still_iff_balanced(b: KeyBindings, pressed: Seq<KeyCode>, locked: bool)
    ensures
        axes_of(b, pressed, locked).is_zero() <==> (!locked || balanced(b, pressed)),
{
}

} // verus!
