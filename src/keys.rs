use bevy::input::keyboard::KeyCode;
use vstd::prelude::*;

verus! {

/// bevy's `KeyCode`, a fieldless enum of keyboard keys, with its variants
/// visible so that bindings can name keys.
#[verifier::external_type_specification]
pub struct ExKeyCode(KeyCode);

/// Relies on the derived `PartialEq` of bevy's `KeyCode`, a fieldless enum:
/// two codes compare equal exactly when they are the same key.
#[verifier::external_body]
fn same_key(a: &KeyCode, b: &KeyCode) -> (r: bool)
    ensures
        r == (*a == *b),
{
    *a == *b
}

/// The physical key bound to each camera action. Every binding is optional:
/// an action without a key is never triggered.
#[derive(Clone, Copy, Debug)]
pub struct KeyBindings {
    pub forward: Option<KeyCode>,
    pub back: Option<KeyCode>,
    pub left: Option<KeyCode>,
    pub right: Option<KeyCode>,
    pub up: Option<KeyCode>,
    pub down: Option<KeyCode>,
    pub unlock: Option<KeyCode>,
}

impl Default for KeyBindings {
    /// WASD to move, space to ascend, left control to descend and escape to
    /// release the cursor.
    fn default() -> (r: KeyBindings)
        ensures
            r.forward == Some(KeyCode::W),
            r.back == Some(KeyCode::S),
            r.left == Some(KeyCode::A),
            r.right == Some(KeyCode::D),
            r.up == Some(KeyCode::Space),
            r.down == Some(KeyCode::LControl),
            r.unlock == Some(KeyCode::Escape),
    {
        KeyBindings {
            forward: Some(KeyCode::W),
            back: Some(KeyCode::S),
            left: Some(KeyCode::A),
            right: Some(KeyCode::D),
            up: Some(KeyCode::Space),
            down: Some(KeyCode::LControl),
            unlock: Some(KeyCode::Escape),
        }
    }
}

/// A movement that a held key can ask for.
#[derive(Clone, Copy, Debug, PartialEq, Eq, Structural)]
pub enum Move {
    Forward,
    Back,
    Left,
    Right,
    Up,
    Down,
}

/// Whether `key` is the key of `binding`; an unbound action matches nothing.
pub open spec fn is_bound(binding: Option<KeyCode>, key: KeyCode) -> bool {
    binding == Some(key)
}

/// The movement that `key` triggers. A key bound to several movements
/// triggers the first of forward, back, left, right, up, down.
pub open spec fn move_of(b: KeyBindings, key: KeyCode) -> Option<Move> {
    if is_bound(b.forward, key) {
        Some(Move::Forward)
    } else if is_bound(b.back, key) {
        Some(Move::Back)
    } else if is_bound(b.left, key) {
        Some(Move::Left)
    } else if is_bound(b.right, key) {
        Some(Move::Right)
    } else if is_bound(b.up, key) {
        Some(Move::Up)
    } else if is_bound(b.down, key) {
        Some(Move::Down)
    } else {
        None
    }
}

/// Whether `key` is the key bound in `binding`.
pub fn matches_binding(binding: &Option<KeyCode>, key: &KeyCode) -> (r: bool)
    ensures
        r == is_bound(*binding, *key),
{
    match binding {
        Some(b) => same_key(b, key),
        None => false,
    }
}

impl KeyBindings {
    /// The movement that `key` triggers under these bindings, if any.
    pub fn move_for(&self, key: &KeyCode) -> (r: Option<Move>)
        ensures
            r == move_of(*self, *key),
    {
        if matches_binding(&self.forward, key) {
            Some(Move::Forward)
        } else if matches_binding(&self.back, key) {
            Some(Move::Back)
        } else if matches_binding(&self.left, key) {
            Some(Move::Left)
        } else if matches_binding(&self.right, key) {
            Some(Move::Right)
        } else if matches_binding(&self.up, key) {
            Some(Move::Up)
        } else if matches_binding(&self.down, key) {
            Some(Move::Down)
        } else {
            None
        }
    }

    /// Whether `key` is the key that releases the cursor.
    pub fn is_unlock(&self, key: &KeyCode) -> (r: bool)
        ensures
            r == is_bound(self.unlock, *key),
    {
        matches_binding(&self.unlock, key)
    }
}

} // verus!
