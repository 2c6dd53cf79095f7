use bevy::input::keyboard::KeyCode;
use bevy::input::ElementState;
use bevy::window::WindowId;
use bevy_fpscam::{
    lock_cursor, lock_on_focus, matches_binding, move_axes, unlock_cursor, CursorLock,
    FocusChange, KeyBindings, Move, MoveAxes,
};

fn axes(forward: i8, right: i8, up: i8) -> MoveAxes {
    MoveAxes { forward, right, up }
}

const LOCKED: CursorLock = CursorLock { locked: true, visible: false };
const RELEASED: CursorLock = CursorLock { locked: false, visible: true };

#[test]
fn default_bindings() {
    let b = KeyBindings::default();
    assert_eq!(b.forward, Some(KeyCode::W));
    assert_eq!(b.back, Some(KeyCode::S));
    assert_eq!(b.left, Some(KeyCode::A));
    assert_eq!(b.right, Some(KeyCode::D));
    assert_eq!(b.up, Some(KeyCode::Space));
    assert_eq!(b.down, Some(KeyCode::LControl));
    assert_eq!(b.unlock, Some(KeyCode::Escape));
}

#[test]
fn each_default_key_triggers_its_move() {
    let b = KeyBindings::default();
    assert_eq!(b.move_for(&KeyCode::W), Some(Move::Forward));
    assert_eq!(b.move_for(&KeyCode::S), Some(Move::Back));
    assert_eq!(b.move_for(&KeyCode::A), Some(Move::Left));
    assert_eq!(b.move_for(&KeyCode::D), Some(Move::Right));
    assert_eq!(b.move_for(&KeyCode::Space), Some(Move::Up));
    assert_eq!(b.move_for(&KeyCode::LControl), Some(Move::Down));
    assert_eq!(b.move_for(&KeyCode::Escape), None);
    assert_eq!(b.move_for(&KeyCode::Q), None);
}

#[test]
fn binding_matches_only_its_key() {
    assert!(matches_binding(&Some(KeyCode::W), &KeyCode::W));
    assert!(!matches_binding(&Some(KeyCode::W), &KeyCode::A));
    assert!(!matches_binding(&None, &KeyCode::W));
}

#[test]
fn unbound_action_never_triggers() {
    let b = KeyBindings { forward: None, ..KeyBindings::default() };
    assert_eq!(b.move_for(&KeyCode::W), None);
    assert_eq!(move_axes(&b, &vec![KeyCode::W], true), axes(0, 0, 0));
}

#[test]
fn key_bound_twice_takes_first_move() {
    let b = KeyBindings { back: Some(KeyCode::W), ..KeyBindings::default() };
    assert_eq!(b.move_for(&KeyCode::W), Some(Move::Forward));
    assert_eq!(move_axes(&b, &vec![KeyCode::W], true), axes(1, 0, 0));
}

#[test]
fn forward_key_moves_forward_only_when_locked() {
    let b = KeyBindings::default();
    assert_eq!(move_axes(&b, &vec![KeyCode::W], true), axes(1, 0, 0));
    assert_eq!(move_axes(&b, &vec![KeyCode::W], false), axes(0, 0, 0));
}

#[test]
fn each_direction_has_its_sign() {
    let b = KeyBindings::default();
    assert_eq!(move_axes(&b, &vec![KeyCode::S], true), axes(-1, 0, 0));
    assert_eq!(move_axes(&b, &vec![KeyCode::A], true), axes(0, -1, 0));
    assert_eq!(move_axes(&b, &vec![KeyCode::D], true), axes(0, 1, 0));
    assert_eq!(move_axes(&b, &vec![KeyCode::Space], true), axes(0, 0, 1));
    assert_eq!(move_axes(&b, &vec![KeyCode::LControl], true), axes(0, 0, -1));
}

#[test]
fn no_key_held_is_still() {
    let b = KeyBindings::default();
    assert_eq!(move_axes(&b, &vec![], true), axes(0, 0, 0));
}

#[test]
fn unbound_keys_are_still() {
    let b = KeyBindings::default();
    let keys = vec![KeyCode::Q, KeyCode::E, KeyCode::Escape];
    assert_eq!(move_axes(&b, &keys, true), axes(0, 0, 0));
}

#[test]
fn opposing_keys_cancel() {
    let b = KeyBindings::default();
    let keys = vec![
        KeyCode::W,
        KeyCode::S,
        KeyCode::A,
        KeyCode::D,
        KeyCode::Space,
        KeyCode::LControl,
    ];
    assert_eq!(move_axes(&b, &keys, true), axes(0, 0, 0));
    assert_eq!(move_axes(&b, &vec![KeyCode::D, KeyCode::A], true), axes(0, 0, 0));
}

#[test]
fn diagonal_keys_combine() {
    let b = KeyBindings::default();
    let keys = vec![KeyCode::W, KeyCode::D, KeyCode::Space];
    assert_eq!(move_axes(&b, &keys, true), axes(1, 1, 1));
    let keys = vec![KeyCode::S, KeyCode::A, KeyCode::W, KeyCode::LControl];
    assert_eq!(move_axes(&b, &keys, true), axes(0, -1, -1));
}

#[test]
fn repeated_key_counts_once() {
    let b = KeyBindings::default();
    assert_eq!(move_axes(&b, &vec![KeyCode::W, KeyCode::W], true), axes(1, 0, 0));
}

#[test]
fn set_cursor_lock_hides_exactly_when_locked() {
    assert_eq!(CursorLock::set_cursor_lock(true), LOCKED);
    assert_eq!(CursorLock::set_cursor_lock(false), RELEASED);
}

#[test]
fn focus_lost_releases_and_gained_locks() {
    let primary = WindowId::primary();
    let lost = vec![FocusChange { window: primary, focused: false }];
    let gained = vec![FocusChange { window: primary, focused: true }];
    for start in [LOCKED, RELEASED, CursorLock { locked: true, visible: true }] {
        let after_lost = lock_on_focus(start, &primary, &lost);
        assert_eq!(after_lost, RELEASED);
        assert_eq!(lock_on_focus(after_lost, &primary, &gained), LOCKED);
    }
}

#[test]
fn focus_of_other_window_is_ignored() {
    let primary = WindowId::primary();
    let other = WindowId::new();
    let events = vec![FocusChange { window: other, focused: false }];
    assert_eq!(lock_on_focus(LOCKED, &primary, &events), LOCKED);
    let events = vec![FocusChange { window: other, focused: true }];
    assert_eq!(lock_on_focus(RELEASED, &primary, &events), RELEASED);
}

#[test]
fn last_focus_change_decides() {
    let primary = WindowId::primary();
    let other = WindowId::new();
    let events = vec![
        FocusChange { window: primary, focused: true },
        FocusChange { window: primary, focused: false },
        FocusChange { window: other, focused: true },
    ];
    assert_eq!(lock_on_focus(LOCKED, &primary, &events), RELEASED);
    assert_eq!(lock_on_focus(RELEASED, &primary, &vec![]), RELEASED);
}

#[test]
fn unlock_key_releases_then_is_noop() {
    let b = KeyBindings::default();
    let keys = vec![Some(KeyCode::Escape)];
    let once = unlock_cursor(LOCKED, &b, &keys);
    assert_eq!(once, RELEASED);
    assert_eq!(unlock_cursor(once, &b, &keys), once);
}

#[test]
fn other_keys_do_not_unlock() {
    let b = KeyBindings::default();
    let keys = vec![Some(KeyCode::W), None, Some(KeyCode::Return)];
    assert_eq!(unlock_cursor(LOCKED, &b, &keys), LOCKED);
    let b = KeyBindings { unlock: Some(KeyCode::Return), ..KeyBindings::default() };
    assert_eq!(unlock_cursor(LOCKED, &b, &keys), RELEASED);
}

#[test]
fn unbound_unlock_never_releases() {
    let b = KeyBindings { unlock: None, ..KeyBindings::default() };
    let keys = vec![Some(KeyCode::Escape), None];
    assert_eq!(unlock_cursor(LOCKED, &b, &keys), LOCKED);
}

#[test]
fn button_press_locks() {
    let presses = vec![ElementState::Released, ElementState::Pressed];
    assert_eq!(lock_cursor(RELEASED, &presses), LOCKED);
    assert_eq!(lock_cursor(LOCKED, &presses), LOCKED);
}

#[test]
fn button_release_alone_keeps_state() {
    let releases = vec![ElementState::Released];
    assert_eq!(lock_cursor(RELEASED, &releases), RELEASED);
    assert_eq!(lock_cursor(RELEASED, &vec![]), RELEASED);
}
