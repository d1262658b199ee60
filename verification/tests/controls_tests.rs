//! Key-code translation and the set of keys held down.
use spatial_core::controls::{ControlKey, Controls};

#[test]
fn key_codes_translate_to_controls() {
    assert_eq!(ControlKey::from_string("KeyW"), ControlKey::Forward);
    assert_eq!(ControlKey::from_string("KeyS"), ControlKey::Back);
    assert_eq!(ControlKey::from_string("KeyA"), ControlKey::Left);
    assert_eq!(ControlKey::from_string("KeyD"), ControlKey::Right);
    assert_eq!(ControlKey::from_string("ShiftLeft"), ControlKey::Crouch);
    assert_eq!(ControlKey::from_string("Space"), ControlKey::Jump);
    assert_eq!(ControlKey::from_string("ArrowDown"), ControlKey::Extra1);
    assert_eq!(ControlKey::from_string("ArrowUp"), ControlKey::Extra2);
    assert_eq!(ControlKey::from_string("ArrowLeft"), ControlKey::Extra3);
    assert_eq!(ControlKey::from_string("ArrowRight"), ControlKey::Extra4);
    assert_eq!(ControlKey::from_string("Digit1"), ControlKey::Extra5);
    assert_eq!(ControlKey::from_string("Digit2"), ControlKey::Extra6);
    assert_eq!(ControlKey::from_string("KeyQ"), ControlKey::Unknown);
    assert_eq!(ControlKey::from_string(""), ControlKey::Unknown);
}

#[test]
fn keys_go_down_and_up() {
    let mut c = Controls::new();
    assert!(!c.is_down(ControlKey::Jump));
    c.down(ControlKey::Jump);
    c.down(ControlKey::Forward);
    assert!(c.is_down(ControlKey::Jump));
    assert!(c.is_down(ControlKey::Forward));
    assert_eq!(c.keys_down(), vec![ControlKey::Jump, ControlKey::Forward]);
    c.up(ControlKey::Jump);
    assert!(!c.is_down(ControlKey::Jump));
    assert_eq!(c.keys_down(), vec![ControlKey::Forward]);
}

#[test]
fn a_held_key_is_stored_once() {
    let mut c = Controls::new();
    c.down(ControlKey::Back);
    c.down(ControlKey::Back);
    assert_eq!(c.keys_down().len(), 1);
    c.up(ControlKey::Back);
    assert!(!c.is_down(ControlKey::Back));
}

#[test]
fn releasing_an_absent_key_changes_nothing() {
    let mut c = Controls::new();
    c.down(ControlKey::Left);
    c.up(ControlKey::Right);
    assert_eq!(c.keys_down(), vec![ControlKey::Left]);
}
