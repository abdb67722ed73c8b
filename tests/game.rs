use render_gl::controls::{GameKey, KeyStack};
use render_gl::game::{apply_key_event, handle_keyboard_movement, keyboard_handler, pace, KeyEvent, Movement, Pace};

#[test]
fn movement_follows_the_counted_keys() {
    let held = KeyStack { stack: vec![GameKey::Left, GameKey::Forward, GameKey::Right, GameKey::Run] };
    let counted = held.normalize();
    assert_eq!(handle_keyboard_movement(&counted), Movement { x: 1, z: -1, pace: Pace::Run });
    let idle = KeyStack::new();
    assert_eq!(handle_keyboard_movement(&idle), Movement { x: 0, z: 0, pace: Pace::Normal });
}

#[test]
fn run_wins_over_walk() {
    assert_eq!(pace(&KeyStack { stack: vec![GameKey::Walk, GameKey::Run] }), Pace::Run);
    assert_eq!(pace(&KeyStack { stack: vec![GameKey::Walk] }), Pace::Walk);
}

#[test]
fn one_shot_keys_fire_once() {
    let held = KeyStack { stack: vec![GameKey::Backwards, GameKey::VsyncToggle, GameKey::Quit] };
    let first = keyboard_handler(&held);
    assert!(first.toggle_vsync);
    assert!(first.quit);
    assert_eq!(first.key_stack.stack, vec![GameKey::Backwards]);
    assert_eq!(first.movement, Movement { x: 0, z: 1, pace: Pace::Normal });
    let second = keyboard_handler(&first.key_stack);
    assert!(!second.toggle_vsync);
    assert!(!second.quit);
}

#[test]
fn key_events_update_the_stack() {
    let s = apply_key_event(&KeyStack::new(), KeyEvent::Down { key: GameKey::Left, repeat: false });
    assert_eq!(s.stack, vec![GameKey::Left]);
    let s = apply_key_event(&s, KeyEvent::Down { key: GameKey::Right, repeat: true });
    assert_eq!(s.stack, vec![GameKey::Left]);
    let s = apply_key_event(&s, KeyEvent::Down { key: GameKey::Right, repeat: false });
    assert_eq!(s.stack, vec![GameKey::Left, GameKey::Right]);
    let s = apply_key_event(&s, KeyEvent::Up { key: GameKey::Right });
    assert_eq!(s.stack, vec![GameKey::Left]);
}
