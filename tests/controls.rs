use render_gl::controls::{GameKey, GameKeyGroup, KeyStack};

#[test]
fn key_groups() {
    assert_eq!(GameKey::Left.groups(), vec![GameKeyGroup::Horizontal]);
    assert_eq!(GameKey::Right.groups(), vec![GameKeyGroup::Horizontal]);
    assert_eq!(GameKey::Forward.groups(), vec![GameKeyGroup::Vertical]);
    assert_eq!(GameKey::Backwards.groups(), vec![GameKeyGroup::Vertical]);
    assert_eq!(GameKey::Run.groups(), vec![]);
    assert_eq!(GameKey::Quit.groups(), vec![]);
}

#[test]
fn newest_key_of_a_group_wins() {
    let s = KeyStack::new().press(GameKey::Left).press(GameKey::Right);
    assert!(s.is_pressed(GameKey::Left));
    assert!(s.is_normalized_pressed(GameKey::Right));
    assert!(!s.is_normalized_pressed(GameKey::Left));
    let released = s.depress(GameKey::Right);
    assert!(released.is_normalized_pressed(GameKey::Left));
}

#[test]
fn normalize_keeps_one_key_per_group_newest_first() {
    let s = KeyStack {
        stack: vec![GameKey::Forward, GameKey::Left, GameKey::Run, GameKey::Right, GameKey::Backwards],
    };
    assert_eq!(s.normalize().stack, vec![GameKey::Backwards, GameKey::Right, GameKey::Run]);
    assert_eq!(KeyStack::new().normalize().stack, vec![]);
}

#[test]
fn pressing_a_held_key_changes_nothing() {
    let s = KeyStack { stack: vec![GameKey::Left, GameKey::Right] };
    assert_eq!(s.press(GameKey::Left), s);
    let t = s.press(GameKey::Walk);
    assert_eq!(t.stack, vec![GameKey::Right, GameKey::Walk]);
}

#[test]
fn depress_removes_every_occurrence() {
    let s = KeyStack { stack: vec![GameKey::Quit, GameKey::Left, GameKey::Quit] };
    assert_eq!(s.depress(GameKey::Quit).stack, vec![GameKey::Left]);
    assert_eq!(s.depress(GameKey::Run).stack, s.stack);
}
