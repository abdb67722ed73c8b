//! What the held keys decide each frame: the direction and pace of camera
//! movement, and the one-shot actions (vsync toggle, quit).

use vstd::prelude::*;

use crate::controls::{normalized, GameKey, KeyStack};

verus! {

/// How fast the camera moves, from the held modifier keys.
#[derive(Clone, Copy, Debug, PartialEq, Eq, Structural)]
pub enum Pace {
    Normal,
    Run,
    Walk,
}

/// Direction of camera movement on the two horizontal axes: -1, 0 or 1.
#[derive(Clone, Copy, Debug, PartialEq, Eq, Structural)]
pub struct Movement {
    /// 1 to the right, -1 to the left.
    pub x: i8,
    /// -1 forward, 1 backwards.
    pub z: i8,
    pub pace: Pace,
}

/// A key going down or up.
#[derive(Clone, Copy, Debug, PartialEq, Eq, Structural)]
pub enum KeyEvent {
    /// `repeat` marks the keyboard's auto-repeat of a held key.
    Down { key: GameKey, repeat: bool },
    Up { key: GameKey },
}

/// What the keys decide for one frame.
#[derive(Clone, Debug, PartialEq, Eq)]
pub struct KeyboardOutcome {
    /// The held keys after the one-shot keys are consumed.
    pub key_stack: KeyStack,
    pub toggle_vsync: bool,
    pub quit: bool,
    pub movement: Movement,
}

/// The pace chosen by the keys that count: running wins over walking.
pub open spec fn pace_of(keys: Seq<GameKey>) -> Pace {
    if keys.contains(GameKey::Run) {
        Pace::Run
    } else if keys.contains(GameKey::Walk) {
        Pace::Walk
    } else {
        Pace::Normal
    }
}

/// The movement chosen by the keys that count.
pub open spec fn movement_of(keys: Seq<GameKey>) -> Movement {
    Movement {
        x: if keys.contains(GameKey::Right) {
            1i8
        } else if keys.contains(GameKey::Left) {
            -1i8
        } else {
            0i8
        },
        z: if keys.contains(GameKey::Forward) {
            -1i8
        } else if keys.contains(GameKey::Backwards) {
            1i8
        } else {
            0i8
        },
        pace: pace_of(keys),
    }
}

/// The pace chosen by the keys of `normalized` that count.
pub fn pace(normalized: &KeyStack) -> (r: Pace)
    ensures
        r == pace_of(normalized.stack@),
{
    if normalized.is_pressed(GameKey::Run) {
        Pace::Run
    } else if normalized.is_pressed(GameKey::Walk) {
        Pace::Walk
    } else {
        Pace::Normal
    }
}

/// The movement chosen by the keys of `normalized`.
pub fn handle_keyboard_movement(normalized: &KeyStack) -> (r: Movement)
    ensures
        r == movement_of(normalized.stack@),
{
    let pace = pace(normalized);
    let z: i8 = if normalized.is_pressed(GameKey::Forward) {
        -1
    } else if normalized.is_pressed(GameKey::Backwards) {
        1
    } else {
        0
    };
    let x: i8 = if normalized.is_pressed(GameKey::Right) {
        1
    } else if normalized.is_pressed(GameKey::Left) {
        -1
    } else {
        0
    };
    Movement { x, z, pace }
}

/// The held keys after `event`: a first press goes on the stack, an
/// auto-repeat changes nothing, a release takes the key off.
pub fn apply_key_event(key_stack: &KeyStack, event: KeyEvent) -> (r: KeyStack)
    ensures
        event matches KeyEvent::Down { key, repeat } ==> (repeat ==> r.stack@ == key_stack.stack@),
        event matches KeyEvent::Down { key, repeat } ==> (!repeat ==> (if key_stack.stack@.contains(
            key,
        ) {
            r.stack@ == key_stack.stack@
        } else {
            r.stack@ == normalized(key_stack.stack@, key_stack.stack@.len() as int).push(key)
        })),
        event matches KeyEvent::Up { key } ==> r.stack@ == key_stack.stack@.filter(
            |k: GameKey| k != key,
        ),
{
    match event {
        KeyEvent::Down { key, repeat } => {
            if repeat {
                key_stack.clone_stack()
            } else {
                key_stack.press(key)
            }
        },
        KeyEvent::Up { key } => key_stack.depress(key),
    }
}

/// Decides the frame's actions from the held keys: a counted vsync or quit
/// key fires once and is released; the counted keys give the movement.
pub fn keyboard_handler(key_stack: &KeyStack) -> (r: KeyboardOutcome)
    ensures
        ({
            let counted = normalized(key_stack.stack@, key_stack.stack@.len() as int);
            let after_toggle = if counted.contains(GameKey::VsyncToggle) {
                key_stack.stack@.filter(|k: GameKey| k != GameKey::VsyncToggle)
            } else {
                key_stack.stack@
            };
            &&& r.toggle_vsync == counted.contains(GameKey::VsyncToggle)
            &&& r.quit == counted.contains(GameKey::Quit)
            &&& r.movement == movement_of(counted)
            &&& r.key_stack.stack@ == if counted.contains(GameKey::Quit) {
                after_toggle.filter(|k: GameKey| k != GameKey::Quit)
            } else {
                after_toggle
            }
        }),
{
    let counted = key_stack.normalize();
    let mut stack = key_stack.clone_stack();
    let toggle_vsync = counted.is_pressed(GameKey::VsyncToggle);
    if toggle_vsync {
        stack = stack.depress(GameKey::VsyncToggle);
    }
    let quit = counted.is_pressed(GameKey::Quit);
    if quit {
        stack = stack.depress(GameKey::Quit);
    }
    let movement = handle_keyboard_movement(&counted);
    KeyboardOutcome { key_stack: stack, toggle_vsync, quit, movement }
}

} // verus!
