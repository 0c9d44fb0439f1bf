use vstd::prelude::*;

verus! {

/// What the player asked for in one frame.
#[derive(Debug, Clone, Copy, PartialEq, Eq, Structural)]
pub enum InputEvent {
    Up,
    Down,
    Left,
    Right,
    Mine,
    Quit,
    /// No key, or a key with no meaning in the game.
    Idle,
}

/// The intent a key stands for: `w a s d` move, space mines, `q` quits.
/// `None` is a key that types no character.
pub open spec fn intent_of(key: Option<char>) -> InputEvent {
    match key {
        Some('w') => InputEvent::Up,
        Some('a') => InputEvent::Left,
        Some('s') => InputEvent::Down,
        Some('d') => InputEvent::Right,
        Some(' ') => InputEvent::Mine,
        Some('q') => InputEvent::Quit,
        _ => InputEvent::Idle,
    }
}

impl InputEvent {
    /// Translates one key press. Every key has an intent; unknown keys are `Idle`.
    pub fn from_key(key: Option<char>) -> (e: InputEvent)
        ensures
            e == intent_of(key),
    {
        match key {
            Some('w') => InputEvent::Up,
            Some('a') => InputEvent::Left,
            Some('s') => InputEvent::Down,
            Some('d') => InputEvent::Right,
            Some(' ') => InputEvent::Mine,
            Some('q') => InputEvent::Quit,
            _ => InputEvent::Idle,
        }
    }
}

} // verus!
