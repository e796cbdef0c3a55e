//! Per-tick paddle intents, rebuilt from the key event seen in each poll.
use vstd::prelude::*;

verus! {

/// Commanded motion of one paddle for one tick.
#[derive(Debug, Clone, Copy, PartialEq, Eq, Structural)]
pub enum PaddleState {
    Stopped,
    MovingUp,
    MovingDown,
}

/// The intents of both paddles for one tick.
#[derive(Debug, Clone, Copy, PartialEq, Eq, Structural)]
pub struct GameInputState {
    pub p1_paddle_state: PaddleState,
    pub p2_paddle_state: PaddleState,
}

/// Both paddles stopped: the state when no key asks for motion.
pub open spec fn idle_input() -> GameInputState {
    GameInputState { p1_paddle_state: PaddleState::Stopped, p2_paddle_state: PaddleState::Stopped }
}

impl Default for GameInputState {
    fn default() -> (r: GameInputState)
        ensures
            r == idle_input(),
    {
        GameInputState { p1_paddle_state: PaddleState::Stopped, p2_paddle_state: PaddleState::Stopped }
    }
}

/// The key of a key event, as far as the game tells keys apart.
#[derive(Debug, Clone, Copy, PartialEq, Eq, Structural)]
pub enum KeyCode {
    Char(char),
    Left,
    Right,
    Up,
    Down,
    Other,
}

/// Whether a key went down, came up, or repeats while held.
#[derive(Debug, Clone, Copy, PartialEq, Eq, Structural)]
pub enum KeyEventKind {
    Press,
    Release,
    Repeat,
}

/// One key event from the terminal.
#[derive(Debug, Clone, Copy, PartialEq, Eq, Structural)]
pub struct KeyEvent {
    pub code: KeyCode,
    pub kind: KeyEventKind,
}

/// Key that moves player 1's paddle up.
pub const P1_UP_KEY: char = 'w';

/// Key that moves player 1's paddle down.
pub const P1_DOWN_KEY: char = 's';

/// The intent of player 1 that one polled event asks for: a press of the up
/// or the down key moves the paddle; anything else, or no event, stops it.
pub open spec fn p1_intent(event: Option<KeyEvent>) -> PaddleState {
    match event {
        Some(k) => if k.kind == KeyEventKind::Press && k.code == KeyCode::Char(P1_UP_KEY) {
            PaddleState::MovingUp
        } else if k.kind == KeyEventKind::Press && k.code == KeyCode::Char(P1_DOWN_KEY) {
            PaddleState::MovingDown
        } else {
            PaddleState::Stopped
        },
        None => PaddleState::Stopped,
    }
}

/// The input state that one polled event gives. Player 2 has no bindings.
pub open spec fn input_from_event(event: Option<KeyEvent>) -> GameInputState {
    GameInputState { p1_paddle_state: p1_intent(event), p2_paddle_state: PaddleState::Stopped }
}

impl GameInputState {
    /// Builds the input state of the next tick from the event of this poll
    /// (`None` when the poll timed out); nothing carries over between polls.
    pub fn from_event(event: Option<KeyEvent>) -> (r: GameInputState)
        ensures
            r == input_from_event(event),
    {
        let p1 = match event {
            Some(k) => match (k.kind, k.code) {
                (KeyEventKind::Press, KeyCode::Char(c)) => if c == P1_UP_KEY {
                    PaddleState::MovingUp
                } else if c == P1_DOWN_KEY {
                    PaddleState::MovingDown
                } else {
                    PaddleState::Stopped
                },
                _ => PaddleState::Stopped,
            },
            None => PaddleState::Stopped,
        };
        GameInputState { p1_paddle_state: p1, p2_paddle_state: PaddleState::Stopped }
    }
}

} // verus!
