//! The application driver: its mode, the exit flag, and the decisions of the
//! loop {advance the simulation, poll one key event, draw}.
use vstd::prelude::*;
use crate::game::{Game, initial_game};
use crate::game_input::{
    GameInputState, KeyCode, KeyEvent, KeyEventKind, idle_input, input_from_event,
};

verus! {

/// Key that ends the program.
pub const QUIT_KEY: char = 'q';

/// Mode of the application. Only `Game` does anything; the others are kept so
/// that the mode can grow without changing its shape.
#[derive(Debug, Clone, Copy, PartialEq, Eq, Structural)]
pub enum State {
    Menu,
    Game,
    GameOver,
}

impl Default for State {
    fn default() -> (r: State)
        ensures
            r == State::Menu,
    {
        State::Menu
    }
}

/// Everything the program owns: the mode, the match, the input of the next
/// tick, the exit flag, and a counter moved by the arrow keys.
#[derive(Debug, Clone, Copy)]
pub struct App {
    pub counter: u8,
    pub exit: bool,
    pub state: State,
    pub game: Game,
    pub input_state: GameInputState,
}

/// The press of the quit key.
pub open spec fn quit_event() -> KeyEvent {
    KeyEvent { code: KeyCode::Char(QUIT_KEY), kind: KeyEventKind::Press }
}

/// `c` plus one, wrapping from the largest value to zero.
pub open spec fn counter_up(c: u8) -> u8 {
    if c == 255 {
        0
    } else {
        (c + 1) as u8
    }
}

/// `c` minus one, wrapping from zero to the largest value.
pub open spec fn counter_down(c: u8) -> u8 {
    if c == 0 {
        255
    } else {
        (c - 1) as u8
    }
}

impl Default for App {
    fn default() -> (r: App)
        ensures
            r.counter == 0,
            !r.exit,
            r.state == State::Menu,
            r.game == initial_game(),
            r.input_state == idle_input(),
            r.wf(),
    {
        App {
            counter: 0,
            exit: false,
            state: State::default(),
            game: Game::default(),
            input_state: GameInputState::default(),
        }
    }
}

impl App {
    /// The match is well formed.
    pub open spec fn wf(self) -> bool {
        self.game.wf()
    }

    /// The application as the loop begins: in game mode, with a fresh match
    /// and no input.
    pub open spec fn started(self) -> App {
        App { state: State::Game, game: initial_game(), input_state: idle_input(), ..self }
    }

    /// The application after one simulation step: the match advances with the
    /// stored input in game mode; the other modes do nothing.
    pub open spec fn updated(self) -> App {
        if self.state == State::Game {
            App { game: self.game.stepped(self.input_state), ..self }
        } else {
            self
        }
    }

    /// The application after the key event `k`: a press of the quit key sets
    /// the exit flag, a press of left or right moves the counter; nothing
    /// else changes anything.
    pub open spec fn key_handled(self, k: KeyEvent) -> App {
        if k.kind == KeyEventKind::Press {
            match k.code {
                KeyCode::Char(c) => if c == QUIT_KEY {
                    App { exit: true, ..self }
                } else {
                    self
                },
                KeyCode::Left => App { counter: counter_down(self.counter), ..self },
                KeyCode::Right => App { counter: counter_up(self.counter), ..self },
                _ => self,
            }
        } else {
            self
        }
    }

    /// The application after one poll that saw `event` (`None`: no key event):
    /// the next tick's input comes from the event alone, and the event is
    /// handled.
    pub open spec fn handled(self, event: Option<KeyEvent>) -> App {
        let a = App { input_state: input_from_event(event), ..self };
        match event {
            Some(k) => a.key_handled(k),
            None => a,
        }
    }

    /// One pass of the loop: a simulation step, then a poll that saw `event`.
    pub open spec fn iteration(self, event: Option<KeyEvent>) -> App {
        self.updated().handled(event)
    }

    /// The loop run on the polled `events`, one per pass, until the exit flag
    /// is set or the events run out.
    pub open spec fn run_spec(self, events: Seq<Option<KeyEvent>>) -> App
        decreases events.len(),
    {
        if self.exit || events.len() == 0 {
            self
        } else {
            self.iteration(events[0]).run_spec(events.drop_first())
        }
    }

    /// Enters game mode with a fresh match and no input, as the loop begins.
    pub fn start(&mut self)
        ensures
            *final(self) == old(self).started(),
            final(self).wf(),
    {
        self.state = State::Game;
        self.game = Game::default();
        self.input_state = GameInputState::default();
    }

    /// Runs the simulation step of the current mode.
    pub fn update(&mut self)
        requires
            old(self).wf(),
        ensures
            *final(self) == old(self).updated(),
            final(self).wf(),
    {
        match self.state {
            State::Menu => {},
            State::Game => {
                self.game.update(self.input_state);
            },
            State::GameOver => {},
        }
    }

    /// Takes in what one poll saw: `None` when it timed out or saw no key
    /// event. Repeat events change only the input state.
    pub fn handle_events(&mut self, event: Option<KeyEvent>)
        ensures
            *final(self) == old(self).handled(event),
    {
        self.input_state = GameInputState::from_event(event);
        match event {
            Some(k) => {
                if k.kind == KeyEventKind::Press || k.kind == KeyEventKind::Release {
                    self.handle_key_event(k);
                }
            },
            None => {},
        }
    }

    /// Acts on one key press; releases and repeats change nothing.
    pub fn handle_key_event(&mut self, k: KeyEvent)
        ensures
            *final(self) == old(self).key_handled(k),
    {
        match k.kind {
            KeyEventKind::Press => match k.code {
                KeyCode::Char(c) => {
                    if c == QUIT_KEY {
                        self.exit();
                    }
                },
                KeyCode::Left => self.decrement_counter(),
                KeyCode::Right => self.increment_counter(),
                _ => {},
            },
            _ => {},
        }
    }

    fn exit(&mut self)
        ensures
            *final(self) == (App { exit: true, ..*old(self) }),
    {
        self.exit = true;
    }

    fn increment_counter(&mut self)
        ensures
            *final(self) == (App { counter: counter_up(old(self).counter), ..*old(self) }),
    {
        self.counter = if self.counter == 255 {
            0
        } else {
            self.counter + 1
        };
    }

    fn decrement_counter(&mut self)
        ensures
            *final(self) == (App { counter: counter_down(old(self).counter), ..*old(self) }),
    {
        self.counter = if self.counter == 0 {
            255
        } else {
            self.counter - 1
        };
    }
}

/// Pressing the quit key always sets the exit flag and leaves the match as it
/// was; and once the loop has seen the press, it takes no further step: the
/// events after it change nothing, and the loop ends with the exit flag set.
pub proof fn quit_stops_the_loop(app: App, before: Seq<Option<KeyEvent>>, rest: Seq<Option<KeyEvent>>)
    ensures
        app.handled(Some(quit_event())).exit,
        app.handled(Some(quit_event())).game == app.game,
        app.run_spec(before.push(Some(quit_event())) + rest) == app.run_spec(
            before.push(Some(quit_event())),
        ),
        app.run_spec(before.push(Some(quit_event()))).exit,
    decreases before.len(),
{
    let q = Some(quit_event());
    let all = before.push(q) + rest;
    if !app.exit {
        if before.len() == 0 {
            assert(all.drop_first() =~= rest);
            assert(before.push(q).drop_first() =~= Seq::<Option<KeyEvent>>::empty());
            assert(app.iteration(q).exit);
        } else {
            quit_stops_the_loop(app.iteration(before[0]), before.drop_first(), rest);
            assert(all.drop_first() =~= before.drop_first().push(q) + rest);
            assert(before.push(q).drop_first() =~= before.drop_first().push(q));
        }
        let next = app.iteration(all[0]);
        assert(all[0] == before.push(q)[0]);
        assert(app.run_spec(all) == next.run_spec(all.drop_first()));
        assert(app.run_spec(before.push(q)) == next.run_spec(before.push(q).drop_first()));
    }
}

} // verus!
