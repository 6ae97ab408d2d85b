//! The mathematical model of a game: its state, and the state that each
//! action leads to.

use crate::decimal::parse_integer;
use crate::dice::is_roll;
use crate::log::lost_line;
use crate::log::opponent_line;
use crate::log::player_line;
use crate::log::started_line;
use crate::log::won_line;
use vstd::prelude::*;

verus! {

/// Where a game stands.
#[derive(Clone, Copy, Debug, PartialEq, Eq, Structural)]
pub enum GamePhase {
    /// No game is running: the player is asked for a starting value.
    StartMenu,
    /// A game is running and waits for the next roll.
    InProgress,
    /// The game has ended, and stays so until it is restarted.
    GameOver,
}

/// The largest starting value that a game accepts: the largest number that
/// the upper bound can hold.
pub const MAX_STARTING_VALUE: i64 = i64::MAX;

/// The starting value that a text asks for: the integer that the text
/// stands for, where it is positive and no larger than
/// `MAX_STARTING_VALUE`. Any other text asks for none.
pub open spec fn starting_value(text: Seq<char>) -> Option<int> {
    match parse_integer(text) {
        Some(n) => if 0 < n <= MAX_STARTING_VALUE {
            Some(n)
        } else {
            None
        },
        None => None,
    }
}

/// Whether `first` and `second` can be the draws of one turn that begins
/// under `upper_bound`: the player draws under the bound, and the opponent
/// draws under the player's roll, unless that roll was 1 and ended the game.
pub open spec fn draws_fit(upper_bound: int, first: int, second: Option<int>) -> bool {
    &&& is_roll(upper_bound, first)
    &&& first == 1 <==> second is None
    &&& second is Some ==> is_roll(first, second->0)
}

/// The state of a game.
pub struct EngineState {
    /// Where the game stands.
    pub phase: GamePhase,
    /// The bound under which the next roll is drawn.
    pub upper_bound: int,
    /// The lines written so far, oldest first.
    pub history: Seq<Seq<char>>,
}

impl EngineState {
    /// What holds in every state that a game reaches: the start menu shows
    /// an empty history, and a running game has a positive upper bound.
    pub open spec fn valid(self) -> bool {
        &&& self.phase == GamePhase::StartMenu ==> self.history.len() == 0
        &&& self.phase == GamePhase::InProgress ==> self.upper_bound >= 1
    }

    /// The state in which every game begins.
    pub open spec fn initial() -> EngineState {
        EngineState { phase: GamePhase::StartMenu, upper_bound: 0, history: Seq::empty() }
    }

    /// The state after a game was started with the value `n`.
    pub open spec fn started(self, n: int) -> EngineState {
        EngineState {
            phase: GamePhase::InProgress,
            upper_bound: n,
            history: self.history.push(started_line(n)),
        }
    }

    /// The state after the player rolled `roll`: the roll is the new bound
    /// and is written down; a roll of 1 loses the game.
    pub open spec fn player_rolled(self, roll: int) -> EngineState {
        if roll == 1 {
            EngineState {
                phase: GamePhase::GameOver,
                upper_bound: roll,
                history: self.history.push(player_line(roll)).push(lost_line()),
            }
        } else {
            EngineState {
                phase: GamePhase::InProgress,
                upper_bound: roll,
                history: self.history.push(player_line(roll)),
            }
        }
    }

    /// The state after the opponent rolled `roll`: the roll is the new bound
    /// and is written down; a roll of 1 wins the game for the player.
    pub open spec fn opponent_rolled(self, roll: int) -> EngineState {
        if roll == 1 {
            EngineState {
                phase: GamePhase::GameOver,
                upper_bound: roll,
                history: self.history.push(opponent_line(roll)).push(won_line()),
            }
        } else {
            EngineState {
                phase: GamePhase::InProgress,
                upper_bound: roll,
                history: self.history.push(opponent_line(roll)),
            }
        }
    }

    /// The state after one turn in which the player drew `first` and the
    /// opponent, where the game went on, drew `second`.
    pub open spec fn turn_played(self, first: int, second: Option<int>) -> EngineState {
        match second {
            Some(roll) => if first == 1 {
                self.player_rolled(first)
            } else {
                self.player_rolled(first).opponent_rolled(roll)
            },
            None => self.player_rolled(first),
        }
    }

    /// The state after a restart: the start menu, with the history cleared.
    pub open spec fn restarted(self) -> EngineState {
        EngineState {
            phase: GamePhase::StartMenu,
            upper_bound: self.upper_bound,
            history: Seq::empty(),
        }
    }
}

} // verus!
