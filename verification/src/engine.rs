//! The turn engine: the game that runs, one action at a time.

use crate::decimal::parse_i64;
use crate::dice::generate_roll;
use crate::dice::LOWEST_ROLL;
use crate::log::lost_text;
use crate::log::opponent_line;
use crate::log::opponent_text;
use crate::log::player_line;
use crate::log::player_text;
use crate::log::started_text;
use crate::log::won_text;
use crate::state::draws_fit;
use crate::state::starting_value;
use crate::state::EngineState;
use crate::state::GamePhase;
use vstd::prelude::*;

verus! {

/// The starting value is not a positive integer.
#[derive(Clone, Copy, Debug, PartialEq, Eq, Structural)]
pub struct ValidationError;

impl ValidationError {
    /// The message to show beside the rejected input.
    pub fn message(&self) -> (text: &'static str)
        ensures
            text@ == "Invalid input. Please enter a valid number."@,
    {
        "Invalid input. Please enter a valid number."
    }
}

/// Reads the starting value of a game from what the player typed.
///
/// The text is accepted where it stands for a positive integer that fits
/// the upper bound, and rejected otherwise.
pub fn parse_starting_value(input: &str) -> (checked: Result<i64, ValidationError>)
    ensures
        match starting_value(input@) {
            Some(n) => checked == Ok::<i64, ValidationError>(n as i64),
            None => checked == Err::<i64, ValidationError>(ValidationError),
        },
{
    match parse_i64(input) {
        Some(n) => if n > 0 {
            Ok(n)
        } else {
            Err(ValidationError)
        },
        None => Err(ValidationError),
    }
}

/// How a turn ended.
#[derive(Clone, Copy, Debug, PartialEq, Eq, Structural)]
pub enum Verdict {
    /// The player rolled 1.
    Lost,
    /// The opponent rolled 1.
    Won,
    /// Nobody rolled 1: the game goes on.
    Undecided,
}

/// A roll that may be missing, as a mathematical integer.
pub open spec fn roll_value(roll: Option<i64>) -> Option<int> {
    match roll {
        Some(drawn) => Some(drawn as int),
        None => None,
    }
}

/// How a turn with the draws `first` and `second` ends.
pub open spec fn verdict_of(first: int, second: Option<int>) -> Verdict {
    if first == 1 {
        Verdict::Lost
    } else if second == Some(1int) {
        Verdict::Won
    } else {
        Verdict::Undecided
    }
}

/// What one turn brought.
#[derive(Debug, PartialEq, Eq)]
pub struct TurnOutcome {
    /// What the player rolled.
    pub player_roll: i64,
    /// What the opponent rolled; `None` where the player's roll ended the
    /// game.
    pub opponent_roll: Option<i64>,
    /// The history line for the player's roll.
    pub player_line: String,
    /// The history line for the opponent's roll, where there was one.
    pub opponent_line: Option<String>,
    /// How the turn ended.
    pub verdict: Verdict,
    /// The phase of the game after the turn.
    pub phase: GamePhase,
}

impl TurnOutcome {
    /// The opponent's roll as a mathematical integer.
    pub open spec fn second(&self) -> Option<int> {
        roll_value(self.opponent_roll)
    }

    /// Whether the lines, the verdict and the phase are those that belong
    /// to the two rolls.
    pub open spec fn consistent(&self) -> bool {
        &&& self.player_line@ == player_line(self.player_roll as int)
        &&& match self.opponent_roll {
            Some(roll) => self.opponent_line is Some && self.opponent_line->0@ == opponent_line(
                roll as int,
            ),
            None => self.opponent_line is None,
        }
        &&& self.verdict == verdict_of(self.player_roll as int, self.second())
        &&& self.phase == if self.verdict == Verdict::Undecided {
            GamePhase::InProgress
        } else {
            GamePhase::GameOver
        }
    }
}

/// The game: its phase, the bound for the next roll, and its history.
pub struct TurnEngine {
    phase: GamePhase,
    upper_bound: i64,
    history: Vec<String>,
}

impl View for TurnEngine {
    type V = EngineState;

    closed spec fn view(&self) -> EngineState {
        EngineState {
            phase: self.phase,
            upper_bound: self.upper_bound as int,
            history: self.history.deep_view(),
        }
    }
}

impl TurnEngine {
    /// Every engine is in a valid state, at every moment.
    #[verifier::type_invariant]
    spec fn well_formed(&self) -> bool {
        self@.valid()
    }

    /// A game at the start menu, with nothing in its history.
    pub fn new() -> (engine: TurnEngine)
        ensures
            engine@ == EngineState::initial(),
            engine@.valid(),
    {
        let engine = TurnEngine { phase: GamePhase::StartMenu, upper_bound: 0, history: Vec::new() };
        assert(engine.history.deep_view() =~= Seq::<Seq<char>>::empty());
        engine
    }

    /// Where the game stands.
    pub fn phase(&self) -> (phase: GamePhase)
        ensures
            phase == self@.phase,
            self@.valid(),
    {
        proof {
            use_type_invariant(self);
        }
        self.phase
    }

    /// The bound under which the next roll is drawn.
    pub fn upper_bound(&self) -> (bound: i64)
        ensures
            bound == self@.upper_bound,
            self@.valid(),
    {
        proof {
            use_type_invariant(self);
        }
        self.upper_bound
    }

    /// The lines written so far, oldest first.
    pub fn history(&self) -> (log: &Vec<String>)
        ensures
            log.deep_view() == self@.history,
            self@.valid(),
    {
        proof {
            use_type_invariant(self);
        }
        &self.history
    }

    /// Writes `line` at the end of the history.
    fn record(&mut self, line: String)
        requires
            old(self).phase != GamePhase::StartMenu,
        ensures
            final(self)@ == (EngineState {
                history: old(self)@.history.push(line@),
                ..old(self)@
            }),
    {
        proof {
            use_type_invariant(&*self);
        }
        let mut log: Vec<String> = Vec::new();
        core::mem::swap(&mut self.history, &mut log);
        log.push(line);
        core::mem::swap(&mut self.history, &mut log);
        assert(self.history.deep_view() =~= old(self).history.deep_view().push(line@));
    }

    /// Starts a game from the start menu with the value that `input` asks
    /// for.
    ///
    /// An accepted value becomes the upper bound, the opening line is
    /// written, and the game is in progress. A rejected input changes
    /// nothing.
    pub fn start_game(&mut self, input: &str) -> (started: Result<(), ValidationError>)
        requires
            old(self)@.phase == GamePhase::StartMenu,
        ensures
            match starting_value(input@) {
                Some(n) => started == Ok::<(), ValidationError>(()) && final(self)@ == old(
                    self,
                )@.started(n),
                None => started == Err::<(), ValidationError>(ValidationError) && final(self)@
                    == old(self)@,
            },
            final(self)@.valid(),
    {
        proof {
            use_type_invariant(&*self);
        }
        match parse_starting_value(input) {
            Ok(n) => {
                self.upper_bound = n;
                self.phase = GamePhase::InProgress;
                self.record(started_text(n));
                Ok(())
            },
            Err(error) => Err(error),
        }
    }

    /// Plays one turn with the draws given: `first` for the player and,
    /// unless the player's roll ended the game, `second` for the opponent.
    pub fn resolve_turn(&mut self, first: i64, second: Option<i64>) -> (outcome: TurnOutcome)
        requires
            old(self)@.phase == GamePhase::InProgress,
            draws_fit(old(self)@.upper_bound, first as int, roll_value(second)),
        ensures
            outcome.player_roll == first,
            outcome.opponent_roll == second,
            outcome.consistent(),
            outcome.phase == final(self)@.phase,
            final(self)@ == old(self)@.turn_played(first as int, outcome.second()),
            final(self)@.valid(),
    {
        let first_line = player_text(first);
        self.upper_bound = first;
        self.record(first_line.clone());
        match second {
            None => {
                self.phase = GamePhase::GameOver;
                self.record(lost_text());
                TurnOutcome {
                    player_roll: first,
                    opponent_roll: None,
                    player_line: first_line,
                    opponent_line: None,
                    verdict: Verdict::Lost,
                    phase: GamePhase::GameOver,
                }
            },
            Some(roll) => {
                let second_line = opponent_text(roll);
                self.upper_bound = roll;
                self.record(second_line.clone());
                let won = roll == LOWEST_ROLL;
                if won {
                    self.phase = GamePhase::GameOver;
                    self.record(won_text());
                }
                TurnOutcome {
                    player_roll: first,
                    opponent_roll: Some(roll),
                    player_line: first_line,
                    opponent_line: Some(second_line),
                    verdict: if won {
                        Verdict::Won
                    } else {
                        Verdict::Undecided
                    },
                    phase: if won {
                        GamePhase::GameOver
                    } else {
                        GamePhase::InProgress
                    },
                }
            },
        }
    }

    /// Plays one turn with random draws: the player rolls under the upper
    /// bound; unless that roll is 1, the opponent rolls under the player's
    /// roll.
    ///
    /// Which numbers are drawn is left to chance. Whatever they are, they
    /// fit the turn, and the game goes on from them as `resolve_turn` says.
    pub fn roll_turn(&mut self) -> (outcome: TurnOutcome)
        requires
            old(self)@.phase == GamePhase::InProgress,
        ensures
            draws_fit(old(self)@.upper_bound, outcome.player_roll as int, outcome.second()),
            outcome.consistent(),
            outcome.phase == final(self)@.phase,
            final(self)@ == old(self)@.turn_played(outcome.player_roll as int, outcome.second()),
            final(self)@.valid(),
    {
        let first = generate_roll(self.upper_bound);
        let second = if first == LOWEST_ROLL {
            None
        } else {
            Some(generate_roll(first))
        };
        self.resolve_turn(first, second)
    }

    /// Leaves a finished game for the start menu and clears the history.
    /// The upper bound stays as it is until the next game sets it.
    pub fn restart(&mut self)
        requires
            old(self)@.phase == GamePhase::GameOver,
        ensures
            final(self)@ == old(self)@.restarted(),
            final(self)@.valid(),
    {
        self.history = Vec::new();
        self.phase = GamePhase::StartMenu;
        assert(self.history.deep_view() =~= Seq::<Seq<char>>::empty());
    }
}

} // verus!
