//! The lines that the game writes into its history.

use crate::decimal::decimal;
use crate::decimal::decimal_string;
use vstd::prelude::*;
use vstd::string::StringExecFns;

verus! {

/// The line that opens a game with the starting value `n`.
pub open spec fn started_line(n: int) -> Seq<char> {
    "Game started with a roll of "@ + decimal(n)
}

/// The line for the player's roll.
pub open spec fn player_line(roll: int) -> Seq<char> {
    "You rolled "@ + decimal(roll)
}

/// The line for the opponent's roll.
pub open spec fn opponent_line(roll: int) -> Seq<char> {
    "Opponent rolled "@ + decimal(roll)
}

/// The line that closes a game which the player lost.
pub open spec fn lost_line() -> Seq<char> {
    "You lost the game!"@
}

/// The line that closes a game which the player won.
pub open spec fn won_line() -> Seq<char> {
    "You won the game!"@
}

/// `label` followed by `n` in decimal notation.
fn numbered(label: &str, n: i64) -> (line: String)
    ensures
        line@ == label@ + decimal(n as int),
{
    let mut line = label.to_owned();
    let number = decimal_string(n);
    line.append(number.as_str());
    line
}

/// Writes the line that opens a game with the starting value `n`.
pub fn started_text(n: i64) -> (line: String)
    ensures
        line@ == started_line(n as int),
{
    numbered("Game started with a roll of ", n)
}

/// Writes the line for the player's roll.
pub fn player_text(roll: i64) -> (line: String)
    ensures
        line@ == player_line(roll as int),
{
    numbered("You rolled ", roll)
}

/// Writes the line for the opponent's roll.
pub fn opponent_text(roll: i64) -> (line: String)
    ensures
        line@ == opponent_line(roll as int),
{
    numbered("Opponent rolled ", roll)
}

/// Writes the line that closes a game which the player lost.
pub fn lost_text() -> (line: String)
    ensures
        line@ == lost_line(),
{
    "You lost the game!".to_owned()
}

/// Writes the line that closes a game which the player won.
pub fn won_text() -> (line: String)
    ensures
        line@ == won_line(),
{
    "You won the game!".to_owned()
}

} // verus!
