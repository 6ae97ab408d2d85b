//! What holds of every game, whatever is typed and whatever is rolled.

use crate::decimal::decimal;
use crate::decimal::is_numeric;
use crate::decimal::lemma_decimal_read_back;
use crate::decimal::lemma_numeric_texts_are_read;
use crate::dice::is_roll;
use crate::engine::verdict_of;
use crate::engine::Verdict;
use crate::log::lost_line;
use crate::log::opponent_line;
use crate::log::player_line;
use crate::log::started_line;
use crate::log::won_line;
use crate::state::draws_fit;
use crate::state::starting_value;
use crate::state::EngineState;
use crate::state::GamePhase;
use crate::state::MAX_STARTING_VALUE;
use vstd::prelude::*;

verus! {

/// Every positive number up to the largest starting value, written in
/// decimal notation, is accepted as that starting value. The game that it
/// starts from the start menu is in progress under that bound, and its
/// history holds the opening line and nothing else.
pub proof fn law_positive_number_starts_game(pre: EngineState, n: int)
    requires
        pre.valid(),
        pre.phase == GamePhase::StartMenu,
        0 < n <= MAX_STARTING_VALUE,
    ensures
        starting_value(decimal(n)) == Some(n),
        pre.started(n).phase == GamePhase::InProgress,
        pre.started(n).upper_bound == n,
        pre.started(n).history == seq![started_line(n)],
        pre.started(n).valid(),
{
    lemma_decimal_read_back(n);
    assert(pre.history =~= Seq::<Seq<char>>::empty());
    assert(pre.started(n).history =~= seq![started_line(n)]);
}

/// Zero and the negative numbers, written in decimal notation, are rejected
/// as a starting value.
pub proof fn law_non_positive_number_rejected(n: int)
    requires
        n <= 0,
    ensures
        starting_value(decimal(n)) is None,
{
    lemma_decimal_read_back(n);
}

/// A number above the largest starting value, written in decimal notation,
/// is rejected as a starting value.
pub proof fn law_oversized_number_rejected(n: int)
    requires
        n > MAX_STARTING_VALUE,
    ensures
        starting_value(decimal(n)) is None,
{
    lemma_decimal_read_back(n);
}

/// A text that does not have the shape of an integer is rejected as a
/// starting value.
pub proof fn law_non_numeric_text_rejected(text: Seq<char>)
    requires
        !is_numeric(text),
    ensures
        starting_value(text) is None,
{
    lemma_numeric_texts_are_read(text);
}

/// A turn in which the player rolls 1 ends the game as lost: the player's
/// line and the closing line are written, and nothing of the opponent. What
/// the opponent might have rolled plays no part.
pub proof fn law_first_roll_of_one_loses(pre: EngineState, second: Option<int>)
    ensures
        verdict_of(1, second) == Verdict::Lost,
        pre.turn_played(1, second).phase == GamePhase::GameOver,
        pre.turn_played(1, second).history == pre.history.push(player_line(1)).push(lost_line()),
        pre.turn_played(1, second) == pre.turn_played(1, None),
{
}

/// A turn in which the player rolls more than 1 and the opponent rolls 1
/// ends the game as won: both lines and the closing line are written.
pub proof fn law_second_roll_of_one_wins(pre: EngineState, first: int)
    requires
        first > 1,
    ensures
        verdict_of(first, Some(1int)) == Verdict::Won,
        pre.turn_played(first, Some(1int)).phase == GamePhase::GameOver,
        pre.turn_played(first, Some(1int)).history == pre.history.push(player_line(first)).push(
            opponent_line(1),
        ).push(won_line()),
{
}

/// A turn in which nobody rolls 1 leaves the game in progress, under the
/// opponent's roll as the new bound.
pub proof fn law_turn_without_one_goes_on(pre: EngineState, first: int, second: int)
    requires
        first != 1,
        second != 1,
    ensures
        verdict_of(first, Some(second)) == Verdict::Undecided,
        pre.turn_played(first, Some(second)).phase == GamePhase::InProgress,
        pre.turn_played(first, Some(second)).upper_bound == second,
        pre.turn_played(first, Some(second)).history == pre.history.push(player_line(first)).push(
            opponent_line(second),
        ),
{
}

/// A restart leads to the start menu with an empty history. The upper bound
/// that is left over plays no part in the next game.
pub proof fn law_restart_forgets(pre: EngineState, n: int)
    ensures
        pre.restarted().phase == GamePhase::StartMenu,
        pre.restarted().history == Seq::<Seq<char>>::empty(),
        pre.restarted().valid(),
        pre.restarted().started(n) == EngineState::initial().started(n),
{
}

/// A game that is in progress stays valid through a turn whose draws fit:
/// while it goes on, its upper bound is positive, and strictly below the
/// bound with which the turn began.
pub proof fn law_turn_keeps_bound_positive(pre: EngineState, first: int, second: Option<int>)
    requires
        pre.valid(),
        pre.phase == GamePhase::InProgress,
        draws_fit(pre.upper_bound, first, second),
    ensures
        pre.turn_played(first, second).valid(),
        pre.turn_played(first, second).upper_bound >= 1,
        pre.turn_played(first, second).phase != GamePhase::StartMenu,
        pre.turn_played(first, second).phase == GamePhase::InProgress ==> pre.turn_played(
            first,
            second,
        ).upper_bound < pre.upper_bound,
        pre.turn_played(first, second).phase == GamePhase::GameOver ==> pre.turn_played(
            first,
            second,
        ).upper_bound == 1,
{
}

/// Starting a game and playing a turn only add to the history: every line
/// written before stays where it was.
pub proof fn law_history_grows(pre: EngineState, n: int, first: int, second: Option<int>)
    ensures
        pre.history.is_prefix_of(pre.started(n).history),
        pre.history.is_prefix_of(pre.turn_played(first, second).history),
        pre.started(n).history.len() == pre.history.len() + 1,
        pre.turn_played(first, second).history.len() > pre.history.len(),
{
}

/// The initial state is valid.
pub proof fn law_initial_state_valid()
    ensures
        EngineState::initial().valid(),
        EngineState::initial().phase == GamePhase::StartMenu,
{
}

/// A draw under a bound of 1 or less is 1, and a draw under a larger bound
/// is at least 1 and below the bound.
pub proof fn law_roll_range(upper_limit: int, roll: int)
    requires
        is_roll(upper_limit, roll),
    ensures
        upper_limit <= 1 ==> roll == 1,
        upper_limit > 1 ==> 1 <= roll < upper_limit,
{
}

} // verus!
