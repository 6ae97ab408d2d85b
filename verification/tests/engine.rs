use deathroll::engine::parse_starting_value;
use deathroll::engine::TurnEngine;
use deathroll::engine::TurnOutcome;
use deathroll::engine::ValidationError;
use deathroll::engine::Verdict;
use deathroll::state::GamePhase;
use deathroll::state::MAX_STARTING_VALUE;

fn lines(engine: &TurnEngine) -> Vec<&str> {
    engine.history().iter().map(|line| line.as_str()).collect()
}

fn started(text: &str) -> TurnEngine {
    let mut engine = TurnEngine::new();
    assert_eq!(engine.start_game(text), Ok(()));
    engine
}

#[test]
fn new_game_waits_at_the_start_menu() {
    let engine = TurnEngine::new();
    assert_eq!(engine.phase(), GamePhase::StartMenu);
    assert_eq!(engine.upper_bound(), 0);
    assert!(engine.history().is_empty());
}

#[test]
fn start_with_ten() {
    let mut engine = TurnEngine::new();
    assert_eq!(engine.start_game("10"), Ok(()));
    assert_eq!(engine.phase(), GamePhase::InProgress);
    assert_eq!(engine.upper_bound(), 10);
    assert_eq!(lines(&engine), vec!["Game started with a roll of 10"]);
}

#[test]
fn start_with_ten_then_roll_one() {
    let mut engine = started("10");
    let outcome = engine.resolve_turn(1, None);
    assert_eq!(engine.phase(), GamePhase::GameOver);
    assert_eq!(
        lines(&engine),
        vec!["Game started with a roll of 10", "You rolled 1", "You lost the game!"]
    );
    assert_eq!(
        outcome,
        TurnOutcome {
            player_roll: 1,
            opponent_roll: None,
            player_line: "You rolled 1".to_string(),
            opponent_line: None,
            verdict: Verdict::Lost,
            phase: GamePhase::GameOver,
        }
    );
}

#[test]
fn positive_numbers_start_a_game() {
    let samples: Vec<i64> = vec![1, 2, 3, 9, 10, 100, 12345, 1 << 40, i64::MAX - 1, i64::MAX];
    for n in samples {
        let mut engine = TurnEngine::new();
        assert_eq!(engine.start_game(&n.to_string()), Ok(()));
        assert_eq!(engine.phase(), GamePhase::InProgress);
        assert_eq!(engine.upper_bound(), n);
        assert_eq!(lines(&engine), vec![format!("Game started with a roll of {}", n)]);
    }
}

#[test]
fn signs_and_leading_zeros_are_read() {
    let engine = started("+7");
    assert_eq!(engine.upper_bound(), 7);
    assert_eq!(lines(&engine), vec!["Game started with a roll of 7"]);
    let engine = started("0012");
    assert_eq!(engine.upper_bound(), 12);
    assert_eq!(lines(&engine), vec!["Game started with a roll of 12"]);
}

#[test]
fn largest_starting_value_is_accepted() {
    assert_eq!(MAX_STARTING_VALUE, 9223372036854775807);
    let engine = started("9223372036854775807");
    assert_eq!(engine.upper_bound(), MAX_STARTING_VALUE);
    assert_eq!(lines(&engine), vec!["Game started with a roll of 9223372036854775807"]);
}

#[test]
fn non_positive_numbers_are_rejected() {
    for text in ["0", "-0", "+0", "000", "-1", "-5", "-10", "-9223372036854775808"] {
        let mut engine = TurnEngine::new();
        assert_eq!(engine.start_game(text), Err(ValidationError), "starting with {:?}", text);
        assert_eq!(engine.phase(), GamePhase::StartMenu);
        assert_eq!(engine.upper_bound(), 0);
        assert!(engine.history().is_empty());
    }
}

#[test]
fn non_numeric_texts_are_rejected() {
    for text in ["", " ", "abc", "ten", "1.5", "1e3", "12a", " 12", "12 ", "+", "-", "--3", "1_0"] {
        let mut engine = TurnEngine::new();
        assert_eq!(engine.start_game(text), Err(ValidationError), "starting with {:?}", text);
        assert_eq!(engine.phase(), GamePhase::StartMenu);
        assert_eq!(engine.upper_bound(), 0);
        assert!(engine.history().is_empty());
    }
}

#[test]
fn numbers_too_large_are_rejected() {
    for text in ["9223372036854775808", "10000000000000000000", "99999999999999999999999"] {
        let mut engine = TurnEngine::new();
        assert_eq!(engine.start_game(text), Err(ValidationError), "starting with {:?}", text);
        assert_eq!(engine.phase(), GamePhase::StartMenu);
        assert!(engine.history().is_empty());
    }
}

#[test]
fn rejected_start_can_be_tried_again() {
    let mut engine = TurnEngine::new();
    assert_eq!(engine.start_game("nope"), Err(ValidationError));
    assert_eq!(engine.start_game("0"), Err(ValidationError));
    assert_eq!(engine.start_game("6"), Ok(()));
    assert_eq!(engine.phase(), GamePhase::InProgress);
    assert_eq!(engine.upper_bound(), 6);
    assert_eq!(lines(&engine), vec!["Game started with a roll of 6"]);
}

#[test]
fn starting_value_is_checked_without_a_game() {
    assert_eq!(parse_starting_value("10"), Ok(10));
    assert_eq!(parse_starting_value("1"), Ok(1));
    assert_eq!(parse_starting_value("+3"), Ok(3));
    assert_eq!(parse_starting_value("9223372036854775807"), Ok(i64::MAX));
    assert_eq!(parse_starting_value("0"), Err(ValidationError));
    assert_eq!(parse_starting_value("-4"), Err(ValidationError));
    assert_eq!(parse_starting_value(""), Err(ValidationError));
    assert_eq!(parse_starting_value("four"), Err(ValidationError));
    assert_eq!(parse_starting_value("9223372036854775808"), Err(ValidationError));
}

#[test]
fn validation_error_has_a_message() {
    assert_eq!(ValidationError.message(), "Invalid input. Please enter a valid number.");
}

#[test]
fn opponent_rolling_one_wins() {
    let mut engine = started("10");
    let outcome = engine.resolve_turn(5, Some(1));
    assert_eq!(engine.phase(), GamePhase::GameOver);
    assert_eq!(engine.upper_bound(), 1);
    assert_eq!(
        lines(&engine),
        vec![
            "Game started with a roll of 10",
            "You rolled 5",
            "Opponent rolled 1",
            "You won the game!"
        ]
    );
    assert_eq!(
        outcome,
        TurnOutcome {
            player_roll: 5,
            opponent_roll: Some(1),
            player_line: "You rolled 5".to_string(),
            opponent_line: Some("Opponent rolled 1".to_string()),
            verdict: Verdict::Won,
            phase: GamePhase::GameOver,
        }
    );
}

#[test]
fn turn_without_a_one_goes_on() {
    let mut engine = started("100");
    let outcome = engine.resolve_turn(42, Some(17));
    assert_eq!(engine.phase(), GamePhase::InProgress);
    assert_eq!(engine.upper_bound(), 17);
    assert_eq!(
        lines(&engine),
        vec!["Game started with a roll of 100", "You rolled 42", "Opponent rolled 17"]
    );
    assert_eq!(
        outcome,
        TurnOutcome {
            player_roll: 42,
            opponent_roll: Some(17),
            player_line: "You rolled 42".to_string(),
            opponent_line: Some("Opponent rolled 17".to_string()),
            verdict: Verdict::Undecided,
            phase: GamePhase::InProgress,
        }
    );
}

#[test]
fn game_over_several_turns() {
    let mut engine = started("1000");
    assert_eq!(engine.resolve_turn(900, Some(450)).verdict, Verdict::Undecided);
    assert_eq!(engine.upper_bound(), 450);
    assert_eq!(engine.resolve_turn(30, Some(2)).verdict, Verdict::Undecided);
    assert_eq!(engine.upper_bound(), 2);
    assert_eq!(engine.resolve_turn(1, None).verdict, Verdict::Lost);
    assert_eq!(engine.phase(), GamePhase::GameOver);
    assert_eq!(engine.upper_bound(), 1);
    assert_eq!(
        lines(&engine),
        vec![
            "Game started with a roll of 1000",
            "You rolled 900",
            "Opponent rolled 450",
            "You rolled 30",
            "Opponent rolled 2",
            "You rolled 1",
            "You lost the game!"
        ]
    );
}

#[test]
fn large_rolls_are_written_in_full() {
    let mut engine = started("9223372036854775807");
    engine.resolve_turn(9223372036854775806, Some(9223372036854775805));
    assert_eq!(engine.upper_bound(), 9223372036854775805);
    assert_eq!(
        lines(&engine),
        vec![
            "Game started with a roll of 9223372036854775807",
            "You rolled 9223372036854775806",
            "Opponent rolled 9223372036854775805"
        ]
    );
}

#[test]
fn restart_clears_the_history() {
    let mut engine = started("10");
    engine.resolve_turn(4, Some(1));
    assert_eq!(engine.phase(), GamePhase::GameOver);
    assert_eq!(engine.history().len(), 4);
    engine.restart();
    assert_eq!(engine.phase(), GamePhase::StartMenu);
    assert!(engine.history().is_empty());
}

#[test]
fn restart_leaves_the_old_bound_to_the_next_start() {
    let mut engine = started("10");
    engine.resolve_turn(1, None);
    engine.restart();
    assert_eq!(engine.upper_bound(), 1);
    assert_eq!(engine.start_game("25"), Ok(()));
    assert_eq!(engine.phase(), GamePhase::InProgress);
    assert_eq!(engine.upper_bound(), 25);
    assert_eq!(lines(&engine), vec!["Game started with a roll of 25"]);
}

#[test]
fn restarted_game_plays_like_a_new_one() {
    let mut played = started("10");
    played.resolve_turn(3, Some(1));
    played.restart();
    assert_eq!(played.start_game("8"), Ok(()));
    played.resolve_turn(2, Some(1));
    let mut fresh = started("8");
    fresh.resolve_turn(2, Some(1));
    assert_eq!(played.phase(), fresh.phase());
    assert_eq!(played.upper_bound(), fresh.upper_bound());
    assert_eq!(played.history(), fresh.history());
}

#[test]
fn rolling_from_one_loses_at_once() {
    let mut engine = started("1");
    let outcome = engine.roll_turn();
    assert_eq!(outcome.player_roll, 1);
    assert_eq!(outcome.opponent_roll, None);
    assert_eq!(outcome.player_line, "You rolled 1");
    assert_eq!(outcome.opponent_line, None);
    assert_eq!(outcome.verdict, Verdict::Lost);
    assert_eq!(outcome.phase, GamePhase::GameOver);
    assert_eq!(engine.phase(), GamePhase::GameOver);
    assert_eq!(
        lines(&engine),
        vec!["Game started with a roll of 1", "You rolled 1", "You lost the game!"]
    );
}

#[test]
fn rolling_from_two_loses_at_once() {
    for _ in 0..50 {
        let mut engine = started("2");
        let outcome = engine.roll_turn();
        assert_eq!(outcome.player_roll, 1);
        assert_eq!(outcome.opponent_roll, None);
        assert_eq!(outcome.verdict, Verdict::Lost);
        assert_eq!(
            lines(&engine),
            vec!["Game started with a roll of 2", "You rolled 1", "You lost the game!"]
        );
    }
}

#[test]
fn rolling_from_three_ends_the_game() {
    for _ in 0..100 {
        let mut engine = started("3");
        let outcome = engine.roll_turn();
        assert_eq!(engine.phase(), GamePhase::GameOver);
        if outcome.player_roll == 1 {
            assert_eq!(outcome.verdict, Verdict::Lost);
            assert_eq!(outcome.opponent_roll, None);
            assert_eq!(
                lines(&engine),
                vec!["Game started with a roll of 3", "You rolled 1", "You lost the game!"]
            );
        } else {
            assert_eq!(outcome.player_roll, 2);
            assert_eq!(outcome.opponent_roll, Some(1));
            assert_eq!(outcome.verdict, Verdict::Won);
            assert_eq!(
                lines(&engine),
                vec![
                    "Game started with a roll of 3",
                    "You rolled 2",
                    "Opponent rolled 1",
                    "You won the game!"
                ]
            );
        }
    }
}

#[test]
fn random_games_follow_the_rules() {
    for _ in 0..200 {
        let mut engine = started("1000");
        let mut expected: Vec<String> = vec!["Game started with a roll of 1000".to_string()];
        let mut bound: i64 = 1000;
        let mut turns = 0;
        while engine.phase() == GamePhase::InProgress {
            let outcome = engine.roll_turn();
            turns += 1;
            assert!(turns <= 500);
            let first = outcome.player_roll;
            assert!(1 <= first && first < bound);
            assert_eq!(outcome.player_line, format!("You rolled {}", first));
            expected.push(format!("You rolled {}", first));
            match outcome.opponent_roll {
                None => {
                    assert_eq!(first, 1);
                    assert_eq!(outcome.opponent_line, None);
                    assert_eq!(outcome.verdict, Verdict::Lost);
                    expected.push("You lost the game!".to_string());
                    bound = first;
                }
                Some(second) => {
                    assert!(first > 1);
                    assert!(1 <= second && second < first);
                    assert_eq!(outcome.opponent_line, Some(format!("Opponent rolled {}", second)));
                    expected.push(format!("Opponent rolled {}", second));
                    if second == 1 {
                        assert_eq!(outcome.verdict, Verdict::Won);
                        expected.push("You won the game!".to_string());
                    } else {
                        assert_eq!(outcome.verdict, Verdict::Undecided);
                    }
                    bound = second;
                }
            }
            assert_eq!(engine.upper_bound(), bound);
            assert_eq!(outcome.phase, engine.phase());
            assert_eq!(
                engine.phase() == GamePhase::GameOver,
                outcome.verdict != Verdict::Undecided
            );
            assert_eq!(engine.history(), &expected);
        }
        assert_eq!(engine.phase(), GamePhase::GameOver);
        assert_eq!(engine.upper_bound(), 1);
    }
}
