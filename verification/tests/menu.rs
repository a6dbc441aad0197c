use fashion_mnist::menu::{
    invalid_option_message, menu_choice, next_step, parse_index, MenuChoice, MenuOutcome, MenuStep,
};
use fashion_mnist::text::decimal_string;

#[test]
fn menu_choices() {
    assert_eq!(menu_choice("1\n"), MenuChoice::Train);
    assert_eq!(menu_choice("  2 \r\n"), MenuChoice::Predict);
    assert_eq!(menu_choice("3\n"), MenuChoice::Invalid);
    assert_eq!(menu_choice("11\n"), MenuChoice::Invalid);
    assert_eq!(menu_choice(""), MenuChoice::Invalid);
    assert_eq!(menu_choice("1 2"), MenuChoice::Invalid);
}

#[test]
fn invalid_option_quotes_trimmed_input() {
    assert_eq!(invalid_option_message(" x \n"), "'x' is not a valid option.");
    assert_eq!(invalid_option_message("\n"), "'' is not a valid option.");
}

#[test]
fn parse_index_falls_back_to_zero() {
    assert_eq!(parse_index("42\n"), 42);
    assert_eq!(parse_index("  9999  "), 9999);
    assert_eq!(parse_index("abc\n"), 0);
    assert_eq!(parse_index("-5\n"), 0);
    assert_eq!(parse_index("\n"), 0);
}

#[test]
fn printed_index_reads_back() {
    for n in [0usize, 1, 9, 10, 123, 9999, usize::MAX] {
        assert_eq!(parse_index(&decimal_string(n)), n);
        assert_eq!(parse_index(&format!(" {}\n", decimal_string(n))), n);
    }
}

#[test]
fn menu_stops_only_after_success() {
    assert_eq!(next_step(MenuOutcome::Trained), MenuStep::Stop);
    assert_eq!(next_step(MenuOutcome::Predicted), MenuStep::Stop);
    assert_eq!(next_step(MenuOutcome::ModelMissing), MenuStep::AskAgain);
    assert_eq!(next_step(MenuOutcome::PredictionFailed), MenuStep::AskAgain);
    assert_eq!(next_step(MenuOutcome::InvalidChoice), MenuStep::AskAgain);
}
