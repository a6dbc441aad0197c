//! The decisions of the interactive menu.

use crate::text::{
    decimal, lemma_parse_decimal, lemma_trim_decimal, lemma_trim_idempotent, parse_usize,
    parsed_usize, trim, trimmed,
};
use vstd::prelude::*;

verus! {

/// What the user picked in the menu.
#[derive(Clone, Copy, Debug, PartialEq, Eq, Structural)]
pub enum MenuChoice {
    /// Option 1: train a new model.
    Train,
    /// Option 2: predict on a test image.
    Predict,
    /// Anything else.
    Invalid,
}

/// What came of one round of the menu.
#[derive(Clone, Copy, Debug, PartialEq, Eq, Structural)]
pub enum MenuOutcome {
    /// A model was trained and saved.
    Trained,
    /// Prediction was picked, but no trained model was found.
    ModelMissing,
    /// Prediction was attempted and failed.
    PredictionFailed,
    /// A prediction was made and shown.
    Predicted,
    /// The answer was not a menu option.
    InvalidChoice,
}

/// What the menu does after a round.
#[derive(Clone, Copy, Debug, PartialEq, Eq, Structural)]
pub enum MenuStep {
    /// The program ends.
    Stop,
    /// The menu is shown again.
    AskAgain,
}

/// The menu ends after a successful training or prediction and is shown
/// again after anything else.
pub open spec fn spec_next_step(outcome: MenuOutcome) -> MenuStep {
    match outcome {
        MenuOutcome::Trained | MenuOutcome::Predicted => MenuStep::Stop,
        _ => MenuStep::AskAgain,
    }
}

/// Decides whether the menu runs another round.
pub fn next_step(outcome: MenuOutcome) -> (step: MenuStep)
    ensures
        step == spec_next_step(outcome),
        (step == MenuStep::Stop) <==> (outcome == MenuOutcome::Trained || outcome
            == MenuOutcome::Predicted),
{
    match outcome {
        MenuOutcome::Trained | MenuOutcome::Predicted => MenuStep::Stop,
        _ => MenuStep::AskAgain,
    }
}

/// The choice that an input line makes: `1` or `2` once white space is
/// trimmed, else an invalid one.
pub open spec fn spec_menu_choice(line: Seq<char>) -> MenuChoice {
    if trimmed(line) == seq!['1'] {
        MenuChoice::Train
    } else if trimmed(line) == seq!['2'] {
        MenuChoice::Predict
    } else {
        MenuChoice::Invalid
    }
}

/// Reads a menu choice from an input line.
pub fn menu_choice(line: &str) -> (choice: MenuChoice)
    ensures
        choice == spec_menu_choice(line@),
        (choice == MenuChoice::Train) <==> trimmed(line@) == seq!['1'],
        (choice == MenuChoice::Predict) <==> trimmed(line@) == seq!['2'],
        (choice == MenuChoice::Invalid) <==> trimmed(line@) != seq!['1'] && trimmed(line@)
            != seq!['2'],
{
    let t = trim(line);
    if t.unicode_len() == 1 {
        let c = t.get_char(0);
        if c == '1' {
            assert(t@ =~= seq!['1']);
            return MenuChoice::Train;
        } else if c == '2' {
            assert(t@ =~= seq!['2']);
            return MenuChoice::Predict;
        }
    }
    MenuChoice::Invalid
}

/// The text of the error for an invalid menu choice.
pub open spec fn spec_invalid_option_message(line: Seq<char>) -> Seq<char> {
    "'"@ + trimmed(line) + "' is not a valid option."@
}

/// The error shown for an invalid menu choice; it quotes the trimmed input.
pub fn invalid_option_message(line: &str) -> (message: String)
    ensures
        message@ == spec_invalid_option_message(line@),
        message@ == "'"@ + trimmed(line@) + "' is not a valid option."@,
{
    let mut message = String::from_str("'");
    message.append(trim(line));
    message.append("' is not a valid option.");
    message
}

/// The test image index that an input line asks for: the trimmed line as a
/// decimal number, or 0 where it is not one.
pub open spec fn spec_index_choice(line: Seq<char>) -> usize {
    match parsed_usize(trimmed(line)) {
        Some(index) => index,
        None => 0,
    }
}

/// Reads a test image index from an input line; 0 where the line holds no
/// number.
pub fn parse_index(line: &str) -> (index: usize)
    ensures
        index == spec_index_choice(line@),
{
    match parse_usize(trim(line)) {
        Some(index) => index,
        None => 0,
    }
}

/// The menu picks training exactly for the answer `1` and prediction exactly
/// for `2` (white space around them aside); every other answer is invalid.
pub proof fn lemma_menu_choice_options(line: Seq<char>)
    ensures
        (spec_menu_choice(line) == MenuChoice::Train) <==> trimmed(line) == seq!['1'],
        (spec_menu_choice(line) == MenuChoice::Predict) <==> trimmed(line) == seq!['2'],
        (spec_menu_choice(line) == MenuChoice::Invalid) <==> (trimmed(line) != seq!['1']
            && trimmed(line) != seq!['2']),
{
    assert(seq!['1'] != seq!['2']) by {
        assert(seq!['1'][0] != seq!['2'][0]);
    }
}

/// The menu ends exactly after a successful training or prediction.
pub proof fn lemma_next_step_stops_on_success(outcome: MenuOutcome)
    ensures
        (spec_next_step(outcome) == MenuStep::Stop) <==> (outcome == MenuOutcome::Trained
            || outcome == MenuOutcome::Predicted),
{
}

/// An index typed back in the decimal form that the program prints is read
/// as that index.
pub proof fn lemma_index_roundtrip(index: usize)
    ensures
        spec_index_choice(decimal(index as nat)) == index,
{
    lemma_trim_decimal(index as nat);
    lemma_parse_decimal(index);
}

/// White space around an answer does not change what it means.
pub proof fn lemma_choice_ignores_white_space(line: Seq<char>)
    ensures
        spec_menu_choice(trimmed(line)) == spec_menu_choice(line),
        spec_index_choice(trimmed(line)) == spec_index_choice(line),
{
    lemma_trim_idempotent(line);
}

} // verus!
