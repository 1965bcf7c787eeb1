//! Answers of one kind: a run of the loop, and then the bare value where
//! the answer is of the kind that the caller asked for.
use crate::choices::{Answer, InteractChoices, InteractResult};
use crate::record::{interact_ex, run};
use crate::session::InteractError;
use vstd::prelude::*;

verus! {

/// The yes or no in an outcome. An answer of another kind is `WrongKind`;
/// a failure stays what it is.
pub open spec fn yesno_of(outcome: Result<Answer, InteractError>) -> Result<bool, InteractError> {
    match outcome {
        Ok(Answer::YesNo(yes)) => Ok(yes),
        Ok(_) => Err(InteractError::WrongKind),
        Err(error) => Err(error),
    }
}

/// The number in an outcome. An answer of another kind is `WrongKind`; a
/// failure stays what it is.
pub open spec fn number_of(outcome: Result<Answer, InteractError>) -> Result<nat, InteractError> {
    match outcome {
        Ok(Answer::Number(n)) => Ok(n),
        Ok(_) => Err(InteractError::WrongKind),
        Err(error) => Err(error),
    }
}

/// The word in an outcome. An answer of another kind is `WrongKind`; a
/// failure stays what it is.
pub open spec fn word_of(outcome: Result<Answer, InteractError>) -> Result<
    Seq<char>,
    InteractError,
> {
    match outcome {
        Ok(Answer::Word(word)) => Ok(word),
        Ok(_) => Err(InteractError::WrongKind),
        Err(error) => Err(error),
    }
}

/// The mathematical value of a number or a failure.
pub open spec fn counted(outcome: Result<usize, InteractError>) -> Result<nat, InteractError> {
    match outcome {
        Ok(n) => Ok(n as nat),
        Err(error) => Err(error),
    }
}

/// The mathematical value of a word or a failure.
pub open spec fn spelled(outcome: Result<String, InteractError>) -> Result<
    Seq<char>,
    InteractError,
> {
    match outcome {
        Ok(word) => Ok(word@),
        Err(error) => Err(error),
    }
}

impl InteractResult {
    /// The yes or no that was selected; `WrongKind` for any other answer.
    pub fn yesno(self) -> (yes: Result<bool, InteractError>)
        ensures
            yes == yesno_of(Ok(self@)),
    {
        match self {
            InteractResult::YesNo(yes) => Ok(yes),
            _ => Err(InteractError::WrongKind),
        }
    }

    /// The number that was selected, counted from 1; `WrongKind` for any
    /// other answer.
    pub fn number(self) -> (number: Result<usize, InteractError>)
        ensures
            counted(number) == number_of(Ok(self@)),
    {
        match self {
            InteractResult::Number(n) => Ok(n),
            _ => Err(InteractError::WrongKind),
        }
    }

    /// The word that was entered; `WrongKind` for any other answer.
    pub fn word(self) -> (word: Result<String, InteractError>)
        ensures
            spelled(word) == word_of(Ok(self@)),
    {
        match self {
            InteractResult::Word(word) => Ok(word),
            _ => Err(InteractError::WrongKind),
        }
    }
}

/// Puts the question to an input that holds `input` and gives the yes or
/// no that was selected.
pub fn interact_yesno_ex(interact_choices: InteractChoices, input: &str) -> (yes: Result<
    bool,
    InteractError,
>)
    ensures
        yes == yesno_of(run(interact_choices@, input@).outcome),
{
    match interact_ex(interact_choices, input) {
        Ok(result) => result.yesno(),
        Err(error) => Err(error),
    }
}

/// Puts the question to an input that holds `input` and gives the number
/// that was selected, counted from 1.
pub fn interact_number_ex(interact_choices: InteractChoices, input: &str) -> (number: Result<
    usize,
    InteractError,
>)
    ensures
        counted(number) == number_of(run(interact_choices@, input@).outcome),
{
    match interact_ex(interact_choices, input) {
        Ok(result) => result.number(),
        Err(error) => Err(error),
    }
}

/// Puts the question to an input that holds `input` and gives the word
/// that was entered.
pub fn interact_word_ex(interact_choices: InteractChoices, input: &str) -> (word: Result<
    String,
    InteractError,
>)
    ensures
        spelled(word) == word_of(run(interact_choices@, input@).outcome),
{
    match interact_ex(interact_choices, input) {
        Ok(result) => result.word(),
        Err(error) => Err(error),
    }
}

} // verus!
