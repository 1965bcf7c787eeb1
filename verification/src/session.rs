//! The loop that puts a question until it has an answer, as a machine of
//! states: what it shows first, and what it decides after each read.
use crate::choices::{accepted, rendered, Answer, InteractChoices, InteractResult, Question};
use crate::text::{trim_end, trimmed};
use vstd::prelude::*;

verus! {

/// Why an interaction ended without an answer.
#[derive(Debug, Clone, Copy, PartialEq, Eq)]
pub enum InteractError {
    /// The input could not be read.
    ReadFailed,
    /// Every attempt that the question allows went by on an invalid
    /// selection.
    TooManyAttempts,
    /// The answer is of another kind than the caller asked for.
    WrongKind,
    /// Canned input came to its end on a question without a limit for which
    /// the empty line is no valid selection: every further read would give
    /// the empty line again, and the loop would never end.
    InputEnded,
}

/// What a read of the input came to.
pub enum ReadEvent<'a> {
    /// The line that was read, with its line ending. At the end of the
    /// input it is empty.
    Line(&'a str),
    /// The read failed.
    Failed,
}

/// A read as a mathematical value.
pub ghost enum Event {
    Line(Seq<char>),
    Failed,
}

impl<'a> View for ReadEvent<'a> {
    type V = Event;

    open spec fn view(&self) -> Event {
        match *self {
            ReadEvent::Line(line) => Event::Line(line@),
            ReadEvent::Failed => Event::Failed,
        }
    }
}

/// An interaction that waits for its next line.
pub struct Interaction {
    choices: InteractChoices,
    left: Option<usize>,
}

/// An interaction as a mathematical value: the question, and how many
/// attempts may still go by on an invalid selection (`None`: any number).
pub ghost struct Progress {
    pub question: Question,
    pub left: Option<nat>,
}

impl View for Interaction {
    type V = Progress;

    closed spec fn view(&self) -> Progress {
        Progress {
            question: self.choices@,
            left: match self.left {
                Some(n) => Some(n as nat),
                None => None,
            },
        }
    }
}

/// What to do after a read.
pub enum Step {
    /// The selection was valid: the interaction is over.
    Done(InteractResult),
    /// Show these texts in order, each on a line of its own, then read
    /// again.
    Again(Interaction, Vec<String>),
    /// Show these texts in the same way, then fail.
    GiveUp(Vec<String>, InteractError),
}

/// A step as a mathematical value.
pub ghost enum Move {
    Done(Answer),
    Again(Progress, Seq<Seq<char>>),
    GiveUp(Seq<Seq<char>>, InteractError),
}

/// The characters of each text of a list.
pub open spec fn shown_of(v: Seq<String>) -> Seq<Seq<char>> {
    Seq::new(v.len(), |i: int| v[i]@)
}

impl View for Step {
    type V = Move;

    open spec fn view(&self) -> Move {
        match *self {
            Step::Done(result) => Move::Done(result@),
            Step::Again(next, shown) => Move::Again(next@, shown_of(shown@)),
            Step::GiveUp(shown, error) => Move::GiveUp(shown_of(shown@), error),
        }
    }
}

/// What the user is told about a selection that is not valid.
pub open spec fn rejection_text(input: Seq<char>) -> Seq<char> {
    "You entered '"@ + input
        + "' which doesn't seem to be a valid selection. Please try again, or exit"@
}

/// What is shown before the first read: the description, where there is
/// one, and the question.
pub open spec fn opening(q: Question) -> Seq<Seq<char>> {
    match q.description {
        Some(description) => seq![description, rendered(q)],
        None => seq![rendered(q)],
    }
}

/// The interaction before its first read.
pub open spec fn start(q: Question) -> Progress {
    Progress { question: q, left: q.max_loop }
}

/// What the loop decides after one read.
///
/// A failed read ends it at once. A line is trimmed at its end and held
/// against the question. A valid selection ends the loop with its answer.
/// An invalid one is told to the user; it ends the loop when it was the
/// last attempt allowed, and else the question is shown again.
pub open spec fn step(p: Progress, event: Event) -> Move {
    match event {
        Event::Failed => Move::GiveUp(Seq::empty(), InteractError::ReadFailed),
        Event::Line(line) => {
            let input = trimmed(line);
            match accepted(p.question, input) {
                Some(answer) => Move::Done(answer),
                None => match p.left {
                    Some(left) if left <= 1 => Move::GiveUp(
                        seq![rejection_text(input)],
                        InteractError::TooManyAttempts,
                    ),
                    Some(left) => Move::Again(
                        Progress { question: p.question, left: Some((left - 1) as nat) },
                        seq![rejection_text(input), rendered(p.question)],
                    ),
                    None => Move::Again(p, seq![rejection_text(input), rendered(p.question)]),
                },
            }
        },
    }
}

/// The text that tells the user that `input` is no valid selection.
pub fn rejection(input: &str) -> (text: String)
    ensures
        text@ == rejection_text(input@),
{
    let mut text = "You entered '".to_owned();
    text.append(input);
    text.append("' which doesn't seem to be a valid selection. Please try again, or exit");
    text
}

impl InteractError {
    /// What went wrong, in words.
    pub fn message(&self) -> (text: &'static str)
        ensures
            text@ == match *self {
                InteractError::ReadFailed => "Failed to read the input"@,
                InteractError::TooManyAttempts =>
                    "Failed to get an appropriate selection from the user after several attempts"@,
                InteractError::WrongKind =>
                    "The selection is not of the kind that was asked for"@,
                InteractError::InputEnded =>
                    "The input ended before an appropriate selection was made"@,
            },
    {
        match self {
            InteractError::ReadFailed => "Failed to read the input",
            InteractError::TooManyAttempts =>
                "Failed to get an appropriate selection from the user after several attempts",
            InteractError::WrongKind => "The selection is not of the kind that was asked for",
            InteractError::InputEnded =>
                "The input ended before an appropriate selection was made",
        }
    }
}

impl Interaction {
    /// Starts an interaction. The texts that come with it are to be shown
    /// in order, each on a line of its own, before the first read.
    pub fn begin(interact_choices: InteractChoices) -> (begun: (Interaction, Vec<String>))
        ensures
            begun.0@ == start(interact_choices@),
            shown_of(begun.1@) == opening(interact_choices@),
    {
        let mut shown: Vec<String> = Vec::new();
        match &interact_choices.description {
            Some(description) => {
                shown.push(description.clone());
            },
            None => {},
        }
        shown.push(interact_choices.print());
        assert(shown_of(shown@) =~= opening(interact_choices@));
        let left = interact_choices.max_loop;
        (Interaction { choices: interact_choices, left }, shown)
    }

    /// How many attempts may still go by on an invalid selection; `None`
    /// where there is no limit.
    pub fn attempts_left(&self) -> (left: Option<usize>)
        ensures
            match left {
                Some(n) => self@.left == Some(n as nat),
                None => self@.left is None,
            },
    {
        self.left
    }

    /// Takes what a read came to and decides how the loop goes on.
    pub fn respond(self, event: ReadEvent) -> (next: Step)
        ensures
            next@ == step(self@, event@),
    {
        match event {
            ReadEvent::Failed => {
                let shown: Vec<String> = Vec::new();
                assert(shown_of(shown@) =~= Seq::empty());
                Step::GiveUp(shown, InteractError::ReadFailed)
            },
            ReadEvent::Line(line) => {
                let input = trim_end(line);
                match self.choices.get_result(input) {
                    Some(result) => Step::Done(result),
                    None => {
                        let mut shown: Vec<String> = Vec::new();
                        shown.push(rejection(input));
                        match self.left {
                            Some(left) if left <= 1 => {
                                assert(shown_of(shown@) =~= seq![rejection_text(input@)]);
                                Step::GiveUp(shown, InteractError::TooManyAttempts)
                            },
                            Some(left) => {
                                shown.push(self.choices.print());
                                assert(shown_of(shown@) =~= seq![
                                    rejection_text(input@),
                                    rendered(self.choices@),
                                ]);
                                Step::Again(
                                    Interaction { choices: self.choices, left: Some(left - 1) },
                                    shown,
                                )
                            },
                            None => {
                                shown.push(self.choices.print());
                                assert(shown_of(shown@) =~= seq![
                                    rejection_text(input@),
                                    rendered(self.choices@),
                                ]);
                                Step::Again(self, shown)
                            },
                        }
                    },
                }
            },
        }
    }
}

} // verus!
