//! Whole runs of the loop on canned input: the text that the user would
//! have typed is given beforehand, and what the loop showed and read is
//! kept.
use crate::choices::{Answer, InteractChoices, InteractResult, Question};
use crate::session::{
    opening, shown_of, start, step, Event, InteractError, Interaction, Move, Progress,
    ReadEvent, Step,
};
use crate::text::{after_first_line, chars_of, first_line, lemma_line_len_bounds, line_end};
use vstd::prelude::*;

verus! {

/// What one run of the loop did.
pub struct Transcript {
    /// The texts that were shown, in order. Each stands on a line of its
    /// own.
    pub shown: Vec<String>,
    /// How many times the input was read.
    pub reads: usize,
    /// The answer, or why there is none.
    pub outcome: Result<InteractResult, InteractError>,
}

/// A run as a mathematical value.
pub ghost struct Record {
    pub shown: Seq<Seq<char>>,
    pub reads: nat,
    pub outcome: Result<Answer, InteractError>,
}

/// The mathematical value of an outcome.
pub open spec fn outcome_of(outcome: Result<InteractResult, InteractError>) -> Result<
    Answer,
    InteractError,
> {
    match outcome {
        Ok(result) => Ok(result@),
        Err(error) => Err(error),
    }
}

impl View for Transcript {
    type V = Record;

    open spec fn view(&self) -> Record {
        Record {
            shown: shown_of(self.shown@),
            reads: self.reads as nat,
            outcome: outcome_of(self.outcome),
        }
    }
}

/// How far an interaction is from its end at most, where it has a limit.
pub open spec fn budget(left: Option<nat>) -> nat {
    match left {
        Some(n) => n,
        None => 0,
    }
}

/// `later` with `shown` and one more read put in front of it.
pub open spec fn after_read(shown: Seq<Seq<char>>, later: Record) -> Record {
    Record { shown: shown + later.shown, reads: 1 + later.reads, outcome: later.outcome }
}

/// What becomes of an interaction that reads `text` line by line.
///
/// Each read takes the next line from the front of `text`; at the end of
/// the text a read gives the empty line. The run goes on until a step ends
/// it. One case is cut short: where the text is at its end, the empty line
/// was just refused and there is no limit, every further read would be
/// refused alike, and the run ends with `InputEnded`.
pub open spec fn replay(p: Progress, text: Seq<char>) -> Record
    decreases text.len(), budget(p.left),
{
    match step(p, Event::Line(first_line(text))) {
        Move::Done(answer) => Record { shown: Seq::empty(), reads: 1, outcome: Ok(answer) },
        Move::GiveUp(shown, error) => Record { shown, reads: 1, outcome: Err(error) },
        Move::Again(next, shown) => {
            if text.len() == 0 && next.left is None {
                Record { shown, reads: 1, outcome: Err(InteractError::InputEnded) }
            } else {
                proof {
                    lemma_line_len_bounds(text);
                }
                after_read(shown, replay(next, after_first_line(text)))
            }
        },
    }
}

/// What becomes of the question `q` when the input holds `text`.
pub open spec fn run(q: Question, text: Seq<char>) -> Record {
    let later = replay(start(q), text);
    Record { shown: opening(q) + later.shown, reads: later.reads, outcome: later.outcome }
}

/// Puts the question to an input that holds `input`, and keeps what was
/// shown and how often the input was read.
///
/// Cutting a line off `input` costs time in proportion to where the line
/// ends, so the whole run is linear in the length of `input` for each read.
pub fn interact_recorded(interact_choices: InteractChoices, input: &str) -> (transcript:
    Transcript)
    ensures
        transcript@ == run(interact_choices@, input@),
{
    let chars = chars_of(input);
    let ghost whole = run(interact_choices@, input@);
    let (begun, begun_shown) = Interaction::begin(interact_choices);
    let mut state = begun;
    let mut shown = begun_shown;
    let mut reads: usize = 0;
    let mut pos: usize = 0;
    assert(input@.skip(0) == input@);
    assert(shown_of(shown@) + Seq::<Seq<char>>::empty() == shown_of(shown@));
    loop
        invariant
            chars@ == input@,
            whole == run(interact_choices@, input@),
            pos <= chars.len(),
            reads < shown.len(),
            whole.shown == shown_of(shown@) + replay(state@, input@.skip(pos as int)).shown,
            whole.reads == reads + replay(state@, input@.skip(pos as int)).reads,
            whole.outcome == replay(state@, input@.skip(pos as int)).outcome,
        decreases chars.len() - pos, budget(state@.left),
    {
        let ghost rest = input@.skip(pos as int);
        let ghost before = shown_of(shown@);
        let at_end = pos == chars.len();
        let end = line_end(&chars, pos);
        let line = input.substring_char(pos, end);
        proof {
            lemma_line_len_bounds(rest);
            assert(line@ == first_line(rest));
            assert(after_first_line(rest) == input@.skip(end as int));
        }
        reads = reads + 1;
        match state.respond(ReadEvent::Line(line)) {
            Step::Done(result) => {
                assert(before + Seq::<Seq<char>>::empty() == before);
                return Transcript { shown, reads, outcome: Ok(result) };
            },
            Step::GiveUp(mut more, error) => {
                let ghost told = shown_of(more@);
                shown.append(&mut more);
                assert(shown_of(shown@) == before + told);
                return Transcript { shown, reads, outcome: Err(error) };
            },
            Step::Again(next, mut more) => {
                let ghost told = shown_of(more@);
                shown.append(&mut more);
                assert(shown_of(shown@) == before + told);
                if at_end && next.attempts_left().is_none() {
                    return Transcript { shown, reads, outcome: Err(InteractError::InputEnded) };
                }
                assert(before + (told + replay(next@, input@.skip(end as int)).shown) == (before
                    + told) + replay(next@, input@.skip(end as int)).shown);
                state = next;
                pos = end;
            },
        }
    }
}

/// Like an interaction with the user, but the input is `input` instead of
/// what a user types. This is mostly used for testing.
pub fn interact_ex(interact_choices: InteractChoices, input: &str) -> (outcome: Result<
    InteractResult,
    InteractError,
>)
    ensures
        outcome_of(outcome) == run(interact_choices@, input@).outcome,
{
    interact_recorded(interact_choices, input).outcome
}

} // verus!
