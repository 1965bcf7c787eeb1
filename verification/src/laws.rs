//! What holds of every question, every input and every run.
use crate::choices::{accepted, rendered, Answer, InteractChoices, Question};
use crate::numeral::{decimal, is_digit, is_numeral, lemma_decimal_reads_back, parsed, unsigned};
use crate::record::{budget, replay, run};
use crate::session::{start, step, Event, InteractError, Move, Progress};
use crate::text::{after_first_line, first_line, is_whitespace, lemma_line_len_bounds, trimmed};
use crate::typed::{number_of, word_of, yesno_of};
use vstd::prelude::*;

verus! {

/// What is left after trimming is the front of the text, all that was taken
/// off is white space, and what is left does not end in white space.
pub proof fn law_trimmed_is_the_longest_clean_front(s: Seq<char>)
    ensures
        trimmed(s).len() <= s.len(),
        trimmed(s) == s.take(trimmed(s).len() as int),
        forall|i: int| trimmed(s).len() <= i < s.len() ==> is_whitespace(#[trigger] s[i]),
        trimmed(s).len() > 0 ==> !is_whitespace(trimmed(s).last()),
    decreases s.len(),
{
    if s.len() > 0 && is_whitespace(s.last()) {
        law_trimmed_is_the_longest_clean_front(s.drop_last());
        assert(s.drop_last().take(trimmed(s).len() as int) == s.take(trimmed(s).len() as int));
        assert forall|i: int| trimmed(s).len() <= i < s.len() implies is_whitespace(
            #[trigger] s[i],
        ) by {
            if i < s.len() - 1 {
                assert(s[i] == s.drop_last()[i]);
            }
        }
    } else {
        assert(s.take(s.len() as int) == s);
    }
}

/// A yes/no question takes `y`, `Y` and `yes` for a yes, `n`, `N` and `no`
/// for a no, and refuses every other text: the empty one, and `Yes` and
/// `YES` too.
pub proof fn law_yesno_takes_six_texts(q: Question, input: Seq<char>)
    requires
        q.confirmation is YesNo,
    ensures
        accepted(q, input) == Some(Answer::YesNo(true)) <==> (input == "y"@ || input == "Y"@
            || input == "yes"@),
        accepted(q, input) == Some(Answer::YesNo(false)) <==> (input == "n"@ || input == "N"@
            || input == "no"@),
        accepted(q, input) is None <==> !(input == "y"@ || input == "Y"@ || input == "yes"@
            || input == "n"@ || input == "N"@ || input == "no"@),
        accepted(q, ""@) is None,
        accepted(q, "Yes"@) is None,
        accepted(q, "YES"@) is None,
{
    reveal_strlit("y");
    reveal_strlit("Y");
    reveal_strlit("yes");
    reveal_strlit("n");
    reveal_strlit("N");
    reveal_strlit("no");
    reveal_strlit("");
    reveal_strlit("Yes");
    reveal_strlit("YES");
    assert("Yes"@[0] == 'Y');
    assert("YES"@[1] == 'E');
}

/// A number question over `k` choices takes a text exactly when the text
/// is read as a number from 1 to `k`, and answers with that number.
pub proof fn law_number_takes_what_reads_in_range(q: Question, input: Seq<char>)
    requires
        q.confirmation is Number,
    ensures
        accepted(q, input) is Some <==> (parsed(input) matches Some(n) && 1 <= n
            <= q.choices.len()),
        accepted(q, input) matches Some(answer) ==> answer matches Answer::Number(n)
            && parsed(input) == Some(n),
        q.choices.len() == 0 ==> accepted(q, input) is None,
{
}

/// A number question over `k` choices takes the numbers from 1 to `k` as
/// they are written in decimal, each for itself, and refuses 0 and every
/// number above `k`.
pub proof fn law_number_takes_one_to_k(q: Question, n: nat)
    requires
        q.confirmation is Number,
    ensures
        1 <= n <= q.choices.len() ==> accepted(q, decimal(n)) == Some(Answer::Number(n)),
        n == 0 || n > q.choices.len() ==> accepted(q, decimal(n)) is None,
{
    lemma_decimal_reads_back(n);
}

/// A number question refuses every number written with a minus sign.
pub proof fn law_number_refuses_negative(q: Question, n: nat)
    requires
        q.confirmation is Number,
    ensures
        accepted(q, seq!['-'] + decimal(n)) is None,
{
    let input = seq!['-'] + decimal(n);
    assert(unsigned(input) == input);
    assert(!is_digit(input[0]));
}

/// A number question takes numerals only: a text that it takes has a digit
/// at its end, and nothing but digits behind an optional plus sign at its
/// front.
pub proof fn law_number_takes_numerals_only(q: Question, input: Seq<char>)
    requires
        q.confirmation is Number,
        accepted(q, input) is Some,
    ensures
        input.len() >= 1,
        is_digit(input.last()),
        forall|i: int|
            0 <= i < input.len() ==> is_digit(#[trigger] input[i]) || (i == 0 && input[0]
                == '+'),
{
    let body = unsigned(input);
    assert(is_numeral(body));
    if input[0] == '+' {
        assert(input.last() == body.last());
        assert forall|i: int| 1 <= i < input.len() implies is_digit(#[trigger] input[i]) by {
            assert(input[i] == body[i - 1]);
        }
    }
}

/// A word question takes every text, the empty one too, and answers with
/// the text as it is.
pub proof fn law_word_takes_every_text(q: Question, input: Seq<char>)
    requires
        q.confirmation is Word,
    ensures
        accepted(q, input) == Some(Answer::Word(input)),
{
}

/// Showing a question twice gives the same text both times: whatever two
/// calls of `print` on one question return, the two texts are equal.
pub proof fn law_print_is_repeatable(choices: InteractChoices, first: String, second: String)
    requires
        first@ == rendered(choices@),
        second@ == rendered(choices@),
    ensures
        first@ == second@,
{
}

/// Whether the first `n` reads on `text` all give a selection that `q`
/// refuses.
pub open spec fn refused_lines(q: Question, text: Seq<char>, n: nat) -> bool
    decreases n,
{
    n == 0 || (accepted(q, trimmed(first_line(text))) is None && refused_lines(
        q,
        after_first_line(text),
        (n - 1) as nat,
    ))
}

/// An interaction with `left` attempts to go, on an input whose next `left`
/// lines are all refused, reads exactly `left` times and then gives up.
proof fn lemma_refused_to_the_end(p: Progress, text: Seq<char>, left: nat)
    requires
        p.left == Some(left),
        left >= 1,
        refused_lines(p.question, text, left),
    ensures
        replay(p, text).outcome == Err::<Answer, _>(InteractError::TooManyAttempts),
        replay(p, text).reads == left,
    decreases left,
{
    if left > 1 {
        let next = Progress { question: p.question, left: Some((left - 1) as nat) };
        lemma_refused_to_the_end(next, after_first_line(text), (left - 1) as nat);
    }
}

/// The limit on attempts holds: where a question allows `n` attempts and
/// the input gives a refused selection on each of its first `n` reads, the
/// run ends as `TooManyAttempts`, and the input was read exactly `n` times.
pub proof fn law_retry_bound(q: Question, text: Seq<char>, n: nat)
    requires
        q.max_loop == Some(n),
        n >= 1,
        refused_lines(q, text, n),
    ensures
        run(q, text).outcome == Err::<Answer, _>(InteractError::TooManyAttempts),
        run(q, text).reads == n,
{
    lemma_refused_to_the_end(start(q), text, n);
}

/// An interaction with a limit never reads more often than its limit
/// allows, and reads at least once.
proof fn lemma_reads_within_budget(p: Progress, text: Seq<char>)
    requires
        p.left is Some,
    ensures
        1 <= replay(p, text).reads,
        replay(p, text).reads <= if budget(p.left) >= 1 { budget(p.left) } else { 1 },
    decreases budget(p.left),
{
    match step(p, Event::Line(first_line(text))) {
        Move::Again(next, shown) => {
            lemma_reads_within_budget(next, after_first_line(text));
        },
        _ => {},
    }
}

/// A question with a limit never hangs: whatever the input holds, it is
/// read at least once and at most as often as the limit says (once where
/// the limit is 0).
pub proof fn law_reads_within_limit(q: Question, text: Seq<char>, n: nat)
    requires
        q.max_loop == Some(n),
    ensures
        1 <= run(q, text).reads,
        run(q, text).reads <= if n >= 1 { n } else { 1 },
{
    lemma_reads_within_budget(start(q), text);
}

/// An interaction that ends with an answer ends with one of the kind that
/// its question asks for.
proof fn lemma_answer_of_the_kind_asked(p: Progress, text: Seq<char>)
    ensures
        replay(p, text).outcome matches Ok(answer) ==> answer.kind() == p.question.confirmation,
    decreases text.len(), budget(p.left),
{
    match step(p, Event::Line(first_line(text))) {
        Move::Again(next, shown) => {
            if !(text.len() == 0 && next.left is None) {
                lemma_line_len_bounds(text);
                lemma_answer_of_the_kind_asked(next, after_first_line(text));
            }
        },
        _ => {},
    }
}

/// Every answer is of the kind that the question asks for.
pub proof fn law_answer_is_of_the_kind_asked(q: Question, text: Seq<char>)
    ensures
        run(q, text).outcome matches Ok(answer) ==> answer.kind() == q.confirmation,
{
    lemma_answer_of_the_kind_asked(start(q), text);
}

/// Asking for a yes or no on a question of another kind never gives one:
/// where the run has an answer, a valid number or a word, the caller gets
/// `WrongKind`; where it has none, the caller gets the run's own failure.
pub proof fn law_yesno_of_another_kind_is_wrong_kind(q: Question, text: Seq<char>)
    requires
        !(q.confirmation is YesNo),
    ensures
        yesno_of(run(q, text).outcome) is Err,
        run(q, text).outcome is Ok ==> yesno_of(run(q, text).outcome) == Err::<bool, _>(
            InteractError::WrongKind,
        ),
        run(q, text).outcome matches Err(error) ==> yesno_of(run(q, text).outcome) == Err::<
            bool,
            _,
        >(error),
{
    law_answer_is_of_the_kind_asked(q, text);
}

/// Asking for the kind of answer that the question is about never gives
/// `WrongKind` for an answer: the caller gets the bare value of every
/// answer, and the run's own failure where there is none.
pub proof fn law_matching_kind_gives_the_value(q: Question, text: Seq<char>)
    ensures
        q.confirmation is YesNo ==> (run(q, text).outcome matches Ok(answer) ==> yesno_of(
            run(q, text).outcome,
        ) == Ok::<_, InteractError>(answer->YesNo_0)),
        q.confirmation is Number ==> (run(q, text).outcome matches Ok(answer) ==> number_of(
            run(q, text).outcome,
        ) == Ok::<_, InteractError>(answer->Number_0)),
        q.confirmation is Word ==> (run(q, text).outcome matches Ok(answer) ==> word_of(
            run(q, text).outcome,
        ) == Ok::<_, InteractError>(answer->Word_0)),
{
    law_answer_is_of_the_kind_asked(q, text);
}

} // verus!
