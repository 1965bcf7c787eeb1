//! A question, the way it is shown, and the answers it accepts.
use crate::numeral::{decimal, parse_at_most, parsed, to_decimal};
use crate::text::chars_of;
use vstd::prelude::*;

verus! {

/// The shape of answer that a question expects.
#[derive(Debug, Clone, Copy, PartialEq, Eq)]
pub enum InteractConfirm {
    /// A yes or a no.
    YesNo,
    /// The number of one of the listed choices, counted from 1.
    Number,
    /// Any text at all.
    Word,
}

/// What the user selected: the counterpart of [`InteractConfirm`].
#[derive(Debug, PartialOrd, PartialEq)]
pub enum InteractResult {
    YesNo(bool),
    /// The position of the selected choice in the list, counted from 1.
    Number(usize),
    Word(String),
}

/// One question to put to the user.
pub struct InteractChoices {
    pub confirmation: InteractConfirm,
    pub message: String,
    /// Shown once, before the question is asked for the first time.
    pub description: Option<String>,
    /// What can be selected by number. Only a `Number` question reads it.
    pub choices: Vec<String>,
    /// The greatest number of times to put the question when the user keeps
    /// entering an invalid selection. With `None` there is no limit.
    pub max_loop: Option<usize>,
    /// Shown on a line of its own under the question, to cue the input.
    pub prompt_marker: Option<String>,
}

/// An answer as a mathematical value.
pub ghost enum Answer {
    YesNo(bool),
    Number(nat),
    Word(Seq<char>),
}

impl Answer {
    /// The kind of question that is answered like this.
    pub open spec fn kind(self) -> InteractConfirm {
        match self {
            Answer::YesNo(_) => InteractConfirm::YesNo,
            Answer::Number(_) => InteractConfirm::Number,
            Answer::Word(_) => InteractConfirm::Word,
        }
    }
}

/// A question as a mathematical value.
pub ghost struct Question {
    pub confirmation: InteractConfirm,
    pub message: Seq<char>,
    pub description: Option<Seq<char>>,
    pub choices: Seq<Seq<char>>,
    pub max_loop: Option<nat>,
    pub prompt_marker: Option<Seq<char>>,
}

/// The characters of a text that may be absent.
pub open spec fn text_of(s: Option<String>) -> Option<Seq<char>> {
    match s {
        Some(s) => Some(s@),
        None => None,
    }
}

/// The characters of each text of a list.
pub open spec fn texts_of(v: Seq<String>) -> Seq<Seq<char>> {
    Seq::new(v.len(), |i: int| v[i]@)
}

impl View for InteractResult {
    type V = Answer;

    open spec fn view(&self) -> Answer {
        match *self {
            InteractResult::YesNo(b) => Answer::YesNo(b),
            InteractResult::Number(n) => Answer::Number(n as nat),
            InteractResult::Word(w) => Answer::Word(w@),
        }
    }
}

impl View for InteractChoices {
    type V = Question;

    open spec fn view(&self) -> Question {
        Question {
            confirmation: self.confirmation,
            message: self.message@,
            description: text_of(self.description),
            choices: texts_of(self.choices@),
            max_loop: match self.max_loop {
                Some(n) => Some(n as nat),
                None => None,
            },
            prompt_marker: text_of(self.prompt_marker),
        }
    }
}

/// The list of choices as it is shown: each choice on a new line, as its
/// position counted from 1, a dot, a space and its text.
pub open spec fn choice_lines(choices: Seq<Seq<char>>) -> Seq<char>
    decreases choices.len(),
{
    if choices.len() == 0 {
        Seq::empty()
    } else {
        choice_lines(choices.drop_last()) + "\n"@ + decimal(choices.len()) + ". "@
            + choices.last()
    }
}

/// The question itself as it is shown, without the prompt marker.
pub open spec fn question_text(q: Question) -> Seq<char> {
    match q.confirmation {
        InteractConfirm::YesNo => q.message + " [y/n]:"@,
        InteractConfirm::Number => q.message + choice_lines(q.choices),
        InteractConfirm::Word => q.message + ":"@,
    }
}

/// All that is shown for one attempt: the question and, on a line of its own
/// under it, the prompt marker if there is one.
pub open spec fn rendered(q: Question) -> Seq<char> {
    match q.prompt_marker {
        Some(marker) => question_text(q) + "\n"@ + marker,
        None => question_text(q),
    }
}

/// The answer that `input` gives to the question, or `None` where the
/// question does not accept it.
///
/// A yes/no question accepts `y`, `Y` and `yes` as a yes, `n`, `N` and `no`
/// as a no, and nothing else. A number question accepts what is read as a
/// number from 1 to the number of its choices. A word question accepts any
/// text, the empty one too, and gives it back as it is.
pub open spec fn accepted(q: Question, input: Seq<char>) -> Option<Answer> {
    match q.confirmation {
        InteractConfirm::YesNo => {
            if input == "y"@ || input == "Y"@ || input == "yes"@ {
                Some(Answer::YesNo(true))
            } else if input == "n"@ || input == "N"@ || input == "no"@ {
                Some(Answer::YesNo(false))
            } else {
                None
            }
        },
        InteractConfirm::Number => match parsed(input) {
            Some(n) if 1 <= n <= q.choices.len() => Some(Answer::Number(n)),
            _ => None,
        },
        InteractConfirm::Word => Some(Answer::Word(input)),
    }
}

/// The mathematical value of an answer that may be absent.
pub open spec fn answer_of(r: Option<InteractResult>) -> Option<Answer> {
    match r {
        Some(r) => Some(r@),
        None => None,
    }
}

/// The yes/no question that asks `message`, with nothing else set.
pub open spec fn yesno_question(message: Seq<char>) -> Question {
    Question {
        confirmation: InteractConfirm::YesNo,
        message,
        description: None,
        choices: Seq::empty(),
        max_loop: None,
        prompt_marker: None,
    }
}

/// The word question that asks `message`, with nothing else set.
pub open spec fn word_question(message: Seq<char>) -> Question {
    Question {
        confirmation: InteractConfirm::Word,
        message,
        description: None,
        choices: Seq::empty(),
        max_loop: None,
        prompt_marker: None,
    }
}

/// The number question over `choices`: no message, no description, no
/// limit, and the usual prompt marker.
pub open spec fn number_question(choices: Seq<Seq<char>>) -> Question {
    Question {
        confirmation: InteractConfirm::Number,
        message: Seq::empty(),
        description: None,
        choices,
        max_loop: None,
        prompt_marker: Some("> "@),
    }
}

/// The characters of each text of a list of string slices.
pub open spec fn slices_of(v: Seq<&str>) -> Seq<Seq<char>> {
    Seq::new(v.len(), |i: int| v[i]@)
}

impl InteractChoices {
    /// A yes/no question that asks `message`.
    pub fn choose_yesno(message: &str) -> (question: InteractChoices)
        ensures
            question@ == yesno_question(message@),
    {
        let question = InteractChoices {
            confirmation: InteractConfirm::YesNo,
            message: message.to_owned(),
            description: None,
            choices: Vec::new(),
            max_loop: None,
            prompt_marker: None,
        };
        assert(question@.choices =~= Seq::empty());
        question
    }

    /// A question that is answered with any word, and asks `message`.
    pub fn choose_word(message: &str) -> (question: InteractChoices)
        ensures
            question@ == word_question(message@),
    {
        let question = InteractChoices {
            confirmation: InteractConfirm::Word,
            message: message.to_owned(),
            description: None,
            choices: Vec::new(),
            max_loop: None,
            prompt_marker: None,
        };
        assert(question@.choices =~= Seq::empty());
        question
    }

    /// A question that is answered with the number of one of `choices`,
    /// which keep their order.
    pub fn choose_number(choices: &[&str]) -> (question: InteractChoices)
        ensures
            question@ == number_question(slices_of(choices@)),
    {
        let mut owned: Vec<String> = Vec::new();
        let mut i: usize = 0;
        while i < choices.len()
            invariant
                i <= choices.len(),
                owned.len() == i,
                forall|j: int| 0 <= j < i ==> (#[trigger] owned[j])@ == choices[j]@,
            decreases choices.len() - i,
        {
            owned.push(choices[i].to_owned());
            i = i + 1;
        }
        let question = InteractChoices {
            confirmation: InteractConfirm::Number,
            message: String::new(),
            description: None,
            choices: owned,
            max_loop: None,
            prompt_marker: Some("> ".to_owned()),
        };
        assert(question@.choices =~= slices_of(choices@));
        question
    }

    /// The text to show for one attempt.
    pub fn print(&self) -> (out: String)
        ensures
            out@ == rendered(self@),
    {
        let mut out = self.message.clone();
        match self.confirmation {
            InteractConfirm::YesNo => {
                out.append(" [y/n]:");
            },
            InteractConfirm::Number => {
                let ghost all = texts_of(self.choices@);
                let mut i: usize = 0;
                assert(all.take(0) == Seq::<Seq<char>>::empty());
                while i < self.choices.len()
                    invariant
                        i <= self.choices.len(),
                        all == texts_of(self.choices@),
                        out@ == self.message@ + choice_lines(all.take(i as int)),
                    decreases self.choices.len() - i,
                {
                    let number = to_decimal(i + 1);
                    proof {
                        let shown = all.take(i + 1);
                        assert(shown.drop_last() == all.take(i as int));
                        assert(shown.last() == self.choices[i as int]@);
                    }
                    out.append("\n");
                    out.append(number.as_str());
                    out.append(". ");
                    out.append(self.choices[i].as_str());
                    i = i + 1;
                }
                assert(all.take(i as int) == all);
            },
            InteractConfirm::Word => {
                out.append(":");
            },
        }
        match &self.prompt_marker {
            Some(marker) => {
                out.append("\n");
                out.append(marker.as_str());
            },
            None => {},
        }
        out
    }

    /// The answer that `input` gives, or `None` where it is no valid
    /// selection. `input` is taken as it stands: nothing is trimmed.
    pub fn get_result(&self, input: &str) -> (result: Option<InteractResult>)
        ensures
            answer_of(result) == accepted(self@, input@),
    {
        match self.confirmation {
            InteractConfirm::YesNo => {
                let chars = chars_of(input);
                proof {
                    reveal_strlit("y");
                    reveal_strlit("Y");
                    reveal_strlit("yes");
                    reveal_strlit("n");
                    reveal_strlit("N");
                    reveal_strlit("no");
                }
                let len = chars.len();
                if len == 1 && (chars[0] == 'y' || chars[0] == 'Y') {
                    assert(input@ =~= "y"@ || input@ =~= "Y"@);
                    Some(InteractResult::YesNo(true))
                } else if len == 3 && chars[0] == 'y' && chars[1] == 'e' && chars[2] == 's' {
                    assert(input@ =~= "yes"@);
                    Some(InteractResult::YesNo(true))
                } else if len == 1 && (chars[0] == 'n' || chars[0] == 'N') {
                    assert(input@ =~= "n"@ || input@ =~= "N"@);
                    Some(InteractResult::YesNo(false))
                } else if len == 2 && chars[0] == 'n' && chars[1] == 'o' {
                    assert(input@ =~= "no"@);
                    Some(InteractResult::YesNo(false))
                } else {
                    None
                }
            },
            InteractConfirm::Number => {
                match parse_at_most(input, self.choices.len()) {
                    Some(n) if n >= 1 => Some(InteractResult::Number(n)),
                    _ => None,
                }
            },
            InteractConfirm::Word => Some(InteractResult::Word(input.to_owned())),
        }
    }
}

/// A bare text is taken as the message of a yes/no question.
impl<'a> From<&'a str> for InteractChoices {
    fn from(orig: &'a str) -> (question: InteractChoices)
        ensures
            question@ == yesno_question(orig@),
    {
        InteractChoices::choose_yesno(orig)
    }
}

/// A list of texts is taken as the choices of a number question.
impl<'a> From<&'a [&'a str]> for InteractChoices {
    fn from(orig: &'a [&'a str]) -> (question: InteractChoices)
        ensures
            question@ == number_question(slices_of(orig@)),
    {
        InteractChoices::choose_number(orig)
    }
}

/// What `from` gives is stated on `from` itself, over the question as a
/// mathematical value. Two texts of the same characters need not be one
/// value, so no single result can be named here.
impl<'a> vstd::std_specs::convert::FromSpecImpl<&'a str> for InteractChoices {
    open spec fn obeys_from_spec() -> bool {
        false
    }

    open spec fn from_spec(orig: &'a str) -> InteractChoices {
        choose|question: InteractChoices| question@ == yesno_question(orig@)
    }
}

/// As for a bare text: `from` states its result itself.
impl<'a> vstd::std_specs::convert::FromSpecImpl<&'a [&'a str]> for InteractChoices {
    open spec fn obeys_from_spec() -> bool {
        false
    }

    open spec fn from_spec(orig: &'a [&'a str]) -> InteractChoices {
        choose|question: InteractChoices| question@ == number_question(slices_of(orig@))
    }
}

} // verus!
