use simple_interaction::session::rejection;
use simple_interaction::{
    interact_ex, interact_recorded, InteractChoices, InteractError, InteractResult, Interaction,
    ReadEvent, Step,
};

fn fruit() -> InteractChoices {
    InteractChoices::choose_number(&["apples", "oranges", "bananas"])
}

fn refused(input: &str) -> String {
    format!(
        "You entered '{}' which doesn't seem to be a valid selection. Please try again, or exit",
        input
    )
}

#[test]
fn choices_into_works() {
    let mut choice1: InteractChoices = "do you want XYZ?".into();
    choice1.max_loop = Some(1);
    let answer = "y\n";
    let result = interact_ex(choice1, answer).unwrap();
    assert_eq!(result, InteractResult::YesNo(true));
}

#[test]
fn number_in_range_is_the_answer() {
    let mut question = fruit();
    question.max_loop = Some(1);
    assert_eq!(interact_ex(question, "2\n"), Ok(InteractResult::Number(2)));
}

#[test]
fn number_out_of_range_uses_up_the_one_attempt() {
    let mut question = fruit();
    question.max_loop = Some(1);
    assert_eq!(interact_ex(question, "5\n"), Err(InteractError::TooManyAttempts));
}

#[test]
fn word_question_takes_the_empty_line() {
    let question = InteractChoices::choose_word("Anything to add?");
    assert_eq!(interact_ex(question, "\n"), Ok(InteractResult::Word(String::new())));
}

#[test]
fn word_question_takes_the_end_of_the_input_as_an_empty_line() {
    let question = InteractChoices::choose_word("Anything to add?");
    let transcript = interact_recorded(question, "");
    assert_eq!(transcript.outcome, Ok(InteractResult::Word(String::new())));
    assert_eq!(transcript.reads, 1);
    assert_eq!(transcript.shown, vec!["Anything to add?:"]);
}

#[test]
fn a_valid_answer_ends_the_run_at_once() {
    let mut question = InteractChoices::choose_yesno("Go on?");
    question.max_loop = Some(5);
    let transcript = interact_recorded(question, "n\ny\nx\n");
    assert_eq!(transcript.outcome, Ok(InteractResult::YesNo(false)));
    assert_eq!(transcript.reads, 1);
    assert_eq!(transcript.shown, vec!["Go on? [y/n]:"]);
}

#[test]
fn invalid_lines_are_told_and_the_question_is_put_again() {
    let mut question = InteractChoices::choose_yesno("Go on?");
    question.max_loop = Some(5);
    let transcript = interact_recorded(question, "maybe\nYes\nyes\nno\n");
    assert_eq!(transcript.outcome, Ok(InteractResult::YesNo(true)));
    assert_eq!(transcript.reads, 3);
    assert_eq!(
        transcript.shown,
        vec![
            "Go on? [y/n]:".to_string(),
            refused("maybe"),
            "Go on? [y/n]:".to_string(),
            refused("Yes"),
            "Go on? [y/n]:".to_string(),
        ]
    );
}

#[test]
fn only_invalid_lines_end_in_too_many_attempts_after_exactly_the_limit() {
    let mut limit: usize = 1;
    while limit <= 6 {
        let mut question = InteractChoices::choose_yesno("Go on?");
        question.max_loop = Some(limit);
        let transcript = interact_recorded(question, "a\nb\nc\nd\ne\nf\ng\nh\n");
        assert_eq!(transcript.outcome, Err(InteractError::TooManyAttempts));
        assert_eq!(transcript.reads, limit);
        assert_eq!(transcript.shown.len(), 2 * limit);
        limit += 1;
    }
}

#[test]
fn three_invalid_lines_are_shown_in_order() {
    let mut question = InteractChoices::choose_yesno("Go on?");
    question.max_loop = Some(3);
    let transcript = interact_recorded(question, "a\nb\nc\ny\n");
    assert_eq!(transcript.outcome, Err(InteractError::TooManyAttempts));
    assert_eq!(transcript.reads, 3);
    assert_eq!(
        transcript.shown,
        vec![
            "Go on? [y/n]:".to_string(),
            refused("a"),
            "Go on? [y/n]:".to_string(),
            refused("b"),
            "Go on? [y/n]:".to_string(),
            refused("c"),
        ]
    );
}

#[test]
fn a_valid_answer_on_the_last_attempt_counts() {
    let mut question = fruit();
    question.max_loop = Some(3);
    let transcript = interact_recorded(question, "0\n4\n3\n");
    assert_eq!(transcript.outcome, Ok(InteractResult::Number(3)));
    assert_eq!(transcript.reads, 3);
}

#[test]
fn description_is_shown_once_before_the_first_attempt() {
    let mut question = fruit();
    question.description = Some("What would you like to eat?".to_string());
    question.max_loop = Some(3);
    let prompt = "\n1. apples\n2. oranges\n3. bananas\n> ".to_string();
    let transcript = interact_recorded(question, "9\nnone\n1\n");
    assert_eq!(transcript.outcome, Ok(InteractResult::Number(1)));
    assert_eq!(
        transcript.shown,
        vec![
            "What would you like to eat?".to_string(),
            prompt.clone(),
            refused("9"),
            prompt.clone(),
            refused("none"),
            prompt,
        ]
    );
}

#[test]
fn lines_are_trimmed_at_the_end_only() {
    let question = InteractChoices::choose_yesno("Go on?");
    assert_eq!(interact_ex(question, "yes  \t\r\n"), Ok(InteractResult::YesNo(true)));

    let mut question = InteractChoices::choose_yesno("Go on?");
    question.max_loop = Some(1);
    let transcript = interact_recorded(question, "  yes \n");
    assert_eq!(transcript.outcome, Err(InteractError::TooManyAttempts));
    assert_eq!(transcript.shown, vec!["Go on? [y/n]:".to_string(), refused("  yes")]);

    let question = InteractChoices::choose_word("Name");
    assert_eq!(
        interact_ex(question, "  Ada  Lovelace \n"),
        Ok(InteractResult::Word("  Ada  Lovelace".to_string()))
    );
}

#[test]
fn a_last_line_without_line_feed_is_read_too() {
    let question = InteractChoices::choose_yesno("Go on?");
    assert_eq!(interact_ex(question, "y"), Ok(InteractResult::YesNo(true)));

    let mut question = fruit();
    question.max_loop = Some(2);
    assert_eq!(interact_ex(question, "7\n2"), Ok(InteractResult::Number(2)));
}

#[test]
fn the_end_of_the_input_reads_as_empty_lines_until_the_limit() {
    let mut question = InteractChoices::choose_yesno("Go on?");
    question.max_loop = Some(3);
    let transcript = interact_recorded(question, "x\n");
    assert_eq!(transcript.outcome, Err(InteractError::TooManyAttempts));
    assert_eq!(transcript.reads, 3);
    assert_eq!(
        transcript.shown,
        vec![
            "Go on? [y/n]:".to_string(),
            refused("x"),
            "Go on? [y/n]:".to_string(),
            refused(""),
            "Go on? [y/n]:".to_string(),
            refused(""),
        ]
    );
}

#[test]
fn without_a_limit_the_run_goes_on_as_long_as_there_is_input() {
    let question = InteractChoices::choose_yesno("Go on?");
    let mut input = String::new();
    let mut i = 0;
    while i < 500 {
        input.push_str("what\n");
        i += 1;
    }
    input.push_str("N\n");
    let transcript = interact_recorded(question, &input);
    assert_eq!(transcript.outcome, Ok(InteractResult::YesNo(false)));
    assert_eq!(transcript.reads, 501);
    assert_eq!(transcript.shown.len(), 1001);
}

#[test]
fn without_a_limit_the_end_of_the_input_ends_the_run() {
    let question = InteractChoices::choose_yesno("Go on?");
    let transcript = interact_recorded(question, "x\n");
    assert_eq!(transcript.outcome, Err(InteractError::InputEnded));
    assert_eq!(transcript.reads, 2);

    let question = fruit();
    assert_eq!(interact_ex(question, ""), Err(InteractError::InputEnded));
}

#[test]
fn a_limit_of_zero_still_allows_one_attempt() {
    let mut question = InteractChoices::choose_yesno("Go on?");
    question.max_loop = Some(0);
    assert_eq!(interact_ex(question, "y\n"), Ok(InteractResult::YesNo(true)));

    let mut question = InteractChoices::choose_yesno("Go on?");
    question.max_loop = Some(0);
    let transcript = interact_recorded(question, "x\ny\n");
    assert_eq!(transcript.outcome, Err(InteractError::TooManyAttempts));
    assert_eq!(transcript.reads, 1);
}

#[test]
fn number_question_without_choices_can_not_be_answered() {
    let mut question = InteractChoices::choose_number(&[]);
    question.max_loop = Some(4);
    let transcript = interact_recorded(question, "1\n0\n2\n\n5\n");
    assert_eq!(transcript.outcome, Err(InteractError::TooManyAttempts));
    assert_eq!(transcript.reads, 4);
}

#[test]
fn rejection_echoes_the_input_as_it_is() {
    assert_eq!(rejection("5"), refused("5"));
    assert_eq!(rejection(""), refused(""));
    assert_eq!(rejection("it's"), refused("it's"));
    assert_eq!(
        rejection("5"),
        "You entered '5' which doesn't seem to be a valid selection. Please try again, or exit"
    );
}

#[test]
fn begin_gives_what_to_show_first_and_the_limit() {
    let mut question = InteractChoices::choose_word("Name");
    question.description = Some("We need to know who you are.".to_string());
    question.max_loop = Some(2);
    let (interaction, shown) = Interaction::begin(question);
    assert_eq!(shown, vec!["We need to know who you are.", "Name:"]);
    assert_eq!(interaction.attempts_left(), Some(2));

    let (interaction, shown) = Interaction::begin(InteractChoices::choose_yesno("Go on?"));
    assert_eq!(shown, vec!["Go on? [y/n]:"]);
    assert_eq!(interaction.attempts_left(), None);
}

#[test]
fn a_failed_read_ends_the_interaction_at_once() {
    let mut question = InteractChoices::choose_yesno("Go on?");
    question.max_loop = Some(9);
    let (interaction, _) = Interaction::begin(question);
    match interaction.respond(ReadEvent::Failed) {
        Step::GiveUp(shown, error) => {
            assert!(shown.is_empty());
            assert_eq!(error, InteractError::ReadFailed);
        }
        _ => panic!("a failed read must end the interaction"),
    }
}

#[test]
fn respond_counts_the_attempts_down() {
    let mut question = InteractChoices::choose_yesno("Go on?");
    question.max_loop = Some(2);
    let (interaction, _) = Interaction::begin(question);
    let interaction = match interaction.respond(ReadEvent::Line("perhaps\n")) {
        Step::Again(next, shown) => {
            assert_eq!(shown, vec![refused("perhaps"), "Go on? [y/n]:".to_string()]);
            assert_eq!(next.attempts_left(), Some(1));
            next
        }
        _ => panic!("the first invalid line of two must lead to another read"),
    };
    match interaction.respond(ReadEvent::Line("perhaps not\n")) {
        Step::GiveUp(shown, error) => {
            assert_eq!(shown, vec![refused("perhaps not")]);
            assert_eq!(error, InteractError::TooManyAttempts);
        }
        _ => panic!("the second invalid line of two must end the interaction"),
    }
}

#[test]
fn respond_ends_with_the_answer() {
    let (interaction, _) = Interaction::begin(fruit());
    match interaction.respond(ReadEvent::Line("3\r\n")) {
        Step::Done(result) => assert_eq!(result, InteractResult::Number(3)),
        _ => panic!("a valid selection must end the interaction"),
    }
}

#[test]
fn respond_without_a_limit_keeps_asking() {
    let (mut interaction, _) = Interaction::begin(InteractChoices::choose_yesno("Go on?"));
    let mut i = 0;
    while i < 50 {
        interaction = match interaction.respond(ReadEvent::Line("")) {
            Step::Again(next, shown) => {
                assert_eq!(shown, vec![refused(""), "Go on? [y/n]:".to_string()]);
                assert_eq!(next.attempts_left(), None);
                next
            }
            _ => panic!("without a limit an invalid line must lead to another read"),
        };
        i += 1;
    }
}

#[test]
fn error_messages_are_in_words() {
    assert_eq!(
        InteractError::TooManyAttempts.message(),
        "Failed to get an appropriate selection from the user after several attempts"
    );
    assert_eq!(InteractError::ReadFailed.message(), "Failed to read the input");
    assert_eq!(
        InteractError::WrongKind.message(),
        "The selection is not of the kind that was asked for"
    );
    assert_eq!(
        InteractError::InputEnded.message(),
        "The input ended before an appropriate selection was made"
    );
}
