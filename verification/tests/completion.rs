use ask_ai::completion::{
    build_request, compose_prompt, join_answer, join_prompt, CompletionRequest, MAX_TOKENS,
    MODEL_NAME,
};

fn strings(items: &[&str]) -> Vec<String> {
    items.iter().map(|item| item.to_string()).collect()
}

#[test]
fn instruction_follows_the_prompt() {
    assert_eq!(compose_prompt("what is 2+2"), "what is 2+2 -- short concise answer");
}

#[test]
fn instruction_follows_an_empty_prompt() {
    assert_eq!(compose_prompt(""), " -- short concise answer");
}

#[test]
fn instruction_follows_a_line_end() {
    assert_eq!(compose_prompt("hello\n"), "hello\n -- short concise answer");
}

#[test]
fn request_carries_model_prompt_and_cap() {
    assert_eq!(
        build_request("text-davinci-003", "why"),
        CompletionRequest {
            model: "text-davinci-003".to_string(),
            prompt: "why -- short concise answer".to_string(),
            max_tokens: 1024,
        }
    );
}

#[test]
fn request_takes_any_model() {
    let request = build_request("another-model", "q");
    assert_eq!(request.model, "another-model");
    assert_eq!(request.max_tokens, MAX_TOKENS);
}

#[test]
fn constants_have_their_values() {
    assert_eq!(MODEL_NAME, "text-davinci-003");
    assert_eq!(MAX_TOKENS, 1024);
}

#[test]
fn two_choices_are_joined_by_a_blank_line() {
    assert_eq!(join_answer(&strings(&["A", "B"])), "A\n\nB");
}

#[test]
fn three_choices_keep_their_order() {
    assert_eq!(join_answer(&strings(&["first", "second", "third"])), "first\n\nsecond\n\nthird");
}

#[test]
fn one_choice_is_the_answer() {
    assert_eq!(join_answer(&strings(&["only"])), "only");
}

#[test]
fn no_choice_is_an_empty_answer() {
    assert_eq!(join_answer(&Vec::new()), "");
}

#[test]
fn empty_choices_still_get_their_separators() {
    assert_eq!(join_answer(&strings(&["", "", ""])), "\n\n\n\n");
}

#[test]
fn choices_are_not_trimmed() {
    assert_eq!(join_answer(&strings(&["\n\nFour.", " 4 "])), "\n\nFour.\n\n 4 ");
}

#[test]
fn tokens_become_a_question_with_single_spaces() {
    assert_eq!(join_prompt(&strings(&["what", "is", "2+2"])), "what is 2+2");
}

#[test]
fn one_token_is_the_question() {
    assert_eq!(join_prompt(&strings(&["why?"])), "why?");
}

#[test]
fn tokens_are_not_trimmed_or_reordered() {
    assert_eq!(join_prompt(&strings(&[" b", "", "a "])), " b  a ");
}
