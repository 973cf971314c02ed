//! The request sent to the completion service and the answer made of its reply.

use crate::text::{join, joined};
use vstd::prelude::*;

verus! {

/// The model that answers the questions.
pub const MODEL_NAME: &'static str = "text-davinci-003";

/// The most tokens that the service may spend on one completion.
pub const MAX_TOKENS: u16 = 1024;

/// One request for a completion, as plain values.
#[derive(Debug, PartialEq, Eq)]
pub struct CompletionRequest {
    pub model: String,
    pub prompt: String,
    pub max_tokens: u16,
}

/// The mathematical model of [`CompletionRequest`].
pub struct CompletionRequestView {
    pub model: Seq<char>,
    pub prompt: Seq<char>,
    pub max_tokens: u16,
}

impl View for CompletionRequest {
    type V = CompletionRequestView;

    open spec fn view(&self) -> CompletionRequestView {
        CompletionRequestView {
            model: self.model@,
            prompt: self.prompt@,
            max_tokens: self.max_tokens,
        }
    }
}

/// The question made of the tokens of the command line: the tokens in their
/// order, a single space between each two.
pub open spec fn question(tokens: Seq<Seq<char>>) -> Seq<char> {
    joined(tokens, " "@)
}

/// The question as the service receives it: the user's text, unchanged,
/// followed by the fixed instruction.
pub open spec fn composed(prompt: Seq<char>) -> Seq<char> {
    prompt + " -- short concise answer"@
}

/// The request that asks `model` the question `prompt`.
pub open spec fn request_for(model: Seq<char>, prompt: Seq<char>) -> CompletionRequestView {
    CompletionRequestView { model, prompt: composed(prompt), max_tokens: 1024 }
}

/// The answer shown for the texts of the returned choices: the texts in their
/// order, a blank line between each two.
pub open spec fn answer(choices: Seq<Seq<char>>) -> Seq<char> {
    joined(choices, "\n\n"@)
}

/// Joins the tokens of the command line into the question.
pub fn join_prompt(tokens: &Vec<String>) -> (out: String)
    ensures
        out@ == question(tokens.deep_view()),
{
    join(tokens, " ")
}

/// Appends the fixed instruction to the user's text.
pub fn compose_prompt(prompt: &str) -> (out: String)
    ensures
        out@ == composed(prompt@),
{
    let mut out = prompt.to_owned();
    out.append(" -- short concise answer");
    out
}

/// Builds the request for one question.
pub fn build_request(model: &str, prompt: &str) -> (out: CompletionRequest)
    ensures
        out@ == request_for(model@, prompt@),
{
    CompletionRequest {
        model: model.to_owned(),
        prompt: compose_prompt(prompt),
        max_tokens: MAX_TOKENS,
    }
}

/// Joins the texts of the returned choices into the answer.
pub fn join_answer(choices: &Vec<String>) -> (out: String)
    ensures
        out@ == answer(choices.deep_view()),
{
    join(choices, "\n\n")
}

} // verus!
