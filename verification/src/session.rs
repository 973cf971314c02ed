//! One run as an exchange between this library and a driver.
//!
//! The library decides and the driver acts. [`begin`] gives the first step;
//! the driver writes the step's messages, carries out its request and hands
//! the outcome to [`advance`], until the request is [`Request::Exit`].

use crate::completion::{
    answer, build_request, join_answer, join_prompt, question, request_for, CompletionRequest,
    CompletionRequestView, MODEL_NAME,
};
use crate::invocation::{chosen, select_mode, Flags, FlagsView, Mode, ModeView, UsageError};
use crate::message::{message_views, Message, MessageView};
use vstd::prelude::*;

verus! {

/// The application's name, the service that the store files the entry under.
pub const APP_NAME: &'static str = "ask_ai";

/// The name under which the credential is kept in the store.
pub const KEYRING_ENTRY: &'static str = "OPENAI_KEY";

/// What the driver is asked to do next.
#[derive(Debug, PartialEq, Eq)]
pub enum Request {
    /// Open the store's entry named `entry` that belongs to `service`.
    OpenEntry { service: String, entry: String },
    /// Write this secret to the entry.
    SetSecret(String),
    /// Remove the entry's secret.
    DeleteSecret,
    /// Read the entry's secret.
    GetSecret,
    /// Read one line from standard input, line end included.
    ReadLine,
    /// Send `request` to the completion service, authorised by `credential`.
    Complete { credential: String, request: CompletionRequest },
    /// End the process with this status.
    Exit(i32),
}

/// The mathematical model of [`Request`].
pub enum RequestView {
    OpenEntry { service: Seq<char>, entry: Seq<char> },
    SetSecret(Seq<char>),
    DeleteSecret,
    GetSecret,
    ReadLine,
    Complete { credential: Seq<char>, request: CompletionRequestView },
    Exit(i32),
}

impl View for Request {
    type V = RequestView;

    open spec fn view(&self) -> RequestView {
        match self {
            Request::OpenEntry { service, entry } => RequestView::OpenEntry {
                service: service@,
                entry: entry@,
            },
            Request::SetSecret(secret) => RequestView::SetSecret(secret@),
            Request::DeleteSecret => RequestView::DeleteSecret,
            Request::GetSecret => RequestView::GetSecret,
            Request::ReadLine => RequestView::ReadLine,
            Request::Complete { credential, request } => RequestView::Complete {
                credential: credential@,
                request: request@,
            },
            Request::Exit(status) => RequestView::Exit(*status),
        }
    }
}

/// What the driver reports of the request it carried out.
#[derive(Debug, PartialEq, Eq)]
pub enum Reply {
    /// `OpenEntry`, `SetSecret` or `DeleteSecret` succeeded.
    Done,
    /// `GetSecret` succeeded, with the secret read.
    Secret(String),
    /// `ReadLine` succeeded, with the line as it was read.
    Line(String),
    /// `Complete` succeeded, with the text of each returned choice in order.
    Choices(Vec<String>),
    /// The request failed, with the reason as the user should read it.
    Failed(String),
}

/// The mathematical model of [`Reply`].
pub enum ReplyView {
    Done,
    Secret(Seq<char>),
    Line(Seq<char>),
    Choices(Seq<Seq<char>>),
    Failed(Seq<char>),
}

impl View for Reply {
    type V = ReplyView;

    open spec fn view(&self) -> ReplyView {
        match self {
            Reply::Done => ReplyView::Done,
            Reply::Secret(secret) => ReplyView::Secret(secret@),
            Reply::Line(line) => ReplyView::Line(line@),
            Reply::Choices(choices) => ReplyView::Choices(choices.deep_view()),
            Reply::Failed(reason) => ReplyView::Failed(reason@),
        }
    }
}

/// Where a run stands: which outcome it waits for, and what it keeps for later.
#[derive(Debug, PartialEq, Eq)]
pub enum State {
    /// The entry is being opened; the mode is still to be carried out.
    Opening(Mode),
    /// The secret is being written.
    Storing,
    /// The secret is being removed.
    Deleting,
    /// The secret is being read, to be shown.
    Revealing,
    /// The secret is being read, to ask a question made of these tokens.
    Unlocking(Vec<String>),
    /// The question is being read from standard input; holds the credential.
    Prompting(String),
    /// The question is with the completion service.
    Asking,
    /// The run is over.
    Finished,
}

/// The mathematical model of [`State`].
pub enum StateView {
    Opening(ModeView),
    Storing,
    Deleting,
    Revealing,
    Unlocking(Seq<Seq<char>>),
    Prompting(Seq<char>),
    Asking,
    Finished,
}

impl View for State {
    type V = StateView;

    open spec fn view(&self) -> StateView {
        match self {
            State::Opening(mode) => StateView::Opening(mode@),
            State::Storing => StateView::Storing,
            State::Deleting => StateView::Deleting,
            State::Revealing => StateView::Revealing,
            State::Unlocking(tokens) => StateView::Unlocking(tokens.deep_view()),
            State::Prompting(credential) => StateView::Prompting(credential@),
            State::Asking => StateView::Asking,
            State::Finished => StateView::Finished,
        }
    }
}

/// One decision: the messages to write, in order, then the request to carry
/// out, and the state in which its outcome is awaited.
#[derive(Debug, PartialEq, Eq)]
pub struct Step {
    pub state: State,
    pub messages: Vec<Message>,
    pub request: Request,
}

/// The mathematical model of [`Step`].
pub struct StepView {
    pub state: StateView,
    pub messages: Seq<MessageView>,
    pub request: RequestView,
}

impl View for Step {
    type V = StepView;

    open spec fn view(&self) -> StepView {
        StepView {
            state: self.state@,
            messages: message_views(self.messages@),
            request: self.request@,
        }
    }
}

/// The first step of a run in `mode`: nothing is said, and the entry
/// [`KEYRING_ENTRY`] of [`APP_NAME`] is opened.
pub open spec fn first_step(mode: ModeView) -> StepView {
    StepView {
        state: StateView::Opening(mode),
        messages: Seq::empty(),
        request: RequestView::OpenEntry { service: APP_NAME@, entry: KEYRING_ENTRY@ },
    }
}

/// The last step of a run: `messages` are written and the process ends with `status`.
pub open spec fn last_step(messages: Seq<MessageView>, status: i32) -> StepView {
    StepView { state: StateView::Finished, messages, request: RequestView::Exit(status) }
}

/// The only step of a run whose flags exclude each other: the error is
/// written and the process ends with status 2.
pub open spec fn refusing_step(error: UsageError) -> StepView {
    last_step(seq![MessageView::Refused(error)], 2)
}

/// The step with which a run on `flags` begins: the first step of the mode
/// that they select, or the refusal of flags that exclude each other.
pub open spec fn opening_step(flags: FlagsView) -> StepView {
    match chosen(flags) {
        Ok(mode) => first_step(mode),
        Err(error) => refusing_step(error),
    }
}

/// The step that sends the question `prompt`, announced by `messages`.
pub open spec fn asking_step(
    messages: Seq<MessageView>,
    credential: Seq<char>,
    prompt: Seq<char>,
) -> StepView {
    StepView {
        state: StateView::Asking,
        messages,
        request: RequestView::Complete { credential, request: request_for(MODEL_NAME@, prompt) },
    }
}

/// The step that follows when `reply` arrives in `state`, or `None` where
/// `state` does not wait for such a reply.
///
/// A store that cannot be opened, written or cleared ends the run with status 1
/// and the store's reason. A secret that cannot be read ends it with status 1
/// and the advice to store one, whatever the reason. With the secret read, the
/// question is the tokens joined by single spaces; without tokens it is one line
/// of standard input, taken as it is.
pub open spec fn next(state: StateView, reply: ReplyView) -> Option<StepView> {
    match (state, reply) {
        (StateView::Opening(mode), ReplyView::Done) => Some(
            match mode {
                ModeView::StoreKey(value) => StepView {
                    state: StateView::Storing,
                    messages: Seq::empty(),
                    request: RequestView::SetSecret(value),
                },
                ModeView::DeleteKey => StepView {
                    state: StateView::Deleting,
                    messages: Seq::empty(),
                    request: RequestView::DeleteSecret,
                },
                ModeView::PrintKey => StepView {
                    state: StateView::Revealing,
                    messages: Seq::empty(),
                    request: RequestView::GetSecret,
                },
                ModeView::AskQuestion(tokens) => StepView {
                    state: StateView::Unlocking(tokens),
                    messages: Seq::empty(),
                    request: RequestView::GetSecret,
                },
            },
        ),
        (StateView::Opening(_), ReplyView::Failed(reason)) => Some(
            last_step(seq![MessageView::StoreFailed(reason)], 1),
        ),
        (StateView::Storing, ReplyView::Done) => Some(last_step(seq![MessageView::KeyStored], 0)),
        (StateView::Storing, ReplyView::Failed(reason)) => Some(
            last_step(seq![MessageView::StoreFailed(reason)], 1),
        ),
        (StateView::Deleting, ReplyView::Done) => Some(last_step(seq![MessageView::KeyDeleted], 0)),
        (StateView::Deleting, ReplyView::Failed(reason)) => Some(
            last_step(seq![MessageView::StoreFailed(reason)], 1),
        ),
        (StateView::Revealing, ReplyView::Secret(key)) => Some(
            last_step(seq![MessageView::KeyValue(key)], 0),
        ),
        (StateView::Revealing, ReplyView::Failed(_)) => Some(
            last_step(seq![MessageView::KeyMissing], 1),
        ),
        (StateView::Unlocking(tokens), ReplyView::Secret(key)) => Some(
            if tokens.len() == 0 {
                StepView {
                    state: StateView::Prompting(key),
                    messages: seq![MessageView::PromptWanted],
                    request: RequestView::ReadLine,
                }
            } else {
                let prompt = question(tokens);
                asking_step(seq![MessageView::Question(prompt)], key, prompt)
            },
        ),
        (StateView::Unlocking(_), ReplyView::Failed(_)) => Some(
            last_step(seq![MessageView::KeyMissing], 1),
        ),
        (StateView::Prompting(key), ReplyView::Line(line)) => Some(
            asking_step(seq![MessageView::Blank, MessageView::Question(line)], key, line),
        ),
        (StateView::Asking, ReplyView::Choices(choices)) => Some(
            last_step(seq![MessageView::Answer(answer(choices))], 0),
        ),
        (StateView::Asking, ReplyView::Failed(reason)) => Some(
            last_step(seq![MessageView::RequestFailed(reason)], 1),
        ),
        _ => None,
    }
}

/// The model of what [`advance`] returns.
pub open spec fn step_view(out: Option<Step>) -> Option<StepView> {
    match out {
        Some(step) => Some(step@),
        None => None,
    }
}

/// Begins a run in `mode`.
pub fn start(mode: Mode) -> (out: Step)
    ensures
        out@ == first_step(mode@),
{
    let request = Request::OpenEntry {
        service: APP_NAME.to_owned(),
        entry: KEYRING_ENTRY.to_owned(),
    };
    silent(State::Opening(mode), request)
}

/// Begins a run on the flags of the command line. Flags that exclude each
/// other end it at once, whatever their values.
pub fn begin(flags: Flags) -> (out: Step)
    ensures
        out@ == opening_step(flags@),
{
    match select_mode(flags) {
        Ok(mode) => start(mode),
        Err(error) => finish(Message::Refused(error), 2),
    }
}

/// A step that writes nothing.
fn silent(state: State, request: Request) -> (out: Step)
    ensures
        out@ == (StepView { state: state@, messages: Seq::empty(), request: request@ }),
{
    let out = Step { state, messages: Vec::new(), request };
    assert(message_views(out.messages@) =~= Seq::empty());
    out
}

/// A step that writes one message.
fn saying(state: State, message: Message, request: Request) -> (out: Step)
    ensures
        out@ == (StepView { state: state@, messages: seq![message@], request: request@ }),
{
    let mut messages: Vec<Message> = Vec::new();
    messages.push(message);
    let out = Step { state, messages, request };
    assert(message_views(out.messages@) =~= seq![message@]);
    out
}

/// The step that ends the run with one message.
fn finish(message: Message, status: i32) -> (out: Step)
    ensures
        out@ == last_step(seq![message@], status),
{
    saying(State::Finished, message, Request::Exit(status))
}

/// The step that sends the question `prompt`, announced by `messages`, which
/// end with the question itself.
fn ask(messages: Vec<Message>, credential: String, prompt: &String) -> (out: Step)
    ensures
        out@ == asking_step(message_views(messages@), credential@, prompt@),
{
    let request = build_request(MODEL_NAME, prompt.as_str());
    Step { state: State::Asking, messages, request: Request::Complete { credential, request } }
}

/// Takes the outcome of the last request and decides what comes next.
/// Returns `None` exactly where `state` does not wait for such a reply;
/// from [`State::Finished`] nothing follows.
pub fn advance(state: State, reply: Reply) -> (out: Option<Step>)
    ensures
        step_view(out) == next(state@, reply@),
{
    match (state, reply) {
        (State::Opening(mode), Reply::Done) => Some(
            match mode {
                Mode::StoreKey(value) => silent(State::Storing, Request::SetSecret(value)),
                Mode::DeleteKey => silent(State::Deleting, Request::DeleteSecret),
                Mode::PrintKey => silent(State::Revealing, Request::GetSecret),
                Mode::AskQuestion(tokens) => silent(State::Unlocking(tokens), Request::GetSecret),
            },
        ),
        (State::Opening(_), Reply::Failed(reason)) => Some(finish(Message::StoreFailed(reason), 1)),
        (State::Storing, Reply::Done) => Some(finish(Message::KeyStored, 0)),
        (State::Storing, Reply::Failed(reason)) => Some(finish(Message::StoreFailed(reason), 1)),
        (State::Deleting, Reply::Done) => Some(finish(Message::KeyDeleted, 0)),
        (State::Deleting, Reply::Failed(reason)) => Some(finish(Message::StoreFailed(reason), 1)),
        (State::Revealing, Reply::Secret(key)) => Some(finish(Message::KeyValue(key), 0)),
        (State::Revealing, Reply::Failed(_)) => Some(finish(Message::KeyMissing, 1)),
        (State::Unlocking(tokens), Reply::Secret(key)) => {
            if tokens.len() == 0 {
                Some(saying(State::Prompting(key), Message::PromptWanted, Request::ReadLine))
            } else {
                let prompt = join_prompt(&tokens);
                let mut messages: Vec<Message> = Vec::new();
                messages.push(Message::Question(prompt.clone()));
                assert(message_views(messages@) =~= seq![MessageView::Question(prompt@)]);
                Some(ask(messages, key, &prompt))
            }
        },
        (State::Unlocking(_), Reply::Failed(_)) => Some(finish(Message::KeyMissing, 1)),
        (State::Prompting(key), Reply::Line(line)) => {
            let mut messages: Vec<Message> = Vec::new();
            messages.push(Message::Blank);
            messages.push(Message::Question(line.clone()));
            assert(message_views(messages@) =~= seq![
                MessageView::Blank,
                MessageView::Question(line@),
            ]);
            Some(ask(messages, key, &line))
        },
        (State::Asking, Reply::Choices(choices)) => Some(
            finish(Message::Answer(join_answer(&choices)), 0),
        ),
        (State::Asking, Reply::Failed(reason)) => Some(finish(Message::RequestFailed(reason), 1)),
        _ => None,
    }
}

} // verus!
