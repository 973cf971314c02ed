//! What a run says to its user.

use crate::invocation::{conflict_text, UsageError};
use vstd::prelude::*;

verus! {

/// The standard stream that a message is written to.
#[derive(Clone, Copy, Debug, PartialEq, Eq, Structural)]
pub enum Stream {
    Output,
    Error,
}

/// One line for the user. The driver writes [`Message::text`] and a line end
/// to [`Message::stream`].
#[derive(Debug, PartialEq, Eq)]
pub enum Message {
    /// The flags given exclude each other.
    Refused(UsageError),
    /// The credential was written to the store.
    KeyStored,
    /// The credential was removed from the store.
    KeyDeleted,
    /// The stored credential, in clear text.
    KeyValue(String),
    /// No credential could be read; says how to store one.
    KeyMissing,
    /// Asks for the question on standard input.
    PromptWanted,
    /// An empty line.
    Blank,
    /// The question that is about to be sent.
    Question(String),
    /// The answer of the service.
    Answer(String),
    /// The credential store refused an operation, with its reason.
    StoreFailed(String),
    /// The completion service could not be asked, with the reason.
    RequestFailed(String),
}

/// The mathematical model of [`Message`].
pub enum MessageView {
    Refused(UsageError),
    KeyStored,
    KeyDeleted,
    KeyValue(Seq<char>),
    KeyMissing,
    PromptWanted,
    Blank,
    Question(Seq<char>),
    Answer(Seq<char>),
    StoreFailed(Seq<char>),
    RequestFailed(Seq<char>),
}

impl View for Message {
    type V = MessageView;

    open spec fn view(&self) -> MessageView {
        match self {
            Message::Refused(error) => MessageView::Refused(*error),
            Message::KeyStored => MessageView::KeyStored,
            Message::KeyDeleted => MessageView::KeyDeleted,
            Message::KeyValue(key) => MessageView::KeyValue(key@),
            Message::KeyMissing => MessageView::KeyMissing,
            Message::PromptWanted => MessageView::PromptWanted,
            Message::Blank => MessageView::Blank,
            Message::Question(prompt) => MessageView::Question(prompt@),
            Message::Answer(answer) => MessageView::Answer(answer@),
            Message::StoreFailed(reason) => MessageView::StoreFailed(reason@),
            Message::RequestFailed(reason) => MessageView::RequestFailed(reason@),
        }
    }
}

impl MessageView {
    /// The line as the user reads it, without its line end. Texts that come
    /// from outside (a key, a question, an answer, a reason) appear unchanged.
    pub open spec fn text(self) -> Seq<char> {
        match self {
            MessageView::Refused(error) => "error: "@ + conflict_text(error),
            MessageView::KeyStored => "OpenAI API key stored"@,
            MessageView::KeyDeleted => "OpenAI API key deleted"@,
            MessageView::KeyValue(key) => "OpenAI API key: "@ + key,
            MessageView::KeyMissing =>
                "OpenAI API key not found. Please enter it using the --store_key flag."@,
            MessageView::PromptWanted => "Please enter a prompt to send to the AI."@,
            MessageView::Blank => Seq::empty(),
            MessageView::Question(prompt) => "Question: "@ + prompt,
            MessageView::Answer(answer) => "Answer: "@ + answer,
            MessageView::StoreFailed(reason) => "Error: "@ + reason,
            MessageView::RequestFailed(reason) => "request failed: "@ + reason,
        }
    }

    /// Failures go to the error stream, everything else to standard output.
    pub open spec fn stream(self) -> Stream {
        match self {
            MessageView::Refused(_) => Stream::Error,
            MessageView::KeyMissing => Stream::Error,
            MessageView::StoreFailed(_) => Stream::Error,
            MessageView::RequestFailed(_) => Stream::Error,
            _ => Stream::Output,
        }
    }
}

/// `head` followed by `tail`.
fn prefixed(head: &str, tail: &String) -> (out: String)
    ensures
        out@ == head@ + tail@,
{
    let mut out = head.to_owned();
    out.append(tail.as_str());
    out
}

impl Message {
    /// The line to write, without its line end.
    pub fn text(&self) -> (out: String)
        ensures
            out@ == self@.text(),
    {
        match self {
            Message::Refused(error) => prefixed("error: ", &error.text()),
            Message::KeyStored => "OpenAI API key stored".to_owned(),
            Message::KeyDeleted => "OpenAI API key deleted".to_owned(),
            Message::KeyValue(key) => prefixed("OpenAI API key: ", key),
            Message::KeyMissing =>
                "OpenAI API key not found. Please enter it using the --store_key flag.".to_owned(),
            Message::PromptWanted => "Please enter a prompt to send to the AI.".to_owned(),
            Message::Blank => String::new(),
            Message::Question(prompt) => prefixed("Question: ", prompt),
            Message::Answer(answer) => prefixed("Answer: ", answer),
            Message::StoreFailed(reason) => prefixed("Error: ", reason),
            Message::RequestFailed(reason) => prefixed("request failed: ", reason),
        }
    }

    /// The stream to write the line to.
    pub fn stream(&self) -> (out: Stream)
        ensures
            out == self@.stream(),
    {
        match self {
            Message::Refused(_) => Stream::Error,
            Message::KeyMissing => Stream::Error,
            Message::StoreFailed(_) => Stream::Error,
            Message::RequestFailed(_) => Stream::Error,
            _ => Stream::Output,
        }
    }
}

/// The models of the messages of `messages`, in their order.
pub open spec fn message_views(messages: Seq<Message>) -> Seq<MessageView> {
    messages.map_values(|message: Message| message@)
}

} // verus!
