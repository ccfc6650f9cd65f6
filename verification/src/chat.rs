//! Single-turn chat completion: the request body and the reading of the answer.

use crate::error::{ClientError, Operation, is_success, status_is_success};
use crate::json::{Json, json_document, parse_document};
use vstd::prelude::*;
use vstd::string::*;

verus! {

/// One message of a conversation.
#[derive(Debug, Clone, PartialEq, Eq)]
pub struct ChatMessage {
    pub role: String,
    pub content: String,
}

/// The body of a chat completion request.
#[derive(Debug, Clone, PartialEq, Eq)]
pub struct ChatCompletionRequest {
    pub model: String,
    pub messages: Vec<ChatMessage>,
}

/// Builds the request body for one prompt: a conversation of a single message
/// from the user, without history.
pub fn chat_request_body(model: &str, prompt: String) -> (request: ChatCompletionRequest)
    ensures
        request.model@ == model@,
        request.messages@.len() == 1,
        request.messages@[0].role@ == "user"@,
        request.messages@[0].content@ == prompt@,
{
    let mut messages: Vec<ChatMessage> = Vec::new();
    messages.push(ChatMessage { role: String::from_str("user"), content: prompt });
    ChatCompletionRequest { model: String::from_str(model), messages }
}

/// Whether `message` is an object whose `content` is a string, null or absent.
pub open spec fn is_message(message: Json) -> bool {
    &&& message is Object
    &&& match message.field("content"@) {
        None => true,
        Some(content) => content is Null || content is Text,
    }
}

/// Whether `choice` holds a well-formed `message`.
pub open spec fn is_choice(choice: Json) -> bool {
    match choice.field("message"@) {
        Some(message) => is_message(message),
        None => false,
    }
}

/// The list under the member `choices`, if the document has one.
pub open spec fn choices_of(doc: Json) -> Option<Seq<Json>> {
    match doc.field("choices"@) {
        Some(choices) => choices.items(),
        None => None,
    }
}

/// Whether `doc` has the shape `{ choices: [ { message: { content? } } ] }`.
pub open spec fn is_chat_response(doc: Json) -> bool {
    &&& choices_of(doc) is Some
    &&& forall|i: int|
        0 <= i < choices_of(doc)->Some_0.len() ==> is_choice(#[trigger] choices_of(doc)->Some_0[i])
}

/// The text of a choice's message, if it has any.
pub open spec fn choice_content(choice: Json) -> Option<Seq<char>> {
    match choice.field("message"@) {
        Some(message) => message.field_text("content"@),
        None => None,
    }
}

/// The text of the first choice, if there is a first choice and it has text.
pub open spec fn first_content(doc: Json) -> Option<Seq<char>> {
    match choices_of(doc) {
        Some(choices) => if choices.len() == 0 {
            None
        } else {
            choice_content(choices[0])
        },
        None => None,
    }
}

/// The characters of an optional string.
pub open spec fn optional_text(text: Option<String>) -> Option<Seq<char>> {
    match text {
        Some(s) => Some(s@),
        None => None,
    }
}

fn choice_is_well_formed(choice: &Json) -> (ok: bool)
    ensures
        ok == is_choice(*choice),
{
    match choice.get("message") {
        Some(message) => match message {
            Json::Object(_) => match message.get("content") {
                None => true,
                Some(content) => match content {
                    Json::Null => true,
                    Json::Text(_) => true,
                    _ => false,
                },
            },
            _ => false,
        },
        None => false,
    }
}

/// Reads the completion out of a parsed answer.
///
/// An answer of the expected shape without a first choice, or whose first
/// choice has no text, is a success without content.
pub fn chat_content(doc: &Json) -> (outcome: Result<Option<String>, ClientError>)
    ensures
        outcome is Ok <==> is_chat_response(*doc),
        outcome is Ok ==> optional_text(outcome->Ok_0) == first_content(*doc),
        outcome is Err ==> outcome->Err_0.is_shape_mismatch(Operation::ChatCompletion),
{
    let listed = match doc.get("choices") {
        Some(c) => c.as_array(),
        None => None,
    };
    match listed {
        None => Err(ClientError::ResponseShapeMismatch { operation: Operation::ChatCompletion }),
        Some(choices) => {
            assert(choices_of(*doc) == Some(choices@));
            let mut i: usize = 0;
            while i < choices.len()
                invariant
                    i <= choices@.len(),
                    choices_of(*doc) == Some(choices@),
                    forall|j: int| 0 <= j < i ==> is_choice(#[trigger] choices@[j]),
                decreases choices@.len() - i,
            {
                if !choice_is_well_formed(&choices[i]) {
                    return Err(ClientError::ResponseShapeMismatch { operation: Operation::ChatCompletion });
                }
                i = i + 1;
            }
            if choices.len() == 0 {
                return Ok(None);
            }
            let text = match choices[0].get("message") {
                Some(message) => message.get_str("content"),
                None => None,
            };
            match text {
                Some(s) => Ok(Some(String::from_str(s))),
                None => Ok(None),
            }
        },
    }
}

/// What a chat completion answered with `status` and `body` amounts to.
pub open spec fn chat_outcome_is(
    outcome: Result<Option<String>, ClientError>,
    status: u16,
    body: Seq<char>,
    doc: Option<Json>,
) -> bool {
    if !is_success(status) {
        outcome is Err && outcome->Err_0.is_api_failure(Operation::ChatCompletion, status, body)
    } else if doc is Some && is_chat_response(doc->Some_0) {
        outcome is Ok && optional_text(outcome->Ok_0) == first_content(doc->Some_0)
    } else {
        outcome is Err && outcome->Err_0.is_shape_mismatch(Operation::ChatCompletion)
    }
}

/// Turns a parsed answer to a chat completion into its text, or into the
/// failure that the status or the shape reports.
pub fn chat_from_response(status: u16, body: &str, doc: Option<Json>) -> (outcome: Result<
    Option<String>,
    ClientError,
>)
    ensures
        chat_outcome_is(outcome, status, body@, doc),
{
    if !status_is_success(status) {
        return Err(ClientError::ApiFailure { operation: Operation::ChatCompletion, status, message: String::from_str(body), service_message: false });
    }
    match doc {
        Some(d) => chat_content(&d),
        None => Err(ClientError::ResponseShapeMismatch { operation: Operation::ChatCompletion }),
    }
}

/// Interprets the answer to a chat completion: its status and its body.
pub fn interpret_chat_response(status: u16, body: &str) -> (outcome: Result<
    Option<String>,
    ClientError,
>)
    ensures
        chat_outcome_is(outcome, status, body@, json_document(body@)),
{
    if !status_is_success(status) {
        return Err(ClientError::ApiFailure { operation: Operation::ChatCompletion, status, message: String::from_str(body), service_message: false });
    }
    chat_from_response(status, body, parse_document(body))
}

} // verus!
