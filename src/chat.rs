//! Messages, completion responses and the errors of one completion exchange.

use vstd::prelude::*;
use vstd::string::to_string_from_display_ensures;

verus! {

/// What a message is: the role of its author and its text.
pub struct MessageModel {
    pub role: Seq<char>,
    pub content: Seq<char>,
}

/// One message of a conversation: `role` is "system", "user" or "assistant".
#[derive(Clone, Debug, PartialEq, Eq)]
pub struct Message {
    pub role: String,
    pub content: String,
}

impl View for Message {
    type V = MessageModel;

    open spec fn view(&self) -> MessageModel {
        MessageModel { role: self.role@, content: self.content@ }
    }
}

pub open spec fn assistant_role() -> Seq<char> {
    "assistant"@
}

pub open spec fn fallback_text() -> Seq<char> {
    "I don't have an answer for that."@
}

/// The reply given when the service answers with no choices at all.
pub open spec fn fallback_model() -> MessageModel {
    MessageModel { role: assistant_role(), content: fallback_text() }
}

/// The reply when the service answered with no choices.
pub fn fallback_reply() -> (r: Message)
    ensures
        r@ == fallback_model(),
{
    Message {
        role: String::from_str("assistant"),
        content: String::from_str("I don't have an answer for that."),
    }
}

/// The text logged, ahead of the error, when a response body cannot be read.
pub open spec fn raw_log_line(body: Seq<char>) -> Seq<char> {
    "Raw response: "@ + body
}

pub open spec fn parse_failure_text() -> Seq<char> {
    "Error parsing the API response"@
}

/// reqwest's error type, carried opaque inside `CustomError`.
#[verifier::external_type_specification]
#[verifier::external_body]
pub struct ExReqwestError(reqwest::Error);

/// The ways one completion exchange can fail.
#[derive(Debug)]
pub enum CustomError {
    /// The HTTP layer failed: connection, TLS, timeout, or reading the body.
    ReqwestError(reqwest::Error),
    /// The response body was not the JSON shape a completion has.
    ParseError(String),
}

/// `text` is a rendering of `e` for a person to read.
pub open spec fn describes(e: CustomError, text: Seq<char>) -> bool {
    match e {
        CustomError::ReqwestError(inner) => exists|d: String|
            #[trigger] to_string_from_display_ensures::<reqwest::Error>(&inner, d)
                && text == "Reqwest error: "@ + d@,
        CustomError::ParseError(s) => text == "Parse error: "@ + s@,
    }
}

impl CustomError {
    /// A one-line description of the failure.
    pub fn describe(&self) -> (r: String)
        ensures
            describes(*self, r@),
    {
        match self {
            CustomError::ReqwestError(e) => {
                let d = e.to_string();
                let r = String::from_str("Reqwest error: ").concat(d.as_str());
                assert(to_string_from_display_ensures::<reqwest::Error>(e, d));
                r
            },
            CustomError::ParseError(s) => String::from_str("Parse error: ").concat(s.as_str()),
        }
    }
}

impl From<reqwest::Error> for CustomError {
    fn from(err: reqwest::Error) -> CustomError {
        CustomError::ReqwestError(err)
    }
}

impl vstd::std_specs::convert::FromSpecImpl<reqwest::Error> for CustomError {
    open spec fn obeys_from_spec() -> bool {
        true
    }

    open spec fn from_spec(v: reqwest::Error) -> CustomError {
        CustomError::ReqwestError(v)
    }
}

/// The value of the `Authorization` header for the credential `api_key`.
pub fn authorization_value(api_key: &str) -> (r: String)
    ensures
        r@ == "Bearer "@ + api_key@,
{
    String::from_str("Bearer ").concat(api_key)
}

/// One candidate reply of a completion response.
#[derive(Clone, Debug)]
pub struct Choice {
    pub message: Message,
}

/// A completion response as the service sends it: its candidate replies.
#[derive(Clone, Debug)]
pub struct ChatResponse {
    pub choices: Vec<Choice>,
}

impl View for ChatResponse {
    type V = Seq<MessageModel>;

    open spec fn view(&self) -> Seq<MessageModel> {
        self.choices@.map_values(|c: Choice| c.message@)
    }
}

/// The reply taken from the candidates: the first one, or the fallback when there is none.
pub open spec fn reply_for(choices: Seq<MessageModel>) -> MessageModel {
    if choices.len() > 0 {
        choices[0]
    } else {
        fallback_model()
    }
}

/// What one completion exchange yields once its body has arrived.
pub struct Completion {
    /// The reply, or why there is none.
    pub reply: Result<Message, CustomError>,
    /// A line to log before the reply is reported, for the operator.
    pub diagnostic: Option<String>,
}

/// Reads a completion from the response body `body` and from `parsed`, the
/// body decoded as a completion response (`None` where it is not valid JSON
/// of that shape). A decoded response gives its first choice, or the fallback
/// reply when it has none; an undecodable one gives a parse error and asks
/// for the raw body to be logged, unchanged.
pub fn read_completion(body: &str, parsed: Option<ChatResponse>) -> (r: Completion)
    ensures
        match parsed {
            Some(resp) => {
                &&& r.diagnostic is None
                &&& r.reply is Ok
                &&& r.reply->Ok_0@ == reply_for(resp@)
            },
            None => {
                &&& r.diagnostic is Some
                &&& r.diagnostic->Some_0@ == raw_log_line(body@)
                &&& r.reply is Err
                &&& r.reply->Err_0 matches CustomError::ParseError(t) && t@ == parse_failure_text()
            },
        },
{
    match parsed {
        Some(resp) => {
            let mut choices = resp.choices;
            if choices.len() > 0 {
                let first = choices.remove(0);
                Completion { reply: Ok(first.message), diagnostic: None }
            } else {
                Completion { reply: Ok(fallback_reply()), diagnostic: None }
            }
        },
        None => {
            let line = String::from_str("Raw response: ").concat(body);
            let err = CustomError::ParseError(String::from_str("Error parsing the API response"));
            Completion { reply: Err(err), diagnostic: Some(line) }
        },
    }
}

} // verus!
