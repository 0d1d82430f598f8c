//! The oracle client's part that computes: what is sent to the oracle, and
//! what its answer amounts to.

use vstd::prelude::*;
use vstd::string::StringExecFns;
use crate::evaluation::EvaluationError;

verus! {

/// The address of the oracle's chat-completion endpoint.
pub const URI: &'static str = "https://api.openai.com/v1/chat/completions";

/// The model that every request names.
pub const MODEL: &'static str = "gpt-3.5-turbo";

/// The instruction that precedes every page text: it fixes the shape of the
/// answer and the rubric of the score.
pub const PRE_PROMPT: &'static str = "You're a productivity assistant browser extension. You will be prompted with the text of the webpage the user is accessing. You will rate the relevance of the page to that user based on a user description. \n\
\n\
Your output will be made in the following json format:\n\
{\n\
\"relevance\": int, # from 0 to 10\n\
\"reason\": str, # a 150 word max reason for the relevance. Don't use the 1st person.\n\
\"keywords\": list[str] # a list of important words that matches or doesn't match the relevance criteria\n\
}\n\
\n\
the relevance is mainly determined by two factors:\n\
1.  Is it related to the user's goal?\n\
2. Is it related to the goal's field of knowledge or profession?\n\
\n\
user-description: Junior Software Developer at LogMeIn. Working on Terraform to update his AWS stack.\n\
\n\
page-text:";

/// The name of the role of the message that carries the instruction.
pub const SYSTEM_ROLE: &'static str = "system";

/// The name of the role of the message that carries the page text.
pub const USER_ROLE: &'static str = "user";

/// The content type of a request to the oracle.
pub const CONTENT_TYPE_JSON: &'static str = "application/json";

/// Who speaks in a message of a chat request.
#[derive(Debug, Clone, Copy, PartialEq, Eq, Structural)]
pub enum Role {
    /// The service, which instructs the oracle.
    System,
    /// The user, whose page is evaluated.
    User,
}

impl Role {
    /// The name of the role on the wire.
    pub open spec fn name(self) -> Seq<char> {
        match self {
            Role::System => SYSTEM_ROLE@,
            Role::User => USER_ROLE@,
        }
    }

    /// The name of the role on the wire.
    pub fn as_str(&self) -> (result: &'static str)
        ensures
            result@ == self.name(),
    {
        match self {
            Role::System => SYSTEM_ROLE,
            Role::User => USER_ROLE,
        }
    }
}

/// One message of a chat request.
#[derive(Debug, PartialEq, Eq)]
pub struct Message {
    pub role: Role,
    pub content: String,
}

/// A chat request: the model and the messages put to it.
#[derive(Debug, PartialEq, Eq)]
pub struct OracleRequest {
    pub model: String,
    pub messages: Vec<Message>,
}

/// Whether `messages` is the message list that asks for the evaluation of
/// the page text `query`: the instruction as the system's message, then the
/// page text alone as the user's.
pub open spec fn asks_for(messages: Seq<Message>, query: Seq<char>) -> bool {
    &&& messages.len() == 2
    &&& messages[0].role == Role::System
    &&& messages[0].content@ == PRE_PROMPT@
    &&& messages[1].role == Role::User
    &&& messages[1].content@ == query
}

/// The message list that every request to the oracle carries, streamed or
/// not: the instruction as the system's message, then the page text `query`
/// as the user's.
pub fn build_messages(query: String) -> (messages: Vec<Message>)
    ensures
        asks_for(messages@, query@),
{
    let instruction = Message { role: Role::System, content: String::from_str(PRE_PROMPT) };
    let page = Message { role: Role::User, content: query };
    let mut messages: Vec<Message> = Vec::new();
    messages.push(instruction);
    messages.push(page);
    messages
}

/// The request that asks for the evaluation of `query` in one answer: the
/// fixed model and the message list of [`build_messages`].
pub fn build_request(query: String) -> (request: OracleRequest)
    ensures
        request.model@ == MODEL@,
        asks_for(request.messages@, query@),
{
    OracleRequest { model: String::from_str(MODEL), messages: build_messages(query) }
}

/// The value of the authorization header for the credential `token`.
pub fn bearer(token: &str) -> (header: String)
    ensures
        header@ == "Bearer "@ + token@,
{
    String::from_str("Bearer ").concat(token)
}

/// The text to decode, out of the oracle's answer to a request that is not
/// streamed: the content of the last choice. `None` stands for an answer
/// that never came.
///
/// Fails with `Transport` where no answer came and with `NoChoice` where the
/// answer holds no choice.
pub fn reply_text(answer: Option<Vec<String>>) -> (result: Result<String, EvaluationError>)
    ensures
        match answer {
            None => result == Err::<String, EvaluationError>(EvaluationError::Transport),
            Some(choices) => if choices@.len() == 0 {
                result == Err::<String, EvaluationError>(EvaluationError::NoChoice)
            } else {
                result is Ok && result->Ok_0@ == choices@.last()@
            },
        },
{
    match answer {
        None => Err(EvaluationError::Transport),
        Some(choices) => {
            let mut choices = choices;
            match choices.pop() {
                Some(last) => Ok(last),
                None => Err(EvaluationError::NoChoice),
            }
        },
    }
}

} // verus!
