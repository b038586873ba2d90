//! The payload translator: what each backend flavour is sent, where, and how
//! its reply becomes the text returned to the client.
use vstd::prelude::*;
use vstd::string::StringExecFns;
use crate::json::{json_parses, json_string_at, opt_view, string_at};
use crate::message::{ChatRequest, build_messages, outbound_turns};
use crate::wire::{chat_json, encode_chat, encode_generate, generate_json};

verus! {

/// The wire format of the backend.
#[derive(Clone, Copy, Debug, PartialEq, Eq, Structural)]
pub enum Strategy {
    /// Legacy single-prompt format: one prompt, a system text, one `response` field back.
    Generate,
    /// Chat-completions format: a message list, `choices[0].message.content` back.
    ChatCompletions,
}

pub const GENERATE_PATH: &'static str = "/api/generate";
pub const CHAT_PATH: &'static str = "/v1/chat/completions";
pub const GENERATE_HEALTH_PATH: &'static str = "/api/tags";
pub const CHAT_HEALTH_PATH: &'static str = "/health";
pub const GENERATE_ANSWER_POINTER: &'static str = "/response";
pub const CHAT_ANSWER_POINTER: &'static str = "/choices/0/message/content";

pub const GENERATE_NO_FIELD: &'static str = "No response field found";
pub const GENERATE_INVALID: &'static str = "Invalid response from Ollama";
pub const GENERATE_UNREACHABLE: &'static str = "Failed to contact Ollama";
pub const CHAT_NO_FIELD: &'static str = "No content field found in first choice";
pub const CHAT_INVALID: &'static str = "Invalid response from llama.cpp";
pub const CHAT_UNREACHABLE: &'static str = "Failed to contact llama.cpp";

/// Path of the completion endpoint, below the backend's base URL.
pub open spec fn completion_path(s: Strategy) -> Seq<char> {
    match s {
        Strategy::Generate => GENERATE_PATH@,
        Strategy::ChatCompletions => CHAT_PATH@,
    }
}

/// Path of the health-check endpoint, below the backend's base URL.
pub open spec fn health_path(s: Strategy) -> Seq<char> {
    match s {
        Strategy::Generate => GENERATE_HEALTH_PATH@,
        Strategy::ChatCompletions => CHAT_HEALTH_PATH@,
    }
}

/// What came of a backend call.
#[derive(Clone, Debug)]
pub enum BackendReply {
    /// The HTTP call itself failed.
    Unreachable,
    /// The body was not JSON.
    Malformed,
    /// The body was JSON; `answer` is the text at the expected place, if any.
    Parsed { answer: Option<String> },
}

/// The JSON pointer to the answer in a reply of the strategy.
pub open spec fn answer_pointer(s: Strategy) -> Seq<char> {
    match s {
        Strategy::Generate => GENERATE_ANSWER_POINTER@,
        Strategy::ChatCompletions => CHAT_ANSWER_POINTER@,
    }
}

/// The text returned to the client for a reply.
pub open spec fn reply_text(s: Strategy, reply: BackendReply) -> Seq<char> {
    match reply {
        BackendReply::Parsed { answer: Some(a) } => a@,
        BackendReply::Parsed { answer: None } => match s {
            Strategy::Generate => GENERATE_NO_FIELD@,
            Strategy::ChatCompletions => CHAT_NO_FIELD@,
        },
        BackendReply::Malformed => match s {
            Strategy::Generate => GENERATE_INVALID@,
            Strategy::ChatCompletions => CHAT_INVALID@,
        },
        BackendReply::Unreachable => match s {
            Strategy::Generate => GENERATE_UNREACHABLE@,
            Strategy::ChatCompletions => CHAT_UNREACHABLE@,
        },
    }
}

/// The body of the completion request for `req`.
pub open spec fn request_json(s: Strategy, model: Seq<char>, req: ChatRequest, preamble: Seq<char>) -> Seq<char> {
    match s {
        Strategy::Generate => generate_json(model, req.prompt@, preamble),
        Strategy::ChatCompletions => chat_json(model, outbound_turns(req, preamble)),
    }
}

/// The URL of the completion endpoint of the backend at `host`.
pub fn completion_url(host: &str, s: Strategy) -> (r: String)
    ensures
        r@ == host@ + completion_path(s),
{
    let base = String::from_str(host);
    match s {
        Strategy::Generate => base.concat(GENERATE_PATH),
        Strategy::ChatCompletions => base.concat(CHAT_PATH),
    }
}

/// The URL of the health-check endpoint of the backend at `host`.
pub fn health_url(host: &str, s: Strategy) -> (r: String)
    ensures
        r@ == host@ + health_path(s),
{
    let base = String::from_str(host);
    match s {
        Strategy::Generate => base.concat(GENERATE_HEALTH_PATH),
        Strategy::ChatCompletions => base.concat(CHAT_HEALTH_PATH),
    }
}

/// Builds the completion request body for `req` with the given preamble.
pub fn encode_request(s: Strategy, model: &str, req: &ChatRequest, preamble: &str) -> (r: String)
    ensures
        r@ == request_json(s, model@, *req, preamble@),
{
    match s {
        Strategy::Generate => encode_generate(model, req.prompt.as_str(), preamble),
        Strategy::ChatCompletions => {
            let messages = build_messages(req, preamble);
            encode_chat(model, &messages)
        },
    }
}

/// Reads the reply body of a completion call that reached the backend:
/// malformed when it is not JSON, else the string at the strategy's answer
/// pointer, if there is one.
pub fn read_reply(s: Strategy, body: &[u8]) -> (r: BackendReply)
    ensures
        r is Malformed <==> !json_parses(body@),
        !(r is Unreachable),
        r matches BackendReply::Parsed { answer } ==> opt_view(answer) == json_string_at(
            body@,
            answer_pointer(s),
        ),
{
    let found = match s {
        Strategy::Generate => string_at(body, GENERATE_ANSWER_POINTER),
        Strategy::ChatCompletions => string_at(body, CHAT_ANSWER_POINTER),
    };
    match found {
        None => BackendReply::Malformed,
        Some(answer) => BackendReply::Parsed { answer },
    }
}

/// The text returned to the client for a reply: the answer, or the fallback
/// text of the strategy for what went wrong.
pub fn response_text(s: Strategy, reply: &BackendReply) -> (r: String)
    ensures
        r@ == reply_text(s, *reply),
{
    match reply {
        BackendReply::Parsed { answer: Some(a) } => a.clone(),
        BackendReply::Parsed { answer: None } => match s {
            Strategy::Generate => String::from_str(GENERATE_NO_FIELD),
            Strategy::ChatCompletions => String::from_str(CHAT_NO_FIELD),
        },
        BackendReply::Malformed => match s {
            Strategy::Generate => String::from_str(GENERATE_INVALID),
            Strategy::ChatCompletions => String::from_str(CHAT_INVALID),
        },
        BackendReply::Unreachable => match s {
            Strategy::Generate => String::from_str(GENERATE_UNREACHABLE),
            Strategy::ChatCompletions => String::from_str(CHAT_UNREACHABLE),
        },
    }
}

} // verus!
