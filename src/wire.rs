//! The JSON bodies exchanged with the backend and returned to the client.
use vstd::prelude::*;
use vstd::string::StringExecFns;
use crate::json::{json_string_of, quote};
use crate::message::{ChatMessage, Turn, turns_of};

verus! {

pub const OPEN_MODEL: &'static str = "{\"model\":";
pub const KEY_PROMPT: &'static str = ",\"prompt\":";
pub const KEY_SYSTEM: &'static str = ",\"system\":";
pub const KEY_MESSAGES: &'static str = ",\"messages\":[";
pub const STREAM_OFF: &'static str = ",\"stream\":false}";
pub const LIST_END_STREAM_OFF: &'static str = "],\"stream\":false}";
pub const OPEN_ROLE: &'static str = "{\"role\":";
pub const KEY_CONTENT: &'static str = ",\"content\":";
pub const OPEN_RESPONSE: &'static str = "{\"response\":";
pub const CLOSE_OBJECT: &'static str = "}";
pub const COMMA: &'static str = ",";

/// A JSON object for one turn: `{"role":..,"content":..}`.
pub open spec fn turn_json(t: Turn) -> Seq<char> {
    OPEN_ROLE@ + json_string_of(t.role) + KEY_CONTENT@ + json_string_of(t.content) + CLOSE_OBJECT@
}

/// The turns as JSON objects separated by commas (the inside of an array).
pub open spec fn turns_json(ts: Seq<Turn>) -> Seq<char>
    decreases ts.len(),
{
    if ts.len() == 0 {
        Seq::empty()
    } else if ts.len() == 1 {
        turn_json(ts[0])
    } else {
        turns_json(ts.drop_last()) + COMMA@ + turn_json(ts.last())
    }
}

/// The legacy generate request: `{"model":..,"prompt":..,"system":..,"stream":false}`.
pub open spec fn generate_json(model: Seq<char>, prompt: Seq<char>, system: Seq<char>) -> Seq<char> {
    OPEN_MODEL@ + json_string_of(model) + KEY_PROMPT@ + json_string_of(prompt) + KEY_SYSTEM@
        + json_string_of(system) + STREAM_OFF@
}

/// The chat-completions request: `{"model":..,"messages":[..],"stream":false}`.
pub open spec fn chat_json(model: Seq<char>, turns: Seq<Turn>) -> Seq<char> {
    OPEN_MODEL@ + json_string_of(model) + KEY_MESSAGES@ + turns_json(turns) + LIST_END_STREAM_OFF@
}

/// The body returned to the client: `{"response":..}`.
pub open spec fn response_json(text: Seq<char>) -> Seq<char> {
    OPEN_RESPONSE@ + json_string_of(text) + CLOSE_OBJECT@
}

/// Appends the JSON string literal for `s` to `out`.
fn append_quoted(out: &mut String, s: &str)
    ensures
        final(out)@ == old(out)@ + json_string_of(s@),
{
    match quote(s) {
        Ok(q) => out.append(q.as_str()),
        Err(_) => {},
    }
}

/// Encodes a legacy generate request.
pub fn encode_generate(model: &str, prompt: &str, system: &str) -> (r: String)
    ensures
        r@ == generate_json(model@, prompt@, system@),
{
    let mut out = String::from_str(OPEN_MODEL);
    append_quoted(&mut out, model);
    out.append(KEY_PROMPT);
    append_quoted(&mut out, prompt);
    out.append(KEY_SYSTEM);
    append_quoted(&mut out, system);
    out.append(STREAM_OFF);
    out
}

/// Appends the JSON object for one message to `out`.
fn append_turn(out: &mut String, m: &ChatMessage)
    ensures
        final(out)@ == old(out)@ + turn_json(m@),
{
    out.append(OPEN_ROLE);
    append_quoted(out, m.role.as_str());
    out.append(KEY_CONTENT);
    append_quoted(out, m.content.as_str());
    out.append(CLOSE_OBJECT);
}

/// Encodes a chat-completions request for the given messages.
pub fn encode_chat(model: &str, messages: &Vec<ChatMessage>) -> (r: String)
    ensures
        r@ == chat_json(model@, turns_of(messages@)),
{
    let mut out = String::from_str(OPEN_MODEL);
    append_quoted(&mut out, model);
    out.append(KEY_MESSAGES);
    let ghost head = out@;
    let n = messages.len();
    let mut i: usize = 0;
    while i < n
        invariant
            n == messages@.len(),
            i <= n,
            out@ == head + turns_json(turns_of(messages@.take(i as int))),
        decreases n - i,
    {
        if i > 0 {
            out.append(COMMA);
        }
        append_turn(&mut out, &messages[i]);
        proof {
            let prev = turns_of(messages@.take(i as int));
            let next = turns_of(messages@.take(i + 1));
            assert(next =~= prev.push(messages@[i as int]@));
            assert(next.drop_last() =~= prev);
        }
        i = i + 1;
    }
    proof {
        assert(messages@.take(n as int) == messages@);
    }
    out.append(LIST_END_STREAM_OFF);
    out
}

/// Encodes the body returned to the client.
pub fn encode_response(text: &str) -> (r: String)
    ensures
        r@ == response_json(text@),
{
    let mut out = String::from_str(OPEN_RESPONSE);
    append_quoted(&mut out, text);
    out.append(CLOSE_OBJECT);
    out
}

} // verus!
