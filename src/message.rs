//! Conversation turns and the inbound request, and the message list sent to a
//! chat-completions backend.
use vstd::prelude::*;
use vstd::string::StringExecFns;

verus! {

/// Role of the system preamble turn.
pub const ROLE_SYSTEM: &'static str = "system";

/// Role of a turn written by the caller.
pub const ROLE_USER: &'static str = "user";

/// One turn of a conversation, as plain text.
pub struct Turn {
    pub role: Seq<char>,
    pub content: Seq<char>,
}

/// One turn of a conversation: who spoke, and what.
#[derive(Clone, Debug)]
pub struct ChatMessage {
    pub role: String,
    pub content: String,
}

impl View for ChatMessage {
    type V = Turn;

    open spec fn view(&self) -> Turn {
        Turn { role: self.role@, content: self.content@ }
    }
}

/// The turns that a sequence of messages holds, in order.
pub open spec fn turns_of(ms: Seq<ChatMessage>) -> Seq<Turn> {
    ms.map_values(|m: ChatMessage| m@)
}

impl ChatMessage {
    /// A message with the given role and content.
    pub fn new(role: &str, content: &str) -> (r: ChatMessage)
        ensures
            r@ == (Turn { role: role@, content: content@ }),
    {
        ChatMessage { role: String::from_str(role), content: String::from_str(content) }
    }

    /// A copy of this message with the same role and content.
    pub fn duplicate(&self) -> (r: ChatMessage)
        ensures
            r@ == self@,
    {
        ChatMessage { role: self.role.clone(), content: self.content.clone() }
    }
}

/// A chat request from a client: a prompt, and optionally the conversation so far.
#[derive(Clone, Debug)]
pub struct ChatRequest {
    pub prompt: String,
    pub messages: Option<Vec<ChatMessage>>,
}

impl ChatRequest {
    /// The turns of the conversation history, if the request carries one.
    pub open spec fn history(&self) -> Option<Seq<Turn>> {
        match self.messages {
            Some(h) => Some(turns_of(h@)),
            None => None,
        }
    }
}

/// The turns sent to a chat-completions backend: the preamble as a system
/// turn, then the history verbatim when there is one, else the prompt as a
/// single user turn.
pub open spec fn outbound_turns(req: ChatRequest, preamble: Seq<char>) -> Seq<Turn> {
    seq![Turn { role: ROLE_SYSTEM@, content: preamble }] + match req.history() {
        Some(h) => h,
        None => seq![Turn { role: ROLE_USER@, content: req.prompt@ }],
    }
}

/// Builds the message list for a chat-completions backend.
pub fn build_messages(req: &ChatRequest, preamble: &str) -> (r: Vec<ChatMessage>)
    ensures
        turns_of(r@) == outbound_turns(*req, preamble@),
{
    let mut out: Vec<ChatMessage> = Vec::new();
    out.push(ChatMessage::new(ROLE_SYSTEM, preamble));
    match &req.messages {
        Some(history) => {
            let n = history.len();
            let mut i: usize = 0;
            while i < n
                invariant
                    n == history@.len(),
                    i <= n,
                    turns_of(out@) == seq![Turn { role: ROLE_SYSTEM@, content: preamble@ }]
                        + turns_of(history@.take(i as int)),
                decreases n - i,
            {
                let ghost before = out@;
                let m = history[i].duplicate();
                out.push(m);
                proof {
                    assert(out@ == before.push(m));
                    assert(turns_of(out@) =~= turns_of(before).push(history@[i as int]@));
                    assert(history@.take(i + 1) == history@.take(i as int).push(history@[i as int]));
                    assert(turns_of(history@.take(i + 1)) =~= turns_of(history@.take(i as int)).push(
                        history@[i as int]@,
                    ));
                    assert(turns_of(out@) =~= seq![Turn { role: ROLE_SYSTEM@, content: preamble@ }]
                        + turns_of(history@.take(i + 1)));
                }
                i = i + 1;
            }
            proof {
                assert(history@.take(n as int) == history@);
            }
        },
        None => {
            out.push(ChatMessage::new(ROLE_USER, req.prompt.as_str()));
        },
    }
    assert(turns_of(out@) =~= outbound_turns(*req, preamble@));
    out
}

} // verus!
