//! The system preamble that every backend request starts with.
use vstd::prelude::*;
use vstd::string::StringExecFns;

verus! {

/// Text that stands before the topics in the preamble.
pub const PREAMBLE_HEAD: &'static str = "You are a specialized AI assistant. You stay strictly on these topics: ";

/// Text that follows the topics in the preamble.
pub const PREAMBLE_TAIL: &'static str = ". If a user asks about other topics, you MUST state that you do not have access and cannot help with those. NEVER pretend to have information outside these topics. You also DO NOT HAVE ACCESS to user accounts, passwords, or personal data.";

/// Topics used when the topics source cannot be read.
pub const DEFAULT_TOPICS: &'static str = "General assistance";

/// The preamble for the given topics: the fixed template with the topics in it.
pub open spec fn preamble_of(topics: Seq<char>) -> Seq<char> {
    PREAMBLE_HEAD@ + topics + PREAMBLE_TAIL@
}

/// The topics text, given what reading the topics source produced.
pub open spec fn topics_of(read: Option<Seq<char>>) -> Seq<char> {
    match read {
        Some(t) => t,
        None => DEFAULT_TOPICS@,
    }
}

/// Builds the system preamble around `topics`.
pub fn system_preamble(topics: &str) -> (r: String)
    ensures
        r@ == preamble_of(topics@),
{
    let head = String::from_str(PREAMBLE_HEAD);
    let with_topics = head.concat(topics);
    with_topics.concat(PREAMBLE_TAIL)
}

/// The topics to use: what was read, or the default when reading failed.
pub fn topics_or_default(read: Option<String>) -> (r: String)
    ensures
        r@ == topics_of(
            match read {
                Some(t) => Some(t@),
                None => None,
            },
        ),
{
    match read {
        Some(t) => t,
        None => String::from_str(DEFAULT_TOPICS),
    }
}

} // verus!
