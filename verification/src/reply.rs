//! How a read of the cache is answered: which form the answer takes and what
//! it carries when the cache holds nothing.

use vstd::prelude::*;

verus! {

/// The form of an answer.
#[derive(Debug, Clone, Copy, PartialEq, Eq, Structural)]
pub enum ReplyKind {
    /// The stored text as it is.
    PlainText,
    /// The stored text inside the page that edits it.
    Html,
}

/// Whether a client that names itself `agent` is the command-line tool curl.
pub open spec fn from_curl(agent: Seq<char>) -> bool {
    "curl/"@.is_prefix_of(agent)
}

/// The form owed to a client, by the name it gives itself. A client that gives
/// none, or one that is not text, is passed as `None`.
pub open spec fn reply_kind_for(agent: Option<Seq<char>>) -> ReplyKind {
    match agent {
        Some(name) => if from_curl(name) {
            ReplyKind::PlainText
        } else {
            ReplyKind::Html
        },
        None => ReplyKind::Html,
    }
}

/// Whether `text` begins with `prefix`.
pub fn starts_with(text: &str, prefix: &str) -> (yes: bool)
    ensures
        yes == prefix@.is_prefix_of(text@),
{
    let n = prefix.unicode_len();
    if text.unicode_len() < n {
        return false;
    }
    let mut i: usize = 0;
    while i < n
        invariant
            i <= n,
            n == prefix@.len(),
            n <= text@.len(),
            forall|j: int| 0 <= j < i ==> text@[j] == prefix@[j],
        decreases n - i,
    {
        if text.get_char(i) != prefix.get_char(i) {
            return false;
        }
        i += 1;
    }
    true
}

/// Chooses the form of the answer: curl gets the plain text, every other
/// client the page.
pub fn reply_kind(agent: Option<&str>) -> (kind: ReplyKind)
    ensures
        kind == reply_kind_for(
            match agent {
                Some(name) => Some(name@),
                None => None,
            },
        ),
{
    match agent {
        Some(name) => {
            if starts_with(name, "curl/") {
                ReplyKind::PlainText
            } else {
                ReplyKind::Html
            }
        },
        None => ReplyKind::Html,
    }
}

/// The text that an answer carries: what the cache returned, or the empty
/// text on a miss.
pub fn content_or_empty(found: Option<String>) -> (content: String)
    ensures
        content@ == match found {
            Some(text) => text@,
            None => Seq::<char>::empty(),
        },
{
    match found {
        Some(text) => text,
        None => String::new(),
    }
}

} // verus!
