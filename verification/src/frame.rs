//! What arrives from a client, as far as the session logic tells it apart.

use vstd::prelude::*;

verus! {

/// One thing that came up while waiting for a client's next message.
#[derive(Debug, PartialEq, Eq)]
pub enum Inbound {
    /// A text message, possibly empty.
    Text(String),
    /// A message that is not text, such as a binary one; or one whose text
    /// could not be read.
    Other,
    /// The connection ended or failed. The two are not told apart: each is
    /// an ordinary end of the conversation.
    Closed,
}

impl Inbound {
    /// The text that the message carries, if it is a text message.
    pub open spec fn text(self) -> Option<Seq<char>> {
        match self {
            Inbound::Text(t) => Some(t@),
            _ => None,
        }
    }
}

} // verus!
