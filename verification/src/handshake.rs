//! The handshake: the first message of a connection is read as a naming
//! attempt and as nothing else. Whatever it holds, a session is opened; the
//! message is then spent and is never answered as a command.

use crate::frame::Inbound;
use crate::ident::SessionId;
use crate::outbox::OUTBOUND_CAPACITY;
use crate::registry::{Registry, Session};
use tokio::sync::mpsc::Receiver;
use vstd::prelude::*;
use vstd::string::*;

verus! {

/// What a naming message begins with.
pub open spec fn name_prefix() -> Seq<char> {
    "name:"@
}

/// The name of a session whose client has not given one.
pub open spec fn default_name() -> Seq<char> {
    "Unknown"@
}

/// The name that the text `text` announces: all that follows the prefix,
/// as it stands, be it empty.
pub open spec fn announced_name(text: Seq<char>) -> Option<Seq<char>> {
    if name_prefix().is_prefix_of(text) {
        Some(text.skip(name_prefix().len() as int))
    } else {
        None
    }
}

/// The display name of a session whose first message was `first`: the
/// announced name where `first` is a text with the prefix, the default name
/// in every other case.
pub open spec fn display_name_of(first: Inbound) -> Seq<char> {
    match first.text() {
        Some(text) => match announced_name(text) {
            Some(name) => name,
            None => default_name(),
        },
        None => default_name(),
    }
}

/// Reads `text` as a naming attempt.
pub fn parse_name(text: &str) -> (name: Option<String>)
    ensures
        match name {
            Some(n) => announced_name(text@) == Some(n@),
            None => announced_name(text@) is None,
        },
{
    proof {
        reveal_strlit("name:");
    }
    let n = text.unicode_len();
    if n < 5 {
        return None;
    }
    if text.get_char(0) == 'n' && text.get_char(1) == 'a' && text.get_char(2) == 'm'
        && text.get_char(3) == 'e' && text.get_char(4) == ':' {
        let rest = text.substring_char(5, n);
        assert(name_prefix() =~= text@.subrange(0, 5));
        assert(text@.skip(5) =~= text@.subrange(5, n as int));
        Some(rest.to_owned())
    } else {
        assert(text@.subrange(0, 5) != name_prefix()) by {
            if text@.subrange(0, 5) == name_prefix() {
                assert(text@.subrange(0, 5)[0] == 'n');
                assert(text@.subrange(0, 5)[1] == 'a');
                assert(text@.subrange(0, 5)[2] == 'm');
                assert(text@.subrange(0, 5)[3] == 'e');
                assert(text@.subrange(0, 5)[4] == ':');
            }
        }
        None
    }
}

/// The display name of a session whose first message was `first`.
pub fn display_name(first: &Inbound) -> (name: String)
    ensures
        name@ == display_name_of(*first),
{
    match first {
        Inbound::Text(text) => match parse_name(text.as_str()) {
            Some(name) => name,
            None => String::from_str("Unknown"),
        },
        _ => String::from_str("Unknown"),
    }
}

/// Completes the handshake of the connection `id`, whose first message was
/// `first`: a session with the resulting display name is registered under
/// `id`, whatever `first` was, and the receiving end of its outbound channel
/// is handed back for the writer. No other entry of the registry changes.
pub fn open_session(registry: &mut Registry, id: SessionId, first: &Inbound) -> (receiver: Receiver<
    String,
>)
    ensures
        final(registry)@.contains_key(id@),
        final(registry)@[id@].name() == display_name_of(*first),
        final(registry)@[id@].capacity() == OUTBOUND_CAPACITY,
        final(registry)@ == old(registry)@.insert(id@, final(registry)@[id@]),
{
    let name = display_name(first);
    let (session, receiver) = Session::open(name);
    registry.register(id, session);
    receiver
}

} // verus!
