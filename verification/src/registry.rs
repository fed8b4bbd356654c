//! The connection registry: the table of the sessions that are connected,
//! keyed by their identifiers. It is the one piece of state that the
//! sessions share; whoever holds it looks up, inserts or removes one entry
//! and lets go.

use crate::ident::SessionId;
use crate::outbox::{channel_limit, limit_of, open_outbound, try_enqueue, Enqueue, OUTBOUND_CAPACITY};
use std::collections::HashMap;
use tokio::sync::mpsc::{Receiver, Sender};
use vstd::prelude::*;
use vstd::std_specs::hash::*;

verus! {

broadcast use group_hash_axioms;

/// What the server keeps of one connected client: the name it shows and the
/// sending end of its outbound channel.
#[derive(Debug)]
pub struct Session {
    name: String,
    outbound: Sender<String>,
}

impl Session {
    /// Every session's outbound channel holds `OUTBOUND_CAPACITY` messages.
    #[verifier::type_invariant]
    spec fn bounded(self) -> bool {
        channel_limit(self.outbound) == OUTBOUND_CAPACITY
    }

    /// The session's display name.
    pub closed spec fn name(self) -> Seq<char> {
        self.name@
    }

    /// The number of messages that the session's outbound channel can hold.
    pub closed spec fn capacity(self) -> nat {
        channel_limit(self.outbound)
    }

    /// A new session called `name`, with a new, empty outbound channel. The
    /// receiving end of the channel comes back beside it, for the writer.
    pub fn open(name: String) -> (pair: (Session, Receiver<String>))
        ensures
            pair.0.name() == name@,
            pair.0.capacity() == OUTBOUND_CAPACITY,
    {
        let (outbound, receiver) = open_outbound();
        (Session { name, outbound }, receiver)
    }

    /// The session's display name.
    pub fn display_name(&self) -> (name: &str)
        ensures
            name@ == self.name(),
    {
        self.name.as_str()
    }

    /// The number of messages that the session's outbound channel can hold:
    /// the same for every session.
    pub fn outbound_capacity(&self) -> (limit: usize)
        ensures
            limit == self.capacity(),
            limit == OUTBOUND_CAPACITY,
    {
        proof {
            use_type_invariant(self);
        }
        limit_of(&self.outbound)
    }

    /// Offers a message to the session's outbound channel, without waiting.
    pub(crate) fn offer(&self, message: String) -> Enqueue {
        try_enqueue(&self.outbound, message)
    }
}

/// What became of a message addressed to a session.
#[derive(Clone, Copy, Debug, PartialEq, Eq, Structural)]
pub enum Delivery {
    /// It is in the session's outbound channel.
    Queued,
    /// The session's outbound channel was full: the message is lost.
    Full,
    /// The session's writer is gone: the message is lost.
    Closed,
    /// There is no such session any more: nothing was done.
    NoSession,
}

/// The delivery that follows from a lookup and, where the session was found,
/// from what its outbound channel said.
pub open spec fn delivery_of(outcome: Option<Enqueue>) -> Delivery {
    match outcome {
        None => Delivery::NoSession,
        Some(Enqueue::Queued) => Delivery::Queued,
        Some(Enqueue::Full) => Delivery::Full,
        Some(Enqueue::Closed) => Delivery::Closed,
    }
}

impl Delivery {
    /// Names the delivery: `None` stands for a session that was not found,
    /// `Some` holds what the outbound channel of a session that was found
    /// said.
    pub fn settle(outcome: Option<Enqueue>) -> (delivery: Delivery)
        ensures
            delivery == delivery_of(outcome),
    {
        match outcome {
            None => Delivery::NoSession,
            Some(Enqueue::Queued) => Delivery::Queued,
            Some(Enqueue::Full) => Delivery::Full,
            Some(Enqueue::Closed) => Delivery::Closed,
        }
    }
}

/// The table of connected sessions.
pub struct Registry {
    sessions: HashMap<u128, Session>,
}

impl View for Registry {
    type V = Map<u128, Session>;

    closed spec fn view(&self) -> Map<u128, Session> {
        self.sessions@
    }
}

/// The identifiers under which `registry` holds an entry and which equal
/// `id`.
pub open spec fn entries_for(registry: Map<u128, Session>, id: u128) -> Set<u128> {
    registry.dom().filter(|k: u128| k == id)
}

impl Registry {
    /// An empty registry.
    pub fn new() -> (registry: Registry)
        ensures
            registry@ == Map::<u128, Session>::empty(),
    {
        Registry { sessions: HashMap::new() }
    }

    /// The number of sessions in the registry.
    pub fn len(&self) -> (n: usize)
        ensures
            n == self@.len(),
            self@.dom().finite(),
    {
        self.sessions.len()
    }

    /// Whether the registry holds no session.
    pub fn is_empty(&self) -> (empty: bool)
        ensures
            empty == (self@.len() == 0),
    {
        self.sessions.len() == 0
    }

    /// Whether a session is registered under `id`.
    pub fn contains(&self, id: SessionId) -> (found: bool)
        ensures
            found == self@.contains_key(id@),
    {
        let key = id.value();
        self.sessions.contains_key(&key)
    }

    /// Puts `session` in the registry under `id`. Whatever was registered
    /// under `id` before is replaced; every other entry stays as it is. The
    /// number of entries grows by one if `id` is new and stays the same if
    /// it is not.
    pub fn register(&mut self, id: SessionId, session: Session)
        ensures
            final(self)@ == old(self)@.insert(id@, session),
            final(self)@.len() == old(self)@.len() + (if old(self)@.contains_key(id@) {
                0nat
            } else {
                1nat
            }),
    {
        let key = id.value();
        let _ = self.sessions.insert(key, session);
    }

    /// The session registered under `id`, if there is one.
    pub fn lookup(&self, id: SessionId) -> (found: Option<&Session>)
        ensures
            match found {
                Some(session) => self@.contains_key(id@) && *session == self@[id@],
                None => !self@.contains_key(id@),
            },
    {
        let key = id.value();
        self.sessions.get(&key)
    }

    /// Takes the session registered under `id` out of the registry and hands
    /// it back. Where none is registered under `id`, nothing changes.
    pub fn remove(&mut self, id: SessionId) -> (removed: Option<Session>)
        ensures
            final(self)@ == old(self)@.remove(id@),
            match removed {
                Some(session) => old(self)@.contains_key(id@) && session == old(self)@[id@],
                None => !old(self)@.contains_key(id@),
            },
    {
        let key = id.value();
        self.sessions.remove(&key)
    }

    /// Offers `message` to the outbound channel of the session registered
    /// under `id`, without waiting. A session that is gone, a full channel
    /// and a closed one are all reported and none is an error; the registry
    /// itself is never changed.
    pub fn deliver(&self, id: SessionId, message: String) -> (delivery: Delivery)
        ensures
            delivery is NoSession <==> !self@.contains_key(id@),
    {
        match self.lookup(id) {
            Some(session) => Delivery::settle(Some(session.offer(message))),
            None => Delivery::settle(None),
        }
    }
}

/// A registry holds at most one entry for any identifier, and it holds one
/// exactly when a session is registered under the identifier.
pub proof fn lemma_one_entry_per_id(registry: Registry, id: SessionId)
    ensures
        entries_for(registry@, id@).len() <= 1,
        entries_for(registry@, id@).len() == 1 <==> registry@.contains_key(id@),
{
    let entries = entries_for(registry@, id@);
    assert(registry@.dom().finite());
    if registry@.contains_key(id@) {
        assert(entries =~= Set::<u128>::empty().insert(id@));
    } else {
        assert(entries =~= Set::<u128>::empty());
    }
}

/// Registering twice under one identifier leaves one entry, the second.
pub proof fn lemma_register_replaces(
    registry: Map<u128, Session>,
    id: u128,
    first: Session,
    second: Session,
)
    ensures
        registry.insert(id, first).insert(id, second) == registry.insert(id, second),
{
    assert(registry.insert(id, first).insert(id, second) =~= registry.insert(id, second));
}

/// Once an entry is removed it is gone, and removing it again changes
/// nothing: an entry leaves the registry exactly once.
pub proof fn lemma_remove_once(registry: Map<u128, Session>, id: u128)
    ensures
        !registry.remove(id).contains_key(id),
        registry.remove(id).remove(id) == registry.remove(id),
        forall|other: u128|
            other != id ==> (#[trigger] registry.remove(id).contains_key(other)
                <==> registry.contains_key(other)),
{
    assert(registry.remove(id).remove(id) =~= registry.remove(id));
}

} // verus!
