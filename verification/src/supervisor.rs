//! The supervisor: a session's heartbeat, reader and writer run side by
//! side, and as soon as the first of them ends the session is over. Its
//! entry then leaves the registry, here and nowhere else, and once.

use crate::ident::SessionId;
use crate::lifecycle::{next_phase, step, Phase, Signal};
use crate::registry::{Registry, Session};
use vstd::prelude::*;

verus! {

/// Where a session in `phase` stands once it has been concluded: a session
/// that has an entry in the registry ends up `Removed`, any other stays
/// where it is.
pub open spec fn concluded(phase: Phase) -> Phase {
    next_phase(next_phase(phase, Signal::LoopExited), Signal::EntryRemoved)
}

/// Concludes the session `id`, which stands in `phase`, after one of its
/// loops has ended. If the session has an entry in the registry, the entry
/// is taken out and handed back; no other entry is touched. A session that
/// was never registered, or that was concluded before, is left alone, and so
/// is the registry.
pub fn conclude(registry: &mut Registry, id: SessionId, phase: Phase) -> (end: (
    Phase,
    Option<Session>,
))
    ensures
        end.0 == concluded(phase),
        phase.registered() ==> final(registry)@ == old(registry)@.remove(id@),
        phase.registered() ==> match end.1 {
            Some(session) => old(registry)@.contains_key(id@) && session == old(registry)@[id@],
            None => !old(registry)@.contains_key(id@),
        },
        !phase.registered() ==> final(registry)@ == old(registry)@ && end.1 is None,
{
    let (closing, _) = step(phase, Signal::LoopExited);
    match closing {
        Phase::Closing => {
            let removed = registry.remove(id);
            let (removed_phase, _) = step(closing, Signal::EntryRemoved);
            (removed_phase, removed)
        },
        _ => (closing, None),
    }
}

/// Concluding ends every registered session and no other, and concluding
/// again changes nothing: however many of a session's loops end, its entry
/// is removed once.
pub proof fn lemma_conclude_once(phase: Phase)
    ensures
        phase.registered() ==> concluded(phase) is Removed,
        !phase.registered() ==> concluded(phase) == phase,
        !concluded(phase).registered(),
        concluded(concluded(phase)) == concluded(phase),
{
}

} // verus!
