//! The heartbeat: at a fixed interval the server sends each connected
//! session a liveness message. The task that does so ends when it finds its
//! session gone from the registry, and for no other reason.

use crate::ident::SessionId;
use crate::lifecycle::Flow;
use crate::registry::{Delivery, Registry, Session};
use vstd::prelude::*;
use vstd::string::*;

verus! {

/// Seconds between two heartbeats of a session.
pub const HEARTBEAT_INTERVAL_SECS: u64 = 10;

/// The text of a heartbeat message.
pub open spec fn heartbeat_text() -> Seq<char> {
    "ping"@
}

/// What a heartbeat task does after a tick, given the registry it saw: it
/// goes on while its session is registered and stops once it is not.
pub open spec fn tick_flow(registry: Map<u128, Session>, id: u128) -> Flow {
    if registry.contains_key(id) {
        Flow::Continue
    } else {
        Flow::Stop
    }
}

/// The text of a heartbeat message.
pub fn heartbeat_payload() -> (payload: String)
    ensures
        payload@ == heartbeat_text(),
{
    String::from_str("ping")
}

/// How a heartbeat task goes on after a delivery attempt: a message that
/// was lost to a full or closed channel does not end it, a session that is
/// gone does.
pub fn after_delivery(delivery: Delivery) -> (flow: Flow)
    ensures
        flow is Stop <==> delivery is NoSession,
{
    match delivery {
        Delivery::NoSession => Flow::Stop,
        _ => Flow::Continue,
    }
}

/// One tick of the heartbeat task of session `id`: the heartbeat text is
/// offered to the session's outbound channel, without waiting. The registry
/// is only read.
pub fn tick(registry: &Registry, id: SessionId) -> (flow: Flow)
    ensures
        flow == tick_flow(registry@, id@),
{
    after_delivery(registry.deliver(id, heartbeat_payload()))
}

/// Once a session has left the registry, the next tick of its heartbeat
/// task ends the task; while it is registered, every tick goes on.
pub proof fn lemma_tick_after_removal(registry: Map<u128, Session>, id: u128, session: Session)
    ensures
        tick_flow(registry.remove(id), id) == Flow::Stop,
        tick_flow(registry.insert(id, session), id) == Flow::Continue,
        forall|other: u128|
            other != id ==> #[trigger] tick_flow(registry.remove(id), other) == tick_flow(
                registry,
                other,
            ),
{
}

} // verus!
