//! The reader: what the server does with each message that a connected
//! client sends after the handshake.

use crate::command::{answers, command_of, dispatch};
use crate::frame::Inbound;
use crate::ident::SessionId;
use crate::lifecycle::Flow;
use crate::registry::{Delivery, Registry, Session};
use vstd::prelude::*;

verus! {

/// What the reader is to do about one inbound message.
#[derive(Debug, PartialEq, Eq)]
pub enum ReaderPlan {
    /// End the loop: the connection is over.
    Stop,
    /// Nothing: the message calls for no response.
    Skip,
    /// Offer this response to the session's outbound channel.
    Reply(String),
}

/// What the reader did about one inbound message.
#[derive(Clone, Copy, Debug, PartialEq, Eq, Structural)]
pub enum ReaderOutcome {
    /// The connection is over: the loop ends.
    Stopped,
    /// The message called for no response.
    Ignored,
    /// A response was made and offered to the session's outbound channel,
    /// and this became of it.
    Answered(Delivery),
}

/// Whether `plan` is a right plan for the inbound message `frame`: the loop
/// ends when the connection has ended; a message that is not text is passed
/// over; a text message is answered as the dispatcher answers it, or passed
/// over where the dispatcher gives no answer.
pub open spec fn plan_fits(frame: Inbound, plan: ReaderPlan) -> bool {
    match frame {
        Inbound::Closed => plan is Stop,
        Inbound::Other => plan is Skip,
        Inbound::Text(text) => match plan {
            ReaderPlan::Stop => false,
            ReaderPlan::Skip => answers(text@, None),
            ReaderPlan::Reply(reply) => answers(text@, Some(reply@)),
        },
    }
}

/// Decides what to do about one inbound message. The registry plays no part
/// in the decision.
pub fn plan(frame: &Inbound) -> (plan: ReaderPlan)
    ensures
        plan_fits(*frame, plan),
{
    match frame {
        Inbound::Closed => ReaderPlan::Stop,
        Inbound::Other => ReaderPlan::Skip,
        Inbound::Text(text) => match dispatch(text.as_str()) {
            Some(reply) => ReaderPlan::Reply(reply),
            None => ReaderPlan::Skip,
        },
    }
}

/// Whether the reader goes on after `outcome`.
pub fn flow_after(outcome: ReaderOutcome) -> (flow: Flow)
    ensures
        flow is Stop <==> outcome is Stopped,
{
    match outcome {
        ReaderOutcome::Stopped => Flow::Stop,
        _ => Flow::Continue,
    }
}

/// Whether `outcome` is a right outcome of handling the inbound message
/// `frame` for session `id`: the loop ends when the connection has ended; a
/// message that is not text, and the text `ping`, are passed over; every
/// other text is answered, and the answer finds no session exactly when the
/// registry holds none under `id`.
pub open spec fn outcome_fits(
    registry: Map<u128, Session>,
    id: u128,
    frame: Inbound,
    outcome: ReaderOutcome,
) -> bool {
    match frame {
        Inbound::Closed => outcome is Stopped,
        Inbound::Other => outcome is Ignored,
        Inbound::Text(text) => if command_of(text@) is Ping {
            outcome is Ignored
        } else {
            outcome matches ReaderOutcome::Answered(delivery) && (delivery is NoSession
                <==> !registry.contains_key(id))
        },
    }
}

/// Handles one inbound message of session `id`. A response, where one is
/// due, is offered to the outbound channel of the session as the registry
/// holds it now, without waiting; if the session is gone, nothing is done.
/// The registry is only read.
pub fn step(registry: &Registry, id: SessionId, frame: &Inbound) -> (outcome: ReaderOutcome)
    ensures
        outcome_fits(registry@, id@, *frame, outcome),
{
    match plan(frame) {
        ReaderPlan::Stop => ReaderOutcome::Stopped,
        ReaderPlan::Skip => ReaderOutcome::Ignored,
        ReaderPlan::Reply(reply) => ReaderOutcome::Answered(registry.deliver(id, reply)),
    }
}

/// A text message `ping` is passed over: the reader makes no response to
/// it. Every other text message gets a response.
pub proof fn lemma_only_ping_is_skipped(frame: Inbound, plan: ReaderPlan)
    requires
        frame is Text,
        plan_fits(frame, plan),
    ensures
        plan is Skip <==> frame.text() == Some("ping"@),
        !(plan is Stop),
{
}

/// The reader's loop ends when the connection ends, and for no other
/// reason: no message, whatever it holds, and no failed delivery ends it.
pub proof fn lemma_only_the_end_stops(
    registry: Map<u128, Session>,
    id: u128,
    frame: Inbound,
    outcome: ReaderOutcome,
)
    requires
        outcome_fits(registry, id, frame, outcome),
    ensures
        outcome is Stopped <==> frame is Closed,
{
}

} // verus!
