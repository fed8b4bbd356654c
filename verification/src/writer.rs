//! The writer: it takes the messages out of a session's outbound channel,
//! one at a time and in order, and writes each to the client.

use crate::lifecycle::Flow;
use vstd::prelude::*;

verus! {

/// What the writer is to do next.
#[derive(Debug, PartialEq, Eq)]
pub enum WriterPlan {
    /// Write this text to the client, as a text message.
    Write(String),
    /// End the loop.
    Stop,
}

/// The writer's plan after waiting on the outbound channel: `item` is the
/// message that came out, or `None` once the channel is closed and empty.
pub open spec fn plan_for(item: Option<String>) -> WriterPlan {
    match item {
        Some(message) => WriterPlan::Write(message),
        None => WriterPlan::Stop,
    }
}

/// Decides what to do with what came out of the outbound channel: a
/// message is written as it is, and the end of the channel ends the loop.
pub fn on_dequeue(item: Option<String>) -> (plan: WriterPlan)
    ensures
        plan == plan_for(item),
{
    match item {
        Some(message) => WriterPlan::Write(message),
        None => WriterPlan::Stop,
    }
}

/// Decides how to go on after a write: a write that failed means that the
/// client is gone, so the loop ends, and the write is not tried again.
pub fn after_write(written: bool) -> (flow: Flow)
    ensures
        flow is Stop <==> !written,
{
    if written {
        Flow::Continue
    } else {
        Flow::Stop
    }
}

} // verus!
