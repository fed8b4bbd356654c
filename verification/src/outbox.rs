//! The outbound channel of a session: a bounded queue of text messages. The
//! server's loops put messages in at one end, without ever waiting; the
//! writer takes them out at the other end, in the order they went in.

use tokio::sync::mpsc::error::TrySendError;
use tokio::sync::mpsc::{Receiver, Sender};
use vstd::prelude::*;

verus! {

/// Number of messages that a session's outbound channel can hold.
pub const OUTBOUND_CAPACITY: usize = 10;

/// The sending end of a `tokio` bounded channel.
#[verifier::external_type_specification]
#[verifier::external_body]
#[verifier::reject_recursive_types(T)]
pub struct ExSender<T>(Sender<T>);

/// The receiving end of a `tokio` bounded channel.
#[verifier::external_type_specification]
#[verifier::external_body]
#[verifier::reject_recursive_types(T)]
pub struct ExReceiver<T>(Receiver<T>);

/// The number of messages that the channel behind `sender` was made to
/// hold. It is fixed when the channel is made and never changes.
pub uninterp spec fn channel_limit(sender: Sender<String>) -> nat;

/// What became of a message offered to an outbound channel.
#[derive(Clone, Copy, Debug, PartialEq, Eq, Structural)]
pub enum Enqueue {
    /// The message is in the channel.
    Queued,
    /// The channel was full: the message is lost.
    Full,
    /// The receiving end is gone: the message is lost.
    Closed,
}

/// `tokio::sync::mpsc::channel` for text messages. The function panics on a
/// capacity of zero and on one above `usize::MAX >> 3`, so both are left
/// out. The channel that comes back holds up to `capacity` messages: that is
/// the bound that `max_capacity` reports for it from then on.
#[verifier::external_body]
fn open_channel(capacity: usize) -> (ends: (Sender<String>, Receiver<String>))
    requires
        0 < capacity <= usize::MAX / 8,
    ensures
        channel_limit(ends.0) == capacity,
{
    tokio::sync::mpsc::channel::<String>(capacity)
}

/// `Sender::try_send`: offers `message` to the channel without waiting.
/// Whether there is room, and whether the receiving end still exists,
/// depends on what the other tasks have done, so nothing is assumed of the
/// outcome.
#[verifier::external_body]
pub(crate) fn try_enqueue(sender: &Sender<String>, message: String) -> (outcome: Enqueue) {
    match sender.try_send(message) {
        Ok(()) => Enqueue::Queued,
        Err(TrySendError::Full(_)) => Enqueue::Full,
        Err(TrySendError::Closed(_)) => Enqueue::Closed,
    }
}

/// `Sender::max_capacity`: the bound that the channel behind `sender` was
/// made with.
#[verifier::external_body]
pub(crate) fn limit_of(sender: &Sender<String>) -> (limit: usize)
    ensures
        limit == channel_limit(*sender),
{
    sender.max_capacity()
}

/// Opens the outbound channel of a new session.
pub fn open_outbound() -> (ends: (Sender<String>, Receiver<String>))
    ensures
        channel_limit(ends.0) == OUTBOUND_CAPACITY,
{
    open_channel(OUTBOUND_CAPACITY)
}

} // verus!
