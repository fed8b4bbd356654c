//! The life of a session, from the moment its connection is accepted to the
//! moment its entry has left the registry, as a machine that is fed what
//! happened and says what to do next.

use vstd::prelude::*;

verus! {

/// Whether a loop goes on or ends.
#[derive(Clone, Copy, Debug, PartialEq, Eq, Structural)]
pub enum Flow {
    /// The loop goes round again.
    Continue,
    /// The loop ends.
    Stop,
}

/// Where a session stands.
#[derive(Clone, Copy, Debug, PartialEq, Eq, Structural)]
pub enum Phase {
    /// A connection is coming in.
    Connecting,
    /// The connection is accepted; its first message is awaited.
    Handshaking,
    /// The session is registered and its three loops run.
    Active,
    /// One of the loops has ended; the entry is still in the registry.
    Closing,
    /// The entry has left the registry. Nothing follows.
    Removed,
}

/// What happened to a session.
#[derive(Clone, Copy, Debug, PartialEq, Eq, Structural)]
pub enum Signal {
    /// The connection was accepted.
    Accepted,
    /// The wait for the first message is over: a message came, whatever it
    /// held, or the connection ended first.
    HandshakeDone,
    /// One of the three loops ended.
    LoopExited,
    /// The session's entry was taken out of the registry.
    EntryRemoved,
}

/// What is to be done for a session next.
#[derive(Clone, Copy, Debug, PartialEq, Eq, Structural)]
pub enum Action {
    /// Wait for the connection's first message.
    AwaitFirstMessage,
    /// Register the session, start its heartbeat, reader and writer, and
    /// wait until the first of the three ends.
    RegisterAndRun,
    /// Take the session's entry out of the registry.
    RemoveEntry,
    /// The session is over: let go of what is left.
    Finish,
    /// Nothing: what happened does not concern the session at this point.
    Nothing,
}

impl Phase {
    /// How far along a phase is: phases are passed through in this order.
    pub open spec fn rank(self) -> nat {
        match self {
            Phase::Connecting => 0,
            Phase::Handshaking => 1,
            Phase::Active => 2,
            Phase::Closing => 3,
            Phase::Removed => 4,
        }
    }

    /// Whether a session in this phase has an entry in the registry.
    pub open spec fn registered(self) -> bool {
        self is Active || self is Closing
    }
}

/// Whether `signal` is the one that moves a session on from `phase`.
pub open spec fn moves_on(phase: Phase, signal: Signal) -> bool {
    match (phase, signal) {
        (Phase::Connecting, Signal::Accepted) => true,
        (Phase::Handshaking, Signal::HandshakeDone) => true,
        (Phase::Active, Signal::LoopExited) => true,
        (Phase::Closing, Signal::EntryRemoved) => true,
        _ => false,
    }
}

/// The phase that follows `phase` when `signal` arrives: the next one where
/// the signal moves the session on, the same one where it does not.
pub open spec fn next_phase(phase: Phase, signal: Signal) -> Phase {
    if moves_on(phase, signal) {
        match phase {
            Phase::Connecting => Phase::Handshaking,
            Phase::Handshaking => Phase::Active,
            Phase::Active => Phase::Closing,
            _ => Phase::Removed,
        }
    } else {
        phase
    }
}

/// What is to be done when `signal` arrives in `phase`.
pub open spec fn action_for(phase: Phase, signal: Signal) -> Action {
    if moves_on(phase, signal) {
        match phase {
            Phase::Connecting => Action::AwaitFirstMessage,
            Phase::Handshaking => Action::RegisterAndRun,
            Phase::Active => Action::RemoveEntry,
            _ => Action::Finish,
        }
    } else {
        Action::Nothing
    }
}

/// The phase reached from `phase` after the signals `signals`, in order.
pub open spec fn run(phase: Phase, signals: Seq<Signal>) -> Phase
    decreases signals.len(),
{
    if signals.len() == 0 {
        phase
    } else {
        next_phase(run(phase, signals.drop_last()), signals.last())
    }
}

/// How many times the signals `signals`, fed in order to a session in
/// `phase`, ask for the session's entry to be removed.
pub open spec fn removals(phase: Phase, signals: Seq<Signal>) -> nat
    decreases signals.len(),
{
    if signals.len() == 0 {
        0
    } else {
        let before = removals(phase, signals.drop_last());
        if action_for(run(phase, signals.drop_last()), signals.last()) is RemoveEntry {
            before + 1
        } else {
            before
        }
    }
}

/// Feeds one signal to a session in `phase`: says where the session stands
/// afterwards and what is to be done.
pub fn step(phase: Phase, signal: Signal) -> (next: (Phase, Action))
    ensures
        next.0 == next_phase(phase, signal),
        next.1 == action_for(phase, signal),
{
    match (phase, signal) {
        (Phase::Connecting, Signal::Accepted) => (Phase::Handshaking, Action::AwaitFirstMessage),
        (Phase::Handshaking, Signal::HandshakeDone) => (Phase::Active, Action::RegisterAndRun),
        (Phase::Active, Signal::LoopExited) => (Phase::Closing, Action::RemoveEntry),
        (Phase::Closing, Signal::EntryRemoved) => (Phase::Removed, Action::Finish),
        _ => (phase, Action::Nothing),
    }
}

/// A signal moves a session one phase on or leaves it where it is; it never
/// moves it back, and it never skips a phase.
pub proof fn lemma_step_forward(phase: Phase, signal: Signal)
    ensures
        next_phase(phase, signal).rank() == phase.rank() + (if moves_on(phase, signal) {
            1nat
        } else {
            0nat
        }),
        action_for(phase, signal) is Nothing <==> next_phase(phase, signal) == phase,
{
}

/// `Removed` is the end: no signal leads out of it or asks for anything.
pub proof fn lemma_removed_is_terminal(signals: Seq<Signal>)
    ensures
        run(Phase::Removed, signals) == Phase::Removed,
        removals(Phase::Removed, signals) == 0,
    decreases signals.len(),
{
    if signals.len() > 0 {
        lemma_removed_is_terminal(signals.drop_last());
    }
}

/// Whatever happens to a session and in whatever order, its entry is asked
/// to be removed at most once; and it has been asked for exactly when the
/// session went from a phase up to `Active` to one past `Active`.
pub proof fn lemma_removed_exactly_once(phase: Phase, signals: Seq<Signal>)
    ensures
        run(phase, signals).rank() >= phase.rank(),
        removals(phase, signals) <= 1,
        removals(phase, signals) == 1 <==> (phase.rank() <= Phase::Active.rank() && run(
            phase,
            signals,
        ).rank() > Phase::Active.rank()),
    decreases signals.len(),
{
    if signals.len() > 0 {
        lemma_removed_exactly_once(phase, signals.drop_last());
        lemma_step_forward(run(phase, signals.drop_last()), signals.last());
    }
}

/// A session is registered exactly from the handshake's end until its entry
/// is removed: the phases in which it has an entry are those between the
/// action that registers it and the signal that its entry was removed.
pub proof fn lemma_registered_span(phase: Phase, signal: Signal)
    ensures
        !phase.registered() && next_phase(phase, signal).registered() <==> action_for(
            phase,
            signal,
        ) is RegisterAndRun,
        phase.registered() && !next_phase(phase, signal).registered() <==> action_for(
            phase,
            signal,
        ) is Finish,
{
}

} // verus!
