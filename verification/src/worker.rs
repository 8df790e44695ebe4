//! The transport loop's control decisions: the bridge's phase machine and
//! the per-message dispositions that keep one bad payload from taking a
//! worker down.
//!
//! The embedder owns the connection, the subscriptions and the tasks; it
//! feeds events in and acts on what comes back.

use vstd::prelude::*;

verus! {

/// Where the bridge stands in its life cycle.
#[derive(Debug, Clone, Copy, PartialEq, Eq, Structural)]
pub enum BridgePhase {
    Connecting,
    Running,
    Draining,
    Stopped,
}

/// Something that happened to the bridge.
#[derive(Debug, Clone, Copy, PartialEq, Eq, Structural)]
pub enum BridgeEvent {
    /// The transport connection is up.
    Connected,
    /// The transport connection could not be established.
    ConnectFailed,
    /// The interrupt signal arrived.
    Shutdown,
    /// One worker task ended without error.
    WorkerCompleted,
    /// One worker task ended with an error.
    WorkerFailed,
    /// No worker tasks remain outstanding.
    Drained,
}

/// Whether the bridge carries on or must surface a fatal error once
/// draining is over.
#[derive(Debug, Clone, Copy, PartialEq, Eq, Structural)]
pub enum BridgeVerdict {
    Proceed,
    Fatal,
}

/// The phase the bridge moves to on an event: a failed connection is fatal
/// at startup; a shutdown starts draining; a failed worker is fatal but
/// still drains the others first; a stopped bridge stays stopped.
pub open spec fn phase_after(phase: BridgePhase, event: BridgeEvent) -> BridgePhase {
    match (phase, event) {
        (BridgePhase::Connecting, BridgeEvent::Connected) => BridgePhase::Running,
        (BridgePhase::Connecting, BridgeEvent::ConnectFailed) => BridgePhase::Stopped,
        (BridgePhase::Running, BridgeEvent::Shutdown) => BridgePhase::Draining,
        (BridgePhase::Running, BridgeEvent::WorkerCompleted) => BridgePhase::Running,
        (BridgePhase::Running, BridgeEvent::WorkerFailed) => BridgePhase::Draining,
        (BridgePhase::Running, BridgeEvent::Drained) => BridgePhase::Running,
        (BridgePhase::Draining, BridgeEvent::Drained) => BridgePhase::Stopped,
        (BridgePhase::Draining, _) => BridgePhase::Draining,
        (BridgePhase::Stopped, _) => BridgePhase::Stopped,
        (p, _) => p,
    }
}

/// Whether the event dooms the bridge.
pub open spec fn verdict_of(phase: BridgePhase, event: BridgeEvent) -> BridgeVerdict {
    match (phase, event) {
        (BridgePhase::Connecting, BridgeEvent::ConnectFailed) => BridgeVerdict::Fatal,
        (BridgePhase::Running, BridgeEvent::WorkerFailed) => BridgeVerdict::Fatal,
        (BridgePhase::Draining, BridgeEvent::WorkerFailed) => BridgeVerdict::Fatal,
        _ => BridgeVerdict::Proceed,
    }
}

/// One step of the bridge's phase machine, per `phase_after` and
/// `verdict_of`.
pub fn bridge_step(phase: BridgePhase, event: BridgeEvent) -> (r: (BridgePhase, BridgeVerdict))
    ensures
        r.0 == phase_after(phase, event),
        r.1 == verdict_of(phase, event),
{
    let next = match (phase, event) {
        (BridgePhase::Connecting, BridgeEvent::Connected) => BridgePhase::Running,
        (BridgePhase::Connecting, BridgeEvent::ConnectFailed) => BridgePhase::Stopped,
        (BridgePhase::Running, BridgeEvent::Shutdown) => BridgePhase::Draining,
        (BridgePhase::Running, BridgeEvent::WorkerCompleted) => BridgePhase::Running,
        (BridgePhase::Running, BridgeEvent::WorkerFailed) => BridgePhase::Draining,
        (BridgePhase::Running, BridgeEvent::Drained) => BridgePhase::Running,
        (BridgePhase::Draining, BridgeEvent::Drained) => BridgePhase::Stopped,
        (BridgePhase::Draining, _) => BridgePhase::Draining,
        (BridgePhase::Stopped, _) => BridgePhase::Stopped,
        (p, _) => p,
    };
    let verdict = match (phase, event) {
        (BridgePhase::Connecting, BridgeEvent::ConnectFailed) => BridgeVerdict::Fatal,
        (BridgePhase::Running, BridgeEvent::WorkerFailed) => BridgeVerdict::Fatal,
        (BridgePhase::Draining, BridgeEvent::WorkerFailed) => BridgeVerdict::Fatal,
        _ => BridgeVerdict::Proceed,
    };
    (next, verdict)
}

/// How one inbound message ended inside a worker.
#[derive(Debug, Clone, Copy, PartialEq, Eq, Structural)]
pub enum MessageEvent {
    /// The payload did not decode as an activity.
    DecodeFailed,
    /// The engine refused or failed the dispatch.
    EngineFailed,
    /// Publishing a response to the transport failed.
    PublishFailed,
    /// Every response was published.
    Delivered,
}

/// What the worker does about it.
#[derive(Debug, Clone, Copy, PartialEq, Eq, Structural)]
pub enum MessageAction {
    /// Count a failure for the tenant and keep the worker alive.
    RecordFailureAndContinue,
    /// Keep the worker alive; egress was already counted per publish.
    Continue,
    /// End the worker with an error: the shared connection may be unusable.
    AbortWorker,
}

/// The worker's reaction to a message outcome: only a transport-level
/// publish failure ends the worker.
pub open spec fn reaction_of(event: MessageEvent) -> MessageAction {
    match event {
        MessageEvent::DecodeFailed => MessageAction::RecordFailureAndContinue,
        MessageEvent::EngineFailed => MessageAction::RecordFailureAndContinue,
        MessageEvent::PublishFailed => MessageAction::AbortWorker,
        MessageEvent::Delivered => MessageAction::Continue,
    }
}

/// The worker's reaction to a message outcome, per `reaction_of`.
pub fn message_reaction(event: MessageEvent) -> (r: MessageAction)
    ensures
        r == reaction_of(event),
{
    match event {
        MessageEvent::DecodeFailed => MessageAction::RecordFailureAndContinue,
        MessageEvent::EngineFailed => MessageAction::RecordFailureAndContinue,
        MessageEvent::PublishFailed => MessageAction::AbortWorker,
        MessageEvent::Delivered => MessageAction::Continue,
    }
}

/// Per-message failures are isolated: neither a bad payload nor an engine
/// failure ever ends the worker; only a publish failure does.
pub proof fn lemma_worker_isolation(event: MessageEvent)
    ensures
        reaction_of(event) == MessageAction::AbortWorker <==> event
            == MessageEvent::PublishFailed,
{
}

/// A doomed bridge still drains before it stops: a worker failure while
/// running moves to `Draining`, never straight to `Stopped`, and only
/// `Drained` reaches `Stopped` from there.
pub proof fn lemma_drain_before_stop(event: BridgeEvent)
    ensures
        phase_after(BridgePhase::Running, BridgeEvent::WorkerFailed) == BridgePhase::Draining,
        phase_after(BridgePhase::Draining, event) == BridgePhase::Stopped <==> event
            == BridgeEvent::Drained,
{
}

} // verus!
