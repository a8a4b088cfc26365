use vstd::prelude::*;

verus! {

/// What the issuance collaborator's event stream yielded.
#[derive(Debug, Clone, Copy, PartialEq, Eq, Structural)]
pub enum IssuanceItem {
    /// A lifecycle event (an order placed, a certificate deployed, ...).
    Event,
    /// An error of the issuance protocol; the service keeps its last identity.
    Error,
    /// The stream ended: the collaborator has terminated.
    EndOfStream,
}

/// What the background drain does with one item.
#[derive(Debug, Clone, Copy, PartialEq, Eq, Structural)]
pub enum DrainAction {
    /// Log the event at information level.
    LogEvent,
    /// Log the error.
    LogError,
    /// Report the end of the stream once, as a degraded state, and stop
    /// draining; the configurations already handed out stay in use.
    ReportStreamEnded,
}

pub open spec fn drain_action_of(item: IssuanceItem) -> DrainAction {
    match item {
        IssuanceItem::Event => DrainAction::LogEvent,
        IssuanceItem::Error => DrainAction::LogError,
        IssuanceItem::EndOfStream => DrainAction::ReportStreamEnded,
    }
}

/// The drain's decision on one item, and whether it waits for another.
pub fn drain_step(item: IssuanceItem) -> (r: (DrainAction, bool))
    ensures
        r.0 == drain_action_of(item),
        r.1 <==> item != IssuanceItem::EndOfStream,
{
    match item {
        IssuanceItem::Event => (DrainAction::LogEvent, true),
        IssuanceItem::Error => (DrainAction::LogError, true),
        IssuanceItem::EndOfStream => (DrainAction::ReportStreamEnded, false),
    }
}

} // verus!
