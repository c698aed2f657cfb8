use vstd::prelude::*;

use crate::errors::FailureKind;
use crate::errors::FileDisposition;

verus! {

/// Position of one unit of work inside the per-image pipeline.  A unit
/// starts `Scanned` and ends in exactly one of the terminal states
/// `Thumbnailed`, `Duplicate`, `Discarded` or `LeftInPlace`.
#[derive(Clone, Copy, Debug, PartialEq, Eq, Structural)]
pub enum UnitState {
    /// Seen in the import directory, nothing read yet.
    Scanned,
    /// Decoded to an in-memory raster.
    Decoded,
    /// Content fingerprint computed, store not yet asked.
    Hashed,
    /// Fingerprint unknown to the store: the unit goes on to classification.
    Fresh,
    /// Tagged by the classification service.
    Classified,
    /// Image record inserted, id assigned.
    Persisted,
    /// Image body written to content-addressed storage.
    Relocated,
    /// Thumbnail written and recorded: terminal success.
    Thumbnailed,
    /// Fingerprint already known: terminal, the source file is deleted
    /// without a persistence call.
    Duplicate,
    /// Terminal failure; the source file was moved to the discard root.
    Discarded(FailureKind),
    /// Terminal failure; the source file was left untouched for the next
    /// cycle.
    LeftInPlace(FailureKind),
}

/// What the world reports back to a unit between stages.
#[derive(Clone, Copy, Debug, PartialEq, Eq, Structural)]
pub enum UnitEvent {
    DecodeSucceeded,
    DecodeFailed,
    Fingerprinted,
    /// The store already holds a record with this fingerprint.
    FingerprintKnown,
    /// The fingerprint is new to the store.
    FingerprintFresh,
    ClassificationSucceeded,
    /// The classification service was unreachable or answered unusably.
    ClassificationFailed,
    PersistSucceeded,
    PersistFailed,
    RelocateSucceeded,
    RelocateFailed,
    ThumbnailSucceeded,
    ThumbnailFailed,
}

impl UnitState {
    /// A terminal state: the unit is finished and the batch may count it.
    pub open spec fn spec_is_terminal(self) -> bool {
        match self {
            UnitState::Thumbnailed => true,
            UnitState::Duplicate => true,
            UnitState::Discarded(_) => true,
            UnitState::LeftInPlace(_) => true,
            _ => false,
        }
    }

    pub fn is_terminal(&self) -> (t: bool)
        ensures
            t == self.spec_is_terminal(),
    {
        matches!(
            self,
            UnitState::Thumbnailed
                | UnitState::Duplicate
                | UnitState::Discarded(_)
                | UnitState::LeftInPlace(_)
        )
    }

    /// Which events may be reported to a unit in this state.
    pub open spec fn spec_accepts(self, event: UnitEvent) -> bool {
        match self {
            UnitState::Scanned => event is DecodeSucceeded || event is DecodeFailed,
            UnitState::Decoded => event is Fingerprinted,
            UnitState::Hashed => event is FingerprintKnown || event is FingerprintFresh,
            UnitState::Fresh => event is ClassificationSucceeded
                || event is ClassificationFailed,
            UnitState::Classified => event is PersistSucceeded || event is PersistFailed,
            UnitState::Persisted => event is RelocateSucceeded || event is RelocateFailed,
            UnitState::Relocated => event is ThumbnailSucceeded || event is ThumbnailFailed,
            _ => false,
        }
    }

    /// The transition relation of the per-image pipeline: stages advance in
    /// order; a duplicate fingerprint ends the unit successfully without
    /// classification; every failure is routed by its kind, a transient one
    /// to `LeftInPlace`, every other one to `Discarded`.
    pub open spec fn spec_step(self, event: UnitEvent) -> UnitState {
        match (self, event) {
            (UnitState::Scanned, UnitEvent::DecodeSucceeded) => UnitState::Decoded,
            (UnitState::Scanned, UnitEvent::DecodeFailed) => UnitState::Discarded(
                FailureKind::DecodeFailure,
            ),
            (UnitState::Decoded, UnitEvent::Fingerprinted) => UnitState::Hashed,
            (UnitState::Hashed, UnitEvent::FingerprintKnown) => UnitState::Duplicate,
            (UnitState::Hashed, UnitEvent::FingerprintFresh) => UnitState::Fresh,
            (UnitState::Fresh, UnitEvent::ClassificationSucceeded) => UnitState::Classified,
            (UnitState::Fresh, UnitEvent::ClassificationFailed) => UnitState::LeftInPlace(
                FailureKind::ClassificationServiceError,
            ),
            (UnitState::Classified, UnitEvent::PersistSucceeded) => UnitState::Persisted,
            (UnitState::Classified, UnitEvent::PersistFailed) => UnitState::Discarded(
                FailureKind::PersistenceFailure,
            ),
            (UnitState::Persisted, UnitEvent::RelocateSucceeded) => UnitState::Relocated,
            (UnitState::Persisted, UnitEvent::RelocateFailed) => UnitState::Discarded(
                FailureKind::RelocationFailure,
            ),
            (UnitState::Relocated, UnitEvent::ThumbnailSucceeded) => UnitState::Thumbnailed,
            (UnitState::Relocated, UnitEvent::ThumbnailFailed) => UnitState::Discarded(
                FailureKind::ThumbnailFailure,
            ),
            _ => self,
        }
    }

    /// Advances a unit by one reported event.
    pub fn step(&self, event: UnitEvent) -> (next: UnitState)
        requires
            self.spec_accepts(event),
        ensures
            next == self.spec_step(event),
    {
        match (self, event) {
            (UnitState::Scanned, UnitEvent::DecodeSucceeded) => UnitState::Decoded,
            (UnitState::Scanned, UnitEvent::DecodeFailed) => UnitState::Discarded(
                FailureKind::DecodeFailure,
            ),
            (UnitState::Decoded, UnitEvent::Fingerprinted) => UnitState::Hashed,
            (UnitState::Hashed, UnitEvent::FingerprintKnown) => UnitState::Duplicate,
            (UnitState::Hashed, UnitEvent::FingerprintFresh) => UnitState::Fresh,
            (UnitState::Fresh, UnitEvent::ClassificationSucceeded) => UnitState::Classified,
            (UnitState::Fresh, UnitEvent::ClassificationFailed) => UnitState::LeftInPlace(
                FailureKind::ClassificationServiceError,
            ),
            (UnitState::Classified, UnitEvent::PersistSucceeded) => UnitState::Persisted,
            (UnitState::Classified, UnitEvent::PersistFailed) => UnitState::Discarded(
                FailureKind::PersistenceFailure,
            ),
            (UnitState::Persisted, UnitEvent::RelocateSucceeded) => UnitState::Relocated,
            (UnitState::Persisted, UnitEvent::RelocateFailed) => UnitState::Discarded(
                FailureKind::RelocationFailure,
            ),
            (UnitState::Relocated, UnitEvent::ThumbnailSucceeded) => UnitState::Thumbnailed,
            (UnitState::Relocated, UnitEvent::ThumbnailFailed) => UnitState::Discarded(
                FailureKind::ThumbnailFailure,
            ),
            _ => *self,
        }
    }
}

/// A discarding transition never routes a transient failure, and a
/// file is left in place only for the transient classification-service
/// failure: the router never destroys a file the next cycle should retry.
pub proof fn lemma_failure_routing(state: UnitState, event: UnitEvent)
    requires
        state.spec_accepts(event),
    ensures
        state.spec_step(event) matches UnitState::Discarded(kind)
            ==> !kind.spec_is_transient(),
        state.spec_step(event) matches UnitState::LeftInPlace(kind)
            ==> kind == FailureKind::ClassificationServiceError,
{
}

/// A unit terminates as `Duplicate` only straight from the dedup check:
/// a duplicate is never classified, persisted or relocated.
pub proof fn lemma_duplicate_ends_at_dedup(state: UnitState, event: UnitEvent)
    requires
        state.spec_accepts(event),
    ensures
        state.spec_step(event) is Duplicate
            ==> state is Hashed && event is FingerprintKnown,
{
}

/// Once terminal, always terminal: no event is accepted in a terminal
/// state, so a finished unit can never be revived.
pub proof fn lemma_terminal_is_final(state: UnitState, event: UnitEvent)
    ensures
        state.spec_is_terminal() ==> !state.spec_accepts(event),
{
}

/// Reaching the successful terminal state means the unit went through the
/// whole chain: the last stage before `Thumbnailed` is `Relocated`.
pub proof fn lemma_success_needs_relocation(state: UnitState, event: UnitEvent)
    requires
        state.spec_accepts(event),
    ensures
        state.spec_step(event) is Thumbnailed
            ==> state is Relocated && event is ThumbnailSucceeded,
{
}

} // verus!
