//! Named-data slots: the typed containers that hold, per name category,
//! either nothing or a payload loaded under one descriptor.
//!
//! A slot is populated at most once per formatter lifetime.  A repeated
//! load with the same descriptor is a no-op success; a load with a
//! different descriptor is a conflict.  The transition is captured by the
//! spec functions below, which every loading method's contract uses.

use vstd::prelude::*;
use crate::errors::DataError;

verus! {

/// A container for one name category: empty until a load succeeds, then
/// the payload together with the descriptor it was requested under.
#[derive(Debug, Clone)]
pub enum NameSlot<L, P> {
    /// Never successfully loaded.
    Empty,
    /// Loaded once, under the carried descriptor.
    Loaded(L, P),
}

/// The model of a [`NameSlot`]: the descriptor as it is, the payload by
/// its model.
pub enum SlotModel<L, PV> {
    Empty,
    Loaded(L, PV),
}

impl<L: Copy, P: View> View for NameSlot<L, P> {
    type V = SlotModel<L, P::V>;

    open spec fn view(&self) -> SlotModel<L, P::V> {
        match self {
            NameSlot::Empty => SlotModel::Empty,
            NameSlot::Loaded(l, p) => SlotModel::Loaded(*l, p@),
        }
    }
}

/// What a slot yields for a descriptor: the payload only if the slot is
/// loaded and was loaded under that same descriptor.  A request against a
/// slot loaded under a different descriptor yields nothing rather than
/// wrong-width data.
pub open spec fn slot_get<L, PV>(slot: SlotModel<L, PV>, descriptor: L) -> Option<PV> {
    match slot {
        SlotModel::Loaded(l, p) => if l == descriptor {
            Some(p)
        } else {
            None
        },
        SlotModel::Empty => None,
    }
}

/// The outcome of one load request, before it is wrapped in an error type
/// that carries the approximate field.
pub enum LoadOutcome {
    /// The slot holds the payload for the descriptor.
    Loaded,
    /// The slot was already loaded under a different descriptor.
    Conflict,
    /// The backend fetch failed with the carried error.
    Failed(DataError),
}

/// The slot after a load request with the given descriptor, where
/// `fetched` is what the backend would deliver.  A slot that is already
/// loaded is never touched, whatever the backend would say.
pub open spec fn slot_after_load<L, PV>(
    slot: SlotModel<L, PV>,
    descriptor: L,
    fetched: Result<PV, DataError>,
) -> SlotModel<L, PV> {
    match slot {
        SlotModel::Loaded(l, p) => SlotModel::Loaded(l, p),
        SlotModel::Empty => match fetched {
            Ok(p) => SlotModel::Loaded(descriptor, p),
            Err(_) => SlotModel::Empty,
        },
    }
}

/// The outcome of a load request with the given descriptor.
pub open spec fn slot_load_outcome<L, PV>(
    slot: SlotModel<L, PV>,
    descriptor: L,
    fetched: Result<PV, DataError>,
) -> LoadOutcome {
    match slot {
        SlotModel::Loaded(l, _) => if l == descriptor {
            LoadOutcome::Loaded
        } else {
            LoadOutcome::Conflict
        },
        SlotModel::Empty => match fetched {
            Ok(_) => LoadOutcome::Loaded,
            Err(e) => LoadOutcome::Failed(e),
        },
    }
}

/// Re-loading is idempotent, and a changed descriptor is a conflict: after
/// a load of `descriptor` succeeds, loading the same descriptor again
/// succeeds and leaves the slot untouched, whatever the backend would now
/// deliver, while loading any other descriptor is refused as a conflict
/// and also leaves the slot untouched.
pub proof fn lemma_reload_idempotent<L, PV>(
    slot: SlotModel<L, PV>,
    descriptor: L,
    fetched1: Result<PV, DataError>,
    fetched2: Result<PV, DataError>,
    other: L,
)
    requires
        slot_load_outcome(slot, descriptor, fetched1) is Loaded,
    ensures
        slot_load_outcome(
            slot_after_load(slot, descriptor, fetched1),
            descriptor,
            fetched2,
        ) is Loaded,
        slot_after_load(slot_after_load(slot, descriptor, fetched1), descriptor, fetched2)
            == slot_after_load(slot, descriptor, fetched1),
        other != descriptor ==> slot_load_outcome(
            slot_after_load(slot, descriptor, fetched1),
            other,
            fetched2,
        ) is Conflict,
        slot_get(slot_after_load(slot, descriptor, fetched1), descriptor) is Some,
{
}

} // verus!
