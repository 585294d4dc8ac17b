use vstd::prelude::*;
use crate::errors::TrackerError;
use crate::items::ItemStatus;

verus! {

/// One audit record: the transition it documents, who acted, when, and the
/// opaque location and notes digests supplied with the call. Immutable once
/// written.
#[derive(Clone, Copy, Debug, PartialEq, Eq)]
pub struct TransitionEvent {
    /// Timestamp supplied with the call that produced this event.
    pub timestamp: u64,
    /// The status the item transitioned to.
    pub status: ItemStatus,
    /// The identity that made the change.
    pub actor: u64,
    /// Opaque digest of location data, all zero when none was supplied.
    pub location_hash: [u8; 32],
    /// Opaque digest of notes, all zero when none was supplied.
    pub notes_hash: [u8; 32],
}

/// Per-item, append-only ordered sequences of transition events, addressed
/// by (item identifier, dense per-item index starting at 0). No update or
/// delete operation exists for stored events: that absence is the
/// audit-integrity guarantee.
pub struct ProvenanceLog {
    histories: Vec<Vec<TransitionEvent>>,
}

impl ProvenanceLog {
    /// Every item's history, indexed by item identifier.
    pub closed spec fn all_histories(self) -> Seq<Seq<TransitionEvent>> {
        Seq::new(self.histories@.len(), |i: int| self.histories@[i]@)
    }

    /// How many items have a history slot.
    pub open spec fn num_items(self) -> nat {
        self.all_histories().len()
    }

    /// The ordered event sequence recorded for this item.
    pub open spec fn events(self, item_id: u64) -> Seq<TransitionEvent> {
        self.all_histories()[item_id as int]
    }

    /// The number of events recorded for this item; 0 for an item with no
    /// history slot.
    pub open spec fn count_of(self, item_id: u64) -> nat {
        if (item_id as nat) < self.num_items() {
            self.events(item_id).len()
        } else {
            0
        }
    }

    /// An empty log: no item, no event.
    pub fn new() -> (log: ProvenanceLog)
        ensures
            log.all_histories() == Seq::<Seq<TransitionEvent>>::empty(),
    {
        let log = ProvenanceLog { histories: Vec::new() };
        proof {
            assert(log.all_histories() =~= Seq::<Seq<TransitionEvent>>::empty());
        }
        log
    }

    /// Open the history slot for the next item identifier, with no events
    /// yet. Called exactly once per created item, at creation.
    pub(crate) fn add_item(&mut self)
        ensures
            final(self).all_histories() == old(self).all_histories().push(
                Seq::<TransitionEvent>::empty(),
            ),
    {
        self.histories.push(Vec::new());
        proof {
            assert(self.all_histories() =~= old(self).all_histories().push(
                Seq::<TransitionEvent>::empty(),
            ));
        }
    }

    /// Append one event to an item's history, assigning it the next dense
    /// index (the current count). Always succeeds for an item with a history
    /// slot; no other item's history changes.
    pub(crate) fn append(&mut self, item_id: u64, event: TransitionEvent) -> (index: u64)
        requires
            (item_id as nat) < old(self).num_items(),
        ensures
            index as nat == old(self).count_of(item_id),
            final(self).all_histories() == old(self).all_histories().update(
                item_id as int,
                old(self).events(item_id).push(event),
            ),
    {
        let n = self.histories.len();
        assert(item_id < n as u64);
        let i = item_id as usize;
        let index = self.histories[i].len() as u64;
        let slot = &mut self.histories[i];
        slot.push(event);
        proof {
            assert(self.all_histories() =~= old(self).all_histories().update(
                item_id as int,
                old(self).events(item_id).push(event),
            ));
        }
        index
    }

    /// Look one event up by (item identifier, index); fails `NotFound` when
    /// the index is not below the item's event count.
    pub fn get(&self, item_id: u64, index: u64) -> (found: Result<TransitionEvent, TrackerError>)
        ensures
            found is Ok <==> (index as nat) < self.count_of(item_id),
            found is Ok ==> found->Ok_0 == self.events(item_id)[index as int],
            found is Err ==> found == Err::<TransitionEvent, TrackerError>(TrackerError::NotFound),
    {
        if item_id < self.histories.len() as u64 {
            let slot = &self.histories[item_id as usize];
            if index < slot.len() as u64 {
                return Ok(slot[index as usize]);
            }
        }
        Err(TrackerError::NotFound)
    }

    /// The current number of events recorded for an item; 0 for an item that
    /// has never been created. Pure query, never fails.
    pub fn count(&self, item_id: u64) -> (n: u64)
        ensures
            n as nat == self.count_of(item_id),
    {
        if item_id < self.histories.len() as u64 {
            self.histories[item_id as usize].len() as u64
        } else {
            0
        }
    }
}

} // verus!
