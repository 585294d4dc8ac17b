use vstd::prelude::*;
use crate::errors::TrackerError;

verus! {

/// The custody status of a tracked item. `Delivered` and `Rejected` are
/// terminal: no transition leads out of them.
#[derive(Clone, Copy, Debug, PartialEq, Eq, Structural)]
pub enum ItemStatus {
    Created,
    Shipped,
    InTransit,
    Delivered,
    Rejected,
}

impl ItemStatus {
    /// A terminal status admits no further transition.
    pub open spec fn is_terminal(self) -> bool {
        self == ItemStatus::Delivered || self == ItemStatus::Rejected
    }
}

/// One physical good under tracking. The identifier is the item's position
/// in the store; it is assigned once and never reused. `supplier`, `name`,
/// `metadata_hash` and `created_at` are immutable after creation; `owner`,
/// `status` and `updated_at` change only through accepted transitions.
#[derive(Clone, Copy, Debug, PartialEq, Eq)]
pub struct Item {
    /// Display name or SKU, a fixed-size opaque label.
    pub name: [u8; 32],
    /// Identity currently holding custody.
    pub owner: u64,
    /// Identity of the originating supplier.
    pub supplier: u64,
    /// Current custody status.
    pub status: ItemStatus,
    /// Opaque digest of the item's detailed metadata.
    pub metadata_hash: [u8; 32],
    /// Timestamp supplied with the creating call.
    pub created_at: u64,
    /// Timestamp supplied with the most recently accepted transition.
    pub updated_at: u64,
}

impl Item {
    /// The record a transition leaves behind: status overwritten, owner
    /// overwritten only when a new owner is supplied, `updated_at` stamped,
    /// every other field kept.
    pub open spec fn transitioned(self, new_status: ItemStatus, new_owner: Option<u64>, now: u64) -> Item {
        Item {
            status: new_status,
            owner: match new_owner {
                Some(identity) => identity,
                None => self.owner,
            },
            updated_at: now,
            ..self
        }
    }
}

/// Keyed collection of item records plus the monotonic identifier allocator:
/// identifiers are dense, so the store is the sequence of all items ever
/// created, in creation order, and the next identifier is the current length.
pub struct ItemStore {
    items: Vec<Item>,
}

impl ItemStore {
    /// All items ever created, in creation order.
    pub closed spec fn all_items(self) -> Seq<Item> {
        self.items@
    }

    /// How many items have been created.
    pub open spec fn num_items(self) -> nat {
        self.all_items().len()
    }

    /// Whether an item with this identifier has ever been created.
    pub open spec fn has(self, id: u64) -> bool {
        (id as nat) < self.num_items()
    }

    /// The item record with this identifier.
    pub open spec fn item(self, id: u64) -> Item {
        self.all_items()[id as int]
    }

    /// An empty store; the first identifier it allocates is 0.
    pub fn new() -> (store: ItemStore)
        ensures
            store.all_items() == Seq::<Item>::empty(),
    {
        ItemStore { items: Vec::new() }
    }

    /// Allocate the next sequential identifier and store `item` under it.
    pub fn create(&mut self, item: Item) -> (id: u64)
        requires
            old(self).num_items() < u64::MAX,
        ensures
            id as nat == old(self).num_items(),
            final(self).all_items() == old(self).all_items().push(item),
    {
        let id = self.items.len() as u64;
        self.items.push(item);
        id
    }

    /// Look an item up by identifier; fails `NotFound` if no item with that
    /// identifier has ever been created.
    pub fn get(&self, id: u64) -> (found: Result<Item, TrackerError>)
        ensures
            found is Ok <==> self.has(id),
            found is Ok ==> found->Ok_0 == self.item(id),
            found is Err ==> found == Err::<Item, TrackerError>(TrackerError::NotFound),
    {
        if id < self.items.len() as u64 {
            Ok(self.items[id as usize])
        } else {
            Err(TrackerError::NotFound)
        }
    }

    /// Internal transition primitive: overwrite status, optionally owner,
    /// and the update timestamp of an existing item. Only the custody state
    /// machine calls this, and only after every check has passed.
    pub(crate) fn apply(&mut self, id: u64, new_status: ItemStatus, new_owner: Option<u64>, now: u64)
        requires
            old(self).has(id),
        ensures
            final(self).all_items() == old(self).all_items().update(
                id as int,
                old(self).item(id).transitioned(new_status, new_owner, now),
            ),
    {
        let n = self.items.len();
        assert(id < n as u64);
        let i = id as usize;
        let mut updated = self.items[i];
        updated.status = new_status;
        if let Some(identity) = new_owner {
            updated.owner = identity;
        }
        updated.updated_at = now;
        self.items[i] = updated;
    }
}

} // verus!
