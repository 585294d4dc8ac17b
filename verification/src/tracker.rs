use vstd::prelude::*;
use crate::errors::TrackerError;
use crate::items::{Item, ItemStatus, ItemStore};
use crate::provenance::{ProvenanceLog, TransitionEvent};
use crate::roles::{Role, RoleRegistry};

verus! {

/// The all-zero digest, recorded where a call supplies no location or notes
/// data (only item creation does so).
pub open spec fn zero_digest() -> [u8; 32] {
    vstd::array::spec_array_fill_for_copy_type::<u8, 32>(0u8)
}

/// The role-gated custody-transfer state machine with its append-only
/// provenance log. It owns the role registry, the item store and the log;
/// every mutating call either commits fully (one item updated, one event
/// appended) or rejects with no observable change.
///
/// Caller identities and timestamps are supplied with each call by the
/// hosting environment; the tracker computes nothing about them beyond the
/// checks stated in each operation's contract.
pub struct SupplyChainTracker {
    initialized: bool,
    admin: u64,
    registry: RoleRegistry,
    store: ItemStore,
    log: ProvenanceLog,
}

impl SupplyChainTracker {
    /// Whether the administrative identity has been bound.
    pub closed spec fn is_initialized(self) -> bool {
        self.initialized
    }

    /// The administrative identity; meaningful only once initialized.
    pub closed spec fn admin_identity(self) -> u64 {
        self.admin
    }

    /// The set of identities currently holding `role`.
    pub closed spec fn role_members(self, role: Role) -> Set<u64> {
        self.registry.members(role)
    }

    /// Whether `identity` currently holds `role`.
    pub open spec fn holds_role(self, identity: u64, role: Role) -> bool {
        self.role_members(role).contains(identity)
    }

    /// All items ever created, in creation order; an item's identifier is
    /// its position here.
    pub closed spec fn items_view(self) -> Seq<Item> {
        self.store.all_items()
    }

    /// Every item's provenance history, indexed by item identifier.
    pub closed spec fn histories_view(self) -> Seq<Seq<TransitionEvent>> {
        self.log.all_histories()
    }

    /// How many items have been created.
    pub open spec fn num_items(self) -> nat {
        self.items_view().len()
    }

    /// Whether an item with this identifier has ever been created.
    pub open spec fn has_item(self, id: u64) -> bool {
        (id as nat) < self.num_items()
    }

    /// The item record with this identifier.
    pub open spec fn item(self, id: u64) -> Item {
        self.items_view()[id as int]
    }

    /// The ordered event sequence recorded for this item.
    pub open spec fn history(self, id: u64) -> Seq<TransitionEvent> {
        self.histories_view()[id as int]
    }

    /// The number of events recorded for this item; 0 if it was never
    /// created.
    pub open spec fn history_count(self, id: u64) -> nat {
        if self.has_item(id) {
            self.history(id).len()
        } else {
            0
        }
    }

    /// Well-formedness: every created item has a history slot, every history
    /// holds at least the creation event, and an item's current status
    /// always equals the status of its most recently appended event.
    pub open spec fn wf(self) -> bool {
        &&& self.histories_view().len() == self.num_items()
        &&& forall|id: u64| #[trigger] self.has_item(id) ==> {
            &&& self.history(id).len() >= 1
            &&& self.item(id).status == self.history(id).last().status
        }
    }

    /// The administrative state of `post` is that of `pre`.
    pub open spec fn same_admin(pre: Self, post: Self) -> bool {
        &&& post.is_initialized() == pre.is_initialized()
        &&& post.admin_identity() == pre.admin_identity()
    }

    /// Every role's membership set in `post` is that of `pre`.
    pub open spec fn same_roles(pre: Self, post: Self) -> bool {
        forall|role: Role| #[trigger] post.role_members(role) == pre.role_members(role)
    }

    /// The items and the provenance log of `post` are those of `pre`.
    pub open spec fn same_custody(pre: Self, post: Self) -> bool {
        &&& post.items_view() == pre.items_view()
        &&& post.histories_view() == pre.histories_view()
    }

    /// The item record created by `createItem`.
    pub open spec fn new_item(caller: u64, name: [u8; 32], metadata_hash: [u8; 32], now: u64) -> Item {
        Item {
            name,
            owner: caller,
            supplier: caller,
            status: ItemStatus::Created,
            metadata_hash,
            created_at: now,
            updated_at: now,
        }
    }

    /// The audit event appended when an item is created.
    pub open spec fn creation_event(caller: u64, now: u64) -> TransitionEvent {
        TransitionEvent {
            timestamp: now,
            status: ItemStatus::Created,
            actor: caller,
            location_hash: zero_digest(),
            notes_hash: zero_digest(),
        }
    }

    /// Well-formedness depends only on the items and the provenance log, so
    /// a step that leaves custody untouched preserves it.
    proof fn lemma_wf_same_custody(pre: Self, post: Self)
        requires
            pre.wf(),
            Self::same_custody(pre, post),
        ensures
            post.wf(),
    {
        assert forall|id: u64| post.has_item(id) implies {
            &&& post.history(id).len() >= 1
            &&& post.item(id).status == post.history(id).last().status
        } by {
            assert(pre.has_item(id));
        }
    }

    /// A tracker with no administrator bound, no role held and no item
    /// created.
    pub fn new() -> (tracker: SupplyChainTracker)
        ensures
            tracker.wf(),
            !tracker.is_initialized(),
            tracker.num_items() == 0,
            forall|role: Role| #[trigger] tracker.role_members(role) == Set::<u64>::empty(),
    {
        SupplyChainTracker {
            initialized: false,
            admin: 0,
            registry: RoleRegistry::new(),
            store: ItemStore::new(),
            log: ProvenanceLog::new(),
        }
    }

    /// Bind the administrative identity, exactly once. A second call fails
    /// `AlreadyInitialized` and changes nothing.
    pub fn initialize(&mut self, caller: u64) -> (result: Result<(), TrackerError>)
        requires
            old(self).wf(),
        ensures
            final(self).wf(),
            result is Ok <==> !old(self).is_initialized(),
            result is Err ==> result == Err::<(), TrackerError>(TrackerError::AlreadyInitialized)
                && *final(self) == *old(self),
            result is Ok ==> {
                &&& final(self).is_initialized()
                &&& final(self).admin_identity() == caller
                &&& Self::same_roles(*old(self), *final(self))
                &&& Self::same_custody(*old(self), *final(self))
            },
    {
        if self.initialized {
            return Err(TrackerError::AlreadyInitialized);
        }
        self.admin = caller;
        self.initialized = true;
        proof {
            Self::lemma_wf_same_custody(*old(self), *self);
        }
        Ok(())
    }

    /// Grant `identity` the role named by `role_tag`. Only the administrator
    /// may do so; granting an already held role is a no-op success.
    pub fn assign_role(&mut self, caller: u64, identity: u64, role_tag: u8) -> (result: Result<
        (),
        TrackerError,
    >)
        requires
            old(self).wf(),
        ensures
            final(self).wf(),
            result is Ok <==> (old(self).is_initialized() && caller == old(self).admin_identity()
                && Role::spec_from_tag(role_tag) is Some),
            result == Err::<(), TrackerError>(TrackerError::Unauthorized) <==> !(old(
                self,
            ).is_initialized() && caller == old(self).admin_identity()),
            result == Err::<(), TrackerError>(TrackerError::InvalidRole) <==> (old(
                self,
            ).is_initialized() && caller == old(self).admin_identity() && Role::spec_from_tag(
                role_tag,
            ) is None),
            result is Err ==> *final(self) == *old(self),
            result is Ok ==> (Role::spec_from_tag(role_tag) matches Some(role) && {
                &&& final(self).role_members(role) == old(self).role_members(role).insert(identity)
                &&& forall|other: Role|
                    other != role ==> #[trigger] final(self).role_members(other) == old(
                        self,
                    ).role_members(other)
                &&& Self::same_admin(*old(self), *final(self))
                &&& Self::same_custody(*old(self), *final(self))
            }),
    {
        if !self.initialized || caller != self.admin {
            return Err(TrackerError::Unauthorized);
        }
        match Role::from_tag(role_tag) {
            None => Err(TrackerError::InvalidRole),
            Some(role) => {
                self.registry.grant(identity, role);
                proof {
                    Self::lemma_wf_same_custody(*old(self), *self);
                }
                Ok(())
            },
        }
    }

    /// Take the role named by `role_tag` away from `identity`. Only the
    /// administrator may do so; revoking a role that is not held is a no-op
    /// success, repeatably.
    pub fn revoke_role(&mut self, caller: u64, identity: u64, role_tag: u8) -> (result: Result<
        (),
        TrackerError,
    >)
        requires
            old(self).wf(),
        ensures
            final(self).wf(),
            result is Ok <==> (old(self).is_initialized() && caller == old(self).admin_identity()
                && Role::spec_from_tag(role_tag) is Some),
            result == Err::<(), TrackerError>(TrackerError::Unauthorized) <==> !(old(
                self,
            ).is_initialized() && caller == old(self).admin_identity()),
            result == Err::<(), TrackerError>(TrackerError::InvalidRole) <==> (old(
                self,
            ).is_initialized() && caller == old(self).admin_identity() && Role::spec_from_tag(
                role_tag,
            ) is None),
            result is Err ==> *final(self) == *old(self),
            result is Ok ==> (Role::spec_from_tag(role_tag) matches Some(role) && {
                &&& final(self).role_members(role) == old(self).role_members(role).remove(identity)
                &&& !old(self).holds_role(identity, role) ==> final(self).role_members(role) == old(
                    self,
                ).role_members(role)
                &&& forall|other: Role|
                    other != role ==> #[trigger] final(self).role_members(other) == old(
                        self,
                    ).role_members(other)
                &&& Self::same_admin(*old(self), *final(self))
                &&& Self::same_custody(*old(self), *final(self))
            }),
    {
        if !self.initialized || caller != self.admin {
            return Err(TrackerError::Unauthorized);
        }
        match Role::from_tag(role_tag) {
            None => Err(TrackerError::InvalidRole),
            Some(role) => {
                self.registry.revoke(identity, role);
                proof {
                    Self::lemma_wf_same_custody(*old(self), *self);
                }
                Ok(())
            },
        }
    }

    /// Whether `identity` holds the role named by `role_tag`. A tag outside
    /// the enumerated set names no role, so the answer is false. Pure query,
    /// never fails.
    pub fn has_role(&self, identity: u64, role_tag: u8) -> (held: bool)
        ensures
            held == (Role::spec_from_tag(role_tag) matches Some(role) && self.holds_role(
                identity,
                role,
            )),
    {
        match Role::from_tag(role_tag) {
            Some(role) => self.registry.contains(identity, role),
            None => false,
        }
    }

    /// Create a new item. The caller must hold the Supplier role; the new
    /// item gets the next sequential identifier, the caller as owner and
    /// supplier, status `Created`, and a one-event history recording the
    /// creation.
    pub fn create_item(&mut self, caller: u64, name: [u8; 32], metadata_hash: [u8; 32], now: u64) -> (result:
        Result<u64, TrackerError>)
        requires
            old(self).wf(),
            old(self).num_items() < u64::MAX,
        ensures
            final(self).wf(),
            result is Ok <==> old(self).holds_role(caller, Role::Supplier),
            result is Err ==> result == Err::<u64, TrackerError>(TrackerError::Unauthorized)
                && *final(self) == *old(self),
            result is Ok ==> {
                &&& result->Ok_0 as nat == old(self).num_items()
                &&& final(self).items_view() == old(self).items_view().push(
                    Self::new_item(caller, name, metadata_hash, now),
                )
                &&& final(self).histories_view() == old(self).histories_view().push(
                    seq![Self::creation_event(caller, now)],
                )
                &&& Self::same_admin(*old(self), *final(self))
                &&& Self::same_roles(*old(self), *final(self))
            },
    {
        if !self.registry.contains(caller, Role::Supplier) {
            return Err(TrackerError::Unauthorized);
        }
        let item = Item {
            name,
            owner: caller,
            supplier: caller,
            status: ItemStatus::Created,
            metadata_hash,
            created_at: now,
            updated_at: now,
        };
        let id = self.store.create(item);
        self.log.add_item();
        let event = TransitionEvent {
            timestamp: now,
            status: ItemStatus::Created,
            actor: caller,
            location_hash: [0u8; 32],
            notes_hash: [0u8; 32],
        };
        self.log.append(id, event);
        proof {
            assert(self.log.all_histories() =~= old(self).histories_view().push(
                seq![Self::creation_event(caller, now)],
            ));
            assert forall|jd: u64| self.has_item(jd) implies {
                &&& self.history(jd).len() >= 1
                &&& self.item(jd).status == self.history(jd).last().status
            } by {
                if (jd as nat) < old(self).num_items() {
                    assert(old(self).has_item(jd));
                }
            }
        }
        Ok(id)
    }

    /// The single mutation point shared by every custody transition: update
    /// the item record and append exactly one audit event carrying the same
    /// resulting status. Called only after every check has passed.
    fn commit(
        &mut self,
        item_id: u64,
        new_status: ItemStatus,
        new_owner: Option<u64>,
        actor: u64,
        location_hash: [u8; 32],
        notes_hash: [u8; 32],
        now: u64,
    )
        requires
            old(self).wf(),
            old(self).has_item(item_id),
        ensures
            final(self).wf(),
            final(self).items_view() == old(self).items_view().update(
                item_id as int,
                old(self).item(item_id).transitioned(new_status, new_owner, now),
            ),
            final(self).histories_view() == old(self).histories_view().update(
                item_id as int,
                old(self).history(item_id).push(
                    TransitionEvent { timestamp: now, status: new_status, actor, location_hash, notes_hash },
                ),
            ),
            Self::same_admin(*old(self), *final(self)),
            Self::same_roles(*old(self), *final(self)),
    {
        self.store.apply(item_id, new_status, new_owner, now);
        let event = TransitionEvent {
            timestamp: now,
            status: new_status,
            actor,
            location_hash,
            notes_hash,
        };
        self.log.append(item_id, event);
        proof {
            assert forall|jd: u64| self.has_item(jd) implies {
                &&& self.history(jd).len() >= 1
                &&& self.item(jd).status == self.history(jd).last().status
            } by {
                assert(old(self).has_item(jd));
            }
        }
    }

    /// Ship an item from its supplier to a carrier: the caller must own the
    /// item, the target must hold the Carrier role, and the item must still
    /// be in `Created` status. On success the carrier takes ownership and the
    /// status becomes `Shipped`; exactly one event is appended.
    pub fn ship_item(
        &mut self,
        caller: u64,
        item_id: u64,
        carrier: u64,
        location_hash: [u8; 32],
        notes_hash: [u8; 32],
        now: u64,
    ) -> (result: Result<(), TrackerError>)
        requires
            old(self).wf(),
        ensures
            final(self).wf(),
            result is Ok <==> (old(self).has_item(item_id) && caller == old(self).item(
                item_id,
            ).owner && old(self).holds_role(carrier, Role::Carrier) && old(self).item(
                item_id,
            ).status == ItemStatus::Created),
            result == Err::<(), TrackerError>(TrackerError::NotFound) <==> !old(self).has_item(
                item_id,
            ),
            result == Err::<(), TrackerError>(TrackerError::Unauthorized) <==> (old(self).has_item(
                item_id,
            ) && (caller != old(self).item(item_id).owner || !old(self).holds_role(
                carrier,
                Role::Carrier,
            ))),
            result == Err::<(), TrackerError>(TrackerError::InvalidTransition) <==> (old(
                self,
            ).has_item(item_id) && caller == old(self).item(item_id).owner && old(self).holds_role(
                carrier,
                Role::Carrier,
            ) && old(self).item(item_id).status != ItemStatus::Created),
            result is Err ==> *final(self) == *old(self),
            result is Ok ==> {
                &&& final(self).items_view() == old(self).items_view().update(
                    item_id as int,
                    old(self).item(item_id).transitioned(ItemStatus::Shipped, Some(carrier), now),
                )
                &&& final(self).histories_view() == old(self).histories_view().update(
                    item_id as int,
                    old(self).history(item_id).push(
                        TransitionEvent {
                            timestamp: now,
                            status: ItemStatus::Shipped,
                            actor: caller,
                            location_hash,
                            notes_hash,
                        },
                    ),
                )
                &&& final(self).item(item_id).owner == carrier
                &&& final(self).item(item_id).status == ItemStatus::Shipped
                &&& final(self).history_count(item_id) == old(self).history_count(item_id) + 1
                &&& Self::same_admin(*old(self), *final(self))
                &&& Self::same_roles(*old(self), *final(self))
            },
    {
        let item = match self.store.get(item_id) {
            Ok(item) => item,
            Err(missing) => {
                return Err(missing);
            },
        };
        if caller != item.owner {
            return Err(TrackerError::Unauthorized);
        }
        if !self.registry.contains(carrier, Role::Carrier) {
            return Err(TrackerError::Unauthorized);
        }
        if item.status != ItemStatus::Created {
            return Err(TrackerError::InvalidTransition);
        }
        self.commit(item_id, ItemStatus::Shipped, Some(carrier), caller, location_hash, notes_hash, now);
        Ok(())
    }

    /// Mark a shipped item as in transit. The caller must own the item and
    /// hold the Carrier role, and the item must be in `Shipped` status. The
    /// owner does not change.
    pub fn update_in_transit(
        &mut self,
        caller: u64,
        item_id: u64,
        location_hash: [u8; 32],
        notes_hash: [u8; 32],
        now: u64,
    ) -> (result: Result<(), TrackerError>)
        requires
            old(self).wf(),
        ensures
            final(self).wf(),
            result is Ok <==> (old(self).has_item(item_id) && caller == old(self).item(
                item_id,
            ).owner && old(self).holds_role(caller, Role::Carrier) && old(self).item(
                item_id,
            ).status == ItemStatus::Shipped),
            result == Err::<(), TrackerError>(TrackerError::NotFound) <==> !old(self).has_item(
                item_id,
            ),
            result == Err::<(), TrackerError>(TrackerError::Unauthorized) <==> (old(self).has_item(
                item_id,
            ) && (caller != old(self).item(item_id).owner || !old(self).holds_role(
                caller,
                Role::Carrier,
            ))),
            result == Err::<(), TrackerError>(TrackerError::InvalidTransition) <==> (old(
                self,
            ).has_item(item_id) && caller == old(self).item(item_id).owner && old(self).holds_role(
                caller,
                Role::Carrier,
            ) && old(self).item(item_id).status != ItemStatus::Shipped),
            result is Err ==> *final(self) == *old(self),
            result is Ok ==> {
                &&& final(self).items_view() == old(self).items_view().update(
                    item_id as int,
                    old(self).item(item_id).transitioned(ItemStatus::InTransit, None, now),
                )
                &&& final(self).histories_view() == old(self).histories_view().update(
                    item_id as int,
                    old(self).history(item_id).push(
                        TransitionEvent {
                            timestamp: now,
                            status: ItemStatus::InTransit,
                            actor: caller,
                            location_hash,
                            notes_hash,
                        },
                    ),
                )
                &&& final(self).item(item_id).owner == old(self).item(item_id).owner
                &&& final(self).item(item_id).status == ItemStatus::InTransit
                &&& final(self).history_count(item_id) == old(self).history_count(item_id) + 1
                &&& Self::same_admin(*old(self), *final(self))
                &&& Self::same_roles(*old(self), *final(self))
            },
    {
        let item = match self.store.get(item_id) {
            Ok(item) => item,
            Err(missing) => {
                return Err(missing);
            },
        };
        if caller != item.owner {
            return Err(TrackerError::Unauthorized);
        }
        if !self.registry.contains(caller, Role::Carrier) {
            return Err(TrackerError::Unauthorized);
        }
        if item.status != ItemStatus::Shipped {
            return Err(TrackerError::InvalidTransition);
        }
        self.commit(item_id, ItemStatus::InTransit, None, caller, location_hash, notes_hash, now);
        Ok(())
    }

    /// Deliver an item to a distributor or retailer. The caller must own the
    /// item and hold the Carrier role, the recipient must hold Distributor
    /// or Retailer, and the item must be in `Shipped` or `InTransit` status.
    /// On success the recipient takes ownership and the status becomes
    /// `Delivered`, a terminal state.
    pub fn deliver_item(
        &mut self,
        caller: u64,
        item_id: u64,
        recipient: u64,
        location_hash: [u8; 32],
        notes_hash: [u8; 32],
        now: u64,
    ) -> (result: Result<(), TrackerError>)
        requires
            old(self).wf(),
        ensures
            final(self).wf(),
            result is Ok <==> (old(self).has_item(item_id) && caller == old(self).item(
                item_id,
            ).owner && old(self).holds_role(caller, Role::Carrier) && (old(self).holds_role(
                recipient,
                Role::Distributor,
            ) || old(self).holds_role(recipient, Role::Retailer)) && (old(self).item(
                item_id,
            ).status == ItemStatus::Shipped || old(self).item(item_id).status
                == ItemStatus::InTransit)),
            result == Err::<(), TrackerError>(TrackerError::NotFound) <==> !old(self).has_item(
                item_id,
            ),
            result == Err::<(), TrackerError>(TrackerError::Unauthorized) <==> (old(self).has_item(
                item_id,
            ) && (caller != old(self).item(item_id).owner || !old(self).holds_role(
                caller,
                Role::Carrier,
            ) || !(old(self).holds_role(recipient, Role::Distributor) || old(self).holds_role(
                recipient,
                Role::Retailer,
            )))),
            result == Err::<(), TrackerError>(TrackerError::InvalidTransition) <==> (old(
                self,
            ).has_item(item_id) && caller == old(self).item(item_id).owner && old(self).holds_role(
                caller,
                Role::Carrier,
            ) && (old(self).holds_role(recipient, Role::Distributor) || old(self).holds_role(
                recipient,
                Role::Retailer,
            )) && !(old(self).item(item_id).status == ItemStatus::Shipped || old(self).item(
                item_id,
            ).status == ItemStatus::InTransit)),
            result is Err ==> *final(self) == *old(self),
            result is Ok ==> {
                &&& final(self).items_view() == old(self).items_view().update(
                    item_id as int,
                    old(self).item(item_id).transitioned(
                        ItemStatus::Delivered,
                        Some(recipient),
                        now,
                    ),
                )
                &&& final(self).histories_view() == old(self).histories_view().update(
                    item_id as int,
                    old(self).history(item_id).push(
                        TransitionEvent {
                            timestamp: now,
                            status: ItemStatus::Delivered,
                            actor: caller,
                            location_hash,
                            notes_hash,
                        },
                    ),
                )
                &&& final(self).item(item_id).owner == recipient
                &&& final(self).item(item_id).status == ItemStatus::Delivered
                &&& final(self).history_count(item_id) == old(self).history_count(item_id) + 1
                &&& Self::same_admin(*old(self), *final(self))
                &&& Self::same_roles(*old(self), *final(self))
            },
    {
        let item = match self.store.get(item_id) {
            Ok(item) => item,
            Err(missing) => {
                return Err(missing);
            },
        };
        if caller != item.owner {
            return Err(TrackerError::Unauthorized);
        }
        if !self.registry.contains(caller, Role::Carrier) {
            return Err(TrackerError::Unauthorized);
        }
        if !self.registry.contains(recipient, Role::Distributor) && !self.registry.contains(
            recipient,
            Role::Retailer,
        ) {
            return Err(TrackerError::Unauthorized);
        }
        if item.status != ItemStatus::Shipped && item.status != ItemStatus::InTransit {
            return Err(TrackerError::InvalidTransition);
        }
        self.commit(
            item_id,
            ItemStatus::Delivered,
            Some(recipient),
            caller,
            location_hash,
            notes_hash,
            now,
        );
        Ok(())
    }

    /// Reject an item: the universal escape hatch available to the current
    /// owner from any non-terminal status. The owner does not change; the
    /// status becomes `Rejected`, a terminal state. Terminal states admit no
    /// further transition, so rejecting a delivered or already rejected item
    /// fails `InvalidTransition`.
    pub fn reject_item(
        &mut self,
        caller: u64,
        item_id: u64,
        location_hash: [u8; 32],
        notes_hash: [u8; 32],
        now: u64,
    ) -> (result: Result<(), TrackerError>)
        requires
            old(self).wf(),
        ensures
            final(self).wf(),
            result is Ok <==> (old(self).has_item(item_id) && caller == old(self).item(
                item_id,
            ).owner && !old(self).item(item_id).status.is_terminal()),
            result == Err::<(), TrackerError>(TrackerError::NotFound) <==> !old(self).has_item(
                item_id,
            ),
            result == Err::<(), TrackerError>(TrackerError::Unauthorized) <==> (old(self).has_item(
                item_id,
            ) && caller != old(self).item(item_id).owner),
            result == Err::<(), TrackerError>(TrackerError::InvalidTransition) <==> (old(
                self,
            ).has_item(item_id) && caller == old(self).item(item_id).owner && old(self).item(
                item_id,
            ).status.is_terminal()),
            result is Err ==> *final(self) == *old(self),
            result is Ok ==> {
                &&& final(self).items_view() == old(self).items_view().update(
                    item_id as int,
                    old(self).item(item_id).transitioned(ItemStatus::Rejected, None, now),
                )
                &&& final(self).histories_view() == old(self).histories_view().update(
                    item_id as int,
                    old(self).history(item_id).push(
                        TransitionEvent {
                            timestamp: now,
                            status: ItemStatus::Rejected,
                            actor: caller,
                            location_hash,
                            notes_hash,
                        },
                    ),
                )
                &&& final(self).item(item_id).owner == old(self).item(item_id).owner
                &&& final(self).item(item_id).status == ItemStatus::Rejected
                &&& final(self).history_count(item_id) == old(self).history_count(item_id) + 1
                &&& Self::same_admin(*old(self), *final(self))
                &&& Self::same_roles(*old(self), *final(self))
            },
    {
        let item = match self.store.get(item_id) {
            Ok(item) => item,
            Err(missing) => {
                return Err(missing);
            },
        };
        if caller != item.owner {
            return Err(TrackerError::Unauthorized);
        }
        if item.status == ItemStatus::Delivered || item.status == ItemStatus::Rejected {
            return Err(TrackerError::InvalidTransition);
        }
        self.commit(item_id, ItemStatus::Rejected, None, caller, location_hash, notes_hash, now);
        Ok(())
    }

    /// Look an item up by identifier; fails `NotFound` if no item with that
    /// identifier has ever been created. Pure query.
    pub fn get_item(&self, item_id: u64) -> (found: Result<Item, TrackerError>)
        ensures
            found is Ok <==> self.has_item(item_id),
            found is Ok ==> found->Ok_0 == self.item(item_id),
            found is Err ==> found == Err::<Item, TrackerError>(TrackerError::NotFound),
    {
        self.store.get(item_id)
    }

    /// Look one audit event up by (item identifier, per-item index); fails
    /// `NotFound` when the index is not below the item's event count. Pure
    /// query.
    pub fn get_history_entry(&self, item_id: u64, log_id: u64) -> (found: Result<
        TransitionEvent,
        TrackerError,
    >)
        requires
            self.wf(),
        ensures
            found is Ok <==> (log_id as nat) < self.history_count(item_id),
            found is Ok ==> found->Ok_0 == self.history(item_id)[log_id as int],
            found is Err ==> found == Err::<TransitionEvent, TrackerError>(TrackerError::NotFound),
    {
        proof {
            if self.has_item(item_id) {
                assert(self.log.count_of(item_id) == self.history_count(item_id));
            }
        }
        self.log.get(item_id, log_id)
    }

    /// The number of audit events recorded for an item, 0 if it was never
    /// created. Pure query, never fails.
    pub fn get_history_count(&self, item_id: u64) -> (count: u64)
        requires
            self.wf(),
        ensures
            count as nat == self.history_count(item_id),
    {
        self.log.count(item_id)
    }
}

/// For every item the tracker holds, the current status equals the status of
/// the most recently appended audit event, and the history is never empty:
/// the creation event is there from the start and no accepted transition
/// removes anything.
pub proof fn lemma_status_matches_last_event(tracker: SupplyChainTracker, item_id: u64)
    requires
        tracker.wf(),
        tracker.has_item(item_id),
    ensures
        tracker.history_count(item_id) >= 1,
        tracker.item(item_id).status == tracker.history(item_id).last().status,
{
}

} // verus!
