use vstd::prelude::*;
use std::collections::HashSet;

verus! {

broadcast use vstd::std_specs::hash::group_hash_axioms;

/// The fixed, enumerated set of participant roles. No other role tag is
/// representable, so role membership is defined exactly on these four.
#[derive(Clone, Copy, Debug, PartialEq, Eq, Structural)]
pub enum Role {
    Supplier,
    Carrier,
    Distributor,
    Retailer,
}

impl Role {
    /// External calls name roles by a small numeric tag. Exactly the tags
    /// 1 through 4 decode to a role; every other tag is outside the
    /// enumerated set.
    pub open spec fn spec_from_tag(tag: u8) -> Option<Role> {
        if tag == 1 {
            Some(Role::Supplier)
        } else if tag == 2 {
            Some(Role::Carrier)
        } else if tag == 3 {
            Some(Role::Distributor)
        } else if tag == 4 {
            Some(Role::Retailer)
        } else {
            None
        }
    }

    /// Decode an externally supplied role tag, rejecting tags outside the
    /// enumerated set.
    pub fn from_tag(tag: u8) -> (decoded: Option<Role>)
        ensures
            decoded == Role::spec_from_tag(tag),
    {
        if tag == 1 {
            Some(Role::Supplier)
        } else if tag == 2 {
            Some(Role::Carrier)
        } else if tag == 3 {
            Some(Role::Distributor)
        } else if tag == 4 {
            Some(Role::Retailer)
        } else {
            None
        }
    }
}

/// Membership sets mapping each role to the identities that hold it. The
/// registry owns nothing about the identities themselves; it only answers
/// and updates membership.
pub struct RoleRegistry {
    suppliers: HashSet<u64>,
    carriers: HashSet<u64>,
    distributors: HashSet<u64>,
    retailers: HashSet<u64>,
}

impl RoleRegistry {
    /// The set of identities currently holding `role`.
    pub closed spec fn members(self, role: Role) -> Set<u64> {
        match role {
            Role::Supplier => self.suppliers@,
            Role::Carrier => self.carriers@,
            Role::Distributor => self.distributors@,
            Role::Retailer => self.retailers@,
        }
    }

    /// Whether `identity` currently holds `role`.
    pub open spec fn holds(self, identity: u64, role: Role) -> bool {
        self.members(role).contains(identity)
    }

    /// An empty registry: no identity holds any role.
    pub fn new() -> (registry: RoleRegistry)
        ensures
            forall|role: Role| #[trigger] registry.members(role) == Set::<u64>::empty(),
    {
        RoleRegistry {
            suppliers: HashSet::new(),
            carriers: HashSet::new(),
            distributors: HashSet::new(),
            retailers: HashSet::new(),
        }
    }

    /// Add `identity` to the membership set of `role`. Granting an already
    /// held role leaves the set as it was, since set insertion is idempotent.
    pub fn grant(&mut self, identity: u64, role: Role)
        ensures
            final(self).members(role) == old(self).members(role).insert(identity),
            forall|other: Role|
                other != role ==> #[trigger] final(self).members(other) == old(self).members(other),
    {
        match role {
            Role::Supplier => {
                self.suppliers.insert(identity);
            },
            Role::Carrier => {
                self.carriers.insert(identity);
            },
            Role::Distributor => {
                self.distributors.insert(identity);
            },
            Role::Retailer => {
                self.retailers.insert(identity);
            },
        }
    }

    /// Remove `identity` from the membership set of `role`. Revoking a role
    /// that is not held leaves the set as it was.
    pub fn revoke(&mut self, identity: u64, role: Role)
        ensures
            final(self).members(role) == old(self).members(role).remove(identity),
            forall|other: Role|
                other != role ==> #[trigger] final(self).members(other) == old(self).members(other),
            !old(self).holds(identity, role) ==> final(self).members(role) == old(self).members(
                role,
            ),
    {
        match role {
            Role::Supplier => {
                self.suppliers.remove(&identity);
            },
            Role::Carrier => {
                self.carriers.remove(&identity);
            },
            Role::Distributor => {
                self.distributors.remove(&identity);
            },
            Role::Retailer => {
                self.retailers.remove(&identity);
            },
        }
        proof {
            if !old(self).holds(identity, role) {
                assert(old(self).members(role).remove(identity) =~= old(self).members(role));
            }
        }
    }

    /// Pure membership query; never fails and never mutates.
    pub fn contains(&self, identity: u64, role: Role) -> (held: bool)
        ensures
            held == self.holds(identity, role),
    {
        match role {
            Role::Supplier => self.suppliers.contains(&identity),
            Role::Carrier => self.carriers.contains(&identity),
            Role::Distributor => self.distributors.contains(&identity),
            Role::Retailer => self.retailers.contains(&identity),
        }
    }
}

/// Revocation is idempotent on a membership set: revoking twice leaves the
/// same set as revoking once, and revoking a role that is not held leaves
/// the set exactly as it was — so the call succeeds as a no-op, repeatably.
pub proof fn lemma_revoke_idempotent(members: Set<u64>, identity: u64)
    ensures
        members.remove(identity).remove(identity) == members.remove(identity),
        !members.contains(identity) ==> members.remove(identity) == members,
{
    assert(members.remove(identity).remove(identity) =~= members.remove(identity));
    if !members.contains(identity) {
        assert(members.remove(identity) =~= members);
    }
}

} // verus!
