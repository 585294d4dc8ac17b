use supply_chain_tracker::errors::TrackerError;
use supply_chain_tracker::tracker::SupplyChainTracker;

const ADMIN: u64 = 10;
const ALICE: u64 = 21;
const BOB: u64 = 22;

const SUPPLIER_TAG: u8 = 1;
const CARRIER_TAG: u8 = 2;
const DISTRIBUTOR_TAG: u8 = 3;
const RETAILER_TAG: u8 = 4;

#[test]
fn initialize_binds_the_admin_exactly_once() {
    let mut tracker = SupplyChainTracker::new();
    assert_eq!(tracker.initialize(ADMIN), Ok(()));
    assert_eq!(tracker.initialize(ADMIN), Err(TrackerError::AlreadyInitialized));
    assert_eq!(tracker.initialize(ALICE), Err(TrackerError::AlreadyInitialized));
    // the first caller, and only the first, is the administrator
    assert_eq!(tracker.assign_role(ADMIN, ALICE, SUPPLIER_TAG), Ok(()));
    assert_eq!(tracker.assign_role(ALICE, ALICE, CARRIER_TAG), Err(TrackerError::Unauthorized));
}

#[test]
fn roles_cannot_be_assigned_before_initialization() {
    let mut tracker = SupplyChainTracker::new();
    assert_eq!(tracker.assign_role(ADMIN, ALICE, SUPPLIER_TAG), Err(TrackerError::Unauthorized));
    assert_eq!(tracker.revoke_role(ADMIN, ALICE, SUPPLIER_TAG), Err(TrackerError::Unauthorized));
}

#[test]
fn assign_role_validates_caller_before_role_tag() {
    let mut tracker = SupplyChainTracker::new();
    tracker.initialize(ADMIN).unwrap();
    // a non-admin caller is refused even with an invalid tag
    assert_eq!(tracker.assign_role(ALICE, BOB, 9), Err(TrackerError::Unauthorized));
    // the admin with a tag outside the enumerated set gets InvalidRole
    assert_eq!(tracker.assign_role(ADMIN, BOB, 0), Err(TrackerError::InvalidRole));
    assert_eq!(tracker.assign_role(ADMIN, BOB, 5), Err(TrackerError::InvalidRole));
    assert_eq!(tracker.assign_role(ADMIN, BOB, 255), Err(TrackerError::InvalidRole));
    assert_eq!(tracker.revoke_role(ADMIN, BOB, 5), Err(TrackerError::InvalidRole));
}

#[test]
fn has_role_reports_each_enumerated_role_independently() {
    let mut tracker = SupplyChainTracker::new();
    tracker.initialize(ADMIN).unwrap();
    tracker.assign_role(ADMIN, ALICE, CARRIER_TAG).unwrap();
    tracker.assign_role(ADMIN, ALICE, RETAILER_TAG).unwrap();
    assert!(tracker.has_role(ALICE, CARRIER_TAG));
    assert!(tracker.has_role(ALICE, RETAILER_TAG));
    assert!(!tracker.has_role(ALICE, SUPPLIER_TAG));
    assert!(!tracker.has_role(ALICE, DISTRIBUTOR_TAG));
    assert!(!tracker.has_role(BOB, CARRIER_TAG));
    // a tag outside the enumerated set names no role
    assert!(!tracker.has_role(ALICE, 0));
    assert!(!tracker.has_role(ALICE, 9));
}

#[test]
fn assigning_a_held_role_is_a_noop_success() {
    let mut tracker = SupplyChainTracker::new();
    tracker.initialize(ADMIN).unwrap();
    assert_eq!(tracker.assign_role(ADMIN, ALICE, SUPPLIER_TAG), Ok(()));
    assert_eq!(tracker.assign_role(ADMIN, ALICE, SUPPLIER_TAG), Ok(()));
    assert!(tracker.has_role(ALICE, SUPPLIER_TAG));
}

#[test]
fn revoking_an_unheld_role_succeeds_as_a_noop_repeatably() {
    let mut tracker = SupplyChainTracker::new();
    tracker.initialize(ADMIN).unwrap();
    assert!(!tracker.has_role(ALICE, CARRIER_TAG));
    assert_eq!(tracker.revoke_role(ADMIN, ALICE, CARRIER_TAG), Ok(()));
    assert!(!tracker.has_role(ALICE, CARRIER_TAG));
    assert_eq!(tracker.revoke_role(ADMIN, ALICE, CARRIER_TAG), Ok(()));
    assert!(!tracker.has_role(ALICE, CARRIER_TAG));
    // an unrelated membership is untouched
    tracker.assign_role(ADMIN, BOB, CARRIER_TAG).unwrap();
    assert_eq!(tracker.revoke_role(ADMIN, ALICE, CARRIER_TAG), Ok(()));
    assert!(tracker.has_role(BOB, CARRIER_TAG));
}

#[test]
fn revoke_role_removes_a_held_role() {
    let mut tracker = SupplyChainTracker::new();
    tracker.initialize(ADMIN).unwrap();
    tracker.assign_role(ADMIN, ALICE, SUPPLIER_TAG).unwrap();
    assert!(tracker.has_role(ALICE, SUPPLIER_TAG));
    assert_eq!(tracker.revoke_role(ADMIN, ALICE, SUPPLIER_TAG), Ok(()));
    assert!(!tracker.has_role(ALICE, SUPPLIER_TAG));
    // revoking one role leaves the identity's other roles in place
    tracker.assign_role(ADMIN, ALICE, SUPPLIER_TAG).unwrap();
    tracker.assign_role(ADMIN, ALICE, CARRIER_TAG).unwrap();
    tracker.revoke_role(ADMIN, ALICE, SUPPLIER_TAG).unwrap();
    assert!(tracker.has_role(ALICE, CARRIER_TAG));
}

#[test]
fn only_the_admin_may_revoke() {
    let mut tracker = SupplyChainTracker::new();
    tracker.initialize(ADMIN).unwrap();
    tracker.assign_role(ADMIN, ALICE, SUPPLIER_TAG).unwrap();
    assert_eq!(tracker.revoke_role(BOB, ALICE, SUPPLIER_TAG), Err(TrackerError::Unauthorized));
    assert!(tracker.has_role(ALICE, SUPPLIER_TAG));
}
