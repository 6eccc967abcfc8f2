use compliance_kit::address::Address;
use compliance_kit::denylist_gate::{
    DenyAdd, DenyRemove, DenylistGate, Error, GateEvent, Paused, Unpaused,
};

fn addr(name: &str) -> Address {
    Address::new(name.to_string())
}

fn setup() -> (Address, DenylistGate) {
    let admin = addr("GADMIN");
    let mut gate = DenylistGate::new();
    gate.initialize(admin.clone()).unwrap();
    (admin, gate)
}

// ── existing tests ──────────────────────────────────────────────────────────

#[test]
fn test_check_defaults_to_clear() {
    let (_admin, gate) = setup();
    let alice = addr("GALICE");
    assert!(gate.check(alice.clone()));
}

#[test]
fn test_add_and_remove_from_denylist() {
    let (admin, mut gate) = setup();
    let alice = addr("GALICE");

    gate.add_to_denylist(admin.clone(), alice.clone()).unwrap();
    assert!(!gate.check(alice.clone()));

    gate.remove_from_denylist(admin.clone(), alice.clone()).unwrap();
    assert!(gate.check(alice.clone()));
}

#[test]
fn test_check_true_immediately_after_remove_from_denylist() {
    let (admin, mut gate) = setup();
    let alice = addr("GALICE");

    gate.add_to_denylist(admin.clone(), alice.clone()).unwrap();
    assert!(!gate.check(alice.clone()));

    gate.remove_from_denylist(admin.clone(), alice.clone()).unwrap();
    assert!(gate.check(alice.clone()));
}

#[test]
fn test_add_to_denylist_rejects_non_admin() {
    let (_admin, mut gate) = setup();
    let impostor = addr("GIMPOSTOR");
    let alice = addr("GALICE");

    let result = gate.add_to_denylist(impostor, alice.clone());
    assert_eq!(result, Err(Error::NotAuthorized));
    assert!(gate.check(alice.clone()));
}

#[test]
fn test_empty_address_key_is_well_defined() {
    // An address that has never been touched must read as "clear" (true),
    // not panic or default to denied.
    let (_admin, gate) = setup();
    let never_seen = addr("GNEVERSEEN");
    assert!(gate.check(never_seen.clone()));
}

#[test]
fn test_remove_from_denylist_never_added_is_noop() {
    let (admin, mut gate) = setup();
    let never_added = addr("GNEVERADDED");

    assert!(gate.check(never_added.clone()));

    gate.remove_from_denylist(admin.clone(), never_added.clone()).unwrap();

    assert_eq!(
        gate.drain_events(),
        vec![GateEvent::DenyRemove(DenyRemove { address: never_added.clone() })]
    );
    assert!(gate.check(never_added.clone()));
}

#[test]
fn test_add_to_denylist_twice_is_idempotent() {
    // Adding the same address twice succeeds both times and leaves the
    // address denied; each call publishes its own DenyAdd.
    let (admin, mut gate) = setup();
    let alice = addr("GALICE");

    gate.add_to_denylist(admin.clone(), alice.clone()).unwrap();
    gate.add_to_denylist(admin.clone(), alice.clone()).unwrap();

    assert!(!gate.check(alice.clone()));

    let deny_add = GateEvent::DenyAdd(DenyAdd { address: alice.clone() });
    assert_eq!(gate.drain_events(), vec![deny_add.clone(), deny_add.clone()]);
}

#[test]
fn test_double_initialize_fails() {
    let (admin, mut gate) = setup();
    let result = gate.initialize(admin);
    assert_eq!(result, Err(Error::AlreadyInitialized));
}

// ── pausable tests ───────────────────────────────────────────────────────────

#[test]
fn test_not_paused_by_default() {
    let (_admin, gate) = setup();
    assert!(!gate.is_paused());
}

#[test]
fn test_pause_and_unpause_by_admin() {
    let (admin, mut gate) = setup();

    gate.pause(admin.clone()).unwrap();
    assert!(gate.is_paused());

    gate.unpause(admin.clone()).unwrap();
    assert!(!gate.is_paused());
}

#[test]
fn test_add_to_denylist_blocked_while_paused() {
    let (admin, mut gate) = setup();
    let alice = addr("GALICE");

    gate.pause(admin.clone()).unwrap();
    let result = gate.add_to_denylist(admin.clone(), alice.clone());
    assert_eq!(result, Err(Error::ContractPaused));
    // alice must still be clear — no state change
    assert!(gate.check(alice.clone()));
}

#[test]
fn test_remove_from_denylist_blocked_while_paused() {
    let (admin, mut gate) = setup();
    let alice = addr("GALICE");

    // add alice first (while unpaused)
    gate.add_to_denylist(admin.clone(), alice.clone()).unwrap();
    assert!(!gate.check(alice.clone()));

    gate.pause(admin.clone()).unwrap();
    let result = gate.remove_from_denylist(admin.clone(), alice.clone());
    assert_eq!(result, Err(Error::ContractPaused));
    // alice must still be denied — no state change
    assert!(!gate.check(alice.clone()));
}

#[test]
fn test_check_works_while_paused() {
    // Read-only operations must not be gated by pause.
    let (admin, mut gate) = setup();
    let alice = addr("GALICE");

    gate.add_to_denylist(admin.clone(), alice.clone()).unwrap();
    gate.pause(admin.clone()).unwrap();

    // check still works for both a denied and a clear address
    assert!(!gate.check(alice.clone()));
    let bob = addr("GBOB");
    assert!(gate.check(bob.clone()));
}

#[test]
fn test_mutations_resume_after_unpause() {
    let (admin, mut gate) = setup();
    let alice = addr("GALICE");

    gate.pause(admin.clone()).unwrap();
    assert_eq!(
        gate.add_to_denylist(admin.clone(), alice.clone()),
        Err(Error::ContractPaused)
    );

    gate.unpause(admin.clone()).unwrap();
    gate.add_to_denylist(admin.clone(), alice.clone()).unwrap();
    assert!(!gate.check(alice.clone()));
}

#[test]
fn test_non_admin_cannot_pause() {
    let (_admin, mut gate) = setup();
    let impostor = addr("GIMPOSTOR");

    let result = gate.pause(impostor);
    assert_eq!(result, Err(Error::NotAuthorized));
    assert!(!gate.is_paused());
}

#[test]
fn test_non_admin_cannot_unpause() {
    let (admin, mut gate) = setup();
    let impostor = addr("GIMPOSTOR");

    gate.pause(admin.clone()).unwrap();
    let result = gate.unpause(impostor);
    assert_eq!(result, Err(Error::NotAuthorized));
    assert!(gate.is_paused());
}

#[test]
fn test_pause_emits_event() {
    let (admin, mut gate) = setup();

    gate.pause(admin.clone()).unwrap();

    assert_eq!(
        gate.drain_events(),
        vec![GateEvent::Paused(Paused { admin: admin.clone() })]
    );
}

#[test]
fn test_unpause_emits_event() {
    let (admin, mut gate) = setup();

    gate.pause(admin.clone()).unwrap();
    // clear events so we only see the unpause event
    let _ = gate.drain_events();

    gate.unpause(admin.clone()).unwrap();

    assert_eq!(
        gate.drain_events(),
        vec![GateEvent::Unpaused(Unpaused { admin: admin.clone() })]
    );
}

// ── further scenarios ────────────────────────────────────────────────────────

#[test]
fn test_operations_before_initialize_fail() {
    let mut gate = DenylistGate::new();
    let admin = addr("GADMIN");
    let alice = addr("GALICE");
    assert_eq!(gate.get_admin(), Err(Error::NotInitialized));
    assert_eq!(
        gate.add_to_denylist(admin.clone(), alice.clone()),
        Err(Error::NotInitialized)
    );
    assert_eq!(
        gate.remove_from_denylist(admin.clone(), alice.clone()),
        Err(Error::NotInitialized)
    );
    assert_eq!(gate.pause(admin.clone()), Err(Error::NotInitialized));
    assert_eq!(gate.unpause(admin.clone()), Err(Error::NotInitialized));
    assert!(gate.drain_events().is_empty());
    assert!(gate.check(alice.clone()));
}

#[test]
fn test_get_admin_returns_stored_admin() {
    let (admin, gate) = setup();
    assert_eq!(gate.get_admin(), Ok(admin));
}

#[test]
fn test_pause_check_precedes_admin_check() {
    let (admin, mut gate) = setup();
    let impostor = addr("GIMPOSTOR");
    let alice = addr("GALICE");
    gate.pause(admin).unwrap();
    assert_eq!(
        gate.remove_from_denylist(impostor, alice),
        Err(Error::ContractPaused)
    );
}

#[test]
fn test_add_only_denies_that_address() {
    let (admin, mut gate) = setup();
    let alice = addr("GALICE");
    let bob = addr("GBOB");
    gate.add_to_denylist(admin.clone(), alice.clone()).unwrap();
    assert!(!gate.check(alice.clone()));
    assert!(gate.check(bob.clone()));
    gate.add_to_denylist(admin.clone(), bob.clone()).unwrap();
    gate.remove_from_denylist(admin.clone(), alice.clone()).unwrap();
    assert!(gate.check(alice.clone()));
    assert!(!gate.check(bob.clone()));
}

#[test]
fn test_refused_operations_publish_nothing() {
    let (admin, mut gate) = setup();
    let impostor = addr("GIMPOSTOR");
    let alice = addr("GALICE");
    assert!(gate.add_to_denylist(impostor.clone(), alice.clone()).is_err());
    assert!(gate.pause(impostor.clone()).is_err());
    assert!(gate.initialize(impostor.clone()).is_err());
    assert!(gate.drain_events().is_empty());
    assert_eq!(gate.get_admin(), Ok(admin));
}
