use compliance_kit::address::Address;
use compliance_kit::jurisdiction_flag::{
    flag_status, permitted, Error, FlagStatus, JurisdictionEntry, JurisdictionEvent,
    JurisdictionExpired, JurisdictionFlag, JurisdictionSet, JurisdictionSetUntil, Paused, Unpaused,
};

fn addr(name: &str) -> Address {
    Address::new(name.to_string())
}

fn code(c: &str) -> String {
    c.to_string()
}

fn setup() -> (Address, JurisdictionFlag) {
    let issuer = addr("GISSUER");
    let mut flags = JurisdictionFlag::new(0);
    flags.initialize(issuer.clone()).unwrap();
    (issuer, flags)
}

// ── existing tests ──────────────────────────────────────────────────────────

#[test]
fn test_set_and_get_jurisdiction() {
    let (issuer, mut flags) = setup();
    let alice = addr("GALICE");

    assert_eq!(flags.get_jurisdiction(alice.clone()), None);

    let us = code("US");
    flags.set_jurisdiction(issuer, alice.clone(), us.clone()).unwrap();
    assert_eq!(flags.get_jurisdiction(alice.clone()), Some(us));
}

#[test]
fn test_set_jurisdiction_rejects_non_issuer() {
    let (_issuer, mut flags) = setup();
    let impostor = addr("GIMPOSTOR");
    let alice = addr("GALICE");
    let us = code("US");

    let result = flags.set_jurisdiction(impostor, alice.clone(), us);
    assert_eq!(result, Err(Error::NotAuthorized));
    assert_eq!(flags.get_jurisdiction(alice), None);
}

#[test]
fn test_is_permitted_jurisdiction_true_when_code_in_list() {
    let (issuer, mut flags) = setup();
    let alice = addr("GALICE");
    flags.set_jurisdiction(issuer, alice.clone(), code("US")).unwrap();

    let allowed = vec![code("CA"), code("US")];
    assert_eq!(flags.is_permitted_jurisdiction(alice, allowed), Ok(true));
}

#[test]
fn test_is_permitted_jurisdiction_false_when_no_jurisdiction_set() {
    let (_issuer, mut flags) = setup();
    let alice = addr("GALICE");
    let allowed = vec![code("US")];
    assert_eq!(flags.is_permitted_jurisdiction(alice, allowed), Ok(false));
}

#[test]
fn test_is_permitted_jurisdiction_errors_with_empty_allowed_list() {
    let (issuer, mut flags) = setup();
    let alice = addr("GALICE");
    flags.set_jurisdiction(issuer, alice.clone(), code("US")).unwrap();

    let allowed: Vec<String> = vec![];
    let result = flags.is_permitted_jurisdiction(alice, allowed);
    assert_eq!(result, Err(Error::EmptyAllowedCodes));
}

#[test]
fn test_is_permitted_jurisdiction_errors_when_no_jurisdiction_and_empty_allowed_list() {
    let (_issuer, mut flags) = setup();
    let alice = addr("GALICE");

    let allowed: Vec<String> = vec![];
    let result = flags.is_permitted_jurisdiction(alice, allowed);
    assert_eq!(result, Err(Error::EmptyAllowedCodes));
}

#[test]
fn test_set_jurisdiction_fails_before_initialize() {
    let mut flags = JurisdictionFlag::new(0);
    let issuer = addr("GISSUER");
    let alice = addr("GALICE");

    let result = flags.set_jurisdiction(issuer, alice, code("US"));
    assert_eq!(result, Err(Error::NotInitialized));
    assert_eq!(flags.drain_events(), vec![]);
}

#[test]
fn test_set_jurisdiction_emits_jurisdiction_set_event() {
    let (issuer, mut flags) = setup();
    let alice = addr("GALICE");
    let us = code("US");

    flags.set_jurisdiction(issuer, alice.clone(), us.clone()).unwrap();

    assert_eq!(
        flags.drain_events(),
        vec![JurisdictionEvent::JurisdictionSet(JurisdictionSet {
            address: alice.clone(),
            code: us.clone(),
        })]
    );
}

#[test]
fn test_test_double_initialize_fails() {
    let (issuer, mut flags) = setup();
    let result = flags.initialize(issuer);
    assert_eq!(result, Err(Error::AlreadyInitialized));
}

// ── pausable tests ───────────────────────────────────────────────────────────

#[test]
fn test_test_not_paused_by_default() {
    let (_issuer, flags) = setup();
    assert!(!flags.is_paused());
}

#[test]
fn test_pause_and_unpause_by_issuer() {
    let (issuer, mut flags) = setup();

    flags.pause(issuer.clone()).unwrap();
    assert!(flags.is_paused());

    flags.unpause(issuer.clone()).unwrap();
    assert!(!flags.is_paused());
}

#[test]
fn test_set_jurisdiction_blocked_while_paused() {
    let (issuer, mut flags) = setup();
    let alice = addr("GALICE");

    flags.pause(issuer.clone()).unwrap();
    let result = flags.set_jurisdiction(issuer.clone(), alice.clone(), code("US"));
    assert_eq!(result, Err(Error::ContractPaused));
    // no state change
    assert_eq!(flags.get_jurisdiction(alice), None);
}

#[test]
fn test_get_jurisdiction_works_while_paused() {
    let (issuer, mut flags) = setup();
    let alice = addr("GALICE");
    let gb = code("GB");

    // set while unpaused, then pause
    flags.set_jurisdiction(issuer.clone(), alice.clone(), gb.clone()).unwrap();
    flags.pause(issuer.clone()).unwrap();

    // reads still work
    assert_eq!(flags.get_jurisdiction(alice), Some(gb));
}

#[test]
fn test_is_permitted_jurisdiction_works_while_paused() {
    let (issuer, mut flags) = setup();
    let alice = addr("GALICE");

    flags.set_jurisdiction(issuer.clone(), alice.clone(), code("DE")).unwrap();
    flags.pause(issuer.clone()).unwrap();

    let allowed = vec![code("DE")];
    assert_eq!(flags.is_permitted_jurisdiction(alice, allowed), Ok(true));
}

#[test]
fn test_test_mutations_resume_after_unpause() {
    let (issuer, mut flags) = setup();
    let alice = addr("GALICE");
    let fr = code("FR");

    flags.pause(issuer.clone()).unwrap();
    assert_eq!(
        flags.set_jurisdiction(issuer.clone(), alice.clone(), fr.clone()),
        Err(Error::ContractPaused)
    );

    flags.unpause(issuer.clone()).unwrap();
    flags.set_jurisdiction(issuer.clone(), alice.clone(), fr.clone()).unwrap();
    assert_eq!(flags.get_jurisdiction(alice), Some(fr));
}

#[test]
fn test_non_issuer_cannot_pause() {
    let (_issuer, mut flags) = setup();
    let impostor = addr("GIMPOSTOR");

    let result = flags.pause(impostor);
    assert_eq!(result, Err(Error::NotAuthorized));
    assert!(!flags.is_paused());
}

#[test]
fn test_non_issuer_cannot_unpause() {
    let (issuer, mut flags) = setup();
    let impostor = addr("GIMPOSTOR");

    flags.pause(issuer.clone()).unwrap();
    let result = flags.unpause(impostor);
    assert_eq!(result, Err(Error::NotAuthorized));
    assert!(flags.is_paused());
}

#[test]
fn test_test_pause_emits_event() {
    let (issuer, mut flags) = setup();

    flags.pause(issuer.clone()).unwrap();

    assert_eq!(
        flags.drain_events(),
        vec![JurisdictionEvent::Paused(Paused { issuer: issuer.clone() })]
    );
}

#[test]
fn test_test_unpause_emits_event() {
    let (issuer, mut flags) = setup();

    flags.pause(issuer.clone()).unwrap();
    let _ = flags.drain_events(); // clear

    flags.unpause(issuer.clone()).unwrap();

    assert_eq!(
        flags.drain_events(),
        vec![JurisdictionEvent::Unpaused(Unpaused { issuer: issuer.clone() })]
    );
}

// ── time-bound flags and further scenarios ───────────────────────────────────

#[test]
fn test_set_jurisdiction_until_emits_event_with_expiry() {
    let (issuer, mut flags) = setup();
    let alice = addr("GALICE");
    flags
        .set_jurisdiction_until(issuer.clone(), alice.clone(), code("DE"), 77)
        .unwrap();
    assert_eq!(
        flags.drain_events(),
        vec![JurisdictionEvent::JurisdictionSetUntil(JurisdictionSetUntil {
            address: alice.clone(),
            code: code("DE"),
            valid_until: 77,
        })]
    );
}

#[test]
fn test_set_jurisdiction_until_holds_through_valid_until() {
    let (issuer, mut flags) = setup();
    let alice = addr("GALICE");
    flags.set_ledger_sequence(100);
    flags
        .set_jurisdiction_until(issuer.clone(), alice.clone(), code("US"), 150)
        .unwrap();
    let _ = flags.drain_events();

    flags.set_ledger_sequence(150);
    assert_eq!(flags.get_jurisdiction(alice.clone()), Some(code("US")));
    assert!(flags.drain_events().is_empty());
}

#[test]
fn test_expired_flag_reads_as_unset_and_publishes() {
    let (issuer, mut flags) = setup();
    let alice = addr("GALICE");
    flags
        .set_jurisdiction_until(issuer.clone(), alice.clone(), code("US"), 10)
        .unwrap();
    let _ = flags.drain_events();

    flags.set_ledger_sequence(11);
    assert_eq!(flags.get_jurisdiction(alice.clone()), None);
    assert_eq!(
        flags.drain_events(),
        vec![JurisdictionEvent::JurisdictionExpired(JurisdictionExpired {
            address: alice.clone()
        })]
    );
    // expired flags are never permitted, and the read publishes again
    assert_eq!(
        flags.is_permitted_jurisdiction(alice.clone(), vec![code("US")]),
        Ok(false)
    );
    assert_eq!(flags.drain_events().len(), 1);
}

#[test]
fn test_set_jurisdiction_until_blocked_while_paused() {
    let (issuer, mut flags) = setup();
    let alice = addr("GALICE");
    flags.pause(issuer.clone()).unwrap();
    let _ = flags.drain_events();
    assert_eq!(
        flags.set_jurisdiction_until(issuer.clone(), alice.clone(), code("JP"), 5),
        Err(Error::ContractPaused)
    );
    assert_eq!(flags.get_jurisdiction(alice.clone()), None);
    assert!(flags.drain_events().is_empty());

    flags.unpause(issuer.clone()).unwrap();
    flags
        .set_jurisdiction_until(issuer.clone(), alice.clone(), code("JP"), 5)
        .unwrap();
    assert_eq!(flags.get_jurisdiction(alice), Some(code("JP")));
}

#[test]
fn test_set_jurisdiction_until_rejects_non_issuer() {
    let (_issuer, mut flags) = setup();
    let impostor = addr("GIMPOSTOR");
    let alice = addr("GALICE");
    assert_eq!(
        flags.set_jurisdiction_until(impostor, alice.clone(), code("US"), 5),
        Err(Error::NotAuthorized)
    );
    assert_eq!(flags.get_jurisdiction(alice), None);
    assert!(flags.drain_events().is_empty());
}

#[test]
fn test_set_replaces_earlier_flag() {
    let (issuer, mut flags) = setup();
    let alice = addr("GALICE");
    flags
        .set_jurisdiction_until(issuer.clone(), alice.clone(), code("US"), 3)
        .unwrap();
    flags.set_jurisdiction(issuer.clone(), alice.clone(), code("CA")).unwrap();
    flags.set_ledger_sequence(1000);
    assert_eq!(flags.get_jurisdiction(alice.clone()), Some(code("CA")));
    assert_eq!(
        flags.is_permitted_jurisdiction(alice, vec![code("US")]),
        Ok(false)
    );
}

#[test]
fn test_flag_status_and_permitted() {
    let entry = JurisdictionEntry { code: code("US"), valid_until: Some(7) };
    assert_eq!(flag_status(None, 3), FlagStatus::Unset);
    assert_eq!(flag_status(Some(&entry), 7), FlagStatus::Active(code("US")));
    assert_eq!(flag_status(Some(&entry), 8), FlagStatus::Expired);
    let forever = JurisdictionEntry { code: code("FR"), valid_until: None };
    assert_eq!(
        flag_status(Some(&forever), u32::MAX),
        FlagStatus::Active(code("FR"))
    );
    let allowed = vec![code("CA"), code("FR")];
    assert_eq!(permitted(&Some(code("FR")), &allowed), Ok(true));
    assert_eq!(permitted(&Some(code("US")), &allowed), Ok(false));
    assert_eq!(permitted(&None, &allowed), Ok(false));
    assert_eq!(permitted(&None, &vec![]), Err(Error::EmptyAllowedCodes));
}

#[test]
fn test_initialize_starts_unpaused() {
    let (issuer, mut flags) = setup();
    assert!(!flags.is_paused());
    assert_eq!(flags.ledger_sequence(), 0);
    assert_eq!(flags.pause(issuer.clone()), Ok(()));
    assert_eq!(flags.initialize(issuer), Err(Error::AlreadyInitialized));
    assert!(flags.is_paused());
}
