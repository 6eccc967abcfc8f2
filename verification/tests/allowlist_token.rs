use compliance_kit::address::Address;
use compliance_kit::allowlist_token::{
    route_transfer, AllowAdd, AllowEvent, AllowRemove, AllowlistToken, Blocked, Error, Paused,
    TokenTransfer, TransferRoute, Unpaused,
};

fn addr(name: &str) -> Address {
    Address::new(name.to_string())
}

fn setup() -> (Address, Address, AllowlistToken) {
    let admin = addr("GADMIN");
    let token = addr("CTOKEN");
    let mut front = AllowlistToken::new();
    front.initialize(admin.clone(), token.clone()).unwrap();
    (admin, token, front)
}

#[test]
fn test_allowlist_defaults_to_not_allowed() {
    let (_admin, _token, front) = setup();
    assert!(!front.is_allowed(addr("GALICE")));
    assert!(!front.is_paused());
}

#[test]
fn test_add_and_remove_from_allowlist() {
    let (admin, _token, mut front) = setup();
    let alice = addr("GALICE");
    front.add_to_allowlist(admin.clone(), alice.clone()).unwrap();
    assert!(front.is_allowed(alice.clone()));
    front.remove_from_allowlist(admin.clone(), alice.clone()).unwrap();
    assert!(!front.is_allowed(alice.clone()));
    assert_eq!(
        front.drain_events(),
        vec![
            AllowEvent::AllowAdd(AllowAdd { address: alice.clone() }),
            AllowEvent::AllowRemove(AllowRemove { address: alice.clone() }),
        ]
    );
}

#[test]
fn test_allowlist_rejects_non_admin() {
    let (_admin, _token, mut front) = setup();
    let impostor = addr("GIMPOSTOR");
    let alice = addr("GALICE");
    assert_eq!(
        front.add_to_allowlist(impostor.clone(), alice.clone()),
        Err(Error::NotAuthorized)
    );
    assert_eq!(
        front.remove_multiple_from_allowlist(impostor.clone(), vec![alice.clone()]),
        Err(Error::NotAuthorized)
    );
    assert_eq!(front.pause(impostor), Err(Error::NotAuthorized));
    assert!(!front.is_allowed(alice.clone()));
    assert!(front.drain_events().is_empty());
}

#[test]
fn test_allowlist_double_initialize_fails() {
    let (admin, token, mut front) = setup();
    assert_eq!(front.initialize(admin, token), Err(Error::AlreadyInitialized));
}

#[test]
fn test_transfer_between_allowed_parties_is_forwarded() {
    let (admin, token, mut front) = setup();
    let alice = addr("GALICE");
    let bob = addr("GBOB");
    front.add_to_allowlist(admin.clone(), alice.clone()).unwrap();
    front.add_to_allowlist(admin.clone(), bob.clone()).unwrap();
    let _ = front.drain_events();

    assert_eq!(front.transfer(alice.clone(), bob.clone(), 250), Ok(true));
    assert_eq!(
        front.drain_forwarded(),
        vec![TokenTransfer { token, from: alice, to: bob, amount: 250 }]
    );
    assert!(front.drain_events().is_empty());
}

#[test]
fn test_transfer_with_unlisted_party_is_blocked_and_published() {
    let (admin, _token, mut front) = setup();
    let alice = addr("GALICE");
    let mallory = addr("GMALLORY");
    front.add_to_allowlist(admin.clone(), alice.clone()).unwrap();
    let _ = front.drain_events();

    assert_eq!(front.transfer(alice.clone(), mallory.clone(), 10), Ok(false));
    assert_eq!(front.transfer(mallory.clone(), alice.clone(), 20), Ok(false));
    assert_eq!(
        front.drain_events(),
        vec![
            AllowEvent::Blocked(Blocked { from: alice.clone(), to: mallory.clone(), amount: 10 }),
            AllowEvent::Blocked(Blocked { from: mallory.clone(), to: alice.clone(), amount: 20 }),
        ]
    );
    assert!(front.drain_forwarded().is_empty());
}

#[test]
fn test_transfer_blocked_while_paused() {
    let (admin, _token, mut front) = setup();
    let alice = addr("GALICE");
    let bob = addr("GBOB");
    front.add_to_allowlist(admin.clone(), alice.clone()).unwrap();
    front.add_to_allowlist(admin.clone(), bob.clone()).unwrap();
    front.pause(admin.clone()).unwrap();
    let _ = front.drain_events();

    assert_eq!(front.transfer(alice.clone(), bob.clone(), 5), Err(Error::ContractPaused));
    assert!(front.drain_forwarded().is_empty());
    assert!(front.drain_events().is_empty());
    // reads are unaffected
    assert!(front.is_allowed(alice.clone()));

    front.unpause(admin.clone()).unwrap();
    assert_eq!(front.transfer(alice, bob, 5), Ok(true));
}

#[test]
fn test_allowlist_mutations_blocked_while_paused() {
    let (admin, _token, mut front) = setup();
    let alice = addr("GALICE");
    front.add_to_allowlist(admin.clone(), alice.clone()).unwrap();
    front.pause(admin.clone()).unwrap();
    assert_eq!(
        front.add_to_allowlist(admin.clone(), addr("GBOB")),
        Err(Error::ContractPaused)
    );
    assert_eq!(
        front.remove_from_allowlist(admin.clone(), alice.clone()),
        Err(Error::ContractPaused)
    );
    assert!(front.is_allowed(alice.clone()));
}

#[test]
fn test_remove_multiple_from_allowlist() {
    let (admin, _token, mut front) = setup();
    let alice = addr("GALICE");
    let bob = addr("GBOB");
    let carol = addr("GCAROL");
    for a in [&alice, &bob, &carol] {
        front.add_to_allowlist(admin.clone(), a.clone()).unwrap();
    }
    let _ = front.drain_events();

    front
        .remove_multiple_from_allowlist(admin.clone(), vec![alice.clone(), carol.clone()])
        .unwrap();
    assert!(!front.is_allowed(alice.clone()));
    assert!(front.is_allowed(bob.clone()));
    assert!(!front.is_allowed(carol.clone()));
    assert_eq!(
        front.drain_events(),
        vec![
            AllowEvent::AllowRemove(AllowRemove { address: alice.clone() }),
            AllowEvent::AllowRemove(AllowRemove { address: carol.clone() }),
        ]
    );
}

#[test]
fn test_remove_multiple_blocked_while_paused() {
    let (admin, _token, mut front) = setup();
    let alice = addr("GALICE");
    front.add_to_allowlist(admin.clone(), alice.clone()).unwrap();
    front.pause(admin.clone()).unwrap();
    let _ = front.drain_events();
    assert_eq!(
        front.remove_multiple_from_allowlist(admin.clone(), vec![alice.clone()]),
        Err(Error::ContractPaused)
    );
    assert!(front.is_allowed(alice.clone()));
    assert!(front.drain_events().is_empty());

    front.unpause(admin.clone()).unwrap();
    assert_eq!(
        front.remove_multiple_from_allowlist(admin.clone(), vec![alice.clone()]),
        Ok(())
    );
    assert!(!front.is_allowed(alice));
}

#[test]
fn test_allowlist_pause_events() {
    let (admin, _token, mut front) = setup();
    front.pause(admin.clone()).unwrap();
    assert!(front.is_paused());
    front.unpause(admin.clone()).unwrap();
    assert!(!front.is_paused());
    assert_eq!(
        front.drain_events(),
        vec![
            AllowEvent::Paused(Paused { admin: admin.clone() }),
            AllowEvent::Unpaused(Unpaused { admin: admin.clone() }),
        ]
    );
}

#[test]
fn test_transfer_on_uninitialized_front() {
    let mut front = AllowlistToken::new();
    // a front that was never initialized refuses, publishes nothing and
    // hands nothing on
    assert_eq!(front.transfer(addr("GA"), addr("GB"), 1), Err(Error::NotInitialized));
    assert!(front.drain_events().is_empty());
    assert!(front.drain_forwarded().is_empty());
    assert!(!front.is_paused());
    assert_eq!(route_transfer(true, true, None), Err(Error::NotInitialized));
    assert_eq!(route_transfer(true, false, None), Err(Error::NotInitialized));
    assert_eq!(
        route_transfer(true, false, Some(addr("CTOKEN"))),
        Ok(TransferRoute::Blocked)
    );
    assert_eq!(
        route_transfer(true, true, Some(addr("CTOKEN"))),
        Ok(TransferRoute::Forward(addr("CTOKEN")))
    );
}
