use compliance_kit::address::Address;
use compliance_kit::denylist_gate::DenylistGate;
use compliance_kit::denylist_gate_consumer::{Error, ExampleToken, GateAnswers};

fn addr(name: &str) -> Address {
    Address::new(name.to_string())
}

struct World {
    gate_admin: Address,
    gate: DenylistGate,
    frozen: bool,
    token: ExampleToken,
}

fn setup() -> World {
    let gate_admin = addr("GGATEADMIN");
    let mut gate = DenylistGate::new();
    gate.initialize(gate_admin.clone()).unwrap();
    let mut token = ExampleToken::new();
    token.initialize(addr("CGATE"), addr("CBREAKER")).unwrap();
    World { gate_admin, gate, frozen: false, token }
}

fn answers(world: &World, from: &Address, to: &Address) -> GateAnswers {
    GateAnswers {
        frozen: world.frozen,
        from_clear: world.gate.check(from.clone()),
        to_clear: world.gate.check(to.clone()),
    }
}

#[test]
fn test_transfer_succeeds_when_both_parties_clear() {
    let mut w = setup();
    let alice = addr("GALICE");
    let bob = addr("GBOB");

    w.token.mint(alice.clone(), 1_000);
    let a = answers(&w, &alice, &bob);
    w.token.transfer(alice.clone(), bob.clone(), 400, a).unwrap();

    assert_eq!(w.token.balance(alice.clone()), 600);
    assert_eq!(w.token.balance(bob.clone()), 400);
}

#[test]
fn test_transfer_blocked_when_sender_denied() {
    let mut w = setup();
    let alice = addr("GALICE");
    let bob = addr("GBOB");

    w.token.mint(alice.clone(), 1_000);
    w.gate.add_to_denylist(w.gate_admin.clone(), alice.clone()).unwrap();

    let a = answers(&w, &alice, &bob);
    assert_eq!(w.token.transfer(alice.clone(), bob.clone(), 400, a), Err(Error::DeniedByGate));
    assert_eq!(w.token.balance(alice.clone()), 1_000);
    assert_eq!(w.token.balance(bob.clone()), 0);
}

#[test]
fn test_transfer_blocked_when_breaker_frozen() {
    let mut w = setup();
    let alice = addr("GALICE");
    let bob = addr("GBOB");

    w.token.mint(alice.clone(), 1_000);
    w.frozen = true;

    let a = answers(&w, &alice, &bob);
    assert_eq!(w.token.transfer(alice.clone(), bob.clone(), 400, a), Err(Error::FrozenByBreaker));
    assert_eq!(w.token.balance(alice.clone()), 1_000);
    assert_eq!(w.token.balance(bob.clone()), 0);
}

#[test]
fn test_transfer_resumes_after_breaker_unfreeze() {
    let mut w = setup();
    let alice = addr("GALICE");
    let bob = addr("GBOB");

    w.token.mint(alice.clone(), 1_000);
    w.frozen = true;
    let a = answers(&w, &alice, &bob);
    assert_eq!(w.token.transfer(alice.clone(), bob.clone(), 400, a), Err(Error::FrozenByBreaker));

    w.frozen = false;
    let a = answers(&w, &alice, &bob);
    assert!(w.token.transfer(alice.clone(), bob.clone(), 400, a).is_ok());
    assert_eq!(w.token.balance(alice.clone()), 600);
    assert_eq!(w.token.balance(bob.clone()), 400);
}

#[test]
fn test_transfer_insufficient_balance() {
    let mut w = setup();
    let alice = addr("GALICE");
    let bob = addr("GBOB");
    w.token.mint(alice.clone(), 100);
    let a = answers(&w, &alice, &bob);
    assert_eq!(
        w.token.transfer(alice.clone(), bob.clone(), 101, a),
        Err(Error::InsufficientBalance)
    );
    assert_eq!(w.token.balance(alice.clone()), 100);
}

#[test]
fn test_transfer_before_initialize() {
    let mut token = ExampleToken::new();
    let a = GateAnswers { frozen: false, from_clear: true, to_clear: true };
    assert_eq!(
        token.transfer(addr("GA"), addr("GB"), 0, a),
        Err(Error::NotInitialized)
    );
    assert_eq!(
        token.initialize(addr("CGATE"), addr("CBREAKER")),
        Ok(())
    );
    assert_eq!(
        token.initialize(addr("CGATE"), addr("CBREAKER")),
        Err(Error::AlreadyInitialized)
    );
}

#[test]
fn test_transfer_to_self_keeps_balance() {
    let mut w = setup();
    let alice = addr("GALICE");
    w.token.mint(alice.clone(), 50);
    let a = answers(&w, &alice, &alice);
    w.token.transfer(alice.clone(), alice.clone(), 20, a).unwrap();
    assert_eq!(w.token.balance(alice.clone()), 50);
    let a = answers(&w, &alice, &alice);
    assert_eq!(
        w.token.transfer(alice.clone(), alice.clone(), 51, a),
        Err(Error::InsufficientBalance)
    );
    assert_eq!(w.token.balance(alice.clone()), 50);
}

#[test]
fn test_mint_accumulates() {
    let mut w = setup();
    let alice = addr("GALICE");
    w.token.mint(alice.clone(), 5);
    w.token.mint(alice.clone(), 7);
    assert_eq!(w.token.balance(alice.clone()), 12);
    assert_eq!(w.token.balance(addr("GBOB")), 0);
}
