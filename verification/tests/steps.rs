use compliance_kit::address::Address;
use compliance_kit::allowlist_token;
use compliance_kit::allowlist_token::{AllowEvent, AllowStep, AllowWrite, Blocked, TokenTransfer};
use compliance_kit::denylist_gate;
use compliance_kit::denylist_gate::{GateEvent, GateStep, GateWrite};
use compliance_kit::denylist_gate_consumer;
use compliance_kit::denylist_gate_consumer::{GateAnswers, Query, TokenStep, TokenWrite};
use compliance_kit::jurisdiction_flag;
use compliance_kit::jurisdiction_flag::{
    JurisdictionEntry, JurisdictionEvent, JurisdictionExpired, JurisdictionSetUntil, JurisdictionStep,
    JurisdictionWrite,
};
use compliance_kit::pausable::require_not_paused;

fn addr(name: &str) -> Address {
    Address::new(name.to_string())
}

#[test]
fn test_require_not_paused() {
    assert_eq!(require_not_paused(true, 7u8), Err(7u8));
    assert_eq!(require_not_paused(false, 7u8), Ok(()));
}

#[test]
fn test_address_text_round_trip() {
    let a = addr("GABC");
    assert_eq!(a.as_str(), "GABC");
    assert_eq!(a.clone(), a);
    assert_ne!(a, addr("GABD"));
}

#[test]
fn test_gate_add_step() {
    let admin = addr("GADMIN");
    let alice = addr("GALICE");
    assert_eq!(
        denylist_gate::add_to_denylist_step(false, &Some(admin.clone()), admin.clone(), alice.clone()),
        GateStep {
            auth: Some(admin.clone()),
            result: Ok(()),
            writes: vec![
                GateWrite::Deny(alice.clone()),
                GateWrite::Publish(GateEvent::DenyAdd(denylist_gate::DenyAdd { address: alice.clone() })),
            ],
        }
    );
    // paused: refused before any authorization is demanded
    assert_eq!(
        denylist_gate::add_to_denylist_step(true, &Some(admin.clone()), admin.clone(), alice.clone()),
        GateStep { auth: None, result: Err(denylist_gate::Error::ContractPaused), writes: vec![] }
    );
    // a stranger's authorization is demanded, then the stranger is refused
    let stranger = addr("GSTRANGER");
    assert_eq!(
        denylist_gate::remove_from_denylist_step(false, &Some(admin.clone()), stranger.clone(), alice.clone()),
        GateStep { auth: Some(stranger), result: Err(denylist_gate::Error::NotAuthorized), writes: vec![] }
    );
    assert_eq!(
        denylist_gate::remove_from_denylist_step(false, &None, admin.clone(), alice.clone()),
        GateStep { auth: Some(admin.clone()), result: Err(denylist_gate::Error::NotInitialized), writes: vec![] }
    );
}

#[test]
fn test_gate_initialize_and_pause_steps() {
    let admin = addr("GADMIN");
    assert_eq!(
        denylist_gate::initialize_step(&None, admin.clone()),
        GateStep { auth: Some(admin.clone()), result: Ok(()), writes: vec![GateWrite::Admin(admin.clone())] }
    );
    assert_eq!(
        denylist_gate::initialize_step(&Some(admin.clone()), admin.clone()),
        GateStep { auth: None, result: Err(denylist_gate::Error::AlreadyInitialized), writes: vec![] }
    );
    assert_eq!(
        denylist_gate::set_paused_step(&Some(admin.clone()), admin.clone(), false),
        GateStep {
            auth: Some(admin.clone()),
            result: Ok(()),
            writes: vec![
                GateWrite::Paused(false),
                GateWrite::Publish(GateEvent::Unpaused(denylist_gate::Unpaused { admin: admin.clone() })),
            ],
        }
    );
    assert!(denylist_gate::clear_from_entry(None));
    assert!(!denylist_gate::clear_from_entry(Some(true)));
    assert!(denylist_gate::clear_from_entry(Some(false)));
}

#[test]
fn test_allowlist_transfer_step() {
    let token_addr = addr("CTOKEN");
    let alice = addr("GALICE");
    let bob = addr("GBOB");
    assert_eq!(
        allowlist_token::transfer_step(false, true, true, Some(token_addr.clone()), alice.clone(), bob.clone(), 9),
        AllowStep {
            auth: Some(alice.clone()),
            result: Ok(true),
            writes: vec![AllowWrite::Forward(TokenTransfer {
                token: token_addr.clone(),
                from: alice.clone(),
                to: bob.clone(),
                amount: 9,
            })],
        }
    );
    assert_eq!(
        allowlist_token::transfer_step(false, true, false, Some(token_addr.clone()), alice.clone(), bob.clone(), 9),
        AllowStep {
            auth: Some(alice.clone()),
            result: Ok(false),
            writes: vec![AllowWrite::Publish(AllowEvent::Blocked(Blocked {
                from: alice.clone(),
                to: bob.clone(),
                amount: 9,
            }))],
        }
    );
    assert_eq!(
        allowlist_token::transfer_step(true, true, true, Some(token_addr.clone()), alice.clone(), bob.clone(), 9),
        AllowStep { auth: None, result: Err(allowlist_token::Error::ContractPaused), writes: vec![] }
    );
    assert_eq!(
        allowlist_token::transfer_step(false, true, true, None, alice.clone(), bob.clone(), 9),
        AllowStep { auth: Some(alice.clone()), result: Err(allowlist_token::Error::NotInitialized), writes: vec![] }
    );
    assert_eq!(
        allowlist_token::transfer_step(false, false, false, None, alice.clone(), bob.clone(), 9),
        AllowStep { auth: Some(alice.clone()), result: Err(allowlist_token::Error::NotInitialized), writes: vec![] }
    );
    assert!(allowlist_token::allowed_from_entry(Some(true)));
    assert!(!allowlist_token::allowed_from_entry(None));
}

#[test]
fn test_allowlist_remove_multiple_step() {
    let admin = addr("GADMIN");
    let a = addr("GA");
    let b = addr("GB");
    assert_eq!(
        allowlist_token::remove_multiple_from_allowlist_step(false, &Some(admin.clone()), admin.clone(), vec![a.clone(), b.clone()]),
        AllowStep {
            auth: Some(admin.clone()),
            result: Ok(()),
            writes: vec![
                AllowWrite::Disallow(a.clone()),
                AllowWrite::Publish(AllowEvent::AllowRemove(allowlist_token::AllowRemove { address: a.clone() })),
                AllowWrite::Disallow(b.clone()),
                AllowWrite::Publish(AllowEvent::AllowRemove(allowlist_token::AllowRemove { address: b.clone() })),
            ],
        }
    );
    assert_eq!(
        allowlist_token::remove_multiple_from_allowlist_step(false, &Some(admin.clone()), addr("GX"), vec![a.clone()]),
        AllowStep { auth: Some(addr("GX")), result: Err(allowlist_token::Error::NotAuthorized), writes: vec![] }
    );
    // paused: refused before any authorization is demanded
    assert_eq!(
        allowlist_token::remove_multiple_from_allowlist_step(true, &Some(admin.clone()), admin.clone(), vec![a.clone()]),
        AllowStep { auth: None, result: Err(allowlist_token::Error::ContractPaused), writes: vec![] }
    );
}

#[test]
fn test_jurisdiction_steps() {
    let issuer = addr("GISSUER");
    let alice = addr("GALICE");
    assert_eq!(
        jurisdiction_flag::set_jurisdiction_until_step(false, &Some(issuer.clone()), issuer.clone(), alice.clone(), "US".to_string(), 40),
        JurisdictionStep {
            auth: Some(issuer.clone()),
            result: Ok(()),
            writes: vec![
                JurisdictionWrite::Store(
                    alice.clone(),
                    JurisdictionEntry { code: "US".to_string(), valid_until: Some(40) },
                ),
                JurisdictionWrite::Publish(JurisdictionEvent::JurisdictionSetUntil(JurisdictionSetUntil {
                    address: alice.clone(),
                    code: "US".to_string(),
                    valid_until: 40,
                })),
            ],
        }
    );
    assert_eq!(
        jurisdiction_flag::set_jurisdiction_until_step(true, &Some(issuer.clone()), issuer.clone(), alice.clone(), "US".to_string(), 40),
        JurisdictionStep { auth: None, result: Err(jurisdiction_flag::Error::ContractPaused), writes: vec![] }
    );
    assert_eq!(
        jurisdiction_flag::set_jurisdiction_step(true, &Some(issuer.clone()), issuer.clone(), alice.clone(), "US".to_string()),
        JurisdictionStep { auth: None, result: Err(jurisdiction_flag::Error::ContractPaused), writes: vec![] }
    );
    let entry = JurisdictionEntry { code: "US".to_string(), valid_until: Some(40) };
    assert_eq!(
        jurisdiction_flag::get_jurisdiction_step(Some(&entry), 41, alice.clone()),
        JurisdictionStep {
            auth: None,
            result: Ok(None),
            writes: vec![JurisdictionWrite::Publish(JurisdictionEvent::JurisdictionExpired(
                JurisdictionExpired { address: alice.clone() },
            ))],
        }
    );
    assert_eq!(
        jurisdiction_flag::get_jurisdiction_step(Some(&entry), 40, alice.clone()),
        JurisdictionStep { auth: None, result: Ok(Some("US".to_string())), writes: vec![] }
    );
    assert_eq!(
        jurisdiction_flag::is_permitted_jurisdiction_step(Some(&entry), 3, alice.clone(), &vec!["US".to_string()]),
        JurisdictionStep { auth: None, result: Ok(true), writes: vec![] }
    );
    assert_eq!(
        jurisdiction_flag::is_permitted_jurisdiction_step(Some(&entry), 3, alice.clone(), &vec![]),
        JurisdictionStep { auth: None, result: Err(jurisdiction_flag::Error::EmptyAllowedCodes), writes: vec![] }
    );
    assert_eq!(
        jurisdiction_flag::initialize_step(&None, issuer.clone()),
        JurisdictionStep {
            auth: Some(issuer.clone()),
            result: Ok(()),
            writes: vec![JurisdictionWrite::Issuer(issuer.clone()), JurisdictionWrite::Paused(false)],
        }
    );
}

#[test]
fn test_token_steps() {
    let alice = addr("GALICE");
    let bob = addr("GBOB");
    let clear = GateAnswers { frozen: false, from_clear: true, to_clear: true };
    assert_eq!(
        denylist_gate_consumer::transfer_step(true, clear, 100, 5, alice.clone(), bob.clone(), 30),
        TokenStep {
            auth: Some(alice.clone()),
            result: Ok(()),
            writes: vec![TokenWrite::Balance(alice.clone(), 70), TokenWrite::Balance(bob.clone(), 35)],
        }
    );
    let frozen = GateAnswers { frozen: true, from_clear: true, to_clear: true };
    assert_eq!(
        denylist_gate_consumer::transfer_step(true, frozen, 100, 5, alice.clone(), bob.clone(), 30),
        TokenStep { auth: Some(alice.clone()), result: Err(denylist_gate_consumer::Error::FrozenByBreaker), writes: vec![] }
    );
    assert_eq!(
        denylist_gate_consumer::transfer_step(false, clear, 100, 5, alice.clone(), bob.clone(), 30),
        TokenStep { auth: Some(alice.clone()), result: Err(denylist_gate_consumer::Error::NotInitialized), writes: vec![] }
    );
    assert_eq!(
        denylist_gate_consumer::mint_step(-4, bob.clone(), 10),
        TokenStep { auth: None, result: Ok(()), writes: vec![TokenWrite::Balance(bob.clone(), 6)] }
    );
    assert!(denylist_gate_consumer::transfer_moves(true, clear, 30, 30));
    assert!(!denylist_gate_consumer::transfer_moves(true, clear, 29, 30));
    assert!(denylist_gate_consumer::transfer_fits(&alice, &bob, 0, 0, 5));
    assert!(!denylist_gate_consumer::transfer_fits(&alice, &bob, i128::MIN, 0, 1));
    assert!(!denylist_gate_consumer::transfer_fits(&alice, &bob, 0, i128::MAX, 1));
    assert!(denylist_gate_consumer::transfer_fits(&alice, &alice, 0, i128::MAX, 1));
    assert_eq!(
        denylist_gate_consumer::transfer_step(true, clear, 100, 100, alice.clone(), alice.clone(), 30),
        TokenStep {
            auth: Some(alice.clone()),
            result: Ok(()),
            writes: vec![TokenWrite::Balance(alice.clone(), 70), TokenWrite::Balance(alice.clone(), 100)],
        }
    );
    assert_eq!(denylist_gate_consumer::balance_from_entry(None), 0);
    assert_eq!(denylist_gate_consumer::balance_from_entry(Some(-3)), -3);
}

#[test]
fn test_consultation_queries() {
    let gate = Some(addr("CGATE"));
    let breaker = Some(addr("CBREAKER"));
    let alice = addr("GALICE");
    let bob = addr("GBOB");
    let ask = |replies: Vec<bool>| denylist_gate_consumer::next_query(&gate, &breaker, &alice, &bob, &replies);
    assert_eq!(ask(vec![]), Some(Query::IsFrozen(addr("CBREAKER"))));
    assert_eq!(ask(vec![true]), None);
    assert_eq!(ask(vec![false]), Some(Query::Check(addr("CGATE"), alice.clone())));
    assert_eq!(ask(vec![false, false]), None);
    assert_eq!(ask(vec![false, true]), Some(Query::Check(addr("CGATE"), bob.clone())));
    assert_eq!(ask(vec![false, true, true]), None);
    assert_eq!(ask(vec![false, true, false]), None);
    assert_eq!(
        denylist_gate_consumer::next_query(&None, &breaker, &alice, &bob, &vec![]),
        None
    );
    assert_eq!(
        denylist_gate_consumer::next_query(&gate, &None, &alice, &bob, &vec![]),
        None
    );
}

#[test]
fn test_gate_answers_from_replies() {
    let none = GateAnswers { frozen: false, from_clear: false, to_clear: false };
    assert_eq!(denylist_gate_consumer::gate_answers(&vec![]), none);
    assert_eq!(
        denylist_gate_consumer::gate_answers(&vec![true]),
        GateAnswers { frozen: true, from_clear: false, to_clear: false }
    );
    assert_eq!(denylist_gate_consumer::gate_answers(&vec![false, false]), none);
    assert_eq!(
        denylist_gate_consumer::gate_answers(&vec![false, true, false]),
        GateAnswers { frozen: false, from_clear: true, to_clear: false }
    );
    assert_eq!(
        denylist_gate_consumer::gate_answers(&vec![false, true, true]),
        GateAnswers { frozen: false, from_clear: true, to_clear: true }
    );
}
