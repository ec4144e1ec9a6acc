use rust_state_machine::proof_of_existence::{Call, Pallet};
use rust_state_machine::support::{Dispatch, Error};

#[test]
fn basic_proof_of_existence() {
    let mut poe = Pallet::new();

    let claim = "Hello, World".to_string();
    let alice = "alice".to_string();
    let bob = "bob".to_string();

    assert_eq!(poe.get_claim(&claim), None);
    assert_eq!(poe.create_claim(claim.clone(), alice.clone()), Ok(()));
    assert_eq!(poe.get_claim(&claim), Some(&alice));
    assert_eq!(
        poe.revoke_claim(claim.clone(), bob.clone()).map_err(|e| e.message()),
        Err("You are not the owner of this claim")
    );
    assert_eq!(poe.revoke_claim(claim.clone(), alice.clone()), Ok(()));
    assert_eq!(poe.get_claim(&claim), None);
    assert_eq!(poe.create_claim(claim.clone(), bob.clone()), Ok(()));
    assert_eq!(poe.get_claim(&claim), Some(&bob));
}

#[test]
fn second_claim_is_refused_and_owner_kept() {
    let mut poe = Pallet::new();
    let claim = "doc".to_string();
    let alice = "alice".to_string();
    let bob = "bob".to_string();
    assert_eq!(poe.create_claim(claim.clone(), alice.clone()), Ok(()));
    assert_eq!(poe.create_claim(claim.clone(), bob.clone()), Err(Error::AlreadyClaimed));
    assert_eq!(poe.create_claim(claim.clone(), alice.clone()), Err(Error::AlreadyClaimed));
    assert_eq!(poe.get_claim(&claim), Some(&alice));
}

#[test]
fn foreign_revoke_is_refused_and_claim_kept() {
    let mut poe = Pallet::new();
    let claim = "doc".to_string();
    let alice = "alice".to_string();
    let bob = "bob".to_string();
    assert_eq!(poe.create_claim(claim.clone(), alice.clone()), Ok(()));
    assert_eq!(poe.revoke_claim(claim.clone(), bob.clone()), Err(Error::NotOwner));
    assert_eq!(poe.get_claim(&claim), Some(&alice));
}

#[test]
fn revoke_of_missing_claim() {
    let mut poe = Pallet::new();
    let claim = "nothing".to_string();
    assert_eq!(poe.revoke_claim(claim.clone(), "alice".to_string()), Err(Error::NoSuchClaim));
    assert_eq!(
        poe.revoke_claim(claim.clone(), "alice".to_string()).map_err(|e| e.message()),
        Err("Claim does not exist")
    );
    assert_eq!(poe.get_claim(&claim), None);
}

#[test]
fn claims_dispatch_routes_calls() {
    let mut poe = Pallet::new();
    let claim = "doc".to_string();
    let alice = "alice".to_string();
    assert_eq!(poe.dispatch(alice.clone(), Call::CreateClaim { claim: claim.clone() }), Ok(()));
    assert_eq!(poe.get_claim(&claim), Some(&alice));
    assert_eq!(
        poe.dispatch(alice.clone(), Call::CreateClaim { claim: claim.clone() })
            .map_err(|e| e.message()),
        Err("This content is already claimed")
    );
    assert_eq!(poe.dispatch(alice.clone(), Call::RevokeClaim { claim: claim.clone() }), Ok(()));
    assert_eq!(poe.get_claim(&claim), None);
}
