use state_machine::proof_of_existence::{Call, Pallet, ALREADY_CLAIMED, CLAIM_NOT_FOUND, NOT_OWNER};
use state_machine::support::Dispatch;

#[test]
fn basic_proof_of_existence() {
    let mut poe = Pallet::new();

    let _ = poe.create_claim("alice".to_string(), "my_document".to_string());
    assert_eq!(poe.get_claim(&"my_document".to_string()), Some(&"alice".to_string()));

    let res: Result<(), &str> = poe.revoke_claim("bob".to_string(), "my_document".to_string());
    assert_eq!(res, Err("Caller is not the owner of the claim"));

    let res = poe.create_claim("bob".to_string(), "my_document".to_string());
    assert_eq!(res, Err("this content is already claimed"));

    let res = poe.revoke_claim("alice".to_string(), "my_document".to_string());
    assert_eq!(res, Ok(()));
    assert_eq!(poe.get_claim(&"alice".to_string()), None);

    let res = poe.revoke_claim("alice".to_string(), "no_document_existencee".to_string());
    assert_eq!(res, Err("claim does not exist"));

    let res = poe.revoke_claim("alice".to_string(), "my_document".to_string());
    assert_eq!(res, Err("claim does not exist"));
}

#[test]
fn claim_error_messages() {
    assert_eq!(ALREADY_CLAIMED, "this content is already claimed");
    assert_eq!(CLAIM_NOT_FOUND, "claim does not exist");
    assert_eq!(NOT_OWNER, "Caller is not the owner of the claim");
}

#[test]
fn fresh_pallet_has_no_claims() {
    let poe = Pallet::new();
    assert_eq!(poe.get_claim(&"doc".to_string()), None);
    assert_eq!(poe.get_claim(&"".to_string()), None);
}

#[test]
fn second_claim_does_not_change_the_owner() {
    let doc = "doc".to_string();
    let mut poe = Pallet::new();
    assert_eq!(poe.create_claim("alice".to_string(), doc.clone()), Ok(()));
    assert_eq!(poe.create_claim("bob".to_string(), doc.clone()), Err("this content is already claimed"));
    assert_eq!(poe.create_claim("alice".to_string(), doc.clone()), Err("this content is already claimed"));
    assert_eq!(poe.get_claim(&doc), Some(&"alice".to_string()));
}

#[test]
fn refused_revoke_leaves_the_claim() {
    let doc = "doc".to_string();
    let mut poe = Pallet::new();
    assert_eq!(poe.create_claim("alice".to_string(), doc.clone()), Ok(()));
    assert_eq!(poe.revoke_claim("bob".to_string(), doc.clone()), Err("Caller is not the owner of the claim"));
    assert_eq!(poe.get_claim(&doc), Some(&"alice".to_string()));
}

#[test]
fn revoked_content_can_be_claimed_again() {
    let doc = "doc".to_string();
    let other = "other".to_string();
    let mut poe = Pallet::new();
    assert_eq!(poe.create_claim("alice".to_string(), doc.clone()), Ok(()));
    assert_eq!(poe.create_claim("alice".to_string(), other.clone()), Ok(()));
    assert_eq!(poe.revoke_claim("alice".to_string(), doc.clone()), Ok(()));
    assert_eq!(poe.get_claim(&doc), None);
    assert_eq!(poe.get_claim(&other), Some(&"alice".to_string()));
    assert_eq!(poe.create_claim("bob".to_string(), doc.clone()), Ok(()));
    assert_eq!(poe.get_claim(&doc), Some(&"bob".to_string()));
}

#[test]
fn proof_of_existence_dispatch_routes_calls() {
    let doc = "doc".to_string();
    let mut poe = Pallet::new();

    assert_eq!(poe.dispatch("alice".to_string(), Call::CreateClaim { claim: doc.clone() }), Ok(()));
    assert_eq!(poe.get_claim(&doc), Some(&"alice".to_string()));

    assert_eq!(
        poe.dispatch("bob".to_string(), Call::CreateClaim { claim: doc.clone() }),
        Err("this content is already claimed")
    );
    assert_eq!(
        poe.dispatch("bob".to_string(), Call::RevokeClaim { claim: doc.clone() }),
        Err("Caller is not the owner of the claim")
    );
    assert_eq!(poe.dispatch("alice".to_string(), Call::RevokeClaim { claim: doc.clone() }), Ok(()));
    assert_eq!(poe.get_claim(&doc), None);
    assert_eq!(
        poe.dispatch("alice".to_string(), Call::RevokeClaim { claim: doc.clone() }),
        Err("claim does not exist")
    );
}
