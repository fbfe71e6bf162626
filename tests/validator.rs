use nx_gov::execution::{CanisterMessage, PreValidateTarget, ProposalPayload};
use nx_gov::types::{ReturnError, StablePrincipal};
use nx_gov::validator::{SimpleValidator, VOTING_PERIOD};

fn principal(bytes: &[u8]) -> StablePrincipal {
    StablePrincipal::from_slice(bytes).unwrap()
}

fn call(target: &[u8]) -> CanisterMessage {
    CanisterMessage {
        canister_id: principal(target),
        method: String::from("run"),
        message: vec![],
        payment: 0,
        pre_validate: None,
        post_validate: None,
    }
}

fn set_up() -> (SimpleValidator, StablePrincipal) {
    let mut v = SimpleValidator::new();
    let gov = principal(&[0x10]);
    v.init(gov.clone(), principal(&[0x20]));
    (v, gov)
}

#[test]
fn validator_defaults() {
    let v = SimpleValidator::new();
    assert_eq!(v.get_name(), "simple-validator");
    assert_eq!(v.get_description(), "A simple validator for NX Governance");
    assert!(!v.is_initialized());
    assert_eq!(v.get_governance(), &StablePrincipal::anonymous());
    assert!(v.get_call_target_whitelist().is_empty());
}

#[test]
fn validator_admits_whitelisted_targets() {
    let (mut v, gov) = set_up();
    let own = ProposalPayload { depends_on: vec![0, 2], messages: vec![call(&[0x20])] };
    assert!(v.validate_payload(3, &own));
    assert!(!v.validate_payload(2, &own));
    let other = ProposalPayload { depends_on: vec![], messages: vec![call(&[0x30])] };
    assert!(!v.validate_payload(3, &other));
    assert_eq!(v.add_call_targets_to_whitelist(&principal(&[1]), vec![principal(&[0x30])]), Err(ReturnError::Unauthorized));
    v.add_call_targets_to_whitelist(&gov, vec![principal(&[0x30]), principal(&[0x20])]).unwrap();
    assert_eq!(v.get_call_target_whitelist().len(), 2);
    assert!(v.validate_payload(3, &other));
    let mut guarded = call(&[0x30]);
    guarded.pre_validate =
        Some(PreValidateTarget { canister_id: principal(&[0x30]), method: String::from("ok"), payload: vec![], payment: 0 });
    let guarded = ProposalPayload { depends_on: vec![], messages: vec![guarded] };
    assert!(!v.validate_payload(3, &guarded));
}

#[test]
fn validator_response() {
    let (v, gov) = set_up();
    let now = 1_000;
    let own = ProposalPayload { depends_on: vec![], messages: vec![call(&[0x20])] };
    let r = v.notify_validator(&gov, 0, &own, now).unwrap();
    assert!(r.validated);
    assert_eq!(r.voting_end_time, Some(now + 5 * 86_400 * 1_000_000_000));
    assert_eq!(r.passing_threshold.unwrap().quorum.0, 8_000);
    let bad = ProposalPayload { depends_on: vec![0], messages: vec![] };
    let r = v.validate_and_respond(0, &bad, now);
    assert!(!r.validated);
    assert_eq!(r.voting_end_time, None);
    assert_eq!(v.notify_validator(&principal(&[1]), 0, &own, now).err(), Some(ReturnError::Unauthorized));
    let (end, _) = v.set_threshold(&own, u64::MAX - 1);
    assert_eq!(end, u64::MAX);
    assert_eq!(VOTING_PERIOD, 432_000_000_000_000);
}

#[test]
fn validator_records_decisions() {
    let (mut v, gov) = set_up();
    assert_eq!(v.get_proposal_validation(4), None);
    v.add_proposal_validation(4, true);
    assert_eq!(v.get_proposal_validation(4), Some(1));
    v.add_proposal_validation(4, false);
    assert_eq!(v.get_proposal_validation(4), Some(1));
    v.set_proposal_validation(4, false);
    assert_eq!(v.get_proposal_validation(4), Some(0));
    v.set_governance(&gov, principal(&[0x11])).unwrap();
    assert_eq!(v.get_governance(), &principal(&[0x11]));
    v.config_set_initialized();
    assert!(v.config_is_initialized());
    let mut cfg = v.get_config().clone();
    cfg.name = String::from("renamed");
    assert_eq!(v.set_config(&principal(&[9]), cfg.clone()), Err(ReturnError::Unauthorized));
    v.set_config(&gov, cfg).unwrap();
    assert_eq!(v.get_name(), "renamed");
}
