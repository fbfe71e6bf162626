use nx_gov::multisig::{MultisigVoting, ProposalState, State, UserRole, Vote, VoteRecord};
use nx_gov::types::{ReturnError, StablePrincipal};
use rand::Rng;

fn generate_random_principal() -> StablePrincipal {
    let mut rng = rand::thread_rng();
    let random_bytes: [u8; 29] = rng.gen();
    StablePrincipal::from_slice(&random_bytes).unwrap()
}

fn principal(bytes: &[u8]) -> StablePrincipal {
    StablePrincipal::from_slice(bytes).unwrap()
}

#[test]
fn test_config() {
    let m = MultisigVoting::new();
    let config = m.get_config();
    assert_eq!(config.name, "multisig-voting");
    assert_eq!(config.description, "An m-of-n multisig canister");
    assert!(!config.initialized);
    assert_eq!(config.governance_canister, StablePrincipal::anonymous());
    assert_eq!(config.votes_required, 2);
    assert_eq!(config.total_votes, 3);
    assert_eq!(config.vote_buffer_time, 900 * 1_000_000_000);
}

#[test]
fn test_init() {
    let mut m = MultisigVoting::new();
    m.config_set_initialized();
    assert!(m.config_is_initialized());
    let config = m.get_config();
    assert!(config.initialized);
}

#[test]
fn test_config_set_governance() {
    let mut m = MultisigVoting::new();
    let principal = generate_random_principal();
    m.config_set_governance(principal.clone());
    let config = m.get_config();
    assert_eq!(config.governance_canister, principal);
}

#[test]
fn test_config_set_name_description() {
    let mut m = MultisigVoting::new();
    m.config_set_name_description("test-name".to_string(), "test-description".to_string());
    let config = m.get_config();
    assert_eq!(config.name, "test-name");
    assert_eq!(config.description, "test-description");
}

#[test]
fn test_config_set_m_of_n() {
    let mut m = MultisigVoting::new();
    m.config_set_m_of_n(3, 4);
    let config = m.get_config();
    assert_eq!(config.votes_required, 3);
    assert_eq!(config.total_votes, 4);
}

#[test]
fn test_proposal_state() {
    let mut m = MultisigVoting::new();
    let index = 1;
    let expir = 1000u64;
    let state_open = ProposalState {
        expiration: expir,
        state: State::Open,
        vote_record: VoteRecord { yes_votes: vec![], no_votes: vec![], abstain_votes: vec![] },
    };
    let state_failed = ProposalState {
        expiration: expir,
        state: State::Failed,
        vote_record: VoteRecord { yes_votes: vec![], no_votes: vec![], abstain_votes: vec![] },
    };
    m.add_proposal_state(index, state_open.clone());
    let state_res = m.get_proposal_state(index).unwrap();
    assert_eq!(&state_open, state_res);

    m.add_proposal_state(index, state_failed.clone()); // no overwrite
    let state_res = m.get_proposal_state(index).unwrap();
    assert_eq!(&state_open, state_res);

    m.set_proposal_state(index, state_failed.clone()); // overwrite
    let state_res = m.get_proposal_state(index).unwrap();
    assert_eq!(&state_failed, state_res);

    m.add_proposal_state(index + 1, state_failed.clone());
    let state_res = m.get_proposal_state(index + 1).unwrap();
    assert_eq!(&state_failed, state_res);
}

fn two_of_three() -> (MultisigVoting, StablePrincipal, Vec<StablePrincipal>) {
    let mut m = MultisigVoting::new();
    let gov = principal(&[0x42]);
    let signers = vec![principal(&[1]), principal(&[2]), principal(&[3])];
    m.init(gov.clone(), 2, 3, signers.clone()).unwrap();
    (m, gov, signers)
}

#[test]
fn multisig_vote_passes_with_m_yes_votes() {
    let (mut m, gov, s) = two_of_three();
    let end = 10_000_000_000_000;
    m.notify_multisig(&gov, 7, end).unwrap();
    assert_eq!(m.get_open_proposals(), vec![7]);
    m.vote_proposal(&s[0], 7, Vote::Yes, 0).unwrap();
    assert_eq!(m.submit_vote_result(&s[0], 7, 0), Ok(false));
    assert_eq!(m.vote_proposal(&s[0], 7, Vote::No, 0), Err(ReturnError::AlreadyExists));
    m.vote_proposal(&s[1], 7, Vote::Abstain, 0).unwrap();
    m.vote_proposal(&s[2], 7, Vote::Yes, 0).unwrap();
    assert_eq!(m.submit_vote_result(&s[1], 7, 0), Ok(true));
    assert_eq!(m.get_proposal_state(7).unwrap().state, State::Passed);
    assert_eq!(m.submit_vote_result(&s[1], 7, end + 1), Ok(true));
    assert!(m.get_open_proposals().is_empty());
    let record = &m.get_proposal_state(7).unwrap().vote_record;
    assert_eq!(record.yes_votes, vec![s[0].clone(), s[2].clone()]);
    assert_eq!(record.abstain_votes, vec![s[1].clone()]);
}

#[test]
fn multisig_vote_guards() {
    let (mut m, gov, s) = two_of_three();
    let buffer = m.get_vote_buffer_time();
    let end = 10 * buffer;
    assert_eq!(m.notify_multisig(&s[0], 1, end), Err(ReturnError::Unauthorized));
    assert_eq!(m.vote_proposal(&s[0], 1, Vote::Yes, 0), Err(ReturnError::InvalidIndex));
    m.notify_multisig(&gov, 1, end).unwrap();
    assert_eq!(m.vote_proposal(&gov, 1, Vote::Yes, 0), Err(ReturnError::Unauthorized));
    assert_eq!(m.vote_proposal(&s[0], 1, Vote::Yes, end - buffer + 1), Err(ReturnError::Expired));
    assert_eq!(m.vote_proposal(&s[0], 1, Vote::Yes, end - buffer), Ok(()));
    assert_eq!(m.submit_vote_result(&s[0], 1, end + 1), Err(ReturnError::Expired));
    assert_eq!(m.get_proposal_state(1).unwrap().state, State::Failed);
    assert_eq!(m.get_num_proposals(), 1);
    assert_eq!(m.require_caller_is_signer(&s[2]), Ok(()));
    assert_eq!(m.require_caller_is_signer(&gov), Err(ReturnError::Unauthorized));
}

#[test]
fn multisig_settings() {
    let (mut m, gov, _) = two_of_three();
    assert_eq!(m.get_m_of_n(), (2, 3));
    assert_eq!(m.update_m_of_n(&gov, 3, 2, vec![principal(&[1]), principal(&[2])]), Err(ReturnError::InputError));
    assert_eq!(m.update_m_of_n(&gov, 1, 2, vec![principal(&[1]), principal(&[1])]), Err(ReturnError::AlreadyExists));
    assert_eq!(m.get_m_of_n(), (2, 3));
    assert_eq!(m.update_m_of_n(&gov, 1, 1, vec![principal(&[9])]), Ok(()));
    assert_eq!(m.get_m_of_n(), (1, 1));
    assert!(m.has_role(UserRole::Signer, &principal(&[9])));
    assert!(!m.has_role(UserRole::Signer, &principal(&[1])));
    assert_eq!(m.update_m_of_n(&principal(&[9]), 1, 1, vec![principal(&[9])]), Err(ReturnError::Unauthorized));
    m.set_name_description(&gov, "n".to_string(), "d".to_string()).unwrap();
    assert_eq!(m.get_name(), "n");
    assert_eq!(m.get_description(), "d");
    m.set_governance(&gov, principal(&[5])).unwrap();
    assert_eq!(m.get_governance(), &principal(&[5]));
    assert!(!m.is_initialized());
    assert_eq!(m.init(gov, 3, 2, vec![]), Err(ReturnError::InputError));
}

#[test]
fn multisig_sync_keeps_existing_votes() {
    let (mut m, gov, s) = two_of_three();
    m.notify_multisig(&gov, 1, 5_000_000_000_000).unwrap();
    m.vote_proposal(&s[0], 1, Vote::Yes, 0).unwrap();
    m.record_open_proposals(&vec![(1, 9), (2, 7_000_000_000_000)]);
    assert_eq!(m.get_proposal_state(1).unwrap().vote_record.yes_votes.len(), 1);
    assert_eq!(m.get_proposal_state(2).unwrap().expiration, 7_000_000_000_000);
    assert_eq!(m.get_open_proposals(), vec![1, 2]);
}

#[test]
fn multisig_role_lists() {
    let (mut m, gov, s) = two_of_three();
    assert_eq!(m.users_of_role(UserRole::Signer).len(), 3);
    m.remove_role_internal(UserRole::Signer, &s[0]);
    assert!(!m.has_role(UserRole::Signer, &s[0]));
    assert!(m.has_role(UserRole::Signer, &s[1]));
    assert_eq!(m.add_role_internal(UserRole::Admin, gov.clone()), Err(ReturnError::AlreadyExists));
    m.clear_users_of_role_internal(UserRole::Signer);
    assert!(m.users_of_role(UserRole::Signer).is_empty());
    assert_eq!(m.users_of_role(UserRole::Admin).len(), 1);
}

#[test]
fn multisig_sync_first_listing_counts() {
    let (mut m, _, _) = two_of_three();
    m.record_open_proposals(&vec![(3, 100), (3, 200)]);
    let st = m.get_proposal_state(3).unwrap();
    assert_eq!(st.expiration, 100);
    assert_eq!(st.state, State::Open);
    assert_eq!(m.get_num_proposals(), 1);
}
