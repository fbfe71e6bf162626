use nx_gov::access::UserRole;
use nx_gov::dispatch::{CallOutcome, DispatchAction};
use nx_gov::execution::{CanisterMessage, PostValidateTarget, PreValidateTarget, ProposalPayload};
use nx_gov::governance::Governance;
use nx_gov::proposal::{ExecutionStep, ExecutionStepState, ProposalMetadata, ProposalState};
use nx_gov::types::{Percentage, ProposalPassingThreshold, ReturnError, Schedule, StablePrincipal};

const NOW: u64 = 1_700_000_000_000_000_000;
const DAY: u64 = 86_400_000_000_000;

fn principal(bytes: &[u8]) -> StablePrincipal {
    StablePrincipal::from_slice(bytes).unwrap()
}

fn admin() -> StablePrincipal {
    principal(&[1, 1, 1])
}
fn validator() -> StablePrincipal {
    principal(&[2, 2])
}
fn vote_manager() -> StablePrincipal {
    principal(&[3])
}
fn executor() -> StablePrincipal {
    principal(&[5, 5])
}
fn force_executor() -> StablePrincipal {
    principal(&[6])
}
fn revoker() -> StablePrincipal {
    principal(&[7, 7, 7])
}

fn engine() -> Governance {
    let mut g = Governance::new(admin());
    let a = admin();
    g.add_role(&a, UserRole::Validator, validator()).unwrap();
    g.add_role(&a, UserRole::VoteManager, vote_manager()).unwrap();
    g.add_role(&a, UserRole::Executor, executor()).unwrap();
    g.add_role(&a, UserRole::ForceExecutor, force_executor()).unwrap();
    g.add_role(&a, UserRole::Revoker, revoker()).unwrap();
    g
}

fn metadata() -> ProposalMetadata {
    ProposalMetadata { name: String::from("Test"), description: String::from("AAA"), memo: vec![] }
}

fn empty_payload() -> ProposalPayload {
    ProposalPayload { depends_on: vec![], messages: vec![] }
}

fn threshold(percent: u8) -> ProposalPassingThreshold {
    ProposalPassingThreshold {
        quorum: Percentage::<u16>::from_percent(percent),
        passing_threshold: Percentage::<u16>::from_percent(percent),
    }
}

fn message(pre: bool, post: bool) -> CanisterMessage {
    CanisterMessage {
        canister_id: principal(&[9, 9]),
        method: String::from("increment"),
        message: vec![0x44, 0x49, 0x44, 0x4c, 0, 0],
        payment: 0,
        pre_validate: if pre {
            Some(PreValidateTarget {
                canister_id: principal(&[8]),
                method: String::from("check"),
                payload: vec![1, 2],
                payment: 0,
            })
        } else {
            None
        },
        post_validate: if post {
            Some(PostValidateTarget { canister_id: principal(&[8]), method: String::from("verify"), payment: 0 })
        } else {
            None
        },
    }
}

fn anonymous() -> StablePrincipal {
    StablePrincipal::anonymous()
}

fn submit(g: &mut Governance, payload: ProposalPayload, activates: Schedule, expires: Schedule) -> u64 {
    g.submit(&anonymous(), metadata(), payload, activates, expires, false, NOW).unwrap()
}

fn open(g: &mut Governance, id: u64, percent: u8) -> u64 {
    let end = NOW + 5 * DAY;
    g.validate(&validator(), id, Some(end), Some(threshold(percent)), true, NOW).unwrap();
    end
}

fn accept(g: &mut Governance, id: u64) {
    g.update_vote_result_and_total_voting_power(&vote_manager(), id, 1, 0, 0, 1, NOW).unwrap();
    assert_eq!(g.get_proposal(id).unwrap().state, ProposalState::Accepted);
}

fn bool_reply(b: bool) -> CallOutcome {
    CallOutcome::Reply(candid::encode_one(b).unwrap())
}

#[test]
fn test_rs_nx_gov_main_src_test_rs() {
    let mut g = Governance::new(principal(&[0xab; 10]));
    let metadata = ProposalMetadata {
        name: String::from("Test proposal 0"),
        description: String::from("AAA"),
        memo: vec![],
    };
    let payload = ProposalPayload { depends_on: vec![], messages: vec![] };
    let activates = Schedule::At(0);
    let expires = Schedule::In(100000000000000000);
    let auto_execute: bool = false;
    let res = g.submit(&StablePrincipal::anonymous(), metadata, payload, activates, expires, auto_execute, NOW);
    assert_eq!(res, Ok(0));
    let skip: u64 = 0;
    let take: u64 = 1;
    let states = g.get_proposal_states(skip, take);
    assert_eq!(states, vec![ProposalState::Submitted]);
}

#[test]
fn validator_accept_opens_vote() {
    let mut g = engine();
    let id = submit(&mut g, empty_payload(), Schedule::At(0), Schedule::In(100000000000000000));
    let end = open(&mut g, id, 20);
    let p = g.get_proposal(id).unwrap();
    assert_eq!(p.state, ProposalState::Open);
    assert_eq!(p.validated, Some(true));
    assert_eq!(p.voting_end_time, Some(end));
    assert_eq!(g.get_all_open_proposal_ids_with_expiration(), vec![(0, end)]);
    assert!(g.get_all_submitted_proposal_ids().is_empty());
}

#[test]
fn quorum_not_met_at_expiry() {
    let mut g = engine();
    let id = submit(&mut g, empty_payload(), Schedule::At(0), Schedule::In(100 * DAY));
    let end = open(&mut g, id, 20);
    g.update_total_voting_power(&vote_manager(), id, 10, NOW).unwrap();
    g.update_vote_result(&vote_manager(), id, 1, 0, 0, NOW).unwrap();
    assert_eq!(g.get_proposal(id).unwrap().state, ProposalState::Open);
    g.finalize_vote_result(&vote_manager(), id, end + 1).unwrap();
    assert_eq!(g.get_proposal(id).unwrap().state, ProposalState::QuorumNotMet);
}

fn split_vote(percent: u8) -> ProposalState {
    let mut g = engine();
    let id = submit(&mut g, empty_payload(), Schedule::At(0), Schedule::In(100 * DAY));
    let end = open(&mut g, id, percent);
    let vm = vote_manager();
    g.update_total_voting_power(&vm, id, 10, NOW).unwrap();
    g.update_vote_result(&vm, id, 4, 0, 0, NOW).unwrap();
    g.update_vote_result(&vm, id, 0, 5, 0, NOW).unwrap();
    g.update_vote_result(&vm, id, 0, 0, 1, NOW).unwrap();
    assert_eq!(g.get_proposal(id).unwrap().state, ProposalState::Open);
    g.finalize_vote_result(&vm, id, end + 1).unwrap();
    let p = g.get_proposal(id).unwrap();
    assert_eq!(p.current_participation_rate().0, 40_000);
    assert_eq!(p.current_yes_rate().0, 17_777);
    p.state
}

#[test]
fn split_vote_passes_low_threshold() {
    assert_eq!(split_vote(20), ProposalState::Accepted);
}

#[test]
fn split_vote_rejected_at_half() {
    assert_eq!(split_vote(50), ProposalState::Rejected);
}

#[test]
fn acceptance_freezes_schedules() {
    let mut g = engine();
    let id = submit(&mut g, empty_payload(), Schedule::In(10), Schedule::In(100 * DAY));
    open(&mut g, id, 20);
    accept(&mut g, id);
    let p = g.get_proposal(id).unwrap();
    assert_eq!(p.activates, Schedule::At(NOW + 10));
    assert_eq!(p.expires, Schedule::At(NOW + 100 * DAY));
}

#[test]
fn dependency_gating() {
    let mut g = engine();
    let a = submit(&mut g, empty_payload(), Schedule::At(0), Schedule::In(100 * DAY));
    let deps = ProposalPayload { depends_on: vec![a], messages: vec![] };
    let b = submit(&mut g, deps, Schedule::At(0), Schedule::In(100 * DAY));
    open(&mut g, b, 20);
    accept(&mut g, b);
    assert_eq!(g.execute(&executor(), b, NOW).err(), Some(ReturnError::DependentProposalNotReady));
    open(&mut g, a, 20);
    assert_eq!(g.execute(&executor(), b, NOW).err(), Some(ReturnError::DependentProposalNotReady));
    g.revoke(&revoker(), a, String::from("obsolete"), NOW).unwrap();
    assert_eq!(g.get_proposal(a).unwrap().state, ProposalState::Revoked);
    assert_eq!(g.execute(&executor(), b, NOW).err(), Some(ReturnError::DependentProposalNotSucceeded));
    assert_eq!(g.get_proposal(b).unwrap().state, ProposalState::Accepted);
    let rec = g.get_proposal_revoke(0).unwrap();
    assert_eq!(rec.proposal_id, a);
    assert_eq!(rec.reason, "obsolete");
    assert_eq!(rec.revoked_at, NOW);
}

#[test]
fn dependency_on_succeeded_proposal_runs() {
    let mut g = engine();
    let a = submit(&mut g, empty_payload(), Schedule::At(0), Schedule::In(100 * DAY));
    open(&mut g, a, 20);
    accept(&mut g, a);
    let done = g.execute(&executor(), a, NOW).unwrap();
    assert!(matches!(done, DispatchAction::Done(Ok(()))));
    assert_eq!(g.get_proposal(a).unwrap().state, ProposalState::Succeeded);
    let deps = ProposalPayload { depends_on: vec![a], messages: vec![] };
    let b = submit(&mut g, deps, Schedule::At(0), Schedule::In(100 * DAY));
    open(&mut g, b, 20);
    accept(&mut g, b);
    assert!(matches!(g.execute(&executor(), b, NOW), Ok(DispatchAction::Done(Ok(())))));
}

#[test]
fn failing_pre_validation() {
    let mut g = engine();
    let payload = ProposalPayload { depends_on: vec![], messages: vec![message(true, false)] };
    let id = submit(&mut g, payload, Schedule::At(0), Schedule::In(100 * DAY));
    open(&mut g, id, 20);
    accept(&mut g, id);
    let first = g.execute(&executor(), id, NOW).unwrap();
    assert!(matches!(first, DispatchAction::PreValidate { step: 0 }));
    let end = g.resume_execution(id, bool_reply(false), NOW);
    assert!(matches!(end, DispatchAction::Done(Err(ReturnError::PreValidateFailed))));
    assert_eq!(
        g.get_proposal(id).unwrap().state,
        ProposalState::Failed(ExecutionStep { step: 0, state: ExecutionStepState::PreValidateFailed })
    );
    assert!(g.get_proposal_exec(id).is_none());
    assert_eq!(g.get_proposal_execution_result(id).err(), Some(ReturnError::InvalidIndex));
}

#[test]
fn undecodable_pre_validation_reply_is_a_call_error() {
    let mut g = engine();
    let payload = ProposalPayload { depends_on: vec![], messages: vec![message(true, false)] };
    let id = submit(&mut g, payload, Schedule::At(0), Schedule::In(100 * DAY));
    open(&mut g, id, 20);
    accept(&mut g, id);
    g.execute(&executor(), id, NOW).unwrap();
    let end = g.resume_execution(id, CallOutcome::Reply(vec![1, 2, 3]), NOW);
    assert!(matches!(end, DispatchAction::Done(Err(ReturnError::InterCanisterCallError))));
    assert_eq!(
        g.get_proposal(id).unwrap().state,
        ProposalState::Failed(ExecutionStep { step: 0, state: ExecutionStepState::PreValidateCallError })
    );
}

#[test]
fn full_execution_with_validation() {
    let mut g = engine();
    let payload = ProposalPayload { depends_on: vec![], messages: vec![message(true, true), message(false, false)] };
    let id = submit(&mut g, payload, Schedule::At(0), Schedule::In(100 * DAY));
    open(&mut g, id, 20);
    accept(&mut g, id);
    assert!(matches!(g.execute(&executor(), id, NOW).unwrap(), DispatchAction::PreValidate { step: 0 }));
    assert!(matches!(g.resume_execution(id, bool_reply(true), NOW), DispatchAction::Call { step: 0 }));
    match g.resume_execution(id, CallOutcome::Reply(vec![7, 7]), NOW) {
        DispatchAction::PostValidate { step, payload } => {
            assert_eq!(step, 0);
            assert_eq!(payload.method, "increment");
            assert_eq!(payload.response, vec![7, 7]);
            assert_eq!(payload.canister_id, principal(&[9, 9]));
        }
        _ => panic!("expected a post-validation"),
    }
    assert_eq!(
        g.get_proposal(id).unwrap().state,
        ProposalState::Executing(ExecutionStep { step: 0, state: ExecutionStepState::PostValidating })
    );
    assert!(matches!(g.resume_execution(id, bool_reply(true), NOW), DispatchAction::Call { step: 1 }));
    assert!(matches!(g.resume_execution(id, CallOutcome::Reply(vec![1]), NOW), DispatchAction::Done(Ok(()))));
    assert_eq!(g.get_proposal(id).unwrap().state, ProposalState::Succeeded);
    let exec = g.get_proposal_exec(id).unwrap();
    assert_eq!(exec.execution_result.len(), 2);
    assert_eq!(exec.execution_result[0].0, Ok(vec![7, 7]));
}

#[test]
fn failing_message_call_records_result() {
    let mut g = engine();
    let payload = ProposalPayload { depends_on: vec![], messages: vec![message(false, false), message(false, false)] };
    let id = submit(&mut g, payload, Schedule::At(0), Schedule::In(100 * DAY));
    open(&mut g, id, 20);
    accept(&mut g, id);
    assert!(matches!(g.execute(&executor(), id, NOW).unwrap(), DispatchAction::Call { step: 0 }));
    assert!(matches!(g.resume_execution(id, CallOutcome::Reply(vec![]), NOW), DispatchAction::Call { step: 1 }));
    let end = g.resume_execution(id, CallOutcome::Reject(4, String::from("canister rejected")), NOW);
    assert!(matches!(end, DispatchAction::Done(Err(ReturnError::InterCanisterCallError))));
    assert_eq!(
        g.get_proposal(id).unwrap().state,
        ProposalState::Failed(ExecutionStep { step: 1, state: ExecutionStepState::ExecutionCallError })
    );
    let exec = g.get_proposal_exec(id).unwrap();
    assert_eq!(exec.execution_result.len(), 2);
    assert_eq!(exec.execution_result[1].0, Err((4, String::from("canister rejected"))));
    assert!(matches!(
        g.resume_execution(id, CallOutcome::Reply(vec![]), NOW),
        DispatchAction::Done(Err(ReturnError::IncorrectProposalState))
    ));
}

#[test]
fn failing_post_validation() {
    let mut g = engine();
    let payload = ProposalPayload { depends_on: vec![], messages: vec![message(false, true)] };
    let id = submit(&mut g, payload, Schedule::At(0), Schedule::In(100 * DAY));
    open(&mut g, id, 20);
    accept(&mut g, id);
    g.execute(&executor(), id, NOW).unwrap();
    g.resume_execution(id, CallOutcome::Reply(vec![5]), NOW);
    let end = g.resume_execution(id, bool_reply(false), NOW);
    assert!(matches!(end, DispatchAction::Done(Err(ReturnError::PostValidateFailed))));
    assert_eq!(
        g.get_proposal(id).unwrap().state,
        ProposalState::Failed(ExecutionStep { step: 0, state: ExecutionStepState::PostValidateFailed })
    );
}

#[test]
fn execution_expires_between_messages() {
    let mut g = engine();
    let payload = ProposalPayload { depends_on: vec![], messages: vec![message(false, false), message(false, false)] };
    let id = submit(&mut g, payload, Schedule::At(0), Schedule::In(10 * DAY));
    open(&mut g, id, 20);
    accept(&mut g, id);
    g.execute(&executor(), id, NOW).unwrap();
    let end = g.resume_execution(id, CallOutcome::Reply(vec![]), NOW + 11 * DAY);
    assert!(matches!(end, DispatchAction::Done(Err(ReturnError::Expired))));
    assert_eq!(g.get_proposal(id).unwrap().state, ProposalState::Expired);
}

#[test]
fn force_execute_bypasses_vote() {
    let mut g = engine();
    let payload = ProposalPayload { depends_on: vec![], messages: vec![message(false, false)] };
    let id = submit(&mut g, payload, Schedule::At(0), Schedule::At(u64::MAX));
    open(&mut g, id, 20);
    let first = g.force_execute(&force_executor(), id, NOW).unwrap();
    assert!(matches!(first, DispatchAction::Call { step: 0 }));
    assert_eq!(
        g.get_proposal(id).unwrap().state,
        ProposalState::ForceExecuting(ExecutionStep { step: 0, state: ExecutionStepState::Executing })
    );
    let end = g.resume_execution(id, CallOutcome::Reply(vec![1]), NOW);
    assert!(matches!(end, DispatchAction::Done(Ok(()))));
    assert_eq!(g.get_proposal(id).unwrap().state, ProposalState::ForceExecutionSucceeded);
    assert_eq!(g.get_proposal_exec(id).unwrap().execution_result.len(), 1);
}

#[test]
fn force_execute_empty_payload() {
    let mut g = engine();
    let id = submit(&mut g, empty_payload(), Schedule::At(0), Schedule::At(u64::MAX));
    open(&mut g, id, 20);
    assert!(matches!(g.force_execute(&force_executor(), id, NOW), Ok(DispatchAction::Done(Ok(())))));
    assert_eq!(g.get_proposal(id).unwrap().state, ProposalState::ForceExecutionSucceeded);
}

#[test]
fn force_execute_needs_absolute_schedules() {
    let mut g = engine();
    let id = submit(&mut g, empty_payload(), Schedule::At(0), Schedule::In(100 * DAY));
    open(&mut g, id, 20);
    assert_eq!(g.force_execute(&force_executor(), id, NOW).err(), Some(ReturnError::IncorrectProposalState));
    assert_eq!(g.get_proposal(id).unwrap().state, ProposalState::Open);
}

#[test]
fn vote_round_trip_restores_tallies() {
    let mut g = engine();
    let cfg = nx_gov::governance::Config { voting_may_end_early: false, ..g.get_config().clone() };
    g.update_config(&admin(), cfg).unwrap();
    let id = submit(&mut g, empty_payload(), Schedule::At(0), Schedule::In(100 * DAY));
    open(&mut g, id, 20);
    let vm = vote_manager();
    g.update_total_voting_power(&vm, id, 100, NOW).unwrap();
    g.update_vote_result(&vm, id, 10, 20, 5, NOW).unwrap();
    g.update_vote_result(&vm, id, 3, 4, 5, NOW).unwrap();
    g.update_vote_result(&vm, id, -3, -4, -5, NOW).unwrap();
    let p = g.get_proposal(id).unwrap();
    assert_eq!((p.votes_yes, p.votes_no, p.votes_abstain, p.total_voting_power), (10, 20, 5, 100));
    assert_eq!(p.state, ProposalState::Open);
}

#[test]
fn failed_validation_is_final() {
    let mut g = engine();
    let id = submit(&mut g, empty_payload(), Schedule::At(0), Schedule::In(100 * DAY));
    g.validate(&validator(), id, None, None, false, NOW).unwrap();
    assert_eq!(g.get_proposal(id).unwrap().state, ProposalState::ValidationFailed);
    let again = g.validate(&validator(), id, Some(NOW + 5 * DAY), Some(threshold(20)), true, NOW);
    assert_eq!(again, Err(ReturnError::IncorrectProposalState));
    assert_eq!(g.validate(&validator(), id, None, None, false, NOW), Err(ReturnError::IncorrectProposalState));
}

#[test]
fn validation_input_checks() {
    let mut g = engine();
    let id = submit(&mut g, empty_payload(), Schedule::At(0), Schedule::In(100 * DAY));
    let v = validator();
    assert_eq!(g.validate(&v, id, Some(NOW + DAY), Some(threshold(20)), true, NOW), Err(ReturnError::InputError));
    assert_eq!(g.validate(&v, id, Some(NOW + 5 * DAY), Some(threshold(10)), true, NOW), Err(ReturnError::InputError));
    assert_eq!(g.validate(&v, id, Some(NOW + 5 * DAY), None, true, NOW), Err(ReturnError::InputError));
    let too_big = ProposalPassingThreshold { quorum: Percentage(40_001), passing_threshold: Percentage(8_000) };
    assert_eq!(g.validate(&v, id, Some(NOW + 5 * DAY), Some(too_big), true, NOW), Err(ReturnError::InputError));
    let min_end = NOW + nx_gov::governance::DEFAULT_MIN_VOTING_PERIOD;
    assert_eq!(g.validate(&v, id, Some(min_end), Some(threshold(20)), true, NOW), Ok(()));
    assert_eq!(g.validate(&v, 7, Some(min_end), Some(threshold(20)), true, NOW), Err(ReturnError::InvalidIndex));
    assert_eq!(g.validate(&admin(), id, None, None, false, NOW), Err(ReturnError::Unauthorized));
}

#[test]
fn submit_input_checks() {
    let mut g = engine();
    let anon = anonymous();
    let no_name = ProposalMetadata { name: String::new(), description: String::from("x"), memo: vec![] };
    assert_eq!(
        g.submit(&anon, no_name, empty_payload(), Schedule::At(0), Schedule::In(1), false, NOW),
        Err(ReturnError::InputError)
    );
    let future_dep = ProposalPayload { depends_on: vec![0], messages: vec![] };
    assert_eq!(
        g.submit(&anon, metadata(), future_dep, Schedule::At(0), Schedule::In(1), false, NOW),
        Err(ReturnError::InputError)
    );
    let mut no_method = message(false, false);
    no_method.method = String::new();
    let bad = ProposalPayload { depends_on: vec![], messages: vec![no_method] };
    assert_eq!(g.submit(&anon, metadata(), bad, Schedule::At(0), Schedule::In(1), false, NOW), Err(ReturnError::InputError));
    assert_eq!(
        g.submit(&anon, metadata(), empty_payload(), Schedule::At(0), Schedule::At(NOW), false, NOW),
        Err(ReturnError::InputError)
    );
    assert_eq!(
        g.submit(&validator(), metadata(), empty_payload(), Schedule::At(0), Schedule::In(1), false, NOW),
        Err(ReturnError::Unauthorized)
    );
    assert_eq!(g.get_next_proposal_id(), 0);
    assert_eq!(g.submit(&anon, metadata(), empty_payload(), Schedule::At(0), Schedule::In(1), false, NOW), Ok(0));
    assert_eq!(g.submit(&anon, metadata(), empty_payload(), Schedule::At(0), Schedule::In(1), true, NOW), Ok(1));
    assert_eq!(g.get_next_proposal_id(), 2);
    assert_eq!(g.get_proposal_metadata(1).unwrap().name, "Test");
    assert!(g.get_proposal_payload(2).is_none());
    assert!(g.get_proposal(1).unwrap().auto_execute);
    assert_eq!(g.get_proposal_states(1, 5), vec![ProposalState::Submitted]);
    assert_eq!(g.get_proposal_states(5, 1), Vec::<ProposalState>::new());
    assert_eq!(g.get_all_submitted_proposal_ids(), vec![0, 1]);
}

#[test]
fn hooks_queue_timer_tasks() {
    let mut g = engine();
    let cfg = nx_gov::governance::Config {
        validator_hook: Some(validator()),
        vote_manager_hook: Some(vote_manager()),
        ..g.get_config().clone()
    };
    g.update_config(&admin(), cfg).unwrap();
    let id = submit(&mut g, empty_payload(), Schedule::At(0), Schedule::In(100 * DAY));
    assert_eq!(g.timer_tasks(), &vec![id]);
    open(&mut g, id, 20);
    assert_eq!(g.pop_timer_task(), Some(id));
    assert_eq!(g.pop_timer_task(), Some(id));
    assert_eq!(g.pop_timer_task(), None);
}

#[test]
fn vote_update_errors() {
    let mut g = engine();
    let id = submit(&mut g, empty_payload(), Schedule::At(0), Schedule::In(100 * DAY));
    let vm = vote_manager();
    assert_eq!(g.update_vote_result(&vm, id, 1, 0, 0, NOW), Err(ReturnError::Expired));
    let end = open(&mut g, id, 20);
    g.update_total_voting_power(&vm, id, 10, NOW).unwrap();
    assert_eq!(g.update_vote_result(&vm, id, -1, 0, 0, NOW), Err(ReturnError::ArithmeticError));
    assert_eq!(g.update_vote_result(&vm, id, 6, 5, 0, NOW), Err(ReturnError::ArithmeticError));
    assert_eq!(g.update_vote_result(&vm, id, i128::MAX, 0, 0, NOW), Err(ReturnError::ArithmeticError));
    assert_eq!(g.update_total_voting_power(&vm, id, -1, NOW), Err(ReturnError::ArithmeticError));
    assert_eq!(g.update_vote_result(&vm, 9, 1, 0, 0, NOW), Err(ReturnError::InvalidIndex));
    assert_eq!(g.update_vote_result(&admin(), id, 1, 0, 0, NOW), Err(ReturnError::Unauthorized));
    assert_eq!(g.update_vote_result(&vm, id, 1, 0, 0, end), Err(ReturnError::Expired));
    g.update_vote_result(&vm, id, 2, 3, 0, NOW).unwrap();
    assert_eq!(g.update_total_voting_power(&vm, id, 4, NOW), Err(ReturnError::ArithmeticError));
    let p = g.get_proposal(id).unwrap();
    assert_eq!((p.votes_yes, p.votes_no, p.total_voting_power), (2, 3, 10));
    assert_eq!(g.finalize_vote_result(&vm, 9, NOW), Err(ReturnError::InvalidIndex));
}

#[test]
fn full_participation_is_allowed() {
    let mut g = engine();
    let cfg = nx_gov::governance::Config { voting_may_end_early: false, ..g.get_config().clone() };
    g.update_config(&admin(), cfg).unwrap();
    let id = submit(&mut g, empty_payload(), Schedule::At(0), Schedule::In(100 * DAY));
    open(&mut g, id, 20);
    assert_eq!(g.update_vote_result_and_total_voting_power(&vote_manager(), id, 3, 3, 4, 10, NOW), Ok(()));
    assert_eq!(g.get_proposal(id).unwrap().state, ProposalState::Open);
}

#[test]
fn revoke_needs_open_proposal() {
    let mut g = engine();
    let id = submit(&mut g, empty_payload(), Schedule::At(0), Schedule::In(100 * DAY));
    assert_eq!(g.revoke(&revoker(), id, String::from("r"), NOW), Err(ReturnError::IncorrectProposalState));
    assert_eq!(g.revoke(&executor(), id, String::from("r"), NOW), Err(ReturnError::Unauthorized));
    open(&mut g, id, 20);
    assert_eq!(g.revoke(&revoker(), id, String::from("r"), NOW), Ok(()));
    assert_eq!(g.revoke(&revoker(), id, String::from("r"), NOW), Err(ReturnError::IncorrectProposalState));
    assert!(g.get_proposal_revoke(1).is_none());
}

#[test]
fn execute_guards() {
    let mut g = engine();
    let id = submit(&mut g, empty_payload(), Schedule::At(NOW + DAY), Schedule::In(100 * DAY));
    assert_eq!(g.execute(&executor(), id, NOW).err(), Some(ReturnError::IncorrectProposalState));
    assert_eq!(g.execute(&admin(), id, NOW).err(), Some(ReturnError::Unauthorized));
    assert_eq!(g.execute(&executor(), 4, NOW).err(), Some(ReturnError::InvalidIndex));
    open(&mut g, id, 20);
    accept(&mut g, id);
    assert_eq!(g.execute(&executor(), id, NOW).err(), Some(ReturnError::IncorrectProposalState));
    assert!(matches!(g.execute(&executor(), id, NOW + 2 * DAY), Ok(DispatchAction::Done(Ok(())))));
}

#[test]
fn execute_finalizes_open_vote() {
    let mut g = engine();
    let cfg = nx_gov::governance::Config { voting_may_end_early: false, ..g.get_config().clone() };
    g.update_config(&admin(), cfg).unwrap();
    let id = submit(&mut g, empty_payload(), Schedule::At(0), Schedule::In(100 * DAY));
    open(&mut g, id, 20);
    g.update_vote_result_and_total_voting_power(&vote_manager(), id, 3, 0, 0, 4, NOW).unwrap();
    assert_eq!(g.get_proposal(id).unwrap().state, ProposalState::Open);
    assert!(matches!(g.execute(&executor(), id, NOW), Ok(DispatchAction::Done(Ok(())))));
    assert_eq!(g.get_proposal(id).unwrap().state, ProposalState::Succeeded);
}

#[test]
fn config_and_initialization() {
    let mut g = Governance::new(admin());
    let cfg = g.get_config();
    assert_eq!(cfg.name, "nx-gov");
    assert_eq!(cfg.min_voting_period, 3 * DAY);
    assert_eq!(cfg.min_passing_threshold, threshold(20));
    assert!(cfg.voting_may_end_early);
    assert!(!g.config_is_initialized());
    g.config_set_initialized();
    assert!(g.config_is_initialized());
    assert!(g.has_role(UserRole::Proposer, &anonymous()));
    assert!(g.has_role(UserRole::Admin, &admin()));
    assert_eq!(g.require_caller_has_role(UserRole::Admin, &admin()), Ok(()));
    assert_eq!(g.require_caller_has_role(UserRole::Executor, &admin()), Err(ReturnError::Unauthorized));
    let cfg = g.get_config().clone();
    assert_eq!(g.update_config(&anonymous(), cfg), Err(ReturnError::Unauthorized));
}
