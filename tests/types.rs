use nx_gov::proposal::{
    ExecutionStep, ExecutionStepError, ExecutionStepState, Proposal, ProposalError, ProposalState,
};
use nx_gov::types::{Percentage, ProposalPassingThreshold, Schedule, StablePrincipal};

#[test]
fn percentages_scale() {
    assert_eq!(Percentage::<u16>::from_percent(20).0, 8_000);
    assert_eq!(Percentage::<u16>::from_percent(100).0, 40_000);
    assert_eq!(Percentage::<u16>::from_basis_points(125).0, 500);
    assert_eq!(Percentage::<u16>::from_ppm(1_000_000).0, 40_000);
    assert_eq!(Percentage::<u16>::from_ppb(1_000_000_000).0, 40_000);
    assert_eq!(Percentage::<u16>::from_ppb(24_999).0, 0);
    assert_eq!(Percentage::<u32>::from_percent(100).0, 4_000_000_000);
    assert_eq!(Percentage::<u32>::from_basis_points(1).0, 400_000);
    assert_eq!(Percentage::<u32>::from_ppm(3).0, 12_000);
    assert_eq!(Percentage::<u32>::from_ppb(5).0, 20);
    assert!(Percentage::<u16>::from_percent(100).is_valid());
    assert!(!Percentage::<u16>(40_001).is_valid());
    assert!(!Percentage::<u32>(4_000_000_001).is_valid());
}

#[test]
fn thresholds_compare_componentwise() {
    let low = ProposalPassingThreshold::default();
    let mixed = ProposalPassingThreshold { quorum: Percentage(9_000), passing_threshold: Percentage(7_000) };
    assert!(low.all_fields_gte(&low));
    assert!(!mixed.all_fields_gte(&low));
    assert!(low.is_valid());
}

#[test]
fn schedules() {
    let mut s = Schedule::In(5);
    assert!(!s.is_absolute());
    assert!(s.is_in_future(1_000));
    assert_eq!(s.to_timestamp(), None);
    s.convert_to_absolute(100);
    assert_eq!(s, Schedule::At(105));
    s.convert_to_absolute(200);
    assert_eq!(s, Schedule::At(105));
    assert!(!s.is_in_future(105));
    assert_eq!(s.to_timestamp(), Some(105));
    let mut far = Schedule::In(u64::MAX);
    far.convert_to_absolute(2);
    assert_eq!(far, Schedule::At(u64::MAX));
}

#[test]
fn step_machine() {
    let mut step = ExecutionStep::new(3);
    assert_eq!(step.state_transition(ExecutionStepState::PostValidating), Err(ExecutionStepError::StateTransitionError));
    assert_eq!(step.state_transition(ExecutionStepState::PreValidating), Ok(ExecutionStepState::NotStarted));
    assert_eq!(step.state_transition(ExecutionStepState::Executing), Ok(ExecutionStepState::PreValidating));
    assert_eq!(step.state_transition(ExecutionStepState::Succeeded), Ok(ExecutionStepState::Executing));
    assert_eq!(step.state_transition(ExecutionStepState::Executing), Err(ExecutionStepError::StateTransitionError));
    assert_eq!(step, ExecutionStep { step: 3, state: ExecutionStepState::Succeeded });
}

fn proposal() -> Proposal {
    Proposal::from_submit(0, 0, false, Schedule::At(0), Schedule::At(50), StablePrincipal::anonymous(), 7)
}

#[test]
fn proposal_machine() {
    let mut p = proposal();
    assert_eq!(p.created_at, 7);
    assert_eq!(p.state_transition(ProposalState::Accepted), Err(ProposalError::StateTransitionError));
    assert_eq!(p.state, ProposalState::Submitted);
    assert_eq!(p.state_transition(ProposalState::Open), Ok(ProposalState::Submitted));
    assert_eq!(p.execution_state_transition(ExecutionStepState::Executing), Err(ProposalError::StateTransitionError));
    let step = ExecutionStep::new(0);
    assert_eq!(p.state_transition(ProposalState::ForceExecuting(step)), Ok(ProposalState::Open));
    assert_eq!(p.execution_state_transition(ExecutionStepState::Executing), Ok(ProposalState::ForceExecuting(step)));
    assert_eq!(p.state_transition(ProposalState::Succeeded), Err(ProposalError::StateTransitionError));
    assert_eq!(p.state_transition(ProposalState::ForceExecutionSucceeded).is_ok(), true);
    assert_eq!(p.state_transition(ProposalState::Open), Err(ProposalError::StateTransitionError));
}

#[test]
fn vote_rates() {
    let mut p = proposal();
    p.votes_yes = 1;
    p.votes_no = 2;
    p.votes_abstain = 0;
    p.total_voting_power = 3;
    assert_eq!(p.current_participation_rate().0, 40_000);
    assert_eq!(p.current_yes_rate().0, 13_333);
    assert!(!p.absolute_majority_reached());
    p.total_voting_power = i128::MAX;
    assert_eq!(p.current_participation_rate().0, 0);
    p.votes_yes = i128::MAX / 2;
    p.votes_no = i128::MAX / 2;
    assert_eq!(p.current_participation_rate().0, 39_999);
    assert_eq!(p.current_yes_rate().0, 20_000);
    assert!(!p.absolute_majority_reached());
    let empty = proposal();
    assert_eq!(empty.current_participation_rate().0, 0);
    assert_eq!(empty.current_yes_rate().0, 0);
}

#[test]
fn window_checks() {
    let mut p = proposal();
    assert!(!p.is_executable(10));
    p.state = ProposalState::Accepted;
    assert!(p.is_executable(0));
    assert!(p.is_executable(49));
    assert!(!p.is_executable(50));
    p.state = ProposalState::Open;
    assert!(p.is_force_executable(10));
    p.voting_end_time = Some(20);
    assert!(p.is_voteable(19));
    assert!(!p.is_voteable(20));
    assert!(!p.is_expired(20));
    assert!(p.is_expired(21));
}
