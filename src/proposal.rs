//! Proposals, the proposal state machine and the per-message execution
//! step machine, and vote tallying.
use vstd::prelude::*;

use crate::arith::{scaled_share, share_of};
use crate::types::{
    frozen_schedule, Index, Percentage, ProposalPassingThreshold, Schedule, StablePrincipal,
    TimeNs, VotingPower, PERCENT_SCALE,
};

verus! {

/// State of one message within an execution.
#[derive(Clone, Copy, Debug, PartialEq, Eq, Structural)]
pub enum ExecutionStepState {
    /// Next: `PreValidating`, or `Executing` when the message has no pre-validation.
    NotStarted,
    /// Next: `PreValidateCallError`, `PreValidateFailed`, `Executing`.
    PreValidating,
    /// The pre-validation call failed. End.
    PreValidateCallError,
    /// The pre-validation returned false. End.
    PreValidateFailed,
    /// The message call is in flight. Next: `ExecutionCallError`, `PostValidating`,
    /// or `Succeeded` when the message has no post-validation.
    Executing,
    /// The message call failed. End.
    ExecutionCallError,
    /// Next: `PostValidateCallError`, `PostValidateFailed`, `Succeeded`.
    PostValidating,
    /// The post-validation call failed. End.
    PostValidateCallError,
    /// The post-validation returned false. End.
    PostValidateFailed,
    /// The message completed. End.
    Succeeded,
}

/// The sub-state transitions of one message.
pub open spec fn step_permitted(from: ExecutionStepState, to: ExecutionStepState) -> bool {
    match from {
        ExecutionStepState::NotStarted => to is PreValidating || to is Executing,
        ExecutionStepState::PreValidating => {
            to is PreValidateCallError || to is PreValidateFailed || to is Executing
        },
        ExecutionStepState::Executing => {
            to is ExecutionCallError || to is PostValidating || to is Succeeded
        },
        ExecutionStepState::PostValidating => {
            to is PostValidateCallError || to is PostValidateFailed || to is Succeeded
        },
        _ => false,
    }
}

/// The position of an execution: which message, and how far it has got.
#[derive(Clone, Copy, Debug, PartialEq, Eq, Structural)]
pub struct ExecutionStep {
    /// Index of the current message.
    pub step: u8,
    /// State within the current message.
    pub state: ExecutionStepState,
}

#[derive(Clone, Copy, Debug, PartialEq, Eq, Structural)]
pub enum ExecutionStepError {
    GenericError,
    StateTransitionError,
    ArithmeticError,
}

impl ExecutionStep {
    pub fn new(step: u8) -> (r: Self)
        ensures
            r.step == step,
            r.state is NotStarted,
    {
        ExecutionStep { step, state: ExecutionStepState::NotStarted }
    }

    /// Moves to `next_state` when the sub-state machine permits it; returns the
    /// previous sub-state.
    pub fn state_transition(&mut self, next_state: ExecutionStepState) -> (r: Result<
        ExecutionStepState,
        ExecutionStepError,
    >)
        ensures
            step_permitted(old(self).state, next_state) ==> r == Ok::<
                ExecutionStepState,
                ExecutionStepError,
            >(old(self).state) && *final(self) == (ExecutionStep {
                state: next_state,
                ..*old(self)
            }),
            !step_permitted(old(self).state, next_state) ==> r == Err::<
                ExecutionStepState,
                ExecutionStepError,
            >(ExecutionStepError::StateTransitionError) && *final(self) == *old(self),
    {
        let prev = self.state;
        let allowed = match prev {
            ExecutionStepState::NotStarted => match next_state {
                ExecutionStepState::PreValidating | ExecutionStepState::Executing => true,
                _ => false,
            },
            ExecutionStepState::PreValidating => match next_state {
                ExecutionStepState::PreValidateCallError
                | ExecutionStepState::PreValidateFailed
                | ExecutionStepState::Executing => true,
                _ => false,
            },
            ExecutionStepState::Executing => match next_state {
                ExecutionStepState::ExecutionCallError
                | ExecutionStepState::PostValidating
                | ExecutionStepState::Succeeded => true,
                _ => false,
            },
            ExecutionStepState::PostValidating => match next_state {
                ExecutionStepState::PostValidateCallError
                | ExecutionStepState::PostValidateFailed
                | ExecutionStepState::Succeeded => true,
                _ => false,
            },
            _ => false,
        };
        if allowed {
            self.state = next_state;
            Ok(prev)
        } else {
            Err(ExecutionStepError::StateTransitionError)
        }
    }
}

/// The lifecycle state of a proposal.
#[derive(Clone, Copy, Debug, PartialEq, Eq, Structural)]
pub enum ProposalState {
    /// Waiting for validation. Next: `Open`, `ValidationFailed`.
    Submitted,
    /// Validation failed. End.
    ValidationFailed,
    /// Validated and open for voting. Next: `Accepted`, `Rejected`, `Revoked`,
    /// `QuorumNotMet`, `ForceExecuting`.
    Open,
    /// The vote passed. Next: `Executing`.
    Accepted,
    /// Being executed. Next: `Executing`, `Succeeded`, `Failed`, `Expired`.
    Executing(ExecutionStep),
    /// Executed successfully. End.
    Succeeded,
    /// A message failed during execution. End.
    Failed(ExecutionStep),
    /// Expired before its execution completed. End.
    Expired,
    /// The vote did not pass. End.
    Rejected,
    /// Revoked during the vote. End.
    Revoked,
    /// The quorum was not met by the end of the vote. End.
    QuorumNotMet,
    /// Being force executed. Next: `ForceExecuting`, `ForceExecutionSucceeded`,
    /// `ForceExecutionFailed`.
    ForceExecuting(ExecutionStep),
    /// Force executed successfully. End.
    ForceExecutionSucceeded,
    /// A message failed during force execution. End.
    ForceExecutionFailed(ExecutionStep),
}

/// The transitions of the proposal state machine.
pub open spec fn permitted(from: ProposalState, to: ProposalState) -> bool {
    match from {
        ProposalState::Submitted => to is Open || to is ValidationFailed,
        ProposalState::Open => {
            ||| to is Accepted
            ||| to is Rejected
            ||| to is Revoked
            ||| to is QuorumNotMet
            ||| to is ForceExecuting
        },
        ProposalState::Accepted => to is Executing,
        ProposalState::Executing(_) => {
            to is Executing || to is Succeeded || to is Failed || to is Expired
        },
        ProposalState::ForceExecuting(_) => {
            to is ForceExecuting || to is ForceExecutionSucceeded || to is ForceExecutionFailed
        },
        _ => false,
    }
}

/// States from which no transition leaves.
pub open spec fn is_terminal(s: ProposalState) -> bool {
    ||| s is ValidationFailed
    ||| s is Succeeded
    ||| s is Failed
    ||| s is Expired
    ||| s is Rejected
    ||| s is Revoked
    ||| s is QuorumNotMet
    ||| s is ForceExecutionSucceeded
    ||| s is ForceExecutionFailed
}

/// Terminal states that count as success for dependants.
pub open spec fn is_success(s: ProposalState) -> bool {
    s is Succeeded || s is ForceExecutionSucceeded
}

#[derive(Clone, Copy, Debug, PartialEq, Eq, Structural)]
pub enum ProposalError {
    GenericError,
    StateTransitionError,
    ArithmeticError,
}

/// A proposal; its id is its index in the store.
#[derive(Clone, Debug)]
pub struct Proposal {
    /// Index of the proposal's metadata.
    pub metadata_id: Index,
    /// Index of the proposal's payload.
    pub payload_id: Index,
    /// Whether the proposal should be executed automatically.
    pub auto_execute: bool,
    /// Time from which the proposal can be executed; frozen on acceptance.
    pub activates: Schedule,
    /// Time from which the proposal can no longer be executed; frozen on acceptance.
    pub expires: Schedule,
    /// Time of submission.
    pub created_at: TimeNs,
    /// Who submitted the proposal.
    pub proposer: StablePrincipal,
    /// The validator's decision.
    pub validated: Option<bool>,
    /// End of the voting period, set by the validator.
    pub voting_end_time: Option<TimeNs>,
    /// Quorum and pass rate, set by the validator.
    pub passing_threshold: Option<ProposalPassingThreshold>,
    /// Lifecycle state.
    pub state: ProposalState,
    pub votes_yes: VotingPower,
    pub votes_no: VotingPower,
    pub votes_abstain: VotingPower,
    /// Total voting power valid for this proposal.
    pub total_voting_power: VotingPower,
}

/// The proposal `p` with its state replaced.
pub open spec fn with_state(p: Proposal, s: ProposalState) -> Proposal {
    Proposal { state: s, ..p }
}

/// The proposal `p` with both schedules frozen at `now`.
pub open spec fn with_frozen_schedules(p: Proposal, now: TimeNs) -> Proposal {
    Proposal {
        activates: frozen_schedule(p.activates, now),
        expires: frozen_schedule(p.expires, now),
        ..p
    }
}

impl Proposal {
    /// Tallies are non-negative and within the total voting power.
    pub open spec fn tallies_valid(&self) -> bool {
        &&& self.votes_yes >= 0
        &&& self.votes_no >= 0
        &&& self.votes_abstain >= 0
        &&& self.votes_yes + self.votes_no + self.votes_abstain <= self.total_voting_power
    }

    /// Share of the total voting power that voted, scaled so 40_000 is 100%.
    pub open spec fn participation(&self) -> int {
        scaled_share(
            self.votes_yes + self.votes_no + self.votes_abstain,
            self.total_voting_power as int,
            PERCENT_SCALE as int,
        )
    }

    /// Share of yes among yes and no, scaled so 40_000 is 100%.
    pub open spec fn yes_rate(&self) -> int {
        scaled_share(self.votes_yes as int, self.votes_yes + self.votes_no, PERCENT_SCALE as int)
    }

    pub open spec fn majority(&self) -> bool {
        self.votes_yes * 2 > self.total_voting_power
    }

    pub open spec fn voteable_at(&self, now: TimeNs) -> bool {
        &&& self.state is Open
        &&& self.voting_end_time matches Some(t) && t > now
    }

    pub open spec fn expired_at(&self, now: TimeNs) -> bool {
        match self.voting_end_time {
            None => true,
            Some(t) => now > t,
        }
    }

    /// Both schedules absolute, `activates <= now < expires`.
    pub open spec fn in_window(&self, now: TimeNs) -> bool {
        &&& self.activates matches Schedule::At(a) && a <= now
        &&& self.expires matches Schedule::At(e) && e > now
    }

    pub open spec fn executable_at(&self, now: TimeNs) -> bool {
        self.state is Accepted && self.in_window(now)
    }

    pub open spec fn force_executable_at(&self, now: TimeNs) -> bool {
        self.state is Open && self.in_window(now)
    }

    /// Where finalizing the vote at `now` leads, if anywhere.
    pub open spec fn finalize_outcome(&self, now: TimeNs) -> Option<ProposalState>
        recommends
            self.passing_threshold is Some,
    {
        let th = self.passing_threshold->0;
        if !self.expired_at(now) {
            if self.participation() >= th.quorum.0 && self.majority() {
                Some(ProposalState::Accepted)
            } else {
                None
            }
        } else if self.participation() < th.quorum.0 {
            Some(ProposalState::QuorumNotMet)
        } else if self.yes_rate() < th.passing_threshold.0 {
            Some(ProposalState::Rejected)
        } else {
            Some(ProposalState::Accepted)
        }
    }

    /// A new proposal in state `Submitted` with empty tallies.
    pub fn from_submit(
        metadata_id: Index,
        payload_id: Index,
        auto_execute: bool,
        activates: Schedule,
        expires: Schedule,
        proposer: StablePrincipal,
        now: TimeNs,
    ) -> (r: Self)
        ensures
            r.metadata_id == metadata_id,
            r.payload_id == payload_id,
            r.auto_execute == auto_execute,
            r.activates == activates,
            r.expires == expires,
            r.created_at == now,
            r.proposer@ == proposer@,
            r.validated is None,
            r.voting_end_time is None,
            r.passing_threshold is None,
            r.state is Submitted,
            r.votes_yes == 0,
            r.votes_no == 0,
            r.votes_abstain == 0,
            r.total_voting_power == 0,
    {
        Proposal {
            metadata_id,
            payload_id,
            auto_execute,
            activates,
            expires,
            created_at: now,
            proposer,
            validated: None,
            voting_end_time: None,
            passing_threshold: None,
            state: ProposalState::Submitted,
            votes_yes: 0,
            votes_no: 0,
            votes_abstain: 0,
            total_voting_power: 0,
        }
    }

    /// Open, with the voting period still running at `now`.
    pub fn is_voteable(&self, now: TimeNs) -> (r: bool)
        ensures
            r == self.voteable_at(now),
    {
        match self.state {
            ProposalState::Open => match self.voting_end_time {
                Some(t) => t > now,
                None => false,
            },
            _ => false,
        }
    }

    /// The voting period has ended at `now` (or was never set).
    pub fn is_expired(&self, now: TimeNs) -> (r: bool)
        ensures
            r == self.expired_at(now),
    {
        match self.voting_end_time {
            None => true,
            Some(t) => now > t,
        }
    }

    fn within_window(&self, now: TimeNs) -> (r: bool)
        ensures
            r == self.in_window(now),
    {
        let after_start = match self.activates {
            Schedule::At(a) => a <= now,
            Schedule::In(_) => false,
        };
        let before_end = match self.expires {
            Schedule::At(e) => e > now,
            Schedule::In(_) => false,
        };
        after_start && before_end
    }

    /// Accepted, with both schedules absolute and `activates <= now < expires`.
    pub fn is_executable(&self, now: TimeNs) -> (r: bool)
        ensures
            r == self.executable_at(now),
    {
        self.state == ProposalState::Accepted && self.within_window(now)
    }

    /// Open, with both schedules absolute and `activates <= now < expires`.
    pub fn is_force_executable(&self, now: TimeNs) -> (r: bool)
        ensures
            r == self.force_executable_at(now),
    {
        self.state == ProposalState::Open && self.within_window(now)
    }

    /// Freezes the activation time.
    pub fn finalize_activation(&mut self, now: TimeNs)
        ensures
            *final(self) == (Proposal {
                activates: frozen_schedule(old(self).activates, now),
                ..*old(self)
            }),
    {
        self.activates.convert_to_absolute(now);
    }

    /// Freezes the expiration time.
    pub fn finalize_expiration(&mut self, now: TimeNs)
        ensures
            *final(self) == (Proposal { expires: frozen_schedule(old(self).expires, now), ..*old(self) }),
    {
        self.expires.convert_to_absolute(now);
    }

    /// Moves to `next_state` when the state machine permits it; returns the
    /// previous state.
    pub fn state_transition(&mut self, next_state: ProposalState) -> (r: Result<
        ProposalState,
        ProposalError,
    >)
        ensures
            permitted(old(self).state, next_state) ==> r == Ok::<ProposalState, ProposalError>(
                old(self).state,
            ) && *final(self) == with_state(*old(self), next_state),
            !permitted(old(self).state, next_state) ==> r == Err::<ProposalState, ProposalError>(
                ProposalError::StateTransitionError,
            ) && *final(self) == *old(self),
    {
        let prev = self.state;
        let allowed = match prev {
            ProposalState::Submitted => match next_state {
                ProposalState::Open | ProposalState::ValidationFailed => true,
                _ => false,
            },
            ProposalState::Open => match next_state {
                ProposalState::Accepted
                | ProposalState::Rejected
                | ProposalState::Revoked
                | ProposalState::QuorumNotMet
                | ProposalState::ForceExecuting(_) => true,
                _ => false,
            },
            ProposalState::Accepted => match next_state {
                ProposalState::Executing(_) => true,
                _ => false,
            },
            ProposalState::Executing(_) => match next_state {
                ProposalState::Executing(_)
                | ProposalState::Succeeded
                | ProposalState::Failed(_)
                | ProposalState::Expired => true,
                _ => false,
            },
            ProposalState::ForceExecuting(_) => match next_state {
                ProposalState::ForceExecuting(_)
                | ProposalState::ForceExecutionSucceeded
                | ProposalState::ForceExecutionFailed(_) => true,
                _ => false,
            },
            _ => false,
        };
        if allowed {
            self.state = next_state;
            Ok(prev)
        } else {
            Err(ProposalError::StateTransitionError)
        }
    }

    /// Moves the sub-state of the message being executed; returns the previous
    /// proposal state.
    pub fn execution_state_transition(&mut self, exec_step_state: ExecutionStepState) -> (r: Result<
        ProposalState,
        ProposalError,
    >)
        ensures
            match old(self).state {
                ProposalState::Executing(s) => if step_permitted(s.state, exec_step_state) {
                    r == Ok::<ProposalState, ProposalError>(old(self).state) && *final(self)
                        == with_state(
                        *old(self),
                        ProposalState::Executing(ExecutionStep { state: exec_step_state, ..s }),
                    )
                } else {
                    r == Err::<ProposalState, ProposalError>(ProposalError::StateTransitionError)
                        && *final(self) == *old(self)
                },
                ProposalState::ForceExecuting(s) => if step_permitted(s.state, exec_step_state) {
                    r == Ok::<ProposalState, ProposalError>(old(self).state) && *final(self)
                        == with_state(
                        *old(self),
                        ProposalState::ForceExecuting(ExecutionStep { state: exec_step_state, ..s }),
                    )
                } else {
                    r == Err::<ProposalState, ProposalError>(ProposalError::StateTransitionError)
                        && *final(self) == *old(self)
                },
                _ => r == Err::<ProposalState, ProposalError>(ProposalError::StateTransitionError)
                    && *final(self) == *old(self),
            },
    {
        let prev = self.state;
        match prev {
            ProposalState::Executing(s) => {
                let mut s2 = s;
                match s2.state_transition(exec_step_state) {
                    Ok(_) => {
                        self.state = ProposalState::Executing(s2);
                        Ok(prev)
                    },
                    Err(_) => Err(ProposalError::StateTransitionError),
                }
            },
            ProposalState::ForceExecuting(s) => {
                let mut s2 = s;
                match s2.state_transition(exec_step_state) {
                    Ok(_) => {
                        self.state = ProposalState::ForceExecuting(s2);
                        Ok(prev)
                    },
                    Err(_) => Err(ProposalError::StateTransitionError),
                }
            },
            _ => Err(ProposalError::StateTransitionError),
        }
    }

    /// Yes, no and abstain all count towards the quorum.
    pub fn current_participation_rate(&self) -> (r: Percentage<u16>)
        requires
            self.tallies_valid(),
        ensures
            r.0 == self.participation(),
            r.0 <= PERCENT_SCALE,
    {
        let votes = self.votes_yes + self.votes_no + self.votes_abstain;
        let r = share_of(votes, self.total_voting_power, PERCENT_SCALE);
        proof {
            lemma_share_at_most_scale(votes as int, self.total_voting_power as int);
        }
        Percentage(r)
    }

    /// Only yes and no count towards the pass rate.
    pub fn current_yes_rate(&self) -> (r: Percentage<u16>)
        requires
            self.tallies_valid(),
        ensures
            r.0 == self.yes_rate(),
            r.0 <= PERCENT_SCALE,
    {
        let effective = self.votes_yes + self.votes_no;
        let r = share_of(self.votes_yes, effective, PERCENT_SCALE);
        proof {
            lemma_share_at_most_scale(self.votes_yes as int, effective as int);
        }
        Percentage(r)
    }

    /// Yes votes hold more than half of the total voting power.
    pub fn absolute_majority_reached(&self) -> (r: bool)
        requires
            self.tallies_valid(),
        ensures
            r == self.majority(),
    {
        self.votes_yes > self.total_voting_power - self.votes_yes
    }

    /// Finalizes the vote where the result is known: before the end of the
    /// voting period only an early acceptance, after it always. Returns
    /// whether the vote was finalized; a finalized vote freezes both schedules.
    pub fn try_finalize_vote_result(&mut self, now: TimeNs) -> (r: Result<bool, ProposalError>)
        requires
            old(self).tallies_valid(),
            old(self).passing_threshold is Some,
        ensures
            match old(self).finalize_outcome(now) {
                None => r == Ok::<bool, ProposalError>(false) && *final(self) == *old(self),
                Some(s) => if old(self).state is Open {
                    r == Ok::<bool, ProposalError>(true) && *final(self) == with_frozen_schedules(
                        with_state(*old(self), s),
                        now,
                    )
                } else {
                    r == Err::<bool, ProposalError>(ProposalError::StateTransitionError)
                        && *final(self) == *old(self)
                },
            },
    {
        let th = match self.passing_threshold {
            Some(t) => t,
            None => { return Err(ProposalError::GenericError); },
        };
        let participation = self.current_participation_rate();
        let next = if !self.is_expired(now) {
            if participation.0 >= th.quorum.0 && self.absolute_majority_reached() {
                ProposalState::Accepted
            } else {
                return Ok(false);
            }
        } else if participation.0 < th.quorum.0 {
            ProposalState::QuorumNotMet
        } else if self.current_yes_rate().0 < th.passing_threshold.0 {
            ProposalState::Rejected
        } else {
            ProposalState::Accepted
        };
        match self.state_transition(next) {
            Ok(_) => {},
            Err(e) => { return Err(e); },
        }
        self.finalize_activation(now);
        self.finalize_expiration(now);
        Ok(true)
    }
}

proof fn lemma_share_at_most_scale(part: int, whole: int)
    requires
        0 <= part <= whole,
    ensures
        scaled_share(part, whole, PERCENT_SCALE as int) <= PERCENT_SCALE,
{
    if whole > 0 {
        assert(part * 40000 / whole <= 40000) by (nonlinear_arith)
            requires
                0 <= part <= whole,
                whole > 0,
        ;
    }
}

/// Name, description and memo of a proposal.
#[derive(Clone, Debug)]
pub struct ProposalMetadata {
    /// Name of the proposal.
    pub name: String,
    /// Description of the proposal.
    pub description: String,
    /// Free-form bytes from the proposer.
    pub memo: Vec<u8>,
}

impl ProposalMetadata {
    /// Name and description are both non-empty.
    pub fn is_valid(&self) -> (r: bool)
        ensures
            r == (self.name@.len() > 0 && self.description@.len() > 0),
    {
        !self.name.as_str().is_empty() && !self.description.as_str().is_empty()
    }
}

/// Record of a revocation.
#[derive(Clone, Debug)]
pub struct ProposalRevoke {
    /// The revoked proposal.
    pub proposal_id: Index,
    /// Why it was revoked.
    pub reason: String,
    /// When it was revoked.
    pub revoked_at: TimeNs,
}

} // verus!
