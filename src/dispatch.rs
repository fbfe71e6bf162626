//! Execution of accepted proposals: dependency gating, and the dispatcher
//! that steps through a payload's messages one remote call at a time. The
//! dispatcher decides; its driver makes the calls and reports how they ended.
use vstd::prelude::*;

use crate::access::UserRole;
use crate::codec::{candid_bool_of, decode_bool};
use crate::execution::{ExecResult, PostValidatePayload, ProposalPayload};
use crate::governance::{finalized, proposal_wf, Governance};
use crate::proposal::{permitted, Proposal};
use crate::proposal::{
    is_success, is_terminal, with_state, ExecutionStep, ExecutionStepState, ProposalState,
};
use crate::types::{Index, ReturnError, Schedule, StablePrincipal, TimeNs};

verus! {

/// How a remote call ended: its reply bytes, or a reject code and message.
#[derive(Clone, Debug)]
pub enum CallOutcome {
    Reply(Vec<u8>),
    Reject(i32, String),
}

/// What the driver of an execution must do next.
#[derive(Debug)]
pub enum DispatchAction {
    /// Call the pre-validation target of message `step`, and report back.
    PreValidate { step: u8 },
    /// Call message `step`, and report back.
    Call { step: u8 },
    /// Call the post-validation target of message `step` with `payload`
    /// (encoded as a single candid argument), and report back.
    PostValidate { step: u8, payload: PostValidatePayload },
    /// The execution has ended with this result.
    Done(Result<(), ReturnError>),
}

/// The shape of a `DispatchAction`, without the post-validation payload.
#[derive(Clone, Copy, Debug)]
pub enum ActionKind {
    PreValidate(u8),
    Call(u8),
    PostValidate(u8),
    Done(Result<(), ReturnError>),
}

pub open spec fn kind_of(a: DispatchAction) -> ActionKind {
    match a {
        DispatchAction::PreValidate { step } => ActionKind::PreValidate(step),
        DispatchAction::Call { step } => ActionKind::Call(step),
        DispatchAction::PostValidate { step, .. } => ActionKind::PostValidate(step),
        DispatchAction::Done(r) => ActionKind::Done(r),
    }
}

pub open spec fn running(force: bool, e: ExecutionStep) -> ProposalState {
    if force {
        ProposalState::ForceExecuting(e)
    } else {
        ProposalState::Executing(e)
    }
}

pub open spec fn failed(force: bool, e: ExecutionStep) -> ProposalState {
    if force {
        ProposalState::ForceExecutionFailed(e)
    } else {
        ProposalState::Failed(e)
    }
}

pub open spec fn completed(force: bool) -> ProposalState {
    if force {
        ProposalState::ForceExecutionSucceeded
    } else {
        ProposalState::Succeeded
    }
}

pub open spec fn has_pre(payload: ProposalPayload, k: int) -> bool {
    payload.messages@[k].pre_validate is Some
}

pub open spec fn has_post(payload: ProposalPayload, k: int) -> bool {
    payload.messages@[k].post_validate is Some
}

/// State and action when message `k` is about to start (or every message
/// is done, when `k` is past the last one).
pub open spec fn step_start(force: bool, payload: ProposalPayload, k: int) -> (ProposalState, ActionKind) {
    if k >= payload.messages@.len() {
        (completed(force), ActionKind::Done(Ok(())))
    } else if has_pre(payload, k) {
        (
            running(force, ExecutionStep { step: k as u8, state: ExecutionStepState::PreValidating }),
            ActionKind::PreValidate(k as u8),
        )
    } else {
        (
            running(force, ExecutionStep { step: k as u8, state: ExecutionStepState::Executing }),
            ActionKind::Call(k as u8),
        )
    }
}

/// State and action once message `k` has succeeded: the next message starts,
/// unless none is left, or the proposal has expired in the meantime (normal
/// execution only).
pub open spec fn after_success(
    force: bool,
    payload: ProposalPayload,
    k: int,
    expires: Schedule,
    now: TimeNs,
) -> (ProposalState, ActionKind) {
    if k + 1 >= payload.messages@.len() {
        (completed(force), ActionKind::Done(Ok(())))
    } else if !force && !(expires matches Schedule::At(e) && e > now) {
        (ProposalState::Expired, ActionKind::Done(Err(ReturnError::Expired)))
    } else {
        step_start(force, payload, k + 1)
    }
}

/// An execution step whose call is in flight, and whether it is a force execution.
pub open spec fn in_flight(s: ProposalState) -> Option<(bool, ExecutionStep)> {
    match s {
        ProposalState::Executing(e) => if e.state is PreValidating || e.state is Executing
            || e.state is PostValidating {
            Some((false, e))
        } else {
            None
        },
        ProposalState::ForceExecuting(e) => if e.state is PreValidating || e.state is Executing
            || e.state is PostValidating {
            Some((true, e))
        } else {
            None
        },
        _ => None,
    }
}

pub open spec fn with_step_state(e: ExecutionStep, s: ExecutionStepState) -> ExecutionStep {
    ExecutionStep { state: s, ..e }
}

/// State and action after the call in flight at step `e` ended with a reply
/// (`replied`) or a reject; `verdict` is the decoded boolean of a reply.
pub open spec fn resolved(
    force: bool,
    e: ExecutionStep,
    payload: ProposalPayload,
    expires: Schedule,
    replied: bool,
    verdict: Option<bool>,
    now: TimeNs,
) -> (ProposalState, ActionKind) {
    match e.state {
        ExecutionStepState::PreValidating => if replied && verdict == Some(true) {
            (
                running(force, with_step_state(e, ExecutionStepState::Executing)),
                ActionKind::Call(e.step),
            )
        } else if replied && verdict == Some(false) {
            (
                failed(force, with_step_state(e, ExecutionStepState::PreValidateFailed)),
                ActionKind::Done(Err(ReturnError::PreValidateFailed)),
            )
        } else {
            (
                failed(force, with_step_state(e, ExecutionStepState::PreValidateCallError)),
                ActionKind::Done(Err(ReturnError::InterCanisterCallError)),
            )
        },
        ExecutionStepState::Executing => if !replied {
            (
                failed(force, with_step_state(e, ExecutionStepState::ExecutionCallError)),
                ActionKind::Done(Err(ReturnError::InterCanisterCallError)),
            )
        } else if has_post(payload, e.step as int) {
            (
                running(force, with_step_state(e, ExecutionStepState::PostValidating)),
                ActionKind::PostValidate(e.step),
            )
        } else {
            after_success(force, payload, e.step as int, expires, now)
        },
        _ => if replied && verdict == Some(true) {
            after_success(force, payload, e.step as int, expires, now)
        } else if replied && verdict == Some(false) {
            (
                failed(force, with_step_state(e, ExecutionStepState::PostValidateFailed)),
                ActionKind::Done(Err(ReturnError::PostValidateFailed)),
            )
        } else {
            (
                failed(force, with_step_state(e, ExecutionStepState::PostValidateCallError)),
                ActionKind::Done(Err(ReturnError::InterCanisterCallError)),
            )
        },
    }
}

/// The execution result recorded for a call outcome.
pub open spec fn records(r: ExecResult, outcome: CallOutcome) -> bool {
    match outcome {
        CallOutcome::Reply(b) => r.0 matches Ok(v) && v@ == b@,
        CallOutcome::Reject(code, msg) => r.0 matches Err(e) && e.0 == code && e.1@ == msg@,
    }
}

impl Governance {
    /// The first dependency, from position `k` on, that has not succeeded
    /// decides: `DependentProposalNotSucceeded` when it has ended otherwise,
    /// `DependentProposalNotReady` while it is still under way.
    pub open spec fn dependency_error_from(&self, deps: Seq<Index>, k: int) -> Option<ReturnError>
        decreases deps.len() - k,
    {
        if k < 0 || k >= deps.len() {
            None
        } else if deps[k] >= self.len() {
            Some(ReturnError::InvalidIndex)
        } else if is_success(self.state_of(deps[k] as int)) {
            self.dependency_error_from(deps, k + 1)
        } else if is_terminal(self.state_of(deps[k] as int)) {
            Some(ReturnError::DependentProposalNotSucceeded)
        } else {
            Some(ReturnError::DependentProposalNotReady)
        }
    }

    pub open spec fn dependency_error(&self, deps: Seq<Index>) -> Option<ReturnError> {
        self.dependency_error_from(deps, 0)
    }

    /// Checks that every dependency has succeeded.
    pub fn validate_execution_dependency(&self, deps: &Vec<Index>) -> (r: Result<(), ReturnError>)
        ensures
            r == match self.dependency_error(deps@) {
                None => Ok::<(), ReturnError>(()),
                Some(e) => Err(e),
            },
    {
        let mut k: usize = 0;
        while k < deps.len()
            invariant
                k <= deps@.len(),
                self.dependency_error(deps@) == self.dependency_error_from(deps@, k as int),
            decreases deps@.len() - k,
        {
            let d = deps[k];
            if d >= self.proposals.len() as Index {
                return Err(ReturnError::InvalidIndex);
            }
            match self.proposals[d as usize].state {
                ProposalState::Succeeded | ProposalState::ForceExecutionSucceeded => {},
                ProposalState::Failed(_)
                | ProposalState::ForceExecutionFailed(_)
                | ProposalState::ValidationFailed
                | ProposalState::Expired
                | ProposalState::Rejected
                | ProposalState::Revoked
                | ProposalState::QuorumNotMet => {
                    return Err(ReturnError::DependentProposalNotSucceeded);
                },
                _ => {
                    return Err(ReturnError::DependentProposalNotReady);
                },
            }
            k = k + 1;
        }
        Ok(())
    }
}


/// Starts message `k`: the proposal moves to its step and, when the message
/// has a pre-validation, to pre-validating; otherwise straight to the call.
fn start_message(p: &mut Proposal, payload: &ProposalPayload, force: bool, k: usize) -> (r: DispatchAction)
    requires
        k < payload.messages@.len() <= 256,
        permitted(
            old(p).state,
            running(force, ExecutionStep { step: k as u8, state: ExecutionStepState::NotStarted }),
        ),
    ensures
        *final(p) == with_state(*old(p), step_start(force, *payload, k as int).0),
        kind_of(r) == step_start(force, *payload, k as int).1,
{
    let step = ExecutionStep::new(k as u8);
    let next = if force {
        ProposalState::ForceExecuting(step)
    } else {
        ProposalState::Executing(step)
    };
    let _ = p.state_transition(next);
    if payload.messages[k].pre_validate.is_some() {
        let _ = p.execution_state_transition(ExecutionStepState::PreValidating);
        DispatchAction::PreValidate { step: k as u8 }
    } else {
        let _ = p.execution_state_transition(ExecutionStepState::Executing);
        DispatchAction::Call { step: k as u8 }
    }
}

/// Moves an accepted (or, when forced, open) proposal to its first message,
/// or straight to success when there is none.
fn begin_execution(p: &mut Proposal, payload: &ProposalPayload, force: bool) -> (r: DispatchAction)
    requires
        payload.messages@.len() <= 256,
        force ==> old(p).state is Open,
        !force ==> old(p).state is Accepted,
    ensures
        *final(p) == with_state(*old(p), step_start(force, *payload, 0).0),
        kind_of(r) == step_start(force, *payload, 0).1,
{
    if payload.messages.len() == 0 {
        let step = ExecutionStep::new(0);
        if force {
            let _ = p.state_transition(ProposalState::ForceExecuting(step));
            let _ = p.state_transition(ProposalState::ForceExecutionSucceeded);
        } else {
            let _ = p.state_transition(ProposalState::Executing(step));
            let _ = p.state_transition(ProposalState::Succeeded);
        }
        DispatchAction::Done(Ok(()))
    } else {
        start_message(p, payload, force, 0)
    }
}

/// Message `k` has succeeded: moves on to the next message, or ends.
fn finish_message(p: &mut Proposal, payload: &ProposalPayload, force: bool, k: usize, now: TimeNs) -> (r:
    DispatchAction)
    requires
        k < payload.messages@.len() <= 256,
        old(p).state == running(
            force,
            ExecutionStep { step: k as u8, state: ExecutionStepState::Succeeded },
        ),
    ensures
        *final(p) == with_state(*old(p), after_success(force, *payload, k as int, old(p).expires, now).0),
        kind_of(r) == after_success(force, *payload, k as int, old(p).expires, now).1,
{
    if k + 1 == payload.messages.len() {
        if force {
            let _ = p.state_transition(ProposalState::ForceExecutionSucceeded);
        } else {
            let _ = p.state_transition(ProposalState::Succeeded);
        }
        DispatchAction::Done(Ok(()))
    } else {
        let still_valid = match p.expires {
            Schedule::At(e) => e > now,
            Schedule::In(_) => false,
        };
        if !force && !still_valid {
            let _ = p.state_transition(ProposalState::Expired);
            DispatchAction::Done(Err(ReturnError::Expired))
        } else {
            start_message(p, payload, force, k + 1)
        }
    }
}

/// The step in flight ends in the error sub-state `sub`: the proposal fails there.
fn fail_step(p: &mut Proposal, force: bool, e: ExecutionStep, sub: ExecutionStepState)
    requires
        in_flight(old(p).state) == Some((force, e)),
        crate::proposal::step_permitted(e.state, sub),
    ensures
        *final(p) == with_state(*old(p), failed(force, with_step_state(e, sub))),
{
    let _ = p.execution_state_transition(sub);
    let failed_step = ExecutionStep { step: e.step, state: sub };
    if force {
        let _ = p.state_transition(ProposalState::ForceExecutionFailed(failed_step));
    } else {
        let _ = p.state_transition(ProposalState::Failed(failed_step));
    }
}

/// Dependency checks agree on two stores whose dependencies have the same states.
proof fn lemma_dependency_error_agrees(a: &Governance, b: &Governance, deps: Seq<Index>, k: int)
    requires
        a.len() == b.len(),
        forall|j: int|
            0 <= j < deps.len() && deps[j] < a.len() ==> a.state_of(#[trigger] deps[j] as int)
                == b.state_of(deps[j] as int),
    ensures
        a.dependency_error_from(deps, k) == b.dependency_error_from(deps, k),
    decreases deps.len() - k,
{
    if 0 <= k < deps.len() {
        lemma_dependency_error_agrees(a, b, deps, k + 1);
    }
}

/// The verdict carried by a call outcome: the decoded boolean of a reply.
pub open spec fn verdict_of(outcome: CallOutcome) -> Option<bool> {
    match outcome {
        CallOutcome::Reply(b) => candid_bool_of(b@),
        CallOutcome::Reject(_, _) => None,
    }
}

impl Governance {
    /// What reporting `outcome` (with decoded `verdict`) for proposal `id`
    /// does: the proposal moves as `resolved` says, a message call's outcome
    /// is appended to the proposal's execution results, and nothing else
    /// changes.
    pub open spec fn advance_result(
        &self,
        next: &Governance,
        r: DispatchAction,
        id: Index,
        outcome: CallOutcome,
        verdict: Option<bool>,
        now: TimeNs,
    ) -> bool {
        if id >= self.len() {
            r == DispatchAction::Done(Err(ReturnError::InvalidIndex)) && *next == *self
        } else if in_flight(self.state_of(id as int)) is None {
            r == DispatchAction::Done(Err(ReturnError::IncorrectProposalState)) && *next == *self
        } else {
            let (force, e) = in_flight(self.state_of(id as int))->0;
            let p = self.proposal(id as int);
            let payload = self.payload(id as int);
            let res = resolved(force, e, payload, p.expires, outcome is Reply, verdict, now);
            &&& next.proposal(id as int) == with_state(p, res.0)
            &&& kind_of(r) == res.1
            &&& next.len() == self.len()
            &&& forall|i: int| 0 <= i < self.len() && i != id ==> #[trigger] next.proposal(i) == self.proposal(i)
            &&& next.payloads_view() == self.payloads_view()
            &&& next.metadata_view() == self.metadata_view()
            &&& next.revokes_view() == self.revokes_view()
            &&& next.config_view() == self.config_view()
            &&& next.roles_view() == self.roles_view()
            &&& next.timer_view() == self.timer_view()
            &&& next.execs_len() == self.execs_len()
            &&& forall|i: int|
                0 <= i < self.len() && i != id ==> #[trigger] next.execs_view()[i] == self.execs_view()[i]
            &&& if e.state is Executing {
                &&& next.results_len(id as int) == self.results_len(id as int) + 1
                &&& next.results_view(id as int).drop_last() == self.results_view(id as int)
                &&& records(next.results_view(id as int).last(), outcome)
            } else {
                next.execs_view()[id as int] == self.execs_view()[id as int]
            }
            &&& r matches DispatchAction::PostValidate { payload: post, .. } ==> {
                let m = payload.messages@[e.step as int];
                &&& post.canister_id@ == m.canister_id@
                &&& post.method@ == m.method@
                &&& post.message@ == m.message@
                &&& outcome matches CallOutcome::Reply(b) && post.response@ == b@
            }
        }
    }

    /// The outcome of a call of `execute` that turned this store into `next`.
    pub open spec fn execute_outcome(
        &self,
        next: &Governance,
        r: Result<DispatchAction, ReturnError>,
        caller: Seq<u8>,
        proposal_id: Index,
        now: TimeNs,
    ) -> bool {
        if !self.has_role_spec(UserRole::Executor, caller) {
            r == Err::<DispatchAction, ReturnError>(ReturnError::Unauthorized) && *next == *self
        } else if proposal_id >= self.len() {
            r == Err::<DispatchAction, ReturnError>(ReturnError::InvalidIndex) && *next == *self
        } else {
            let p0 = self.proposal(proposal_id as int);
            let p1 = if p0.state is Open {
                finalized(p0, now)
            } else {
                p0
            };
            let payload = self.payload(proposal_id as int);
            &&& self.only_proposal_changed(next, proposal_id as int)
            &&& next.timer_view() == self.timer_view()
            &&& if !p1.executable_at(now) {
                r == Err::<DispatchAction, ReturnError>(ReturnError::IncorrectProposalState)
                    && next.proposal(proposal_id as int) == p1
            } else if self.dependency_error(payload.depends_on@) is Some {
                r == Err::<DispatchAction, ReturnError>(
                    self.dependency_error(payload.depends_on@)->0,
                ) && next.proposal(proposal_id as int) == p1
            } else {
                &&& r is Ok
                &&& kind_of(r->Ok_0) == step_start(false, payload, 0).1
                &&& next.proposal(proposal_id as int) == with_state(p1, step_start(false, payload, 0).0)
            }
        }
    }

    /// Starts executing an accepted proposal; executors only. An open
    /// proposal's vote is settled first. The proposal must be executable at
    /// `now` and its dependencies must have succeeded. Returns the first call
    /// to make.
    pub fn execute(&mut self, caller: &StablePrincipal, proposal_id: Index, now: TimeNs) -> (r: Result<
        DispatchAction,
        ReturnError,
    >)
        requires
            old(self).wf(),
        ensures
            final(self).wf(),
            old(self).evolves_to(final(self)),
            old(self).execute_outcome(final(self), r, caller@, proposal_id, now),
    {
        if !self.roles.has_role(UserRole::Executor, caller) {
            return Err(ReturnError::Unauthorized);
        }
        if proposal_id >= self.proposals.len() as Index {
            return Err(ReturnError::InvalidIndex);
        }
        let i = proposal_id as usize;
        let ghost before = self.proposals@[i as int];
        assert(proposal_wf(before, i as int, self.payloads@[i as int], self.results_len(i as int)));
        if self.proposals[i].state == ProposalState::Open {
            let p = &mut self.proposals[i];
            let _ = p.try_finalize_vote_result(now);
        }
        let ghost p1 = self.proposals@[i as int];
        assert(proposal_wf(p1, i as int, self.payloads@[i as int], self.results_len(i as int)));
        assert(forall|j: int|
            0 <= j < self.len() && j != i ==> #[trigger] self.proposals_view()[j] == old(self).proposals_view()[j]);
        if !self.proposals[i].is_executable(now) {
            return Err(ReturnError::IncorrectProposalState);
        }
        proof {
            lemma_dependency_error_agrees(
                self,
                old(self),
                self.payloads@[i as int].depends_on@,
                0,
            );
        }
        match self.validate_execution_dependency(&self.payloads[i].depends_on) {
            Ok(()) => {},
            Err(e) => {
                return Err(e);
            },
        }
        let action = {
            let payload = &self.payloads[i];
            let p = &mut self.proposals[i];
            begin_execution(p, payload, false)
        };
        proof {
            assert forall|j: int| 0 <= j < self.len() implies proposal_wf(
                #[trigger] self.proposals_view()[j],
                j,
                self.payloads_view()[j],
                self.results_len(j),
            ) by {
                if j != i {
                    assert(self.proposals_view()[j] == old(self).proposals_view()[j]);
                }
            }
        }
        Ok(action)
    }
}


impl Governance {
    /// Starts force executing an open proposal, bypassing the vote;
    /// force executors only. Both schedules must already be absolute with
    /// `activates <= now < expires`, and the dependencies must have succeeded.
    /// Returns the first call to make.
    pub fn force_execute(&mut self, caller: &StablePrincipal, proposal_id: Index, now: TimeNs) -> (r:
        Result<DispatchAction, ReturnError>)
        requires
            old(self).wf(),
        ensures
            final(self).wf(),
            old(self).evolves_to(final(self)),
            !old(self).has_role_spec(UserRole::ForceExecutor, caller@) ==> r == Err::<
                DispatchAction,
                ReturnError,
            >(ReturnError::Unauthorized) && *final(self) == *old(self),
            old(self).has_role_spec(UserRole::ForceExecutor, caller@) && proposal_id >= old(self).len()
                ==> r == Err::<DispatchAction, ReturnError>(ReturnError::InvalidIndex) && *final(self)
                == *old(self),
            old(self).has_role_spec(UserRole::ForceExecutor, caller@) && proposal_id < old(self).len()
                ==> {
                let p0 = old(self).proposal(proposal_id as int);
                let payload = old(self).payload(proposal_id as int);
                &&& !p0.force_executable_at(now) ==> r == Err::<DispatchAction, ReturnError>(
                    ReturnError::IncorrectProposalState,
                ) && *final(self) == *old(self)
                &&& (p0.force_executable_at(now) && old(self).dependency_error(payload.depends_on@) is Some)
                    ==> r == Err::<DispatchAction, ReturnError>(
                    old(self).dependency_error(payload.depends_on@)->0,
                ) && *final(self) == *old(self)
                &&& (p0.force_executable_at(now) && old(self).dependency_error(payload.depends_on@) is None)
                    ==> (r is Ok && kind_of(r->Ok_0) == step_start(true, payload, 0).1 && old(self).only_proposal_changed(final(self), proposal_id as int)
                    && final(self).timer_view() == old(self).timer_view() && final(self).proposal(proposal_id as int) == with_state(p0, step_start(true, payload, 0).0))
            },
    {
        if !self.roles.has_role(UserRole::ForceExecutor, caller) {
            return Err(ReturnError::Unauthorized);
        }
        if proposal_id >= self.proposals.len() as Index {
            return Err(ReturnError::InvalidIndex);
        }
        let i = proposal_id as usize;
        if !self.proposals[i].is_force_executable(now) {
            return Err(ReturnError::IncorrectProposalState);
        }
        match self.validate_execution_dependency(&self.payloads[i].depends_on) {
            Ok(()) => {},
            Err(e) => {
                return Err(e);
            },
        }
        assert(proposal_wf(self.proposals@[i as int], i as int, self.payloads@[i as int], self.results_len(i as int)));
        let action = {
            let payload = &self.payloads[i];
            let p = &mut self.proposals[i];
            begin_execution(p, payload, true)
        };
        proof {
            assert forall|j: int| 0 <= j < self.len() implies proposal_wf(
                #[trigger] self.proposals_view()[j],
                j,
                self.payloads_view()[j],
                self.results_len(j),
            ) by {
                if j != i {
                    assert(self.proposals_view()[j] == old(self).proposals_view()[j]);
                }
            }
        }
        Ok(action)
    }

    /// Reports how the call that an execution of proposal `proposal_id` was
    /// waiting for ended; `verdict` is the boolean decoded from a reply, which
    /// matters after pre- and post-validation calls. Returns the next call to
    /// make, or the end of the execution.
    pub fn advance_execution(
        &mut self,
        proposal_id: Index,
        outcome: CallOutcome,
        verdict: Option<bool>,
        now: TimeNs,
    ) -> (r: DispatchAction)
        requires
            old(self).wf(),
        ensures
            final(self).wf(),
            old(self).evolves_to(final(self)),
            old(self).advance_result(final(self), r, proposal_id, outcome, verdict, now),
    {
        if proposal_id >= self.proposals.len() as Index {
            return DispatchAction::Done(Err(ReturnError::InvalidIndex));
        }
        let i = proposal_id as usize;
        let (force, e) = match self.proposals[i].state {
            ProposalState::Executing(e) => (false, e),
            ProposalState::ForceExecuting(e) => (true, e),
            _ => {
                return DispatchAction::Done(Err(ReturnError::IncorrectProposalState));
            },
        };
        let pending = match e.state {
            ExecutionStepState::PreValidating
            | ExecutionStepState::Executing
            | ExecutionStepState::PostValidating => true,
            _ => false,
        };
        if !pending {
            return DispatchAction::Done(Err(ReturnError::IncorrectProposalState));
        }
        assert(proposal_wf(self.proposals@[i as int], i as int, self.payloads@[i as int], self.results_len(i as int)));
        let k = e.step as usize;
        let replied = match &outcome {
            CallOutcome::Reply(_) => true,
            CallOutcome::Reject(_, _) => false,
        };
        let action = match e.state {
            ExecutionStepState::PreValidating => {
                let p = &mut self.proposals[i];
                if replied && verdict == Some(true) {
                    let _ = p.execution_state_transition(ExecutionStepState::Executing);
                    DispatchAction::Call { step: e.step }
                } else if replied && verdict == Some(false) {
                    fail_step(p, force, e, ExecutionStepState::PreValidateFailed);
                    DispatchAction::Done(Err(ReturnError::PreValidateFailed))
                } else {
                    fail_step(p, force, e, ExecutionStepState::PreValidateCallError);
                    DispatchAction::Done(Err(ReturnError::InterCanisterCallError))
                }
            },
            ExecutionStepState::Executing => {
                let record = match &outcome {
                    CallOutcome::Reply(bytes) => {
                        let b = bytes.clone();
                        assert(b@ =~= bytes@);
                        ExecResult(Ok(b))
                    },
                    CallOutcome::Reject(code, message) => ExecResult(Err((*code, message.clone()))),
                };
                let ghost old_results = self.execs@[i as int].execution_result@;
                self.execs[i].execution_result.push(record);
                assert(self.execs@[i as int].execution_result@.drop_last() =~= old_results);
                match outcome {
                    CallOutcome::Reject(_, _) => {
                        let p = &mut self.proposals[i];
                        fail_step(p, force, e, ExecutionStepState::ExecutionCallError);
                        DispatchAction::Done(Err(ReturnError::InterCanisterCallError))
                    },
                    CallOutcome::Reply(response) => {
                        let payload = &self.payloads[i];
                        let p = &mut self.proposals[i];
                        match &payload.messages[k].post_validate {
                            Some(_) => {
                                let _ = p.execution_state_transition(
                                    ExecutionStepState::PostValidating,
                                );
                                let m = &payload.messages[k];
                                let message = m.message.clone();
                                assert(message@ =~= m.message@);
                                let post = PostValidatePayload {
                                    canister_id: m.canister_id.clone(),
                                    method: m.method.clone(),
                                    message,
                                    response,
                                };
                                DispatchAction::PostValidate { step: e.step, payload: post }
                            },
                            None => {
                                let _ = p.execution_state_transition(ExecutionStepState::Succeeded);
                                finish_message(p, payload, force, k, now)
                            },
                        }
                    },
                }
            },
            _ => {
                let payload = &self.payloads[i];
                let p = &mut self.proposals[i];
                if replied && verdict == Some(true) {
                    let _ = p.execution_state_transition(ExecutionStepState::Succeeded);
                    finish_message(p, payload, force, k, now)
                } else if replied && verdict == Some(false) {
                    fail_step(p, force, e, ExecutionStepState::PostValidateFailed);
                    DispatchAction::Done(Err(ReturnError::PostValidateFailed))
                } else {
                    fail_step(p, force, e, ExecutionStepState::PostValidateCallError);
                    DispatchAction::Done(Err(ReturnError::InterCanisterCallError))
                }
            },
        };
        proof {
            assert forall|j: int| 0 <= j < self.len() implies proposal_wf(
                #[trigger] self.proposals_view()[j],
                j,
                self.payloads_view()[j],
                self.results_len(j),
            ) by {
                if j != i {
                    assert(self.proposals_view()[j] == old(self).proposals_view()[j]);
                    assert(self.execs_view()[j] == old(self).execs_view()[j]);
                }
            }
        }
        action
    }

    /// Reports how the awaited call of an execution ended, decoding a reply
    /// as a candid `bool` where a validation verdict is expected, and returns
    /// what to do next (see `advance_execution`).
    pub fn resume_execution(&mut self, proposal_id: Index, outcome: CallOutcome, now: TimeNs) -> (r:
        DispatchAction)
        requires
            old(self).wf(),
        ensures
            final(self).wf(),
            old(self).evolves_to(final(self)),
            old(self).advance_result(final(self), r, proposal_id, outcome, verdict_of(outcome), now),
    {
        let verdict = match &outcome {
            CallOutcome::Reply(bytes) => decode_bool(bytes.as_slice()),
            CallOutcome::Reject(_, _) => None,
        };
        self.advance_execution(proposal_id, outcome, verdict, now)
    }
}

} // verus!
