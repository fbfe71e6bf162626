//! The proposal store and the lifecycle operations on it: submission,
//! validation, vote updates, finalization, revocation, roles and queries.
use vstd::prelude::*;

use crate::access::{Roles, UserRole};
use crate::execution::{ExecResult, ProposalExec, ProposalPayload};
use crate::proposal::{
    is_terminal, ExecutionStepState, Proposal, ProposalMetadata, ProposalRevoke, ProposalState,
};
use crate::types::{
    Index, ProposalPassingThreshold, ReturnError, Schedule, StablePrincipal, TimeNs, VotingPower,
};

verus! {

/// Settings of the governance engine.
#[derive(Clone, Debug)]
pub struct Config {
    /// Name of the governance engine.
    pub name: String,
    /// Description of the governance engine.
    pub description: String,
    /// Whether the one-time initialization has run.
    pub initialized: bool,
    /// Shortest voting period a validator may set, in nanoseconds.
    pub min_voting_period: TimeNs,
    /// Laxest threshold a validator may set.
    pub min_passing_threshold: ProposalPassingThreshold,
    /// Whether a vote may be finalized as soon as its result is known.
    pub voting_may_end_early: bool,
    /// Validator to notify of new proposals.
    pub validator_hook: Option<StablePrincipal>,
    /// Vote manager to notify of validated proposals.
    pub vote_manager_hook: Option<StablePrincipal>,
}

/// Three days, in nanoseconds.
pub const DEFAULT_MIN_VOTING_PERIOD: TimeNs = 259_200_000_000_000;

/// Sub-states in which the message call of a step has been made.
pub open spec fn main_call_made(s: ExecutionStepState) -> bool {
    ||| s is ExecutionCallError
    ||| s is PostValidating
    ||| s is PostValidateCallError
    ||| s is PostValidateFailed
    ||| s is Succeeded
}

/// Number of message calls made up to and including the step `s`.
pub open spec fn calls_made(s: crate::proposal::ExecutionStep) -> int {
    s.step + if main_call_made(s.state) {
        1int
    } else {
        0int
    }
}

/// A step whose pre-validation, message or post-validation call is in flight.
pub open spec fn step_in_flight(e: crate::proposal::ExecutionStep, n_messages: int, n_results: int) -> bool {
    &&& e.step < n_messages
    &&& n_results == calls_made(e)
    &&& (e.state is PreValidating || e.state is Executing || e.state is PostValidating)
}

/// How many execution results a proposal in state `s` has, given how many
/// messages its payload holds.
pub open spec fn results_consistent(s: ProposalState, n_messages: int, n_results: int) -> bool {
    match s {
        ProposalState::Executing(e) => step_in_flight(e, n_messages, n_results),
        ProposalState::ForceExecuting(e) => step_in_flight(e, n_messages, n_results),
        ProposalState::Failed(e) => n_results == calls_made(e) && e.step < n_messages,
        ProposalState::ForceExecutionFailed(e) => n_results == calls_made(e) && e.step < n_messages,
        ProposalState::Succeeded => n_results == n_messages,
        ProposalState::ForceExecutionSucceeded => n_results == n_messages,
        ProposalState::Expired => n_results <= n_messages,
        _ => n_results == 0,
    }
}

/// States in which a validator has opened the vote.
pub open spec fn vote_opened(s: ProposalState) -> bool {
    !(s is Submitted || s is ValidationFailed)
}

/// States reached through acceptance or a finalized vote, or force execution:
/// their schedules are frozen.
pub open spec fn schedules_frozen(s: ProposalState) -> bool {
    !(s is Submitted || s is ValidationFailed || s is Open || s is Revoked)
}

/// The states reachable from `from` by permitted transitions (zero or more).
pub open spec fn reachable(from: ProposalState, to: ProposalState) -> bool {
    from == to || match from {
        ProposalState::Submitted => true,
        ProposalState::Open => !(to is Submitted || to is ValidationFailed),
        ProposalState::Accepted => to is Executing || to is Succeeded || to is Failed || to is Expired,
        ProposalState::Executing(_) => {
            to is Executing || to is Succeeded || to is Failed || to is Expired
        },
        ProposalState::ForceExecuting(_) => {
            to is ForceExecuting || to is ForceExecutionSucceeded || to is ForceExecutionFailed
        },
        _ => false,
    }
}

/// A proposal that a store may hold at index `id` with the given payload.
pub open spec fn proposal_wf(p: Proposal, id: int, payload: ProposalPayload, n_results: int) -> bool {
    &&& p.metadata_id == id
    &&& p.payload_id == id
    &&& payload.valid()
    &&& forall|j: int|
        0 <= j < payload.depends_on@.len() ==> #[trigger] payload.depends_on@[j] < id
    &&& p.tallies_valid()
    &&& vote_opened(p.state) ==> p.voting_end_time is Some && p.passing_threshold is Some
    &&& schedules_frozen(p.state) ==> p.activates is At && p.expires is At
    &&& results_consistent(p.state, payload.messages@.len() as int, n_results)
}

/// The governance engine: configuration, roles, and the durable records of
/// every proposal, each addressed by its index.
#[derive(Debug)]
pub struct Governance {
    pub(crate) config: Config,
    pub(crate) roles: Roles,
    pub(crate) proposals: Vec<Proposal>,
    pub(crate) metadata: Vec<ProposalMetadata>,
    pub(crate) payloads: Vec<ProposalPayload>,
    pub(crate) revokes: Vec<ProposalRevoke>,
    pub(crate) execs: Vec<ProposalExec>,
    pub(crate) timer_tasks: Vec<Index>,
}

impl Governance {
    pub open(crate) spec fn proposals_view(&self) -> Seq<Proposal> {
        self.proposals@
    }

    pub open(crate) spec fn payloads_view(&self) -> Seq<ProposalPayload> {
        self.payloads@
    }

    pub open(crate) spec fn metadata_view(&self) -> Seq<ProposalMetadata> {
        self.metadata@
    }

    pub open(crate) spec fn revokes_view(&self) -> Seq<ProposalRevoke> {
        self.revokes@
    }

    pub open(crate) spec fn timer_view(&self) -> Seq<Index> {
        self.timer_tasks@
    }

    pub open(crate) spec fn config_view(&self) -> Config {
        self.config
    }

    pub open(crate) spec fn roles_view(&self) -> Roles {
        self.roles
    }

    /// Number of execution results recorded for proposal `i`.
    pub open(crate) spec fn results_len(&self, i: int) -> int {
        self.execs@[i].execution_result@.len() as int
    }

    /// This store with its configuration replaced.
    pub open(crate) spec fn with_config(self, config: Config) -> Governance {
        Governance { config, ..self }
    }

    /// This store with its role table replaced.
    pub open(crate) spec fn with_roles(self, roles: Roles) -> Governance {
        Governance { roles, ..self }
    }

    pub open(crate) spec fn execs_view(&self) -> Seq<ProposalExec> {
        self.execs@
    }

    pub open(crate) spec fn execs_len(&self) -> int {
        self.execs@.len() as int
    }

    pub open(crate) spec fn results_view(&self, i: int) -> Seq<ExecResult> {
        self.execs@[i].execution_result@
    }

    pub open spec fn len(&self) -> int {
        self.proposals_view().len() as int
    }

    pub open spec fn proposal(&self, i: int) -> Proposal {
        self.proposals_view()[i]
    }

    pub open spec fn state_of(&self, i: int) -> ProposalState {
        self.proposals_view()[i].state
    }

    pub open spec fn payload(&self, i: int) -> ProposalPayload {
        self.payloads_view()[i]
    }

    pub open spec fn has_role_spec(&self, role: UserRole, p: Seq<u8>) -> bool {
        self.roles_view().members_of(role).contains(p)
    }

    /// The store's invariant: the records of each proposal line up, and every
    /// proposal satisfies `proposal_wf`.
    pub open spec fn wf(&self) -> bool {
        &&& self.roles_view().wf()
        &&& self.payloads_view().len() == self.len()
        &&& self.metadata_view().len() == self.len()
        &&& self.execs_len() == self.len()
        &&& forall|i: int|
            0 <= i < self.len() ==> proposal_wf(
                #[trigger] self.proposals_view()[i],
                i,
                self.payloads_view()[i],
                self.results_len(i),
            )
    }

    /// How the store may change between two observations: no proposal,
    /// payload or metadata disappears, every state moves along permitted
    /// transitions, and a proposal in a terminal state no longer changes.
    pub open spec fn evolves_to(&self, next: &Governance) -> bool {
        &&& self.len() <= next.len()
        &&& forall|i: int|
            0 <= i < self.len() ==> #[trigger] reachable(self.state_of(i), next.state_of(i))
        &&& forall|i: int|
            0 <= i < self.len() && is_terminal(self.state_of(i)) ==> #[trigger] next.proposal(i)
                == self.proposal(i)
        &&& forall|i: int| 0 <= i < self.len() ==> #[trigger] next.payload(i) == self.payload(i)
        &&& forall|i: int|
            0 <= i < self.len() ==> #[trigger] next.metadata_view()[i] == self.metadata_view()[i]
    }
}


/// The validator's voting window and threshold are acceptable under `cfg` at `now`.
pub open spec fn validation_input_ok(
    cfg: Config,
    voting_end_time: Option<TimeNs>,
    threshold: Option<ProposalPassingThreshold>,
    now: TimeNs,
) -> bool {
    &&& threshold matches Some(t) && t.valid() && t.gte(cfg.min_passing_threshold)
    &&& voting_end_time matches Some(e) && e >= now + cfg.min_voting_period
}

/// A submission that passes the input checks when `next_id` is the id it would get.
pub open spec fn submission_ok(
    metadata: ProposalMetadata,
    payload: ProposalPayload,
    expires: Schedule,
    now: TimeNs,
    next_id: int,
) -> bool {
    &&& metadata.name@.len() > 0
    &&& metadata.description@.len() > 0
    &&& payload.valid()
    &&& match expires {
        Schedule::At(t) => t > now,
        Schedule::In(_) => true,
    }
    &&& forall|j: int| 0 <= j < payload.depends_on@.len() ==> #[trigger] payload.depends_on@[j] < next_id
}

/// Tallies of `p` after the increments, with the total replaced by `total`.
pub open spec fn with_tallies(p: Proposal, yes: int, no: int, abstain: int, total: int) -> Proposal {
    Proposal {
        votes_yes: yes as VotingPower,
        votes_no: no as VotingPower,
        votes_abstain: abstain as VotingPower,
        total_voting_power: total as VotingPower,
        ..p
    }
}

/// Tallies that may be recorded: non-negative and within the total.
pub open spec fn tallies_in_range(yes: int, no: int, abstain: int, total: int) -> bool {
    &&& 0 <= yes
    &&& 0 <= no
    &&& 0 <= abstain
    &&& yes + no + abstain <= total <= i128::MAX
}

/// Whether a vote update at `now` goes on to try to finalize the vote.
pub open spec fn finalizes_after_update(cfg: Config, p: Proposal, now: TimeNs) -> bool {
    cfg.voting_may_end_early || p.expired_at(now)
}

/// The open proposal `p` after an attempt to finalize its vote at `now`.
pub open spec fn finalized(p: Proposal, now: TimeNs) -> Proposal {
    match p.finalize_outcome(now) {
        None => p,
        Some(s) => crate::proposal::with_frozen_schedules(crate::proposal::with_state(p, s), now),
    }
}

/// The open proposal `p` after a vote update at `now`.
pub open spec fn settled(cfg: Config, p: Proposal, now: TimeNs) -> Proposal {
    if finalizes_after_update(cfg, p, now) {
        finalized(p, now)
    } else {
        p
    }
}

impl Governance {
    /// Every record but proposal `id` (and the timer tasks) stays as it was.
    pub open spec fn only_proposal_changed(&self, next: &Governance, id: int) -> bool {
        &&& next.len() == self.len()
        &&& forall|i: int| 0 <= i < self.len() && i != id ==> #[trigger] next.proposal(i) == self.proposal(i)
        &&& next.payloads_view() == self.payloads_view()
        &&& next.metadata_view() == self.metadata_view()
        &&& next.revokes_view() == self.revokes_view()
        &&& next.execs_view() == self.execs_view()
        &&& next.config_view() == self.config_view()
        &&& next.roles_view() == self.roles_view()
    }

    /// Every record but the timer tasks stays as it was.
    pub open spec fn same_records(&self, next: &Governance) -> bool {
        &&& next.proposals_view() == self.proposals_view()
        &&& next.payloads_view() == self.payloads_view()
        &&& next.metadata_view() == self.metadata_view()
        &&& next.revokes_view() == self.revokes_view()
        &&& next.execs_view() == self.execs_view()
        &&& next.config_view() == self.config_view()
        &&& next.roles_view() == self.roles_view()
    }

    /// Timer tasks after a notification for `id` is queued when `hook` is set.
    pub open spec fn timer_after(&self, hook: Option<StablePrincipal>, id: Index) -> Seq<Index> {
        if hook is Some {
            self.timer_view().push(id)
        } else {
            self.timer_view()
        }
    }

    /// A fresh engine whose administrator is `self_id` and where anyone
    /// anonymous may propose.
    pub fn new(self_id: StablePrincipal) -> (r: Governance)
        ensures
            r.wf(),
            r.len() == 0,
            r.config_view().name@ == "nx-gov"@,
            r.config_view().description@ == "A governance framework on the Internet Computer."@,
            !r.config_view().initialized,
            r.config_view().min_voting_period == DEFAULT_MIN_VOTING_PERIOD,
            r.config_view().min_passing_threshold.quorum.0 == 8_000,
            r.config_view().min_passing_threshold.passing_threshold.0 == 8_000,
            r.config_view().voting_may_end_early,
            r.config_view().validator_hook is None,
            r.config_view().vote_manager_hook is None,
            r.roles_view().members_of(UserRole::Admin) == seq![self_id@],
            r.roles_view().members_of(UserRole::Proposer) == seq![seq![4u8]],
            r.timer_view().len() == 0,
            r.revokes_view().len() == 0,
    {
        let config = Config {
            name: "nx-gov".to_owned(),
            description: "A governance framework on the Internet Computer.".to_owned(),
            initialized: false,
            min_voting_period: DEFAULT_MIN_VOTING_PERIOD,
            min_passing_threshold: ProposalPassingThreshold::default(),
            voting_may_end_early: true,
            validator_hook: None,
            vote_manager_hook: None,
        };
        let mut roles = Roles::new();
        let _ = roles.add_role(UserRole::Admin, self_id);
        let _ = roles.add_role(UserRole::Proposer, StablePrincipal::anonymous());
        let ghost empty = Seq::<Seq<u8>>::empty();
        assert(empty.push(self_id@) == seq![self_id@]) by {
            assert(empty.push(self_id@) =~= seq![self_id@]);
        }
        assert(empty.push(seq![4u8]) =~= seq![seq![4u8]]);
        let r = Governance {
            config,
            roles,
            proposals: Vec::new(),
            metadata: Vec::new(),
            payloads: Vec::new(),
            revokes: Vec::new(),
            execs: Vec::new(),
            timer_tasks: Vec::new(),
        };
        r
    }

    pub fn get_config(&self) -> (r: &Config)
        ensures
            *r == self.config_view(),
    {
        &self.config
    }

    /// Replaces the configuration; administrators only.
    pub fn update_config(&mut self, caller: &StablePrincipal, config: Config) -> (r: Result<(), ReturnError>)
        requires
            old(self).wf(),
        ensures
            final(self).wf(),
            old(self).evolves_to(final(self)),
            !old(self).has_role_spec(UserRole::Admin, caller@) ==> r == Err::<(), ReturnError>(
                ReturnError::Unauthorized,
            ) && *final(self) == *old(self),
            old(self).has_role_spec(UserRole::Admin, caller@) ==> r is Ok && *final(self) == old(self).with_config(config),
    {
        if !self.roles.has_role(UserRole::Admin, caller) {
            return Err(ReturnError::Unauthorized);
        }
        self.config = config;
        Ok(())
    }

    /// Records that the one-time initialization has run.
    pub fn config_set_initialized(&mut self)
        requires
            old(self).wf(),
        ensures
            final(self).wf(),
            old(self).evolves_to(final(self)),
            *final(self) == old(self).with_config(
                Config { initialized: true, ..old(self).config_view() },
            ),
    {
        self.config.initialized = true;
    }

    pub fn config_is_initialized(&self) -> (r: bool)
        ensures
            r == self.config_view().initialized,
    {
        self.config.initialized
    }

    pub fn has_role(&self, role: UserRole, principal: &StablePrincipal) -> (r: bool)
        ensures
            r == self.has_role_spec(role, principal@),
    {
        self.roles.has_role(role, principal)
    }

    /// The members of `role`, in storage order.
    pub fn users_of_role(&self, role: UserRole) -> (r: &Vec<StablePrincipal>)
        ensures
            r@.map_values(|p: StablePrincipal| p@) == self.roles_view().members_of(role),
    {
        self.roles.users_of_role(role)
    }

    /// `Unauthorized` unless `caller` holds `role`.
    pub fn require_caller_has_role(&self, role: UserRole, caller: &StablePrincipal) -> (r: Result<
        (),
        ReturnError,
    >)
        ensures
            self.has_role_spec(role, caller@) ==> r is Ok,
            !self.has_role_spec(role, caller@) ==> r == Err::<(), ReturnError>(
                ReturnError::Unauthorized,
            ),
    {
        if self.roles.has_role(role, caller) {
            Ok(())
        } else {
            Err(ReturnError::Unauthorized)
        }
    }

    /// Grants `role` to `principal` without checking the caller.
    pub fn add_role_internal(&mut self, role: UserRole, principal: StablePrincipal) -> (r: Result<
        (),
        ReturnError,
    >)
        requires
            old(self).wf(),
        ensures
            final(self).wf(),
            old(self).evolves_to(final(self)),
            *final(self) == old(self).with_roles(final(self).roles_view()),
            old(self).roles_view().others_kept(&final(self).roles_view(), role),
            old(self).has_role_spec(role, principal@) ==> r == Err::<(), ReturnError>(
                ReturnError::AlreadyExists,
            ) && final(self).roles_view().members_of(role) == old(self).roles_view().members_of(
                role,
            ),
            !old(self).has_role_spec(role, principal@) ==> r is Ok && final(self).roles_view().members_of(role) == old(self).roles_view().members_of(role).push(
                principal@,
            ),
    {
        self.roles.add_role(role, principal)
    }

    /// Grants `role` to `principal`; administrators only.
    pub fn add_role(&mut self, caller: &StablePrincipal, role: UserRole, principal: StablePrincipal) -> (r:
        Result<(), ReturnError>)
        requires
            old(self).wf(),
        ensures
            final(self).wf(),
            old(self).evolves_to(final(self)),
            !old(self).has_role_spec(UserRole::Admin, caller@) ==> r == Err::<(), ReturnError>(
                ReturnError::Unauthorized,
            ) && *final(self) == *old(self),
            old(self).has_role_spec(UserRole::Admin, caller@) ==> {
                &&& *final(self) == old(self).with_roles(final(self).roles_view())
                &&& old(self).roles_view().others_kept(&final(self).roles_view(), role)
                &&& old(self).has_role_spec(role, principal@) ==> r == Err::<(), ReturnError>(
                    ReturnError::AlreadyExists,
                ) && final(self).roles_view().members_of(role) == old(self).roles_view().members_of(role)
                &&& !old(self).has_role_spec(role, principal@) ==> r is Ok && final(self).roles_view().members_of(role) == old(self).roles_view().members_of(role).push(
                    principal@,
                )
            },
    {
        if !self.roles.has_role(UserRole::Admin, caller) {
            return Err(ReturnError::Unauthorized);
        }
        self.add_role_internal(role, principal)
    }

    /// Takes `role` from `principal` without checking the caller.
    pub fn remove_role_internal(&mut self, role: UserRole, principal: &StablePrincipal)
        requires
            old(self).wf(),
        ensures
            final(self).wf(),
            old(self).evolves_to(final(self)),
            *final(self) == old(self).with_roles(final(self).roles_view()),
            old(self).roles_view().others_kept(&final(self).roles_view(), role),
            !final(self).has_role_spec(role, principal@),
            forall|q: Seq<u8>|
                q != principal@ ==> (final(self).has_role_spec(role, q) <==> old(self).has_role_spec(
                    role,
                    q,
                )),
    {
        self.roles.remove_role(role, principal);
    }

    /// Takes `role` from `principal`; administrators only.
    pub fn remove_role(&mut self, caller: &StablePrincipal, role: UserRole, principal: &StablePrincipal) -> (r:
        Result<(), ReturnError>)
        requires
            old(self).wf(),
        ensures
            final(self).wf(),
            old(self).evolves_to(final(self)),
            !old(self).has_role_spec(UserRole::Admin, caller@) ==> r == Err::<(), ReturnError>(
                ReturnError::Unauthorized,
            ) && *final(self) == *old(self),
            old(self).has_role_spec(UserRole::Admin, caller@) ==> r is Ok && !final(self).has_role_spec(role, principal@) && old(self).roles_view().others_kept(
                &final(self).roles_view(),
                role,
            ) && forall|q: Seq<u8>|
                q != principal@ ==> (final(self).has_role_spec(role, q) <==> old(self).has_role_spec(
                    role,
                    q,
                )),
    {
        if !self.roles.has_role(UserRole::Admin, caller) {
            return Err(ReturnError::Unauthorized);
        }
        self.remove_role_internal(role, principal);
        Ok(())
    }

    /// Removes every member of `role` without checking the caller.
    pub fn clear_users_of_role_internal(&mut self, role: UserRole)
        requires
            old(self).wf(),
        ensures
            final(self).wf(),
            old(self).evolves_to(final(self)),
            *final(self) == old(self).with_roles(final(self).roles_view()),
            old(self).roles_view().others_kept(&final(self).roles_view(), role),
            final(self).roles_view().members_of(role) == Seq::<Seq<u8>>::empty(),
    {
        self.roles.clear_users_of_role(role);
    }

    /// Removes every member of `role`; administrators only.
    pub fn clear_users_of_role(&mut self, caller: &StablePrincipal, role: UserRole) -> (r: Result<
        (),
        ReturnError,
    >)
        requires
            old(self).wf(),
        ensures
            final(self).wf(),
            old(self).evolves_to(final(self)),
            !old(self).has_role_spec(UserRole::Admin, caller@) ==> r == Err::<(), ReturnError>(
                ReturnError::Unauthorized,
            ) && *final(self) == *old(self),
            old(self).has_role_spec(UserRole::Admin, caller@) ==> r is Ok && final(self).roles_view().members_of(role) == Seq::<Seq<u8>>::empty() && old(self).roles_view().others_kept(&final(self).roles_view(), role),
    {
        if !self.roles.has_role(UserRole::Admin, caller) {
            return Err(ReturnError::Unauthorized);
        }
        self.clear_users_of_role_internal(role);
        Ok(())
    }
}


impl Governance {
    /// Submits a proposal and returns its id; proposers only.
    ///
    /// Metadata needs a name and a description, every message a method, the
    /// payload at most `MAX_MESSAGES` messages, `expires` must lie in the
    /// future, and every dependency must be an earlier proposal; otherwise
    /// `InputError`. The new proposal is queued for the validator hook when
    /// one is configured.
    pub fn submit(
        &mut self,
        caller: &StablePrincipal,
        metadata: ProposalMetadata,
        payload: ProposalPayload,
        activates: Schedule,
        expires: Schedule,
        auto_execute: bool,
        now: TimeNs,
    ) -> (r: Result<Index, ReturnError>)
        requires
            old(self).wf(),
        ensures
            final(self).wf(),
            old(self).evolves_to(final(self)),
            !old(self).has_role_spec(UserRole::Proposer, caller@) ==> r == Err::<Index, ReturnError>(
                ReturnError::Unauthorized,
            ) && *final(self) == *old(self),
            old(self).has_role_spec(UserRole::Proposer, caller@) && !submission_ok(
                metadata,
                payload,
                expires,
                now,
                old(self).len(),
            ) ==> r == Err::<Index, ReturnError>(ReturnError::InputError) && *final(self) == *old(self),
            old(self).has_role_spec(UserRole::Proposer, caller@) && submission_ok(
                metadata,
                payload,
                expires,
                now,
                old(self).len(),
            ) ==> {
                &&& r == Ok::<Index, ReturnError>(old(self).len() as Index)
                &&& final(self).len() == old(self).len() + 1
                &&& forall|i: int| 0 <= i < old(self).len() ==> #[trigger] final(self).proposal(i) == old(self).proposal(i)
                &&& final(self).payloads_view() == old(self).payloads_view().push(payload)
                &&& final(self).metadata_view() == old(self).metadata_view().push(metadata)
                &&& final(self).timer_view() == old(self).timer_after(old(self).config_view().validator_hook, old(self).len() as Index)
                &&& final(self).config_view() == old(self).config_view()
                &&& final(self).roles_view() == old(self).roles_view()
                &&& final(self).revokes_view() == old(self).revokes_view()
                &&& ({
                    let p = final(self).proposal(old(self).len());
                    &&& p.metadata_id == old(self).len()
                    &&& p.payload_id == old(self).len()
                    &&& p.auto_execute == auto_execute
                    &&& p.activates == activates
                    &&& p.expires == expires
                    &&& p.created_at == now
                    &&& p.proposer@ == caller@
                    &&& p.validated is None
                    &&& p.voting_end_time is None
                    &&& p.passing_threshold is None
                    &&& p.state is Submitted
                    &&& p.votes_yes == 0 && p.votes_no == 0 && p.votes_abstain == 0
                    &&& p.total_voting_power == 0
                })
            },
    {
        if !self.roles.has_role(UserRole::Proposer, caller) {
            return Err(ReturnError::Unauthorized);
        }
        let next_id = self.proposals.len() as Index;
        let deps_ok = match payload.max_dependency_index() {
            None => true,
            Some(m) => m < next_id,
        };
        if !metadata.is_valid() || !payload.is_valid() || !expires.is_in_future(now) || !deps_ok {
            return Err(ReturnError::InputError);
        }
        let proposal = Proposal::from_submit(
            next_id,
            next_id,
            auto_execute,
            activates,
            expires,
            caller.clone(),
            now,
        );
        self.metadata.push(metadata);
        self.payloads.push(payload);
        self.proposals.push(proposal);
        self.execs.push(ProposalExec { execution_result: Vec::new() });
        if self.config.validator_hook.is_some() {
            self.timer_tasks.push(next_id);
        }
        proof {
            assert forall|i: int| 0 <= i < self.len() implies proposal_wf(
                #[trigger] self.proposals_view()[i],
                i,
                self.payloads_view()[i],
                self.results_len(i),
            ) by {
                if i < old(self).len() {
                    assert(self.proposals_view()[i] == old(self).proposals_view()[i]);
                    assert(self.payloads_view()[i] == old(self).payloads_view()[i]);
                    assert(self.execs_view()[i] == old(self).execs_view()[i]);
                } else {
                    assert(self.results_len(i) == 0);
                }
            }
        }
        Ok(next_id)
    }

    /// The outcome of a call of `validate` that turned this store into `next`.
    pub open spec fn validate_outcome(
        &self,
        next: &Governance,
        r: Result<(), ReturnError>,
        caller: Seq<u8>,
        proposal_id: Index,
        voting_end_time: Option<TimeNs>,
        passing_threshold: Option<ProposalPassingThreshold>,
        validated: bool,
        now: TimeNs,
    ) -> bool {
        if !self.has_role_spec(UserRole::Validator, caller) {
            r == Err::<(), ReturnError>(ReturnError::Unauthorized) && *next == *self
        } else if validated && !validation_input_ok(
            self.config_view(),
            voting_end_time,
            passing_threshold,
            now,
        ) {
            r == Err::<(), ReturnError>(ReturnError::InputError) && *next == *self
        } else if proposal_id >= self.len() {
            r == Err::<(), ReturnError>(ReturnError::InvalidIndex) && *next == *self
        } else if !(self.state_of(proposal_id as int) is Submitted) {
            r == Err::<(), ReturnError>(ReturnError::IncorrectProposalState) && *next == *self
        } else {
            &&& r is Ok
            &&& self.only_proposal_changed(next, proposal_id as int)
            &&& next.proposal(proposal_id as int) == (Proposal {
                state: if validated {
                    ProposalState::Open
                } else {
                    ProposalState::ValidationFailed
                },
                validated: Some(validated),
                voting_end_time,
                passing_threshold,
                ..self.proposal(proposal_id as int)
            })
            &&& next.timer_view() == self.timer_after(self.config_view().vote_manager_hook, proposal_id)
        }
    }

    /// Records the validator's decision on a submitted proposal; validators only.
    ///
    /// Acceptance needs a valid threshold at least as strict as the configured
    /// minimum and a voting end at least the minimum voting period after `now`,
    /// else `InputError`. The proposal then opens for voting, or fails
    /// validation for good, and is queued for the vote manager hook when one is
    /// configured.
    pub fn validate(
        &mut self,
        caller: &StablePrincipal,
        proposal_id: Index,
        voting_end_time: Option<TimeNs>,
        passing_threshold: Option<ProposalPassingThreshold>,
        validated: bool,
        now: TimeNs,
    ) -> (r: Result<(), ReturnError>)
        requires
            old(self).wf(),
        ensures
            final(self).wf(),
            old(self).evolves_to(final(self)),
            old(self).validate_outcome(
                final(self),
                r,
                caller@,
                proposal_id,
                voting_end_time,
                passing_threshold,
                validated,
                now,
            ),
    {
        if !self.roles.has_role(UserRole::Validator, caller) {
            return Err(ReturnError::Unauthorized);
        }
        if validated {
            let threshold_ok = match passing_threshold {
                Some(t) => t.is_valid() && t.all_fields_gte(&self.config.min_passing_threshold),
                None => false,
            };
            let end_ok = match voting_end_time {
                Some(e) => e >= now && e - now >= self.config.min_voting_period,
                None => false,
            };
            if !threshold_ok || !end_ok {
                return Err(ReturnError::InputError);
            }
        }
        if proposal_id >= self.proposals.len() as Index {
            return Err(ReturnError::InvalidIndex);
        }
        let i = proposal_id as usize;
        if self.proposals[i].state != ProposalState::Submitted {
            return Err(ReturnError::IncorrectProposalState);
        }
        let next = if validated {
            ProposalState::Open
        } else {
            ProposalState::ValidationFailed
        };
        let ghost before = self.proposals@[i as int];
        {
            let p = &mut self.proposals[i];
            let _ = p.state_transition(next);
            p.validated = Some(validated);
            p.voting_end_time = voting_end_time;
            p.passing_threshold = passing_threshold;
        }
        if self.config.vote_manager_hook.is_some() {
            self.timer_tasks.push(proposal_id);
        }
        proof {
            assert forall|j: int| 0 <= j < self.len() implies proposal_wf(
                #[trigger] self.proposals_view()[j],
                j,
                self.payloads_view()[j],
                self.results_len(j),
            ) by {
                if j != i {
                    assert(self.proposals_view()[j] == old(self).proposals_view()[j]);
                } else {
                    assert(old(self).proposals_view()[j] == before);
                }
            }
        }
        Ok(())
    }
}


impl Governance {
    /// The outcome of a vote update on proposal `id` that would leave the
    /// tallies at `yes`, `no`, `abstain` out of `total`: `InvalidIndex`,
    /// `Expired` unless the vote is running at `now`, `ArithmeticError` for
    /// tallies out of range, otherwise the tallies are stored and the vote is
    /// settled.
    pub open spec fn vote_update_result(
        &self,
        next: &Governance,
        r: Result<(), ReturnError>,
        id: Index,
        yes: int,
        no: int,
        abstain: int,
        total: int,
        now: TimeNs,
    ) -> bool {
        if id >= self.len() {
            r == Err::<(), ReturnError>(ReturnError::InvalidIndex) && *next == *self
        } else if !self.proposal(id as int).voteable_at(now) {
            r == Err::<(), ReturnError>(ReturnError::Expired) && *next == *self
        } else if !tallies_in_range(yes, no, abstain, total) {
            r == Err::<(), ReturnError>(ReturnError::ArithmeticError) && *next == *self
        } else {
            &&& r is Ok
            &&& self.only_proposal_changed(next, id as int)
            &&& next.timer_view() == self.timer_view()
            &&& next.proposal(id as int) == settled(
                self.config_view(),
                with_tallies(self.proposal(id as int), yes, no, abstain, total),
                now,
            )
        }
    }

    fn apply_vote_update(
        &mut self,
        proposal_id: Index,
        yes_delta: VotingPower,
        no_delta: VotingPower,
        abstain_delta: VotingPower,
        total: Option<VotingPower>,
        now: TimeNs,
    ) -> (r: Result<(), ReturnError>)
        requires
            old(self).wf(),
        ensures
            final(self).wf(),
            old(self).evolves_to(final(self)),
            proposal_id < old(self).len() ==> {
                let p = old(self).proposal(proposal_id as int);
                old(self).vote_update_result(
                    final(self),
                    r,
                    proposal_id,
                    p.votes_yes + yes_delta,
                    p.votes_no + no_delta,
                    p.votes_abstain + abstain_delta,
                    match total {
                        Some(t) => t as int,
                        None => p.total_voting_power as int,
                    },
                    now,
                )
            },
            proposal_id >= old(self).len() ==> r == Err::<(), ReturnError>(ReturnError::InvalidIndex)
                && *final(self) == *old(self),
    {
        if proposal_id >= self.proposals.len() as Index {
            return Err(ReturnError::InvalidIndex);
        }
        let i = proposal_id as usize;
        if !self.proposals[i].is_voteable(now) {
            return Err(ReturnError::Expired);
        }
        let total = match total {
            Some(t) => t,
            None => self.proposals[i].total_voting_power,
        };
        let yes = match self.proposals[i].votes_yes.checked_add(yes_delta) {
            Some(v) => v,
            None => { return Err(ReturnError::ArithmeticError); },
        };
        let no = match self.proposals[i].votes_no.checked_add(no_delta) {
            Some(v) => v,
            None => { return Err(ReturnError::ArithmeticError); },
        };
        let abstain = match self.proposals[i].votes_abstain.checked_add(abstain_delta) {
            Some(v) => v,
            None => { return Err(ReturnError::ArithmeticError); },
        };
        if yes < 0 || no < 0 || abstain < 0 || yes > total || no > total - yes || abstain > total
            - yes - no {
            return Err(ReturnError::ArithmeticError);
        }
        let finalize = self.config.voting_may_end_early || self.proposals[i].is_expired(now);
        let ghost before = self.proposals@[i as int];
        {
            let p = &mut self.proposals[i];
            p.votes_yes = yes;
            p.votes_no = no;
            p.votes_abstain = abstain;
            p.total_voting_power = total;
            if finalize {
                let _ = p.try_finalize_vote_result(now);
            }
        }
        proof {
            assert forall|j: int| 0 <= j < self.len() implies proposal_wf(
                #[trigger] self.proposals_view()[j],
                j,
                self.payloads_view()[j],
                self.results_len(j),
            ) by {
                if j != i {
                    assert(self.proposals_view()[j] == old(self).proposals_view()[j]);
                } else {
                    assert(old(self).proposals_view()[j] == before);
                }
            }
        }
        Ok(())
    }

    /// Adds signed increments to the tallies of an open proposal; vote
    /// managers only. A negative increment withdraws earlier voting power.
    pub fn update_vote_result(
        &mut self,
        caller: &StablePrincipal,
        proposal_id: Index,
        yes_voting_power: VotingPower,
        no_voting_power: VotingPower,
        abstain_voting_power: VotingPower,
        now: TimeNs,
    ) -> (r: Result<(), ReturnError>)
        requires
            old(self).wf(),
        ensures
            final(self).wf(),
            old(self).evolves_to(final(self)),
            !old(self).has_role_spec(UserRole::VoteManager, caller@) ==> r == Err::<(), ReturnError>(
                ReturnError::Unauthorized,
            ) && *final(self) == *old(self),
            old(self).has_role_spec(UserRole::VoteManager, caller@) && proposal_id >= old(self).len()
                ==> r == Err::<(), ReturnError>(ReturnError::InvalidIndex) && *final(self) == *old(self),
            old(self).has_role_spec(UserRole::VoteManager, caller@) && proposal_id < old(self).len()
                ==> {
                let p = old(self).proposal(proposal_id as int);
                old(self).vote_update_result(
                    final(self),
                    r,
                    proposal_id,
                    p.votes_yes + yes_voting_power,
                    p.votes_no + no_voting_power,
                    p.votes_abstain + abstain_voting_power,
                    p.total_voting_power as int,
                    now,
                )
            },
    {
        if !self.roles.has_role(UserRole::VoteManager, caller) {
            return Err(ReturnError::Unauthorized);
        }
        self.apply_vote_update(
            proposal_id,
            yes_voting_power,
            no_voting_power,
            abstain_voting_power,
            None,
            now,
        )
    }

    /// Replaces the total voting power of an open proposal; vote managers only.
    pub fn update_total_voting_power(
        &mut self,
        caller: &StablePrincipal,
        proposal_id: Index,
        total_voting_power: VotingPower,
        now: TimeNs,
    ) -> (r: Result<(), ReturnError>)
        requires
            old(self).wf(),
        ensures
            final(self).wf(),
            old(self).evolves_to(final(self)),
            !old(self).has_role_spec(UserRole::VoteManager, caller@) ==> r == Err::<(), ReturnError>(
                ReturnError::Unauthorized,
            ) && *final(self) == *old(self),
            old(self).has_role_spec(UserRole::VoteManager, caller@) && proposal_id >= old(self).len()
                ==> r == Err::<(), ReturnError>(ReturnError::InvalidIndex) && *final(self) == *old(self),
            old(self).has_role_spec(UserRole::VoteManager, caller@) && proposal_id < old(self).len()
                ==> {
                let p = old(self).proposal(proposal_id as int);
                old(self).vote_update_result(
                    final(self),
                    r,
                    proposal_id,
                    p.votes_yes as int,
                    p.votes_no as int,
                    p.votes_abstain as int,
                    total_voting_power as int,
                    now,
                )
            },
    {
        if !self.roles.has_role(UserRole::VoteManager, caller) {
            return Err(ReturnError::Unauthorized);
        }
        self.apply_vote_update(proposal_id, 0, 0, 0, Some(total_voting_power), now)
    }

    /// Adds signed increments to the tallies and replaces the total voting
    /// power at once; vote managers only.
    pub fn update_vote_result_and_total_voting_power(
        &mut self,
        caller: &StablePrincipal,
        proposal_id: Index,
        yes_voting_power: VotingPower,
        no_voting_power: VotingPower,
        abstain_voting_power: VotingPower,
        total_voting_power: VotingPower,
        now: TimeNs,
    ) -> (r: Result<(), ReturnError>)
        requires
            old(self).wf(),
        ensures
            final(self).wf(),
            old(self).evolves_to(final(self)),
            !old(self).has_role_spec(UserRole::VoteManager, caller@) ==> r == Err::<(), ReturnError>(
                ReturnError::Unauthorized,
            ) && *final(self) == *old(self),
            old(self).has_role_spec(UserRole::VoteManager, caller@) && proposal_id >= old(self).len()
                ==> r == Err::<(), ReturnError>(ReturnError::InvalidIndex) && *final(self) == *old(self),
            old(self).has_role_spec(UserRole::VoteManager, caller@) && proposal_id < old(self).len()
                ==> {
                let p = old(self).proposal(proposal_id as int);
                old(self).vote_update_result(
                    final(self),
                    r,
                    proposal_id,
                    p.votes_yes + yes_voting_power,
                    p.votes_no + no_voting_power,
                    p.votes_abstain + abstain_voting_power,
                    total_voting_power as int,
                    now,
                )
            },
    {
        if !self.roles.has_role(UserRole::VoteManager, caller) {
            return Err(ReturnError::Unauthorized);
        }
        self.apply_vote_update(
            proposal_id,
            yes_voting_power,
            no_voting_power,
            abstain_voting_power,
            Some(total_voting_power),
            now,
        )
    }

    /// Settles the vote of an open proposal without changing its tallies:
    /// at or after the end of the voting period (or early, when the
    /// configuration allows it) the result is fixed; vote managers only.
    pub fn finalize_vote_result(&mut self, caller: &StablePrincipal, proposal_id: Index, now: TimeNs) -> (r:
        Result<(), ReturnError>)
        requires
            old(self).wf(),
        ensures
            final(self).wf(),
            old(self).evolves_to(final(self)),
            !old(self).has_role_spec(UserRole::VoteManager, caller@) ==> r == Err::<(), ReturnError>(
                ReturnError::Unauthorized,
            ) && *final(self) == *old(self),
            old(self).has_role_spec(UserRole::VoteManager, caller@) && proposal_id >= old(self).len()
                ==> r == Err::<(), ReturnError>(ReturnError::InvalidIndex) && *final(self) == *old(self),
            old(self).has_role_spec(UserRole::VoteManager, caller@) && proposal_id < old(self).len()
                && !(old(self).state_of(proposal_id as int) is Open) ==> r == Err::<(), ReturnError>(
                ReturnError::IncorrectProposalState,
            ) && *final(self) == *old(self),
            old(self).has_role_spec(UserRole::VoteManager, caller@) && proposal_id < old(self).len()
                && old(self).state_of(proposal_id as int) is Open ==> {
                &&& r is Ok
                &&& old(self).only_proposal_changed(final(self), proposal_id as int)
                &&& final(self).timer_view() == old(self).timer_view()
                &&& final(self).proposal(proposal_id as int) == settled(
                    old(self).config_view(),
                    old(self).proposal(proposal_id as int),
                    now,
                )
            },
    {
        if !self.roles.has_role(UserRole::VoteManager, caller) {
            return Err(ReturnError::Unauthorized);
        }
        if proposal_id >= self.proposals.len() as Index {
            return Err(ReturnError::InvalidIndex);
        }
        let i = proposal_id as usize;
        if self.proposals[i].state != ProposalState::Open {
            return Err(ReturnError::IncorrectProposalState);
        }
        let finalize = self.config.voting_may_end_early || self.proposals[i].is_expired(now);
        let ghost before = self.proposals@[i as int];
        if finalize {
            let p = &mut self.proposals[i];
            let _ = p.try_finalize_vote_result(now);
        }
        proof {
            assert forall|j: int| 0 <= j < self.len() implies proposal_wf(
                #[trigger] self.proposals_view()[j],
                j,
                self.payloads_view()[j],
                self.results_len(j),
            ) by {
                if j != i {
                    assert(self.proposals_view()[j] == old(self).proposals_view()[j]);
                } else {
                    assert(old(self).proposals_view()[j] == before);
                }
            }
        }
        Ok(())
    }

    /// Revokes an open proposal and records why; revokers only.
    pub fn revoke(&mut self, caller: &StablePrincipal, proposal_id: Index, reason: String, now: TimeNs) -> (r:
        Result<(), ReturnError>)
        requires
            old(self).wf(),
        ensures
            final(self).wf(),
            old(self).evolves_to(final(self)),
            !old(self).has_role_spec(UserRole::Revoker, caller@) ==> r == Err::<(), ReturnError>(
                ReturnError::Unauthorized,
            ) && *final(self) == *old(self),
            old(self).has_role_spec(UserRole::Revoker, caller@) && proposal_id >= old(self).len()
                ==> r == Err::<(), ReturnError>(ReturnError::InvalidIndex) && *final(self) == *old(self),
            old(self).has_role_spec(UserRole::Revoker, caller@) && proposal_id < old(self).len() && !(old(self).state_of(proposal_id as int) is Open) ==> r == Err::<(), ReturnError>(
                ReturnError::IncorrectProposalState,
            ) && *final(self) == *old(self),
            old(self).has_role_spec(UserRole::Revoker, caller@) && proposal_id < old(self).len() && old(self).state_of(proposal_id as int) is Open ==> {
                &&& r is Ok
                &&& final(self).proposal(proposal_id as int) == crate::proposal::with_state(
                    old(self).proposal(proposal_id as int),
                    ProposalState::Revoked,
                )
                &&& final(self).len() == old(self).len()
                &&& forall|i: int|
                    0 <= i < old(self).len() && i != proposal_id ==> #[trigger] final(self).proposal(i)
                        == old(self).proposal(i)
                &&& final(self).revokes_view().len() == old(self).revokes_view().len() + 1
                &&& forall|i: int|
                    0 <= i < old(self).revokes_view().len() ==> #[trigger] final(self).revokes_view()[i]
                        == old(self).revokes_view()[i]
                &&& ({
                    let rec = final(self).revokes_view().last();
                    rec.proposal_id == proposal_id && rec.reason@ == reason@ && rec.revoked_at == now
                })
                &&& final(self).timer_view() == old(self).timer_view()
            },
    {
        if !self.roles.has_role(UserRole::Revoker, caller) {
            return Err(ReturnError::Unauthorized);
        }
        if proposal_id >= self.proposals.len() as Index {
            return Err(ReturnError::InvalidIndex);
        }
        let i = proposal_id as usize;
        if self.proposals[i].state != ProposalState::Open {
            return Err(ReturnError::IncorrectProposalState);
        }
        let ghost before = self.proposals@[i as int];
        {
            let p = &mut self.proposals[i];
            let _ = p.state_transition(ProposalState::Revoked);
        }
        self.revokes.push(ProposalRevoke { proposal_id, reason, revoked_at: now });
        proof {
            assert forall|j: int| 0 <= j < self.len() implies proposal_wf(
                #[trigger] self.proposals_view()[j],
                j,
                self.payloads_view()[j],
                self.results_len(j),
            ) by {
                if j != i {
                    assert(self.proposals_view()[j] == old(self).proposals_view()[j]);
                } else {
                    assert(old(self).proposals_view()[j] == before);
                }
            }
        }
        Ok(())
    }
}


impl Governance {
    /// Id and voting end of every open proposal, by increasing id.
    pub fn get_all_open_proposal_ids_with_expiration(&self) -> (r: Vec<(Index, TimeNs)>)
        requires
            self.wf(),
        ensures
            forall|a: int, b: int| 0 <= a < b < r@.len() ==> r@[a].0 < r@[b].0,
            forall|k: int|
                0 <= k < r@.len() ==> {
                    let (id, end) = #[trigger] r@[k];
                    &&& id < self.len()
                    &&& self.state_of(id as int) is Open
                    &&& self.proposal(id as int).voting_end_time == Some(end)
                },
            forall|i: int|
                0 <= i < self.len() && (#[trigger] self.state_of(i)) is Open ==> exists|k: int|
                    0 <= k < r@.len() && r@[k].0 == i,
    {
        let mut r: Vec<(Index, TimeNs)> = Vec::new();
        let mut i: usize = 0;
        while i < self.proposals.len()
            invariant
                self.wf(),
                i <= self.len(),
                forall|a: int, b: int| 0 <= a < b < r@.len() ==> r@[a].0 < r@[b].0,
                forall|k: int| 0 <= k < r@.len() ==> (#[trigger] r@[k]).0 < i,
                forall|k: int|
                    0 <= k < r@.len() ==> {
                        let (id, end) = #[trigger] r@[k];
                        &&& id < self.len()
                        &&& self.state_of(id as int) is Open
                        &&& self.proposal(id as int).voting_end_time == Some(end)
                    },
                forall|j: int|
                    0 <= j < i && (#[trigger] self.state_of(j)) is Open ==> exists|k: int|
                        0 <= k < r@.len() && r@[k].0 == j,
            decreases self.len() - i,
        {
            let ghost old_r = r@;
            if self.proposals[i].state == ProposalState::Open {
                assert(proposal_wf(
                    self.proposals@[i as int],
                    i as int,
                    self.payloads@[i as int],
                    self.results_len(i as int),
                ));
                match self.proposals[i].voting_end_time {
                    Some(end) => {
                        r.push((i as Index, end));
                        assert(r@[r@.len() - 1].0 == i);
                    },
                    None => {},
                }
            }
            proof {
                assert forall|j: int|
                    0 <= j < i + 1 && (#[trigger] self.state_of(j)) is Open implies exists|k: int|
                        0 <= k < r@.len() && r@[k].0 == j by {
                    if j < i {
                        let k = choose|k: int| 0 <= k < old_r.len() && old_r[k].0 == j;
                        assert(r@[k] == old_r[k]);
                    } else {
                        assert(r@[r@.len() - 1].0 == j);
                    }
                }
            }
            i = i + 1;
        }
        r
    }

    /// Ids of every proposal waiting for validation, increasing.
    pub fn get_all_submitted_proposal_ids(&self) -> (r: Vec<Index>)
        ensures
            forall|a: int, b: int| 0 <= a < b < r@.len() ==> r@[a] < r@[b],
            forall|k: int|
                0 <= k < r@.len() ==> #[trigger] r@[k] < self.len() && self.state_of(
                    r@[k] as int,
                ) is Submitted,
            forall|i: int|
                0 <= i < self.len() && (#[trigger] self.state_of(i)) is Submitted ==> r@.contains(
                    i as Index,
                ),
    {
        let mut r: Vec<Index> = Vec::new();
        let mut i: usize = 0;
        while i < self.proposals.len()
            invariant
                i <= self.len(),
                forall|a: int, b: int| 0 <= a < b < r@.len() ==> r@[a] < r@[b],
                forall|k: int|
                    0 <= k < r@.len() ==> #[trigger] r@[k] < i && self.state_of(r@[k] as int) is Submitted,
                forall|j: int|
                    0 <= j < i && (#[trigger] self.state_of(j)) is Submitted ==> r@.contains(j as Index),
            decreases self.len() - i,
        {
            let ghost old_r = r@;
            if self.proposals[i].state == ProposalState::Submitted {
                r.push(i as Index);
                assert(r@[r@.len() - 1] == i as Index);
            }
            proof {
                assert forall|j: int|
                    0 <= j < i + 1 && (#[trigger] self.state_of(j)) is Submitted implies r@.contains(
                        j as Index,
                    ) by {
                    if j < i {
                        let k = choose|k: int| 0 <= k < old_r.len() && old_r[k] == j as Index;
                        assert(r@[k] == old_r[k]);
                    } else {
                        assert(r@[r@.len() - 1] == j as Index);
                    }
                }
            }
            i = i + 1;
        }
        r
    }

    /// States of the proposals with ids from `skip` on, at most `take` of them.
    pub fn get_proposal_states(&self, skip: Index, take: Index) -> (r: Vec<ProposalState>)
        ensures
            ({
                let lo = if skip < self.len() { skip as int } else { self.len() };
                let hi = if lo + take < self.len() { lo + take } else { self.len() };
                r@ == self.proposals_view().subrange(lo, hi).map_values(|p: Proposal| p.state)
            }),
    {
        let n = self.proposals.len();
        let lo: usize = if skip < n as Index { skip as usize } else { n };
        let hi: usize = if take < (n - lo) as Index { lo + take as usize } else { n };
        let mut r: Vec<ProposalState> = Vec::new();
        let mut i: usize = lo;
        while i < hi
            invariant
                lo <= i <= hi <= n == self.len(),
                r@ == self.proposals_view().subrange(lo as int, i as int).map_values(
                    |p: Proposal| p.state,
                ),
            decreases hi - i,
        {
            r.push(self.proposals[i].state);
            i = i + 1;
            assert(r@ =~= self.proposals_view().subrange(lo as int, i as int).map_values(
                |p: Proposal| p.state,
            ));
        }
        r
    }

    /// The id the next submitted proposal will get.
    pub fn get_next_proposal_id(&self) -> (r: Index)
        ensures
            r == self.len(),
    {
        self.proposals.len() as Index
    }

    pub fn get_proposal(&self, proposal_id: Index) -> (r: Option<&Proposal>)
        ensures
            proposal_id < self.len() ==> r == Some(&self.proposal(proposal_id as int)),
            proposal_id >= self.len() ==> r is None,
    {
        if proposal_id < self.proposals.len() as Index {
            Some(&self.proposals[proposal_id as usize])
        } else {
            None
        }
    }

    pub fn get_proposal_metadata(&self, proposal_id: Index) -> (r: Option<&ProposalMetadata>)
        ensures
            proposal_id < self.metadata_view().len() ==> r == Some(
                &self.metadata_view()[proposal_id as int],
            ),
            proposal_id >= self.metadata_view().len() ==> r is None,
    {
        if proposal_id < self.metadata.len() as Index {
            Some(&self.metadata[proposal_id as usize])
        } else {
            None
        }
    }

    pub fn get_proposal_payload(&self, proposal_id: Index) -> (r: Option<&ProposalPayload>)
        ensures
            proposal_id < self.payloads_view().len() ==> r == Some(
                &self.payloads_view()[proposal_id as int],
            ),
            proposal_id >= self.payloads_view().len() ==> r is None,
    {
        if proposal_id < self.payloads.len() as Index {
            Some(&self.payloads[proposal_id as usize])
        } else {
            None
        }
    }

    /// The execution results of a proposal, once it has any.
    pub fn get_proposal_exec(&self, proposal_id: Index) -> (r: Option<&ProposalExec>)
        ensures
            proposal_id < self.execs_len() && self.results_len(proposal_id as int) > 0 ==> r == Some(
                &self.execs_view()[proposal_id as int],
            ),
            !(proposal_id < self.execs_len() && self.results_len(proposal_id as int) > 0) ==> r is None,
    {
        if proposal_id < self.execs.len() as Index && self.execs[proposal_id as usize].execution_result.len() > 0 {
            Some(&self.execs[proposal_id as usize])
        } else {
            None
        }
    }

    /// The execution results of a proposal; `InvalidIndex` before it has any.
    pub fn get_proposal_execution_result(&self, proposal_id: Index) -> (r: Result<&ProposalExec, ReturnError>)
        ensures
            proposal_id < self.execs_len() && self.results_len(proposal_id as int) > 0 ==> r == Ok::<
                &ProposalExec,
                ReturnError,
            >(&self.execs_view()[proposal_id as int]),
            !(proposal_id < self.execs_len() && self.results_len(proposal_id as int) > 0) ==> r
                == Err::<&ProposalExec, ReturnError>(ReturnError::InvalidIndex),
    {
        match self.get_proposal_exec(proposal_id) {
            Some(e) => Ok(e),
            None => Err(ReturnError::InvalidIndex),
        }
    }

    /// The revocation record with the given index.
    pub fn get_proposal_revoke(&self, revoke_id: Index) -> (r: Option<&ProposalRevoke>)
        ensures
            revoke_id < self.revokes_view().len() ==> r == Some(&self.revokes_view()[revoke_id as int]),
            revoke_id >= self.revokes_view().len() ==> r is None,
    {
        if revoke_id < self.revokes.len() as Index {
            Some(&self.revokes[revoke_id as usize])
        } else {
            None
        }
    }

    /// Takes the most recently queued notification, if any.
    pub fn pop_timer_task(&mut self) -> (r: Option<Index>)
        requires
            old(self).wf(),
        ensures
            final(self).wf(),
            old(self).evolves_to(final(self)),
            old(self).timer_view().len() == 0 ==> r is None && final(self).timer_view() == old(self).timer_view() && old(self).same_records(final(self)),
            old(self).timer_view().len() > 0 ==> r == Some(old(self).timer_view().last()) && final(self).timer_view() == old(self).timer_view().drop_last() && old(self).same_records(final(self)),
    {
        self.timer_tasks.pop()
    }

    /// Queued notifications, oldest first.
    pub fn timer_tasks(&self) -> (r: &Vec<Index>)
        ensures
            r@ == self.timer_view(),
    {
        &self.timer_tasks
    }
}

} // verus!
