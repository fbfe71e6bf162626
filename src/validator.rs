//! A simple validator: it admits a proposal whose messages all call
//! whitelisted canisters without pre- or post-validation, and gives every
//! admitted proposal a five day vote with a 20% quorum and pass rate.
use vstd::prelude::*;

use crate::access::RoleList;
use crate::execution::ProposalPayload;
use crate::idmap::IdMap;
use crate::types::{Index, Percentage, ProposalPassingThreshold, ReturnError, StablePrincipal, TimeNs};

verus! {

/// Five days, in nanoseconds.
pub const VOTING_PERIOD: TimeNs = 432_000_000_000_000;

/// Settings of the validator.
#[derive(Clone, Debug)]
pub struct Config {
    pub name: String,
    pub description: String,
    /// Whether the one-time initialization has run.
    pub initialized: bool,
    /// The governance engine whose proposals are validated.
    pub governance_canister: StablePrincipal,
}

#[derive(Clone, Copy, Debug, PartialEq, Eq, Structural)]
pub enum UserRole {
    /// Manages roles and settings (typically the governance engine).
    Admin,
}

/// What the validator answers for a proposal.
#[derive(Clone, Copy, Debug, PartialEq, Eq, Structural)]
pub struct ValidationResponse {
    pub validated: bool,
    pub voting_end_time: Option<TimeNs>,
    pub passing_threshold: Option<ProposalPassingThreshold>,
}

/// The validator's state: settings, administrators, the whitelist of call
/// targets, and the decision recorded for each proposal.
#[derive(Debug)]
pub struct SimpleValidator {
    config: Config,
    admins: RoleList,
    whitelist: RoleList,
    validations: IdMap<u8>,
}

/// A payload the validator admits for proposal `proposal`: no dependency on
/// itself or a later proposal, every target whitelisted, and no pre- or
/// post-validation.
pub open spec fn admissible(whitelist: Seq<Seq<u8>>, proposal: Index, payload: ProposalPayload) -> bool {
    &&& forall|j: int| 0 <= j < payload.depends_on@.len() ==> #[trigger] payload.depends_on@[j] < proposal
    &&& forall|j: int|
        0 <= j < payload.messages@.len() ==> whitelist.contains(
            (#[trigger] payload.messages@[j]).canister_id@,
        )
    &&& forall|j: int|
        0 <= j < payload.messages@.len() ==> (#[trigger] payload.messages@[j]).pre_validate is None
            && payload.messages@[j].post_validate is None
}

/// Adds `p` unless it is a member already.
fn add_one(list: &mut RoleList, p: StablePrincipal)
    requires
        old(list).wf(),
    ensures
        final(list).wf(),
        final(list)@.contains(p@),
        forall|q: Seq<u8>| q != p@ ==> (#[trigger] final(list)@.contains(q) <==> old(list)@.contains(q)),
{
    let ghost before = list@;
    let ghost pv = p@;
    let _ = list.add(p);
    proof {
        if !before.contains(pv) {
            assert(list@[list@.len() - 1] == pv);
            assert forall|q: Seq<u8>| q != pv implies (#[trigger] list@.contains(q) <==> before.contains(q)) by {
                if list@.contains(q) {
                    let k = choose|k: int| 0 <= k < list@.len() && list@[k] == q;
                    assert(k < before.len());
                    assert(before[k] == q);
                }
                if before.contains(q) {
                    let k = choose|k: int| 0 <= k < before.len() && before[k] == q;
                    assert(list@[k] == q);
                }
            }
        }
    }
}

/// Adds every listed principal that is not a member yet.
fn add_all(list: &mut RoleList, ids: &Vec<StablePrincipal>)
    requires
        old(list).wf(),
    ensures
        final(list).wf(),
        forall|q: Seq<u8>|
            #[trigger] final(list)@.contains(q) <==> (old(list)@.contains(q) || ids@.map_values(
                |p: StablePrincipal| p@,
            ).contains(q)),
{
    let ghost all = ids@.map_values(|p: StablePrincipal| p@);
    let mut i: usize = 0;
    while i < ids.len()
        invariant
            list.wf(),
            i <= ids@.len(),
            all == ids@.map_values(|p: StablePrincipal| p@),
            forall|q: Seq<u8>|
                #[trigger] list@.contains(q) <==> (old(list)@.contains(q) || all.subrange(
                    0,
                    i as int,
                ).contains(q)),
        decreases ids@.len() - i,
    {
        let ghost before = list@;
        let ghost next = all[i as int];
        let _ = list.add(ids[i].clone());
        proof {
            assert(all.subrange(0, i + 1) =~= all.subrange(0, i as int).push(next));
            assert forall|q: Seq<u8>| #[trigger] list@.contains(q) <==> (before.contains(q) || q
                == next) by {
                if before.contains(next) {
                    assert(list@ == before);
                } else {
                    assert(list@ == before.push(next));
                    if list@.contains(q) {
                        let k = choose|k: int| 0 <= k < list@.len() && list@[k] == q;
                        if k < before.len() {
                            assert(before[k] == q);
                        }
                    }
                    if before.contains(q) {
                        let k = choose|k: int| 0 <= k < before.len() && before[k] == q;
                        assert(list@[k] == q);
                    }
                    if q == next {
                        assert(list@[before.len() as int] == q);
                    }
                }
            }
            assert forall|q: Seq<u8>| #[trigger] all.subrange(0, i + 1).contains(q) <==> (all.subrange(
                0,
                i as int,
            ).contains(q) || q == next) by {
                let s0 = all.subrange(0, i as int);
                let s1 = all.subrange(0, i + 1);
                if s1.contains(q) {
                    let k = choose|k: int| 0 <= k < s1.len() && s1[k] == q;
                    if k < i {
                        assert(s0[k] == q);
                    }
                }
                if s0.contains(q) {
                    let k = choose|k: int| 0 <= k < s0.len() && s0[k] == q;
                    assert(s1[k] == q);
                }
                if q == next {
                    assert(s1[i as int] == q);
                }
            }
        }
        i = i + 1;
    }
    assert(all.subrange(0, ids@.len() as int) =~= all);
}

impl SimpleValidator {
    pub closed spec fn config_view(&self) -> Config {
        self.config
    }

    pub closed spec fn admins_view(&self) -> Seq<Seq<u8>> {
        self.admins@
    }

    pub closed spec fn whitelist_view(&self) -> Seq<Seq<u8>> {
        self.whitelist@
    }

    /// The decision recorded for proposal `k` (1 admitted, 0 refused), if any.
    pub closed spec fn validation_of(&self, k: Index) -> Option<u8> {
        self.validations.lookup(k)
    }

    pub closed spec fn wf(&self) -> bool {
        self.admins.wf() && self.whitelist.wf() && self.validations.wf()
    }

    /// The validator before initialization.
    pub fn new() -> (r: Self)
        ensures
            r.wf(),
            r.config_view().name@ == "simple-validator"@,
            r.config_view().description@ == "A simple validator for NX Governance"@,
            !r.config_view().initialized,
            r.config_view().governance_canister@ == seq![4u8],
            r.admins_view().len() == 0,
            r.whitelist_view().len() == 0,
            forall|k: Index| r.validation_of(k) is None,
    {
        SimpleValidator {
            config: Config {
                name: "simple-validator".to_owned(),
                description: "A simple validator for NX Governance".to_owned(),
                initialized: false,
                governance_canister: StablePrincipal::anonymous(),
            },
            admins: RoleList::new(),
            whitelist: RoleList::new(),
            validations: IdMap::new(),
        }
    }

    /// Sets up the validator for the governance engine `governance`, which
    /// becomes administrator; the validator's own id `self_id` is whitelisted.
    pub fn init(&mut self, governance: StablePrincipal, self_id: StablePrincipal)
        requires
            old(self).wf(),
        ensures
            final(self).wf(),
            final(self).admins_view().contains(governance@),
            final(self).whitelist_view().contains(self_id@),
            final(self).config_view() == (Config {
                governance_canister: final(self).config_view().governance_canister,
                ..old(self).config_view()
            }),
            final(self).config_view().governance_canister@ == governance@,
            forall|q: Seq<u8>|
                q != governance@ ==> (#[trigger] final(self).admins_view().contains(q) <==> old(self).admins_view().contains(q)),
            forall|q: Seq<u8>|
                q != self_id@ ==> (#[trigger] final(self).whitelist_view().contains(q) <==> old(self).whitelist_view().contains(q)),
            forall|k: Index| #[trigger] final(self).validation_of(k) == old(self).validation_of(k),
    {
        let g = governance.clone();
        add_one(&mut self.admins, g);
        add_one(&mut self.whitelist, self_id);
        self.config.governance_canister = governance;
    }

    /// Whether the validator admits `payload` for proposal `proposal`.
    pub fn validate_payload(&self, proposal: Index, payload: &ProposalPayload) -> (r: bool)
        ensures
            r == admissible(self.whitelist_view(), proposal, *payload),
    {
        match payload.max_dependency_index() {
            Some(m) => {
                if m >= proposal {
                    return false;
                }
            },
            None => {},
        }
        let mut i: usize = 0;
        while i < payload.messages.len()
            invariant
                i <= payload.messages@.len(),
                forall|j: int|
                    0 <= j < i ==> self.whitelist@.contains((#[trigger] payload.messages@[j]).canister_id@)
                        && payload.messages@[j].pre_validate is None
                        && payload.messages@[j].post_validate is None,
            decreases payload.messages@.len() - i,
        {
            let m = &payload.messages[i];
            if !self.whitelist.contains(&m.canister_id) || m.pre_validate.is_some()
                || m.post_validate.is_some() {
                return false;
            }
            i = i + 1;
        }
        true
    }

    /// The voting end and threshold given to an admitted proposal at `now`:
    /// five days on (clamped at the largest time), 20% quorum and pass rate.
    pub fn set_threshold(&self, payload: &ProposalPayload, now: TimeNs) -> (r: (
        TimeNs,
        ProposalPassingThreshold,
    ))
        ensures
            r.0 == crate::types::frozen_time(now, VOTING_PERIOD),
            r.1.quorum.0 == 8_000,
            r.1.passing_threshold.0 == 8_000,
    {
        (
            now.saturating_add(VOTING_PERIOD),
            ProposalPassingThreshold {
                quorum: Percentage::<u16>::from_percent(20),
                passing_threshold: Percentage::<u16>::from_percent(20),
            },
        )
    }

    /// The answer for proposal `proposal_id` with `payload` at `now`.
    pub open spec fn response_spec(&self, proposal_id: Index, payload: ProposalPayload, now: TimeNs) -> ValidationResponse {
        if admissible(self.whitelist_view(), proposal_id, payload) {
            ValidationResponse {
                validated: true,
                voting_end_time: Some(crate::types::frozen_time(now, VOTING_PERIOD)),
                passing_threshold: Some(ProposalPassingThreshold {
                    quorum: Percentage(8_000),
                    passing_threshold: Percentage(8_000),
                }),
            }
        } else {
            ValidationResponse { validated: false, voting_end_time: None, passing_threshold: None }
        }
    }

    /// What to answer the governance engine for proposal `proposal_id`.
    pub fn validate_and_respond(&self, proposal_id: Index, payload: &ProposalPayload, now: TimeNs) -> (r:
        ValidationResponse)
        ensures
            r == self.response_spec(proposal_id, *payload, now),
            r.validated == admissible(self.whitelist_view(), proposal_id, *payload),
            r.validated ==> (r.voting_end_time == Some(crate::types::frozen_time(now, VOTING_PERIOD))
                && (r.passing_threshold matches Some(t) && t.quorum.0 == 8_000 && t.passing_threshold.0
                == 8_000)),
            !r.validated ==> r.voting_end_time is None && r.passing_threshold is None,
    {
        if self.validate_payload(proposal_id, payload) {
            let (end, threshold) = self.set_threshold(payload, now);
            ValidationResponse {
                validated: true,
                voting_end_time: Some(end),
                passing_threshold: Some(threshold),
            }
        } else {
            ValidationResponse { validated: false, voting_end_time: None, passing_threshold: None }
        }
    }

    /// A notification of a new proposal from the governance engine: answers
    /// as `validate_and_respond`; anyone else gets `Unauthorized`.
    pub fn notify_validator(
        &self,
        caller: &StablePrincipal,
        proposal_id: Index,
        payload: &ProposalPayload,
        now: TimeNs,
    ) -> (r: Result<ValidationResponse, ReturnError>)
        ensures
            caller@ != self.config_view().governance_canister@ ==> r == Err::<
                ValidationResponse,
                ReturnError,
            >(ReturnError::Unauthorized),
            caller@ == self.config_view().governance_canister@ ==> (r matches Ok(v) && v
                == self.response_spec(proposal_id, *payload, now)),
    {
        if *caller != self.config.governance_canister {
            return Err(ReturnError::Unauthorized);
        }
        Ok(self.validate_and_respond(proposal_id, payload, now))
    }

    pub fn get_proposal_validation(&self, index: Index) -> (r: Option<u8>)
        requires
            self.wf(),
        ensures
            r == self.validation_of(index),
    {
        match self.validations.get(index) {
            Some(v) => Some(*v),
            None => None,
        }
    }

    /// Records the decision on proposal `index`, replacing any earlier one.
    pub fn set_proposal_validation(&mut self, index: Index, validated: bool)
        requires
            old(self).wf(),
        ensures
            final(self).wf(),
            final(self).validation_of(index) == Some(if validated { 1u8 } else { 0u8 }),
            forall|k: Index| k != index ==> #[trigger] final(self).validation_of(k) == old(self).validation_of(k),
            final(self).config_view() == old(self).config_view(),
            final(self).whitelist_view() == old(self).whitelist_view(),
            final(self).admins_view() == old(self).admins_view(),
    {
        self.validations.insert(index, if validated { 1 } else { 0 });
    }

    /// Records the decision on proposal `index` unless one is recorded already.
    pub fn add_proposal_validation(&mut self, index: Index, validated: bool)
        requires
            old(self).wf(),
        ensures
            final(self).wf(),
            old(self).validation_of(index) is Some ==> forall|k: Index| #[trigger] final(self).validation_of(k)
                == old(self).validation_of(k),
            old(self).validation_of(index) is None ==> final(self).validation_of(index) == Some(
                if validated { 1u8 } else { 0u8 },
            ) && forall|k: Index| k != index ==> #[trigger] final(self).validation_of(k) == old(self).validation_of(k),
            final(self).config_view() == old(self).config_view(),
            final(self).whitelist_view() == old(self).whitelist_view(),
            final(self).admins_view() == old(self).admins_view(),
    {
        self.validations.insert_if_absent(index, if validated { 1 } else { 0 });
    }

    /// Adds call targets to the whitelist (those listed already stay once);
    /// administrators only.
    pub fn add_call_targets_to_whitelist(&mut self, caller: &StablePrincipal, canister_ids: Vec<StablePrincipal>) -> (r:
        Result<(), ReturnError>)
        requires
            old(self).wf(),
        ensures
            final(self).wf(),
            final(self).config_view() == old(self).config_view(),
            final(self).admins_view() == old(self).admins_view(),
            forall|k: Index| #[trigger] final(self).validation_of(k) == old(self).validation_of(k),
            !old(self).admins_view().contains(caller@) ==> r == Err::<(), ReturnError>(
                ReturnError::Unauthorized,
            ) && final(self).whitelist_view() == old(self).whitelist_view(),
            old(self).admins_view().contains(caller@) ==> r is Ok && forall|q: Seq<u8>|
                #[trigger] final(self).whitelist_view().contains(q) <==> (old(self).whitelist_view().contains(q)
                    || canister_ids@.map_values(|p: StablePrincipal| p@).contains(q)),
    {
        if !self.admins.contains(caller) {
            return Err(ReturnError::Unauthorized);
        }
        add_all(&mut self.whitelist, &canister_ids);
        Ok(())
    }

    /// The whitelisted call targets.
    pub fn get_call_target_whitelist(&self) -> (r: &Vec<StablePrincipal>)
        ensures
            r@.map_values(|p: StablePrincipal| p@) == self.whitelist_view(),
    {
        self.whitelist.members()
    }

    pub fn get_config(&self) -> (r: &Config)
        ensures
            *r == self.config_view(),
    {
        &self.config
    }

    pub fn get_name(&self) -> (r: &String)
        ensures
            *r == self.config_view().name,
    {
        &self.config.name
    }

    pub fn get_description(&self) -> (r: &String)
        ensures
            *r == self.config_view().description,
    {
        &self.config.description
    }

    pub fn is_initialized(&self) -> (r: bool)
        ensures
            r == self.config_view().initialized,
    {
        self.config.initialized
    }

    pub fn get_governance(&self) -> (r: &StablePrincipal)
        ensures
            *r == self.config_view().governance_canister,
    {
        &self.config.governance_canister
    }

    pub fn config_set_governance(&mut self, governance: StablePrincipal)
        ensures
            final(self).config_view() == (Config { governance_canister: governance, ..old(self).config_view() }),
            final(self).wf() == old(self).wf(),
            final(self).whitelist_view() == old(self).whitelist_view(),
            final(self).admins_view() == old(self).admins_view(),
            forall|k: Index| #[trigger] final(self).validation_of(k) == old(self).validation_of(k),
    {
        self.config.governance_canister = governance;
    }

    pub fn config_set_initialized(&mut self)
        ensures
            final(self).config_view() == (Config { initialized: true, ..old(self).config_view() }),
            final(self).wf() == old(self).wf(),
            final(self).whitelist_view() == old(self).whitelist_view(),
            final(self).admins_view() == old(self).admins_view(),
            forall|k: Index| #[trigger] final(self).validation_of(k) == old(self).validation_of(k),
    {
        self.config.initialized = true;
    }

    pub fn config_is_initialized(&self) -> (r: bool)
        ensures
            r == self.config_view().initialized,
    {
        self.config.initialized
    }

    /// Sets the governance engine; administrators only.
    pub fn set_governance(&mut self, caller: &StablePrincipal, canister_id: StablePrincipal) -> (r: Result<
        (),
        ReturnError,
    >)
        ensures
            final(self).wf() == old(self).wf(),
            final(self).whitelist_view() == old(self).whitelist_view(),
            final(self).admins_view() == old(self).admins_view(),
            forall|k: Index| #[trigger] final(self).validation_of(k) == old(self).validation_of(k),
            !old(self).admins_view().contains(caller@) ==> r == Err::<(), ReturnError>(
                ReturnError::Unauthorized,
            ) && final(self).config_view() == old(self).config_view(),
            old(self).admins_view().contains(caller@) ==> r is Ok && final(self).config_view() == (Config {
                governance_canister: canister_id,
                ..old(self).config_view()
            }),
    {
        if !self.admins.contains(caller) {
            return Err(ReturnError::Unauthorized);
        }
        self.config_set_governance(canister_id);
        Ok(())
    }

    /// Replaces the settings; administrators only.
    pub fn set_config(&mut self, caller: &StablePrincipal, config: Config) -> (r: Result<(), ReturnError>)
        ensures
            final(self).wf() == old(self).wf(),
            final(self).whitelist_view() == old(self).whitelist_view(),
            final(self).admins_view() == old(self).admins_view(),
            forall|k: Index| #[trigger] final(self).validation_of(k) == old(self).validation_of(k),
            !old(self).admins_view().contains(caller@) ==> r == Err::<(), ReturnError>(
                ReturnError::Unauthorized,
            ) && final(self).config_view() == old(self).config_view(),
            old(self).admins_view().contains(caller@) ==> r is Ok && final(self).config_view() == config,
    {
        if !self.admins.contains(caller) {
            return Err(ReturnError::Unauthorized);
        }
        self.config = config;
        Ok(())
    }

    pub fn has_role(&self, role: UserRole, principal: &StablePrincipal) -> (r: bool)
        ensures
            r == self.admins_view().contains(principal@),
    {
        match role {
            UserRole::Admin => self.admins.contains(principal),
        }
    }

    /// `Unauthorized` unless `caller` holds `role`.
    pub fn require_caller_has_role(&self, role: UserRole, caller: &StablePrincipal) -> (r: Result<
        (),
        ReturnError,
    >)
        ensures
            self.admins_view().contains(caller@) ==> r is Ok,
            !self.admins_view().contains(caller@) ==> r == Err::<(), ReturnError>(
                ReturnError::Unauthorized,
            ),
    {
        if self.has_role(role, caller) {
            Ok(())
        } else {
            Err(ReturnError::Unauthorized)
        }
    }

    /// The members of `role`, in storage order.
    pub fn users_of_role(&self, role: UserRole) -> (r: &Vec<StablePrincipal>)
        ensures
            r@.map_values(|p: StablePrincipal| p@) == self.admins_view(),
    {
        match role {
            UserRole::Admin => self.admins.members(),
        }
    }

    /// Grants `role` without checking the caller; `AlreadyExists` when held.
    pub fn add_role_internal(&mut self, role: UserRole, principal: StablePrincipal) -> (r: Result<
        (),
        ReturnError,
    >)
        requires
            old(self).wf(),
        ensures
            final(self).wf(),
            old(self).admins_view().contains(principal@) ==> r == Err::<(), ReturnError>(
                ReturnError::AlreadyExists,
            ) && final(self).admins_view() == old(self).admins_view(),
            !old(self).admins_view().contains(principal@) ==> r is Ok && final(self).admins_view()
                == old(self).admins_view().push(principal@),
    {
        match role {
            UserRole::Admin => self.admins.add(principal),
        }
    }

    /// Takes `role` from `principal` without checking the caller.
    pub fn remove_role_internal(&mut self, role: UserRole, principal: &StablePrincipal)
        requires
            old(self).wf(),
        ensures
            final(self).wf(),
            !final(self).admins_view().contains(principal@),
            forall|q: Seq<u8>|
                q != principal@ ==> (final(self).admins_view().contains(q) <==> old(self).admins_view().contains(q)),
    {
        match role {
            UserRole::Admin => self.admins.remove(principal),
        }
    }

    /// Removes every member of `role` without checking the caller.
    pub fn clear_users_of_role_internal(&mut self, role: UserRole)
        requires
            old(self).wf(),
        ensures
            final(self).wf(),
            final(self).admins_view() == Seq::<Seq<u8>>::empty(),
    {
        match role {
            UserRole::Admin => self.admins.clear(),
        }
    }
}

} // verus!
