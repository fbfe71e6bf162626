//! An m-of-n multisig vote manager: signers vote on open proposals, and
//! once `m` of them said yes the result is reported to the governance
//! engine as a trivially passing one-of-one vote.
use vstd::prelude::*;

use crate::access::RoleList;
use crate::idmap::IdMap;
use crate::types::{Index, ReturnError, StablePrincipal, TimeNs};

verus! {

/// The vote ends this long before the governance engine's voting end (15
/// minutes), leaving room for the call that reports the result.
pub const DEFAULT_VOTE_BUFFER_TIME: TimeNs = 900_000_000_000;

#[derive(Clone, Copy, Debug, PartialEq, Eq, Structural)]
pub enum Vote {
    Yes,
    No,
    Abstain,
}

/// Who voted how.
#[derive(Clone, Debug, PartialEq, Eq)]
pub struct VoteRecord {
    pub yes_votes: Vec<StablePrincipal>,
    pub no_votes: Vec<StablePrincipal>,
    pub abstain_votes: Vec<StablePrincipal>,
}

pub open spec fn principals(v: Seq<StablePrincipal>) -> Seq<Seq<u8>> {
    v.map_values(|p: StablePrincipal| p@)
}

impl VoteRecord {
    pub fn new() -> (r: Self)
        ensures
            r.yes_votes@.len() == 0,
            r.no_votes@.len() == 0,
            r.abstain_votes@.len() == 0,
    {
        VoteRecord { yes_votes: Vec::new(), no_votes: Vec::new(), abstain_votes: Vec::new() }
    }

    pub open spec fn has_voted(&self, p: Seq<u8>) -> bool {
        ||| principals(self.yes_votes@).contains(p)
        ||| principals(self.no_votes@).contains(p)
        ||| principals(self.abstain_votes@).contains(p)
    }
}

/// Outcome of a multisig vote.
#[derive(Clone, Copy, Debug, PartialEq, Eq, Structural)]
pub enum State {
    Open,
    Passed,
    Failed,
}

/// A proposal under vote.
#[derive(Clone, Debug, PartialEq, Eq)]
pub struct ProposalState {
    /// End of the governance engine's voting period.
    pub expiration: TimeNs,
    pub state: State,
    pub vote_record: VoteRecord,
}

impl ProposalState {
    /// A fresh open vote ending at `expiration`.
    pub fn open(expiration: TimeNs) -> (r: Self)
        ensures
            r.expiration == expiration,
            r.state is Open,
            r.vote_record.yes_votes@.len() == 0,
            r.vote_record.no_votes@.len() == 0,
            r.vote_record.abstain_votes@.len() == 0,
    {
        ProposalState { expiration, state: State::Open, vote_record: VoteRecord::new() }
    }
}

/// Settings of the multisig.
#[derive(Clone, Debug)]
pub struct Config {
    pub name: String,
    pub description: String,
    /// Whether the one-time initialization has run.
    pub initialized: bool,
    /// The governance engine that this multisig reports to.
    pub governance_canister: StablePrincipal,
    /// Yes votes needed to pass (m).
    pub votes_required: u64,
    /// Number of signers (n).
    pub total_votes: u64,
    /// How long before the governance engine's voting end the vote closes.
    pub vote_buffer_time: TimeNs,
}

#[derive(Clone, Copy, Debug, PartialEq, Eq, Structural)]
pub enum UserRole {
    /// Manages roles and settings (typically the governance engine).
    Admin,
    /// May vote.
    Signer,
}

fn listed(v: &Vec<StablePrincipal>, p: &StablePrincipal) -> (r: bool)
    ensures
        r == principals(v@).contains(p@),
{
    let mut i: usize = 0;
    while i < v.len()
        invariant
            i <= v@.len(),
            forall|j: int| 0 <= j < i ==> v@[j]@ != p@,
        decreases v@.len() - i,
    {
        if v[i] == *p {
            assert(principals(v@)[i as int] == p@);
            return true;
        }
        i = i + 1;
    }
    proof {
        if principals(v@).contains(p@) {
            let k = choose|k: int| 0 <= k < principals(v@).len() && principals(v@)[k] == p@;
            assert(v@[k]@ == p@);
        }
    }
    false
}

fn copy_principals(v: &Vec<StablePrincipal>) -> (r: Vec<StablePrincipal>)
    ensures
        principals(r@) == principals(v@),
{
    let mut r: Vec<StablePrincipal> = Vec::new();
    let mut i: usize = 0;
    while i < v.len()
        invariant
            i <= v@.len(),
            r@.len() == i,
            forall|j: int| 0 <= j < i ==> (#[trigger] r@[j])@ == v@[j]@,
        decreases v@.len() - i,
    {
        r.push(v[i].clone());
        i = i + 1;
    }
    assert(principals(r@) =~= principals(v@));
    r
}

/// The multisig's state: settings, roles and one vote per proposal.
#[derive(Debug)]
pub struct MultisigVoting {
    config: Config,
    admins: RoleList,
    signers: RoleList,
    proposal_votes: IdMap<ProposalState>,
}

impl MultisigVoting {
    pub closed spec fn config_view(&self) -> Config {
        self.config
    }

    pub closed spec fn members_of(&self, role: UserRole) -> Seq<Seq<u8>> {
        match role {
            UserRole::Admin => self.admins@,
            UserRole::Signer => self.signers@,
        }
    }

    /// The vote recorded for proposal `k`, if any.
    pub closed spec fn vote_of(&self, k: Index) -> Option<ProposalState> {
        self.proposal_votes.lookup(k)
    }

    pub closed spec fn num_votes(&self) -> int {
        self.proposal_votes.entries_view().len() as int
    }

    pub closed spec fn wf(&self) -> bool {
        self.admins.wf() && self.signers.wf() && self.proposal_votes.wf()
    }

    /// The multisig before initialization: two of three signers, a 15
    /// minute buffer, and the anonymous principal as governance engine.
    pub fn new() -> (r: Self)
        ensures
            r.wf(),
            r.config_view().name@ == "multisig-voting"@,
            r.config_view().description@ == "An m-of-n multisig canister"@,
            !r.config_view().initialized,
            r.config_view().governance_canister@ == seq![4u8],
            r.config_view().votes_required == 2,
            r.config_view().total_votes == 3,
            r.config_view().vote_buffer_time == DEFAULT_VOTE_BUFFER_TIME,
            r.members_of(UserRole::Admin).len() == 0,
            r.members_of(UserRole::Signer).len() == 0,
            r.num_votes() == 0,
            forall|k: Index| r.vote_of(k) is None,
    {
        MultisigVoting {
            config: Config {
                name: "multisig-voting".to_owned(),
                description: "An m-of-n multisig canister".to_owned(),
                initialized: false,
                governance_canister: StablePrincipal::anonymous(),
                votes_required: 2,
                total_votes: 3,
                vote_buffer_time: DEFAULT_VOTE_BUFFER_TIME,
            },
            admins: RoleList::new(),
            signers: RoleList::new(),
            proposal_votes: IdMap::new(),
        }
    }

    /// Sets up the multisig: `governance` becomes an administrator and the
    /// engine reported to, and `signers` (`total_votes` of them, all
    /// distinct) are the signers, `votes_required` of whom must vote yes.
    /// `InputError` when `votes_required` exceeds `total_votes` or the signers
    /// do not number `total_votes`; `AlreadyExists` when a signer repeats.
    /// Nothing changes on an error.
    pub fn init(
        &mut self,
        governance: StablePrincipal,
        votes_required: u64,
        total_votes: u64,
        signers: Vec<StablePrincipal>,
    ) -> (r: Result<(), ReturnError>)
        requires
            old(self).wf(),
        ensures
            final(self).wf(),
            forall|k: Index| #[trigger] final(self).vote_of(k) == old(self).vote_of(k),
            (votes_required > total_votes || total_votes != signers@.len()) ==> r == Err::<
                (),
                ReturnError,
            >(ReturnError::InputError),
            votes_required <= total_votes && total_votes == signers@.len() && !principals(
                signers@,
            ).no_duplicates() ==> r == Err::<(), ReturnError>(ReturnError::AlreadyExists),
            r is Err ==> final(self).config_view() == old(self).config_view() && forall|role: UserRole|
                #[trigger] final(self).members_of(role) == old(self).members_of(role),
            votes_required <= total_votes && total_votes == signers@.len() && principals(
                signers@,
            ).no_duplicates() ==> {
                &&& r is Ok
                &&& final(self).config_view() == (Config {
                    votes_required,
                    total_votes,
                    governance_canister: final(self).config_view().governance_canister,
                    ..old(self).config_view()
                })
                &&& final(self).config_view().governance_canister@ == governance@
                &&& final(self).members_of(UserRole::Admin).contains(governance@)
                &&& final(self).members_of(UserRole::Signer) == principals(signers@)
            },
    {
        if votes_required > total_votes || total_votes != signers.len() as u64 {
            return Err(ReturnError::InputError);
        }
        let signer_list = match role_list_of(&signers) {
            Ok(l) => l,
            Err(e) => {
                return Err(e);
            },
        };
        let admin = governance.clone();
        let _ = self.admins.add(admin);
        assert(self.admins@.contains(governance@)) by {
            if !old(self).admins@.contains(governance@) {
                assert(self.admins@[self.admins@.len() - 1] == governance@);
            }
        }
        self.signers = signer_list;
        self.config.votes_required = votes_required;
        self.config.total_votes = total_votes;
        self.config.governance_canister = governance;
        Ok(())
    }

    pub fn get_config(&self) -> (r: &Config)
        ensures
            *r == self.config_view(),
    {
        &self.config
    }

    pub fn config_set_governance(&mut self, governance: StablePrincipal)
        ensures
            final(self).config_view() == (Config { governance_canister: governance, ..old(self).config_view() }),
            final(self).wf() == old(self).wf(),
            forall|k: Index| #[trigger] final(self).vote_of(k) == old(self).vote_of(k),
            forall|role: UserRole| #[trigger] final(self).members_of(role) == old(self).members_of(role),
    {
        self.config.governance_canister = governance;
    }

    pub fn config_set_initialized(&mut self)
        ensures
            final(self).config_view() == (Config { initialized: true, ..old(self).config_view() }),
            final(self).wf() == old(self).wf(),
            forall|k: Index| #[trigger] final(self).vote_of(k) == old(self).vote_of(k),
            forall|role: UserRole| #[trigger] final(self).members_of(role) == old(self).members_of(role),
    {
        self.config.initialized = true;
    }

    pub fn config_is_initialized(&self) -> (r: bool)
        ensures
            r == self.config_view().initialized,
    {
        self.config.initialized
    }

    pub fn config_set_name_description(&mut self, name: String, description: String)
        ensures
            final(self).config_view() == (Config { name, description, ..old(self).config_view() }),
            final(self).wf() == old(self).wf(),
            forall|k: Index| #[trigger] final(self).vote_of(k) == old(self).vote_of(k),
            forall|role: UserRole| #[trigger] final(self).members_of(role) == old(self).members_of(role),
    {
        self.config.name = name;
        self.config.description = description;
    }

    pub fn config_set_m_of_n(&mut self, m: u64, n: u64)
        ensures
            final(self).config_view() == (Config {
                votes_required: m,
                total_votes: n,
                ..old(self).config_view()
            }),
            final(self).wf() == old(self).wf(),
            forall|k: Index| #[trigger] final(self).vote_of(k) == old(self).vote_of(k),
            forall|role: UserRole| #[trigger] final(self).members_of(role) == old(self).members_of(role),
    {
        self.config.votes_required = m;
        self.config.total_votes = n;
    }

    pub fn has_role(&self, role: UserRole, principal: &StablePrincipal) -> (r: bool)
        ensures
            r == self.members_of(role).contains(principal@),
    {
        match role {
            UserRole::Admin => self.admins.contains(principal),
            UserRole::Signer => self.signers.contains(principal),
        }
    }

    /// `Unauthorized` unless `caller` is a signer.
    pub fn require_caller_is_signer(&self, caller: &StablePrincipal) -> (r: Result<(), ReturnError>)
        ensures
            self.members_of(UserRole::Signer).contains(caller@) ==> r is Ok,
            !self.members_of(UserRole::Signer).contains(caller@) ==> r == Err::<(), ReturnError>(
                ReturnError::Unauthorized,
            ),
    {
        if self.signers.contains(caller) {
            Ok(())
        } else {
            Err(ReturnError::Unauthorized)
        }
    }

    /// Grants `role` without checking the caller; `AlreadyExists` when held.
    pub fn add_role_internal(&mut self, role: UserRole, principal: StablePrincipal) -> (r: Result<
        (),
        ReturnError,
    >)
        requires
            old(self).wf(),
        ensures
            final(self).wf(),
            old(self).members_of(role).contains(principal@) ==> r == Err::<(), ReturnError>(
                ReturnError::AlreadyExists,
            ) && final(self).members_of(role) == old(self).members_of(role),
            !old(self).members_of(role).contains(principal@) ==> r is Ok && final(self).members_of(role)
                == old(self).members_of(role).push(principal@),
            forall|q: UserRole| q != role ==> #[trigger] final(self).members_of(q) == old(self).members_of(q),
            forall|k: Index| #[trigger] final(self).vote_of(k) == old(self).vote_of(k),
            final(self).config_view() == old(self).config_view(),
    {
        match role {
            UserRole::Admin => self.admins.add(principal),
            UserRole::Signer => self.signers.add(principal),
        }
    }

    /// The members of `role`, in storage order.
    pub fn users_of_role(&self, role: UserRole) -> (r: &Vec<StablePrincipal>)
        ensures
            r@.map_values(|p: StablePrincipal| p@) == self.members_of(role),
    {
        match role {
            UserRole::Admin => self.admins.members(),
            UserRole::Signer => self.signers.members(),
        }
    }

    /// Takes `role` from `principal` without checking the caller.
    pub fn remove_role_internal(&mut self, role: UserRole, principal: &StablePrincipal)
        requires
            old(self).wf(),
        ensures
            final(self).wf(),
            !final(self).members_of(role).contains(principal@),
            forall|q: Seq<u8>|
                q != principal@ ==> (#[trigger] final(self).members_of(role).contains(q) <==> old(self).members_of(role).contains(q)),
            forall|q: UserRole| q != role ==> #[trigger] final(self).members_of(q) == old(self).members_of(q),
            forall|k: Index| #[trigger] final(self).vote_of(k) == old(self).vote_of(k),
            final(self).config_view() == old(self).config_view(),
    {
        match role {
            UserRole::Admin => self.admins.remove(principal),
            UserRole::Signer => self.signers.remove(principal),
        }
    }

    /// Removes every member of `role` without checking the caller.
    pub fn clear_users_of_role_internal(&mut self, role: UserRole)
        requires
            old(self).wf(),
        ensures
            final(self).wf(),
            final(self).members_of(role) == Seq::<Seq<u8>>::empty(),
            forall|q: UserRole| q != role ==> #[trigger] final(self).members_of(q) == old(self).members_of(q),
            forall|k: Index| #[trigger] final(self).vote_of(k) == old(self).vote_of(k),
            final(self).config_view() == old(self).config_view(),
    {
        match role {
            UserRole::Admin => self.admins.clear(),
            UserRole::Signer => self.signers.clear(),
        }
    }

    /// The vote on proposal `index`, if one is recorded.
    pub fn get_proposal_state(&self, index: Index) -> (r: Option<&ProposalState>)
        requires
            self.wf(),
        ensures
            match self.vote_of(index) {
                Some(v) => r matches Some(x) && *x == v,
                None => r is None,
            },
    {
        self.proposal_votes.get(index)
    }

    /// Records the vote on proposal `index`, replacing any earlier one.
    pub fn set_proposal_state(&mut self, index: Index, state: ProposalState)
        requires
            old(self).wf(),
        ensures
            final(self).wf(),
            final(self).vote_of(index) == Some(state),
            forall|k: Index| k != index ==> #[trigger] final(self).vote_of(k) == old(self).vote_of(k),
            final(self).config_view() == old(self).config_view(),
            forall|role: UserRole| #[trigger] final(self).members_of(role) == old(self).members_of(role),
    {
        self.proposal_votes.insert(index, state);
    }

    /// Records the vote on proposal `index` unless one is recorded already.
    pub fn add_proposal_state(&mut self, index: Index, state: ProposalState)
        requires
            old(self).wf(),
        ensures
            final(self).wf(),
            old(self).vote_of(index) is Some ==> forall|k: Index| #[trigger] final(self).vote_of(k) == old(self).vote_of(k),
            old(self).vote_of(index) is None ==> final(self).vote_of(index) == Some(state) && forall|k: Index|
                k != index ==> #[trigger] final(self).vote_of(k) == old(self).vote_of(k),
            final(self).config_view() == old(self).config_view(),
            forall|role: UserRole| #[trigger] final(self).members_of(role) == old(self).members_of(role),
    {
        self.proposal_votes.insert_if_absent(index, state);
    }
}


/// `v` is an open vote ending at `end` with nobody having voted yet.
pub open spec fn fresh_vote(v: Option<ProposalState>, end: TimeNs) -> bool {
    &&& v matches Some(st)
    &&& st.expiration == end
    &&& st.state is Open
    &&& st.vote_record.yes_votes@.len() == 0
    &&& st.vote_record.no_votes@.len() == 0
    &&& st.vote_record.abstain_votes@.len() == 0
}

/// Voter lists of a record, as principal bytes: yes, no, abstain.
pub open spec fn record_view(r: VoteRecord) -> (Seq<Seq<u8>>, Seq<Seq<u8>>, Seq<Seq<u8>>) {
    (principals(r.yes_votes@), principals(r.no_votes@), principals(r.abstain_votes@))
}

/// The signers as a role list; `AlreadyExists` when one repeats.
fn role_list_of(signers: &Vec<StablePrincipal>) -> (r: Result<RoleList, ReturnError>)
    ensures
        r is Ok <==> principals(signers@).no_duplicates(),
        r matches Ok(l) ==> l.wf() && l@ == principals(signers@),
        r matches Err(e) ==> e == ReturnError::AlreadyExists,
{
    let ghost all = principals(signers@);
    let mut fresh = RoleList::new();
    let mut i: usize = 0;
    while i < signers.len()
        invariant
            fresh.wf(),
            i <= signers@.len(),
            all == principals(signers@),
            fresh@ == all.subrange(0, i as int),
            fresh@.no_duplicates(),
        decreases signers@.len() - i,
    {
        let ghost before = fresh@;
        match fresh.add(signers[i].clone()) {
            Ok(()) => {},
            Err(e) => {
                proof {
                    let k = choose|k: int| 0 <= k < before.len() && before[k] == signers@[i as int]@;
                    assert(all[k] == all[i as int]);
                }
                return Err(e);
            },
        }
        i = i + 1;
        assert(fresh@ =~= all.subrange(0, i as int));
    }
    assert(all.subrange(0, signers@.len() as int) =~= all);
    Ok(fresh)
}

fn copy_record(r: &VoteRecord) -> (c: VoteRecord)
    ensures
        record_view(c) == record_view(*r),
{
    VoteRecord {
        yes_votes: copy_principals(&r.yes_votes),
        no_votes: copy_principals(&r.no_votes),
        abstain_votes: copy_principals(&r.abstain_votes),
    }
}

impl MultisigVoting {
    /// A vote on `proposal` ending at `voting_end_time` opens, replacing any
    /// earlier one; only the governance engine may announce votes.
    pub fn notify_multisig(&mut self, caller: &StablePrincipal, proposal: Index, voting_end_time: TimeNs) -> (r:
        Result<(), ReturnError>)
        requires
            old(self).wf(),
        ensures
            final(self).wf(),
            final(self).config_view() == old(self).config_view(),
            forall|role: UserRole| #[trigger] final(self).members_of(role) == old(self).members_of(role),
            caller@ != old(self).config_view().governance_canister@ ==> r == Err::<(), ReturnError>(
                ReturnError::Unauthorized,
            ) && forall|k: Index| #[trigger] final(self).vote_of(k) == old(self).vote_of(k),
            caller@ == old(self).config_view().governance_canister@ ==> r is Ok && ({
                let v = final(self).vote_of(proposal)->0;
                &&& final(self).vote_of(proposal) is Some
                &&& v.expiration == voting_end_time
                &&& v.state is Open
                &&& v.vote_record.yes_votes@.len() == 0
                &&& v.vote_record.no_votes@.len() == 0
                &&& v.vote_record.abstain_votes@.len() == 0
            }) && forall|k: Index| k != proposal ==> #[trigger] final(self).vote_of(k) == old(self).vote_of(k),
    {
        if *caller != self.config.governance_canister {
            return Err(ReturnError::Unauthorized);
        }
        self.set_proposal_state(proposal, ProposalState::open(voting_end_time));
        Ok(())
    }

    /// Opens a vote for every listed proposal that has none yet (the
    /// governance engine's open proposals with their voting ends); the first
    /// listing of an id counts.
    pub fn record_open_proposals(&mut self, open: &Vec<(Index, TimeNs)>)
        requires
            old(self).wf(),
        ensures
            final(self).wf(),
            final(self).config_view() == old(self).config_view(),
            forall|role: UserRole| #[trigger] final(self).members_of(role) == old(self).members_of(role),
            forall|k: Index| old(self).vote_of(k) is Some ==> #[trigger] final(self).vote_of(k) == old(self).vote_of(k),
            forall|k: Index|
                (forall|j: int| 0 <= j < open@.len() ==> (#[trigger] open@[j]).0 != k) ==> #[trigger] final(self).vote_of(k) == old(self).vote_of(k),
            forall|j: int|
                0 <= j < open@.len() && old(self).vote_of((#[trigger] open@[j]).0) is None && (forall|i: int|
                    0 <= i < j ==> open@[i].0 != open@[j].0) ==> fresh_vote(final(self).vote_of(open@[j].0), open@[j].1),
    {
        let mut i: usize = 0;
        while i < open.len()
            invariant
                self.wf(),
                i <= open@.len(),
                self.config_view() == old(self).config_view(),
                forall|role: UserRole| #[trigger] self.members_of(role) == old(self).members_of(role),
                forall|k: Index| old(self).vote_of(k) is Some ==> #[trigger] self.vote_of(k) == old(self).vote_of(k),
                forall|k: Index|
                    (forall|j: int| 0 <= j < i ==> (#[trigger] open@[j]).0 != k) ==> #[trigger] self.vote_of(k)
                        == old(self).vote_of(k),
                forall|j: int|
                    0 <= j < i && old(self).vote_of((#[trigger] open@[j]).0) is None && (forall|i2: int|
                        0 <= i2 < j ==> open@[i2].0 != open@[j].0) ==> fresh_vote(self.vote_of(open@[j].0), open@[j].1),
            decreases open@.len() - i,
        {
            let (id, end) = open[i];
            let ghost before = *self;
            self.add_proposal_state(id, ProposalState::open(end));
            proof {
                assert forall|k: Index|
                    (forall|j: int| 0 <= j < i + 1 ==> (#[trigger] open@[j]).0 != k) implies #[trigger] self.vote_of(k)
                        == old(self).vote_of(k) by {
                    assert(open@[i as int].0 != k);
                    assert(forall|j: int| 0 <= j < i ==> (#[trigger] open@[j]).0 != k);
                }
                assert forall|j: int|
                    0 <= j < i + 1 && old(self).vote_of((#[trigger] open@[j]).0) is None && (forall|i2: int|
                        0 <= i2 < j ==> open@[i2].0 != open@[j].0) implies fresh_vote(self.vote_of(open@[j].0), open@[j].1) by {
                    if j == i {
                        assert(forall|j2: int| 0 <= j2 < i ==> (#[trigger] open@[j2]).0 != id);
                        assert(before.vote_of(id) == old(self).vote_of(id));
                    } else {
                        if open@[j].0 == id {
                            assert(before.vote_of(id) is Some);
                        }
                    }
                }
            }
            i = i + 1;
        }
    }

    /// A signer votes on an open proposal, once, and no later than the
    /// buffer time before the voting end.
    pub fn vote_proposal(&mut self, caller: &StablePrincipal, proposal: Index, vote: Vote, now: TimeNs) -> (r:
        Result<(), ReturnError>)
        requires
            old(self).wf(),
        ensures
            final(self).wf(),
            final(self).config_view() == old(self).config_view(),
            forall|role: UserRole| #[trigger] final(self).members_of(role) == old(self).members_of(role),
            forall|k: Index| k != proposal ==> #[trigger] final(self).vote_of(k) == old(self).vote_of(k),
            !old(self).members_of(UserRole::Signer).contains(caller@) ==> r == Err::<(), ReturnError>(
                ReturnError::Unauthorized,
            ) && final(self).vote_of(proposal) == old(self).vote_of(proposal),
            old(self).members_of(UserRole::Signer).contains(caller@) && old(self).vote_of(proposal) is None
                ==> r == Err::<(), ReturnError>(ReturnError::InvalidIndex) && final(self).vote_of(proposal)
                == old(self).vote_of(proposal),
            old(self).members_of(UserRole::Signer).contains(caller@) && old(self).vote_of(proposal) is Some
                ==> {
                let st = old(self).vote_of(proposal)->0;
                let (y, n, a) = record_view(st.vote_record);
                if st.vote_record.has_voted(caller@) {
                    r == Err::<(), ReturnError>(ReturnError::AlreadyExists) && final(self).vote_of(proposal)
                        == old(self).vote_of(proposal)
                } else if now + old(self).config_view().vote_buffer_time > st.expiration {
                    r == Err::<(), ReturnError>(ReturnError::Expired) && final(self).vote_of(proposal)
                        == old(self).vote_of(proposal)
                } else {
                    let nv = final(self).vote_of(proposal)->0;
                    &&& r is Ok
                    &&& final(self).vote_of(proposal) is Some
                    &&& nv.expiration == st.expiration
                    &&& nv.state == st.state
                    &&& record_view(nv.vote_record) == match vote {
                        Vote::Yes => (y.push(caller@), n, a),
                        Vote::No => (y, n.push(caller@), a),
                        Vote::Abstain => (y, n, a.push(caller@)),
                    }
                }
            },
    {
        if !self.signers.contains(caller) {
            return Err(ReturnError::Unauthorized);
        }
        let st = match self.proposal_votes.get(proposal) {
            Some(st) => st,
            None => {
                return Err(ReturnError::InvalidIndex);
            },
        };
        if listed(&st.vote_record.yes_votes, caller) || listed(&st.vote_record.no_votes, caller)
            || listed(&st.vote_record.abstain_votes, caller) {
            return Err(ReturnError::AlreadyExists);
        }
        let late = match now.checked_add(self.config.vote_buffer_time) {
            Some(t) => t > st.expiration,
            None => true,
        };
        if late {
            return Err(ReturnError::Expired);
        }
        let mut record = copy_record(&st.vote_record);
        let ghost before = record_view(record);
        let voter = caller.clone();
        match vote {
            Vote::Yes => record.yes_votes.push(voter),
            Vote::No => record.no_votes.push(voter),
            Vote::Abstain => record.abstain_votes.push(voter),
        }
        proof {
            assert(principals(record.yes_votes@) =~= match vote {
                Vote::Yes => before.0.push(caller@),
                _ => before.0,
            });
            assert(principals(record.no_votes@) =~= match vote {
                Vote::No => before.1.push(caller@),
                _ => before.1,
            });
            assert(principals(record.abstain_votes@) =~= match vote {
                Vote::Abstain => before.2.push(caller@),
                _ => before.2,
            });
        }
        let updated = ProposalState { expiration: st.expiration, state: st.state, vote_record: record };
        self.set_proposal_state(proposal, updated);
        Ok(())
    }

    /// A signer closes the vote once enough signers said yes: returns whether
    /// the vote has passed (a passed vote stays passed, so its result can be
    /// reported again). After the voting end the vote fails with `Expired`.
    pub fn submit_vote_result(&mut self, caller: &StablePrincipal, proposal: Index, now: TimeNs) -> (r:
        Result<bool, ReturnError>)
        requires
            old(self).wf(),
        ensures
            final(self).wf(),
            final(self).config_view() == old(self).config_view(),
            forall|role: UserRole| #[trigger] final(self).members_of(role) == old(self).members_of(role),
            forall|k: Index| k != proposal ==> #[trigger] final(self).vote_of(k) == old(self).vote_of(k),
            !old(self).members_of(UserRole::Signer).contains(caller@) ==> r == Err::<bool, ReturnError>(
                ReturnError::Unauthorized,
            ) && final(self).vote_of(proposal) == old(self).vote_of(proposal),
            old(self).members_of(UserRole::Signer).contains(caller@) && old(self).vote_of(proposal) is None
                ==> r == Err::<bool, ReturnError>(ReturnError::InvalidIndex) && final(self).vote_of(
                proposal,
            ) == old(self).vote_of(proposal),
            old(self).members_of(UserRole::Signer).contains(caller@) && old(self).vote_of(proposal) is Some
                ==> {
                let st = old(self).vote_of(proposal)->0;
                let nv = final(self).vote_of(proposal)->0;
                let passed = st.vote_record.yes_votes@.len() >= old(self).config_view().votes_required;
                &&& final(self).vote_of(proposal) is Some
                &&& nv.expiration == st.expiration
                &&& record_view(nv.vote_record) == record_view(st.vote_record)
                &&& if st.state is Passed {
                    r == Ok::<bool, ReturnError>(true) && nv.state is Passed
                } else if now > st.expiration {
                    r == Err::<bool, ReturnError>(ReturnError::Expired) && nv.state is Failed
                } else {
                    r == Ok::<bool, ReturnError>(passed) && nv.state == if passed {
                        State::Passed
                    } else {
                        st.state
                    }
                }
            },
    {
        if !self.signers.contains(caller) {
            return Err(ReturnError::Unauthorized);
        }
        let st = match self.proposal_votes.get(proposal) {
            Some(st) => st,
            None => {
                return Err(ReturnError::InvalidIndex);
            },
        };
        let expiration = st.expiration;
        let record = copy_record(&st.vote_record);
        if st.state == State::Passed {
            self.set_proposal_state(
                proposal,
                ProposalState { expiration, state: State::Passed, vote_record: record },
            );
            return Ok(true);
        }
        if now > expiration {
            self.set_proposal_state(
                proposal,
                ProposalState { expiration, state: State::Failed, vote_record: record },
            );
            return Err(ReturnError::Expired);
        }
        assert(record.yes_votes@.len() == principals(record.yes_votes@).len());
        assert(st.vote_record.yes_votes@.len() == principals(st.vote_record.yes_votes@).len());
        let passed = record.yes_votes.len() as u64 >= self.config.votes_required;
        let state = if passed {
            State::Passed
        } else {
            st.state
        };
        self.set_proposal_state(proposal, ProposalState { expiration, state, vote_record: record });
        Ok(passed)
    }

    /// Replaces the signers and the m-of-n setting; administrators only.
    /// `InputError` when `votes_required` exceeds `total_votes` or the signers
    /// do not number `total_votes`, `AlreadyExists` when a signer repeats;
    /// nothing changes then.
    pub fn update_m_of_n(
        &mut self,
        caller: &StablePrincipal,
        votes_required: u64,
        total_votes: u64,
        signers: Vec<StablePrincipal>,
    ) -> (r: Result<(), ReturnError>)
        requires
            old(self).wf(),
        ensures
            final(self).wf(),
            forall|k: Index| #[trigger] final(self).vote_of(k) == old(self).vote_of(k),
            final(self).members_of(UserRole::Admin) == old(self).members_of(UserRole::Admin),
            !old(self).members_of(UserRole::Admin).contains(caller@) ==> r == Err::<(), ReturnError>(
                ReturnError::Unauthorized,
            ),
            old(self).members_of(UserRole::Admin).contains(caller@) && (votes_required > total_votes
                || total_votes != signers@.len()) ==> r == Err::<(), ReturnError>(ReturnError::InputError),
            old(self).members_of(UserRole::Admin).contains(caller@) && votes_required <= total_votes
                && total_votes == signers@.len() ==> (r is Ok <==> principals(signers@).no_duplicates()),
            r is Err ==> final(self).config_view() == old(self).config_view() && final(self).members_of(
                UserRole::Signer,
            ) == old(self).members_of(UserRole::Signer),
            r is Ok ==> {
                &&& final(self).config_view() == (Config {
                    votes_required,
                    total_votes,
                    ..old(self).config_view()
                })
                &&& final(self).members_of(UserRole::Signer) == principals(signers@)
            },
    {
        if !self.admins.contains(caller) {
            return Err(ReturnError::Unauthorized);
        }
        if votes_required > total_votes || total_votes != signers.len() as u64 {
            return Err(ReturnError::InputError);
        }
        let fresh = match role_list_of(&signers) {
            Ok(l) => l,
            Err(e) => {
                return Err(e);
            },
        };
        self.signers = fresh;
        self.config.votes_required = votes_required;
        self.config.total_votes = total_votes;
        Ok(())
    }

    /// Sets the governance engine reported to; administrators only.
    pub fn set_governance(&mut self, caller: &StablePrincipal, canister_id: StablePrincipal) -> (r: Result<
        (),
        ReturnError,
    >)
        requires
            old(self).wf(),
        ensures
            final(self).wf(),
            forall|k: Index| #[trigger] final(self).vote_of(k) == old(self).vote_of(k),
            forall|role: UserRole| #[trigger] final(self).members_of(role) == old(self).members_of(role),
            !old(self).members_of(UserRole::Admin).contains(caller@) ==> r == Err::<(), ReturnError>(
                ReturnError::Unauthorized,
            ) && final(self).config_view() == old(self).config_view(),
            old(self).members_of(UserRole::Admin).contains(caller@) ==> r is Ok && final(self).config_view()
                == (Config { governance_canister: canister_id, ..old(self).config_view() }),
    {
        if !self.admins.contains(caller) {
            return Err(ReturnError::Unauthorized);
        }
        self.config_set_governance(canister_id);
        Ok(())
    }

    /// Sets name and description; administrators only.
    pub fn set_name_description(&mut self, caller: &StablePrincipal, name: String, description: String) -> (r:
        Result<(), ReturnError>)
        requires
            old(self).wf(),
        ensures
            final(self).wf(),
            forall|k: Index| #[trigger] final(self).vote_of(k) == old(self).vote_of(k),
            forall|role: UserRole| #[trigger] final(self).members_of(role) == old(self).members_of(role),
            !old(self).members_of(UserRole::Admin).contains(caller@) ==> r == Err::<(), ReturnError>(
                ReturnError::Unauthorized,
            ) && final(self).config_view() == old(self).config_view(),
            old(self).members_of(UserRole::Admin).contains(caller@) ==> r is Ok && final(self).config_view()
                == (Config { name, description, ..old(self).config_view() }),
    {
        if !self.admins.contains(caller) {
            return Err(ReturnError::Unauthorized);
        }
        self.config_set_name_description(name, description);
        Ok(())
    }

    /// Number of proposals with a recorded vote.
    pub fn get_num_proposals(&self) -> (r: u64)
        ensures
            r == self.num_votes(),
    {
        self.proposal_votes.len() as u64
    }

    /// Proposals whose vote is still open, in the order they were recorded.
    pub fn get_open_proposals(&self) -> (r: Vec<Index>)
        requires
            self.wf(),
        ensures
            forall|j: int| 0 <= j < r@.len() ==> ((#[trigger] self.vote_of(r@[j])) matches Some(v) && v.state is Open),
            forall|k: Index| (#[trigger] self.vote_of(k)) matches Some(v) && v.state is Open ==> r@.contains(k),
    {
        let mut r: Vec<Index> = Vec::new();
        let mut i: usize = 0;
        let n = self.proposal_votes.len();
        while i < n
            invariant
                self.wf(),
                n == self.proposal_votes.entries_view().len(),
                i <= n,
                forall|j: int| 0 <= j < r@.len() ==> ((#[trigger] self.vote_of(r@[j])) matches Some(v) && v.state is Open),
                forall|j: int|
                    0 <= j < i && (#[trigger] self.proposal_votes.entries_view()[j]).1.state is Open ==> r@.contains(
                        self.proposal_votes.entries_view()[j].0,
                    ),
            decreases n - i,
        {
            let e = self.proposal_votes.entry(i);
            let ghost old_r = r@;
            proof {
                let k = e.0;
                assert(self.proposal_votes.has_key(k));
                let c = choose|c: int|
                    0 <= c < self.proposal_votes.entries_view().len() && (#[trigger] self.proposal_votes.entries_view()[c]).0 == k;
                assert(c == i as int);
            }
            if e.1.state == State::Open {
                r.push(e.0);
            }
            proof {
                assert forall|j: int|
                    0 <= j < i + 1 && (#[trigger] self.proposal_votes.entries_view()[j]).1.state is Open implies r@.contains(
                        self.proposal_votes.entries_view()[j].0,
                    ) by {
                    if j < i {
                        let k = choose|k: int| 0 <= k < old_r.len() && old_r[k] == self.proposal_votes.entries_view()[j].0;
                        assert(r@[k] == old_r[k]);
                    } else {
                        assert(r@[r@.len() - 1] == e.0);
                    }
                }
            }
            i = i + 1;
        }
        proof {
            assert forall|k: Index| (#[trigger] self.vote_of(k)) matches Some(v) && v.state is Open implies r@.contains(k) by {
                let c = choose|c: int|
                    0 <= c < self.proposal_votes.entries_view().len() && (#[trigger] self.proposal_votes.entries_view()[c]).0 == k;
                assert(self.proposal_votes.entries_view()[c].1.state is Open);
            }
        }
        r
    }

    pub fn get_name(&self) -> (r: &String)
        ensures
            *r == self.config_view().name,
    {
        &self.config.name
    }

    pub fn get_description(&self) -> (r: &String)
        ensures
            *r == self.config_view().description,
    {
        &self.config.description
    }

    pub fn is_initialized(&self) -> (r: bool)
        ensures
            r == self.config_view().initialized,
    {
        self.config.initialized
    }

    pub fn get_governance(&self) -> (r: &StablePrincipal)
        ensures
            *r == self.config_view().governance_canister,
    {
        &self.config.governance_canister
    }

    /// Yes votes needed and number of signers.
    pub fn get_m_of_n(&self) -> (r: (u64, u64))
        ensures
            r == (self.config_view().votes_required, self.config_view().total_votes),
    {
        (self.config.votes_required, self.config.total_votes)
    }

    pub fn get_vote_buffer_time(&self) -> (r: TimeNs)
        ensures
            r == self.config_view().vote_buffer_time,
    {
        self.config.vote_buffer_time
    }
}

} // verus!
