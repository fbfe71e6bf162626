//! Role-based access control: lists of principals per role.
use vstd::prelude::*;

use crate::types::{ReturnError, StablePrincipal};

verus! {

/// The principals holding one role: no principal appears twice.
#[derive(Debug)]
pub struct RoleList {
    members: Vec<StablePrincipal>,
}

impl View for RoleList {
    type V = Seq<Seq<u8>>;

    closed spec fn view(&self) -> Seq<Seq<u8>> {
        self.members@.map_values(|p: StablePrincipal| p@)
    }
}

impl RoleList {
    pub closed spec fn wf(&self) -> bool {
        self@.no_duplicates()
    }

    pub fn new() -> (r: Self)
        ensures
            r.wf(),
            r@ == Seq::<Seq<u8>>::empty(),
    {
        let r = RoleList { members: Vec::new() };
        assert(r@ =~= Seq::<Seq<u8>>::empty());
        r
    }

    fn position(&self, principal: &StablePrincipal) -> (r: Option<usize>)
        ensures
            r matches Some(i) ==> i < self@.len() && self@[i as int] == principal@,
            r is None ==> !self@.contains(principal@),
    {
        let mut i: usize = 0;
        while i < self.members.len()
            invariant
                i <= self.members@.len(),
                forall|j: int| 0 <= j < i ==> self@[j] != principal@,
            decreases self.members@.len() - i,
        {
            if self.members[i] == *principal {
                return Some(i);
            }
            i = i + 1;
        }
        None
    }

    pub fn contains(&self, principal: &StablePrincipal) -> (r: bool)
        ensures
            r == self@.contains(principal@),
    {
        match self.position(principal) {
            Some(_) => true,
            None => false,
        }
    }

    /// Adds a principal; `AlreadyExists` when it is a member already.
    pub fn add(&mut self, principal: StablePrincipal) -> (r: Result<(), ReturnError>)
        requires
            old(self).wf(),
        ensures
            final(self).wf(),
            old(self)@.contains(principal@) ==> r == Err::<(), ReturnError>(
                ReturnError::AlreadyExists,
            ) && final(self)@ == old(self)@,
            !old(self)@.contains(principal@) ==> r is Ok && final(self)@ == old(self)@.push(
                principal@,
            ),
    {
        if self.contains(&principal) {
            return Err(ReturnError::AlreadyExists);
        }
        let ghost pv = principal@;
        self.members.push(principal);
        assert(self@ =~= old(self)@.push(pv));
        proof {
            assert forall|a: int, b: int|
                0 <= a < self@.len() && 0 <= b < self@.len() && a != b implies self@[a]
                != self@[b] by {
                if a == self@.len() - 1 {
                    assert(old(self)@.contains(self@[b]) || b == a);
                } else if b == self@.len() - 1 {
                    assert(old(self)@.contains(self@[a]));
                }
            }
        }
        Ok(())
    }

    /// Removes a principal if it is a member (the last member takes its place).
    pub fn remove(&mut self, principal: &StablePrincipal)
        requires
            old(self).wf(),
        ensures
            final(self).wf(),
            !final(self)@.contains(principal@),
            forall|q: Seq<u8>|
                q != principal@ ==> (final(self)@.contains(q) <==> old(self)@.contains(q)),
            final(self)@.len() == if old(self)@.contains(principal@) {
                old(self)@.len() - 1
            } else {
                old(self)@.len() as int
            },
    {
        match self.position(principal) {
            None => {},
            Some(i) => {
                let ghost old_view = self@;
                let ghost last_idx = old_view.len() - 1;
                self.members.swap_remove(i);
                let ghost expected = old_view.update(i as int, old_view[last_idx]).drop_last();
                assert(self@ =~= expected);
                proof {
                    assert forall|j: int| 0 <= j < self@.len() implies self@[j] != principal@ by {
                        if j == i {
                            if i as int != last_idx {
                                assert(old_view[last_idx] != old_view[i as int]);
                            }
                        } else {
                            assert(old_view[j] != old_view[i as int]);
                        }
                    }
                    assert forall|q: Seq<u8>| q != principal@ implies (self@.contains(q)
                        <==> old_view.contains(q)) by {
                        if old_view.contains(q) {
                            let k = choose|k: int| 0 <= k < old_view.len() && old_view[k] == q;
                            if k == last_idx {
                                if i as int == last_idx {
                                    assert(false);
                                } else {
                                    assert(self@[i as int] == q);
                                }
                            } else {
                                assert(k != i);
                                assert(self@[k] == q);
                            }
                        }
                        if self@.contains(q) {
                            let k = choose|k: int| 0 <= k < self@.len() && self@[k] == q;
                            if k == i {
                                assert(old_view[last_idx] == q);
                            } else {
                                assert(old_view[k] == q);
                            }
                        }
                    }
                    assert forall|a: int, b: int|
                        0 <= a < self@.len() && 0 <= b < self@.len() && a != b implies self@[a]
                        != self@[b] by {
                        let oa = if a == i { last_idx } else { a };
                        let ob = if b == i { last_idx } else { b };
                        assert(self@[a] == old_view[oa]);
                        assert(self@[b] == old_view[ob]);
                    }
                }
            },
        }
    }

    /// Removes every member.
    pub fn clear(&mut self)
        ensures
            final(self).wf(),
            final(self)@ == Seq::<Seq<u8>>::empty(),
    {
        self.members.clear();
        assert(self@ =~= Seq::<Seq<u8>>::empty());
    }

    /// The members, in storage order.
    pub fn members(&self) -> (r: &Vec<StablePrincipal>)
        ensures
            r@.map_values(|p: StablePrincipal| p@) == self@,
    {
        &self.members
    }

    pub fn len(&self) -> (r: usize)
        ensures
            r == self@.len(),
    {
        self.members.len()
    }
}


/// Roles of the governance engine.
#[derive(Clone, Copy, Debug, PartialEq, Eq, Structural)]
pub enum UserRole {
    /// Grants and revokes roles.
    Admin,
    /// Submits proposals.
    Proposer,
    /// Reports vote results.
    VoteManager,
    /// Revokes open proposals.
    Revoker,
    /// Executes accepted proposals.
    Executor,
    /// Force executes open proposals.
    ForceExecutor,
    /// Validates submitted proposals.
    Validator,
}

/// The members of every role.
#[derive(Debug)]
pub struct Roles {
    admin: RoleList,
    proposer: RoleList,
    vote_manager: RoleList,
    revoker: RoleList,
    executor: RoleList,
    force_executor: RoleList,
    validator: RoleList,
}

impl Roles {
    pub closed spec fn list(&self, role: UserRole) -> RoleList {
        match role {
            UserRole::Admin => self.admin,
            UserRole::Proposer => self.proposer,
            UserRole::VoteManager => self.vote_manager,
            UserRole::Revoker => self.revoker,
            UserRole::Executor => self.executor,
            UserRole::ForceExecutor => self.force_executor,
            UserRole::Validator => self.validator,
        }
    }

    /// The members of `role`, as principal bytes.
    pub open spec fn members_of(&self, role: UserRole) -> Seq<Seq<u8>> {
        self.list(role)@
    }

    pub closed spec fn wf(&self) -> bool {
        &&& self.admin.wf()
        &&& self.proposer.wf()
        &&& self.vote_manager.wf()
        &&& self.revoker.wf()
        &&& self.executor.wf()
        &&& self.force_executor.wf()
        &&& self.validator.wf()
    }

    /// Every role other than `role` keeps its members.
    pub open spec fn others_kept(&self, other: &Roles, role: UserRole) -> bool {
        forall|q: UserRole| q != role ==> #[trigger] other.members_of(q) == self.members_of(q)
    }

    pub fn new() -> (r: Self)
        ensures
            r.wf(),
            forall|role: UserRole| #[trigger] r.members_of(role) == Seq::<Seq<u8>>::empty(),
    {
        Roles {
            admin: RoleList::new(),
            proposer: RoleList::new(),
            vote_manager: RoleList::new(),
            revoker: RoleList::new(),
            executor: RoleList::new(),
            force_executor: RoleList::new(),
            validator: RoleList::new(),
        }
    }

    fn list_of(&self, role: UserRole) -> (r: &RoleList)
        ensures
            *r == self.list(role),
    {
        match role {
            UserRole::Admin => &self.admin,
            UserRole::Proposer => &self.proposer,
            UserRole::VoteManager => &self.vote_manager,
            UserRole::Revoker => &self.revoker,
            UserRole::Executor => &self.executor,
            UserRole::ForceExecutor => &self.force_executor,
            UserRole::Validator => &self.validator,
        }
    }

    pub fn has_role(&self, role: UserRole, principal: &StablePrincipal) -> (r: bool)
        ensures
            r == self.members_of(role).contains(principal@),
    {
        self.list_of(role).contains(principal)
    }

    /// The members of `role`, in storage order.
    pub fn users_of_role(&self, role: UserRole) -> (r: &Vec<StablePrincipal>)
        ensures
            r@.map_values(|p: StablePrincipal| p@) == self.members_of(role),
    {
        self.list_of(role).members()
    }

    /// Adds `principal` to `role`; `AlreadyExists` when it holds the role.
    pub fn add_role(&mut self, role: UserRole, principal: StablePrincipal) -> (r: Result<(), ReturnError>)
        requires
            old(self).wf(),
        ensures
            final(self).wf(),
            old(self).others_kept(final(self), role),
            old(self).members_of(role).contains(principal@) ==> r == Err::<(), ReturnError>(
                ReturnError::AlreadyExists,
            ) && final(self).members_of(role) == old(self).members_of(role),
            !old(self).members_of(role).contains(principal@) ==> r is Ok && final(self).members_of(
                role,
            ) == old(self).members_of(role).push(principal@),
    {
        match role {
            UserRole::Admin => self.admin.add(principal),
            UserRole::Proposer => self.proposer.add(principal),
            UserRole::VoteManager => self.vote_manager.add(principal),
            UserRole::Revoker => self.revoker.add(principal),
            UserRole::Executor => self.executor.add(principal),
            UserRole::ForceExecutor => self.force_executor.add(principal),
            UserRole::Validator => self.validator.add(principal),
        }
    }

    /// Takes `role` away from `principal`, if it holds it.
    pub fn remove_role(&mut self, role: UserRole, principal: &StablePrincipal)
        requires
            old(self).wf(),
        ensures
            final(self).wf(),
            old(self).others_kept(final(self), role),
            !final(self).members_of(role).contains(principal@),
            forall|q: Seq<u8>|
                q != principal@ ==> (final(self).members_of(role).contains(q) <==> old(
                    self,
                ).members_of(role).contains(q)),
    {
        match role {
            UserRole::Admin => self.admin.remove(principal),
            UserRole::Proposer => self.proposer.remove(principal),
            UserRole::VoteManager => self.vote_manager.remove(principal),
            UserRole::Revoker => self.revoker.remove(principal),
            UserRole::Executor => self.executor.remove(principal),
            UserRole::ForceExecutor => self.force_executor.remove(principal),
            UserRole::Validator => self.validator.remove(principal),
        }
    }

    /// Removes every member of `role`.
    pub fn clear_users_of_role(&mut self, role: UserRole)
        requires
            old(self).wf(),
        ensures
            final(self).wf(),
            old(self).others_kept(final(self), role),
            final(self).members_of(role) == Seq::<Seq<u8>>::empty(),
    {
        match role {
            UserRole::Admin => self.admin.clear(),
            UserRole::Proposer => self.proposer.clear(),
            UserRole::VoteManager => self.vote_manager.clear(),
            UserRole::Revoker => self.revoker.clear(),
            UserRole::Executor => self.executor.clear(),
            UserRole::ForceExecutor => self.force_executor.clear(),
            UserRole::Validator => self.validator.clear(),
        }
    }
}

} // verus!
