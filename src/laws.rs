//! Properties of the engine that hold across operations, stated over the
//! contracts of those operations.
use vstd::prelude::*;

use crate::access::UserRole;
use crate::governance::{
    calls_made, finalized, finalizes_after_update, proposal_wf, reachable, schedules_frozen,
    validation_input_ok, with_tallies, Config, Governance,
};
use crate::proposal::{
    is_success, is_terminal, permitted, ExecutionStep, ExecutionStepState, ProposalState,
};
use crate::types::{Index, ProposalPassingThreshold, ReturnError, TimeNs, VotingPower};

verus! {

/// Every dependency of a stored proposal is an earlier proposal.
pub proof fn law_dependencies_precede(g: &Governance, id: int)
    requires
        g.wf(),
        0 <= id < g.len(),
    ensures
        forall|j: int|
            0 <= j < g.payload(id).depends_on@.len() ==> #[trigger] g.payload(id).depends_on@[j] < id,
{
    assert(proposal_wf(g.proposal(id), id, g.payload(id), g.results_len(id)));
}

/// A permitted transition is one step of `reachable`.
pub proof fn law_permitted_is_reachable(a: ProposalState, b: ProposalState)
    requires
        permitted(a, b),
    ensures
        reachable(a, b),
{
}

/// Reachability composes.
pub proof fn law_reachable_transitive(a: ProposalState, b: ProposalState, c: ProposalState)
    requires
        reachable(a, b),
        reachable(b, c),
    ensures
        reachable(a, c),
{
}

/// A state reachable from another is entered through a permitted
/// transition from it that still leads there: `reachable` is generated by
/// the permitted transitions.
pub proof fn law_reachable_by_steps(a: ProposalState, b: ProposalState)
    requires
        reachable(a, b),
        a != b,
    ensures
        exists|c: ProposalState| permitted(a, c) && reachable(c, b),
{
    let first = ExecutionStep { step: 0, state: ExecutionStepState::NotStarted };
    match a {
        ProposalState::Submitted => {
            if b is ValidationFailed {
                assert(permitted(a, b) && reachable(b, b));
            } else {
                assert(permitted(a, ProposalState::Open) && reachable(ProposalState::Open, b));
            }
        },
        ProposalState::Open => {
            if b is ForceExecutionSucceeded || b is ForceExecutionFailed {
                let c = ProposalState::ForceExecuting(first);
                assert(permitted(a, c) && reachable(c, b));
            } else if b is Executing || b is Succeeded || b is Failed || b is Expired {
                assert(permitted(a, ProposalState::Accepted) && reachable(ProposalState::Accepted, b));
            } else {
                assert(permitted(a, b) && reachable(b, b));
            }
        },
        ProposalState::Accepted => {
            let c = ProposalState::Executing(first);
            assert(permitted(a, c) && reachable(c, b));
        },
        _ => {
            assert(permitted(a, b) && reachable(b, b));
        },
    }
}

/// Any sequence of operations moves every proposal along permitted
/// transitions and leaves proposals in terminal states untouched.
pub proof fn law_evolution_composes(g0: &Governance, g1: &Governance, g2: &Governance)
    requires
        g0.evolves_to(g1),
        g1.evolves_to(g2),
    ensures
        g0.evolves_to(g2),
{
    assert forall|i: int| 0 <= i < g0.len() implies #[trigger] reachable(
        g0.state_of(i),
        g2.state_of(i),
    ) by {
        assert(reachable(g0.state_of(i), g1.state_of(i)));
        assert(reachable(g1.state_of(i), g2.state_of(i)));
    }
    assert forall|i: int| 0 <= i < g0.len() && is_terminal(g0.state_of(i)) implies #[trigger] g2.proposal(
        i,
    ) == g0.proposal(i) by {
        assert(g1.proposal(i) == g0.proposal(i));
    }
    assert forall|i: int| 0 <= i < g0.len() implies #[trigger] g2.payload(i) == g0.payload(i) by {
        assert(g1.payload(i) == g0.payload(i));
    }
    assert forall|i: int| 0 <= i < g0.len() implies #[trigger] g2.metadata_view()[i]
        == g0.metadata_view()[i] by {
        assert(g1.metadata_view()[i] == g0.metadata_view()[i]);
    }
}

/// Tallies are never negative and never exceed the total voting power.
pub proof fn law_tallies_in_range(g: &Governance, id: int)
    requires
        g.wf(),
        0 <= id < g.len(),
    ensures
        g.proposal(id).votes_yes >= 0,
        g.proposal(id).votes_no >= 0,
        g.proposal(id).votes_abstain >= 0,
        g.proposal(id).votes_yes + g.proposal(id).votes_no + g.proposal(id).votes_abstain
            <= g.proposal(id).total_voting_power,
{
    assert(proposal_wf(g.proposal(id), id, g.payload(id), g.results_len(id)));
}

/// From acceptance on (and after any finalized vote or force execution)
/// both schedules are absolute.
pub proof fn law_accepted_schedules_absolute(g: &Governance, id: int)
    requires
        g.wf(),
        0 <= id < g.len(),
        schedules_frozen(g.state_of(id)),
    ensures
        g.proposal(id).activates is At,
        g.proposal(id).expires is At,
{
    assert(proposal_wf(g.proposal(id), id, g.payload(id), g.results_len(id)));
}

/// A voting window accepted at `now` for a proposal created no later than
/// `now` lasts at least the minimum voting period from its creation.
pub proof fn law_voting_window(
    cfg: Config,
    voting_end_time: Option<TimeNs>,
    threshold: Option<ProposalPassingThreshold>,
    now: TimeNs,
    created_at: TimeNs,
)
    requires
        validation_input_ok(cfg, voting_end_time, threshold, now),
        created_at <= now,
    ensures
        voting_end_time->0 >= created_at + cfg.min_voting_period,
{
}

/// Execution results count the message calls made: one per message up to
/// the current step, plus the current step once its call was made.
pub proof fn law_results_count(g: &Governance, id: int)
    requires
        g.wf(),
        0 <= id < g.len(),
    ensures
        match g.state_of(id) {
            ProposalState::Executing(e) => g.results_len(id) == calls_made(e),
            ProposalState::ForceExecuting(e) => g.results_len(id) == calls_made(e),
            ProposalState::Failed(e) => g.results_len(id) == calls_made(e),
            ProposalState::ForceExecutionFailed(e) => g.results_len(id) == calls_made(e),
            ProposalState::Succeeded => g.results_len(id) == g.payload(id).messages@.len(),
            ProposalState::ForceExecutionSucceeded => g.results_len(id) == g.payload(
                id,
            ).messages@.len(),
            ProposalState::Expired => g.results_len(id) <= g.payload(id).messages@.len(),
            _ => g.results_len(id) == 0,
        },
{
    assert(proposal_wf(g.proposal(id), id, g.payload(id), g.results_len(id)));
}

/// Adding increments and then their negations leaves the tallies as they
/// were, when neither update finalizes the vote.
pub proof fn law_vote_round_trip(
    g0: &Governance,
    g1: &Governance,
    g2: &Governance,
    r1: Result<(), ReturnError>,
    r2: Result<(), ReturnError>,
    id: Index,
    a: VotingPower,
    b: VotingPower,
    c: VotingPower,
    now1: TimeNs,
    now2: TimeNs,
)
    requires
        id < g0.len(),
        ({
            let p = g0.proposal(id as int);
            g0.vote_update_result(
                g1,
                r1,
                id,
                p.votes_yes + a,
                p.votes_no + b,
                p.votes_abstain + c,
                p.total_voting_power as int,
                now1,
            )
        }),
        ({
            let p = g1.proposal(id as int);
            g1.vote_update_result(
                g2,
                r2,
                id,
                p.votes_yes - a,
                p.votes_no - b,
                p.votes_abstain - c,
                p.total_voting_power as int,
                now2,
            )
        }),
        r1 is Ok,
        r2 is Ok,
        ({
            let p = g0.proposal(id as int);
            !finalizes_after_update(
                g0.config_view(),
                with_tallies(p, p.votes_yes + a, p.votes_no + b, p.votes_abstain + c, p.total_voting_power as int),
                now1,
            )
        }),
        ({
            let p = g1.proposal(id as int);
            !finalizes_after_update(
                g1.config_view(),
                with_tallies(p, p.votes_yes - a, p.votes_no - b, p.votes_abstain - c, p.total_voting_power as int),
                now2,
            )
        }),
    ensures
        g2.proposal(id as int).votes_yes == g0.proposal(id as int).votes_yes,
        g2.proposal(id as int).votes_no == g0.proposal(id as int).votes_no,
        g2.proposal(id as int).votes_abstain == g0.proposal(id as int).votes_abstain,
        g2.proposal(id as int).total_voting_power == g0.proposal(id as int).total_voting_power,
        g2.state_of(id as int) == g0.state_of(id as int),
{
}

/// A validation that fails is final: every later call of `validate` on that
/// proposal fails and changes nothing.
pub proof fn law_failed_validation_is_final(
    g0: &Governance,
    g1: &Governance,
    g2: &Governance,
    r1: Result<(), ReturnError>,
    r2: Result<(), ReturnError>,
    caller1: Seq<u8>,
    caller2: Seq<u8>,
    id: Index,
    end1: Option<TimeNs>,
    th1: Option<ProposalPassingThreshold>,
    end2: Option<TimeNs>,
    th2: Option<ProposalPassingThreshold>,
    validated2: bool,
    now1: TimeNs,
    now2: TimeNs,
)
    requires
        g0.validate_outcome(g1, r1, caller1, id, end1, th1, false, now1),
        r1 is Ok,
        g1.validate_outcome(g2, r2, caller2, id, end2, th2, validated2, now2),
    ensures
        g1.state_of(id as int) is ValidationFailed,
        is_terminal(g1.state_of(id as int)),
        r2 is Err,
        *g2 == *g1,
{
}

/// A proposal that depends on a single earlier proposal `a` cannot start
/// executing before `a` has succeeded: `execute` reports
/// `DependentProposalNotSucceeded` when `a` has ended otherwise, and
/// `DependentProposalNotReady` while `a` is still under way.
pub proof fn law_dependency_gating(
    g0: &Governance,
    g1: &Governance,
    r: Result<crate::dispatch::DispatchAction, ReturnError>,
    caller: Seq<u8>,
    id: Index,
    a: Index,
    now: TimeNs,
)
    requires
        g0.wf(),
        id < g0.len(),
        g0.has_role_spec(UserRole::Executor, caller),
        g0.payload(id as int).depends_on@ == seq![a],
        ({
            let p0 = g0.proposal(id as int);
            let p1 = if p0.state is Open {
                finalized(p0, now)
            } else {
                p0
            };
            p1.executable_at(now)
        }),
        g0.execute_outcome(g1, r, caller, id, now),
    ensures
        is_terminal(g0.state_of(a as int)) && !is_success(g0.state_of(a as int)) ==> r == Err::<
            crate::dispatch::DispatchAction,
            ReturnError,
        >(ReturnError::DependentProposalNotSucceeded),
        !is_terminal(g0.state_of(a as int)) ==> r == Err::<
            crate::dispatch::DispatchAction,
            ReturnError,
        >(ReturnError::DependentProposalNotReady),
{
    law_dependencies_precede(g0, id as int);
    assert(g0.payload(id as int).depends_on@[0] == a);
    let deps = seq![a];
    assert(g0.dependency_error_from(deps, 1) == None::<ReturnError>);
}

} // verus!
