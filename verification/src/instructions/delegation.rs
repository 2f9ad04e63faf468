//! The calls around adding liquidity.
//!
//! The pool takes tokens out of the treasuries, so each treasury approves a
//! delegate before the call. Whether the call succeeds or not, the approvals are
//! revoked after it, and only then does its outcome count. An approval or a
//! revocation that fails aborts the whole instruction, and with it everything
//! that the instruction has done.

use vstd::prelude::*;

verus! {

/// Which treasuries approve a delegate.
#[derive(Clone, Copy, Debug, PartialEq, Eq, Structural)]
pub struct Grants {
    pub token0: bool,
    pub token1: bool,
}

/// What is to be done next.
#[derive(Clone, Copy, Debug, PartialEq, Eq, Structural)]
pub enum Step {
    /// The token0 treasury approves.
    ApproveToken0,
    /// The token1 treasury approves.
    ApproveToken1,
    /// Call the pool.
    AddLiquidity,
    /// The token0 treasury revokes.
    RevokeToken0 { added: bool },
    /// The token1 treasury revokes.
    RevokeToken1 { added: bool },
    /// Nothing is left to do. `added` tells whether the pool's call succeeded.
    Done { added: bool },
    /// Abort the instruction.
    Abort,
}

/// What follows the call to the pool.
pub open spec fn step_after_call(grants: Grants, added: bool) -> Step {
    if grants.token0 {
        Step::RevokeToken0 { added }
    } else if grants.token1 {
        Step::RevokeToken1 { added }
    } else {
        Step::Done { added }
    }
}

/// What is to be done first.
pub open spec fn start(grants: Grants) -> Step {
    if grants.token0 {
        Step::ApproveToken0
    } else if grants.token1 {
        Step::ApproveToken1
    } else {
        Step::AddLiquidity
    }
}

/// What follows `step`, given whether it succeeded.
pub open spec fn follow(grants: Grants, step: Step, ok: bool) -> Step {
    match step {
        Step::AddLiquidity => step_after_call(grants, ok),
        Step::Done { added } => Step::Done { added },
        Step::Abort => Step::Abort,
        _ => if !ok {
            Step::Abort
        } else {
            match step {
                Step::ApproveToken0 => if grants.token1 {
                    Step::ApproveToken1
                } else {
                    Step::AddLiquidity
                },
                Step::ApproveToken1 => Step::AddLiquidity,
                Step::RevokeToken0 { added } => if grants.token1 {
                    Step::RevokeToken1 { added }
                } else {
                    Step::Done { added }
                },
                Step::RevokeToken1 { added } => Step::Done { added },
                other => other,
            }
        },
    }
}

/// Tells what is to be done first.
pub fn first_step(grants: Grants) -> (r: Step)
    ensures
        r == start(grants),
{
    if grants.token0 {
        Step::ApproveToken0
    } else if grants.token1 {
        Step::ApproveToken1
    } else {
        Step::AddLiquidity
    }
}

/// Tells what follows `step`, given whether it succeeded.
pub fn next_step(grants: Grants, step: Step, ok: bool) -> (r: Step)
    ensures
        r == follow(grants, step, ok),
{
    match step {
        Step::ApproveToken0 => if !ok {
            Step::Abort
        } else if grants.token1 {
            Step::ApproveToken1
        } else {
            Step::AddLiquidity
        },
        Step::ApproveToken1 => if !ok {
            Step::Abort
        } else {
            Step::AddLiquidity
        },
        Step::AddLiquidity => if grants.token0 {
            Step::RevokeToken0 { added: ok }
        } else if grants.token1 {
            Step::RevokeToken1 { added: ok }
        } else {
            Step::Done { added: ok }
        },
        Step::RevokeToken0 { added } => if !ok {
            Step::Abort
        } else if grants.token1 {
            Step::RevokeToken1 { added }
        } else {
            Step::Done { added }
        },
        Step::RevokeToken1 { added } => if !ok {
            Step::Abort
        } else {
            Step::Done { added }
        },
        Step::Done { added } => Step::Done { added },
        Step::Abort => Step::Abort,
    }
}

/// What a step approves: as much of its treasury's token as may be spent.
pub open spec fn approval(step: Step, amount_0_max: u64, amount_1_max: u64) -> u64 {
    match step {
        Step::ApproveToken0 => amount_0_max,
        Step::ApproveToken1 => amount_1_max,
        _ => 0,
    }
}

/// Tells how much a step approves. Only an approval approves anything.
pub fn approved_amount(step: Step, amount_0_max: u64, amount_1_max: u64) -> (r: u64)
    ensures
        r == approval(step, amount_0_max, amount_1_max),
{
    match step {
        Step::ApproveToken0 => amount_0_max,
        Step::ApproveToken1 => amount_1_max,
        _ => 0,
    }
}

/// The step reached when the steps so far turned out as `outcomes` say.
pub open spec fn step_at(grants: Grants, outcomes: Seq<bool>) -> Step
    decreases outcomes.len(),
{
    if outcomes.len() == 0 {
        start(grants)
    } else {
        follow(grants, step_at(grants, outcomes.drop_last()), outcomes.last())
    }
}

/// The treasuries that have a delegate by then.
pub open spec fn delegated_at(grants: Grants, outcomes: Seq<bool>) -> Grants
    decreases outcomes.len(),
{
    if outcomes.len() == 0 {
        Grants { token0: false, token1: false }
    } else {
        let before = delegated_at(grants, outcomes.drop_last());
        if !outcomes.last() {
            before
        } else {
            match step_at(grants, outcomes.drop_last()) {
                Step::ApproveToken0 => Grants { token0: true, ..before },
                Step::ApproveToken1 => Grants { token1: true, ..before },
                Step::RevokeToken0 { added } => Grants { token0: false, ..before },
                Step::RevokeToken1 { added } => Grants { token1: false, ..before },
                _ => before,
            }
        }
    }
}

/// The delegates that each step starts with.
proof fn lemma_delegated(grants: Grants, outcomes: Seq<bool>)
    ensures
        match step_at(grants, outcomes) {
            Step::ApproveToken0 => {
                &&& grants.token0
                &&& delegated_at(grants, outcomes) == (Grants { token0: false, token1: false })
            },
            Step::ApproveToken1 => {
                &&& grants.token1
                &&& delegated_at(grants, outcomes) == (Grants { token1: false, ..grants })
            },
            Step::AddLiquidity => delegated_at(grants, outcomes) == grants,
            Step::RevokeToken0 { added } => {
                &&& grants.token0
                &&& delegated_at(grants, outcomes) == grants
            },
            Step::RevokeToken1 { added } => {
                &&& grants.token1
                &&& delegated_at(grants, outcomes) == (Grants { token0: false, ..grants })
            },
            Step::Done { added } => delegated_at(grants, outcomes) == (Grants {
                token0: false,
                token1: false,
            }),
            Step::Abort => true,
        },
    decreases outcomes.len(),
{
    if outcomes.len() > 0 {
        lemma_delegated(grants, outcomes.drop_last());
    }
}

/// Once all is done no treasury has a delegate, whatever the pool answered. While
/// the pool is called, exactly the treasuries asked for have one.
pub proof fn law_no_delegate_is_left(grants: Grants, outcomes: Seq<bool>)
    ensures
        step_at(grants, outcomes) is Done ==> delegated_at(grants, outcomes) == (Grants {
            token0: false,
            token1: false,
        }),
        step_at(grants, outcomes) is AddLiquidity ==> delegated_at(grants, outcomes) == grants,
{
    lemma_delegated(grants, outcomes);
}

/// What the delegates of the two treasuries are approved for when the steps so
/// far turned out as `outcomes` say.
pub open spec fn approved_at(
    grants: Grants,
    outcomes: Seq<bool>,
    amount_0_max: u64,
    amount_1_max: u64,
) -> (u64, u64)
    decreases outcomes.len(),
{
    if outcomes.len() == 0 {
        (0, 0)
    } else {
        let before = approved_at(grants, outcomes.drop_last(), amount_0_max, amount_1_max);
        let step = step_at(grants, outcomes.drop_last());
        let amount = approval(step, amount_0_max, amount_1_max);
        if !outcomes.last() {
            before
        } else {
            match step {
                Step::ApproveToken0 => (amount, before.1),
                Step::ApproveToken1 => (before.0, amount),
                Step::RevokeToken0 { added } => (0, before.1),
                Step::RevokeToken1 { added } => (before.0, 0),
                _ => before,
            }
        }
    }
}

/// A treasury with a delegate has approved the greatest amount, and one without
/// has approved nothing.
proof fn lemma_approved(
    grants: Grants,
    outcomes: Seq<bool>,
    amount_0_max: u64,
    amount_1_max: u64,
)
    ensures
        ({
            let delegated = delegated_at(grants, outcomes);
            approved_at(grants, outcomes, amount_0_max, amount_1_max) == (
                if delegated.token0 {
                    amount_0_max
                } else {
                    0
                },
                if delegated.token1 {
                    amount_1_max
                } else {
                    0
                },
            )
        }),
    decreases outcomes.len(),
{
    if outcomes.len() > 0 {
        lemma_approved(grants, outcomes.drop_last(), amount_0_max, amount_1_max);
    }
}

/// No delegate is ever approved for more than may be spent, and once all is done
/// none is approved for anything, whatever the pool answered.
pub proof fn law_approvals_are_bounded(
    grants: Grants,
    outcomes: Seq<bool>,
    amount_0_max: u64,
    amount_1_max: u64,
)
    ensures
        ({
            let approved = approved_at(grants, outcomes, amount_0_max, amount_1_max);
            &&& approved.0 <= amount_0_max
            &&& approved.1 <= amount_1_max
            &&& step_at(grants, outcomes) is Done ==> approved == (0u64, 0u64)
        }),
{
    lemma_approved(grants, outcomes, amount_0_max, amount_1_max);
    lemma_delegated(grants, outcomes);
}

/// What all is done with is the pool's own answer, and an answer that is a
/// failure does not abort the revocations.
pub proof fn law_call_outcome_comes_last(grants: Grants, answer: bool)
    ensures
        ({
            let revoked = follow(grants, step_after_call(grants, answer), true);
            follow(grants, revoked, true) == (Step::Done { added: answer })
        }),
{
}

/// The steps come to an end after at most five.
pub proof fn law_delegation_ends(grants: Grants, outcomes: Seq<bool>)
    requires
        outcomes.len() >= 5,
    ensures
        step_at(grants, outcomes) is Done || step_at(grants, outcomes) is Abort,
    decreases outcomes.len(),
{
    let o1 = outcomes.drop_last();
    if outcomes.len() > 5 {
        law_delegation_ends(grants, o1);
    } else {
        let o2 = o1.drop_last();
        let o3 = o2.drop_last();
        let o4 = o3.drop_last();
        let o5 = o4.drop_last();
        assert(step_at(grants, o5) == start(grants));
        assert(step_at(grants, o4) == follow(grants, step_at(grants, o5), o4.last()));
        assert(step_at(grants, o3) == follow(grants, step_at(grants, o4), o3.last()));
        assert(step_at(grants, o2) == follow(grants, step_at(grants, o3), o2.last()));
        assert(step_at(grants, o1) == follow(grants, step_at(grants, o2), o1.last()));
    }
}

/// The calls around adding liquidity, in their order: the treasuries that grant
/// approve, token0 first; the pool is called; the same treasuries revoke, token0
/// first. A failed approval or revocation aborts, and a failed call does not keep
/// the approvals from being revoked.
pub proof fn law_steps_come_in_order(
    grants: Grants,
    step: Step,
    ok: bool,
    first: Step,
    next: Step,
)
    requires
        call_ensures(first_step, (grants,), first),
        call_ensures(next_step, (grants, step, ok), next),
    ensures
        grants.token0 ==> first == Step::ApproveToken0,
        !grants.token0 && grants.token1 ==> first == Step::ApproveToken1,
        !grants.token0 && !grants.token1 ==> first == Step::AddLiquidity,
        step == Step::ApproveToken0 && ok && grants.token1 ==> next == Step::ApproveToken1,
        step == Step::ApproveToken0 && ok && !grants.token1 ==> next == Step::AddLiquidity,
        step == Step::ApproveToken1 && ok ==> next == Step::AddLiquidity,
        step == Step::AddLiquidity && grants.token0 ==> next == (Step::RevokeToken0 { added: ok }),
        step == Step::AddLiquidity && !grants.token0 && grants.token1 ==> next == (
        Step::RevokeToken1 { added: ok }),
        step == Step::AddLiquidity && !grants.token0 && !grants.token1 ==> next == (Step::Done {
            added: ok,
        }),
        step matches Step::RevokeToken0 { added } ==> (ok && grants.token1 ==> next == (
        Step::RevokeToken1 { added })),
        step matches Step::RevokeToken0 { added } ==> (ok && !grants.token1 ==> next == (
        Step::Done { added })),
        step matches Step::RevokeToken1 { added } ==> (ok ==> next == (Step::Done { added })),
        step is Done ==> next == step,
        step == Step::Abort ==> next == Step::Abort,
        !ok && step != Step::AddLiquidity && !(step is Done) ==> next == Step::Abort,
{
}

/// A treasury approves the most that may be spent of its own token, and no other
/// step approves anything.
pub proof fn law_approvals_are_of_their_own_token(
    step: Step,
    amount_0_max: u64,
    amount_1_max: u64,
    r: u64,
)
    requires
        call_ensures(approved_amount, (step, amount_0_max, amount_1_max), r),
    ensures
        step == Step::ApproveToken0 ==> r == amount_0_max,
        step == Step::ApproveToken1 ==> r == amount_1_max,
        step != Step::ApproveToken0 && step != Step::ApproveToken1 ==> r == 0,
{
}

} // verus!
