//! The project ledger: record-level funding transitions — initialize,
//! contribute, buy, sell — and the laws of the funding life cycle.
use vstd::prelude::*;

use crate::codec::copy_bytes;
use crate::errors::UnicornFactoryError;
use crate::pricing::calculate_new_price;
use crate::pricing::calculate_tokens;
use crate::pricing::spec_max_scalable_total;
use crate::pricing::spec_next_price;
use crate::pricing::spec_tokens_for;
use crate::project::Project;
use crate::project::ProjectView;

verus! {

/// Activity mirrors the funding goal: a project is active exactly while
/// the raised total is below the goal.
pub open spec fn funding_consistent(p: ProjectView) -> bool {
    p.is_active <==> p.total_raised < p.funding_goal
}

/// The stored unit price is the one the bonding curve implies for the
/// stored raised total.
pub open spec fn price_consistent(p: ProjectView) -> bool {
    p.token_price == spec_next_price(p.total_raised, p.funding_goal)
}

/// A project after its raised total moves to `new_total`: the price is
/// recomputed, and the project deactivates once the goal is reached.
pub open spec fn funded_state(p: ProjectView, new_total: u64) -> ProjectView {
    ProjectView {
        total_raised: new_total,
        token_price: spec_next_price(new_total, p.funding_goal),
        is_active: if new_total >= p.funding_goal {
            false
        } else {
            p.is_active
        },
        ..p
    }
}

/// The contribute transition: refused while inactive or at the goal,
/// or when the raised total would overflow; otherwise the amount is
/// added, the price recomputed, and the credits granted at the old
/// price.
pub open spec fn spec_contribute(p: ProjectView, amount: u64) -> Result<
    (ProjectView, u64),
    UnicornFactoryError,
> {
    if !p.is_active {
        Err(UnicornFactoryError::ProjectNotActive)
    } else if p.total_raised >= p.funding_goal {
        Err(UnicornFactoryError::FundingGoalReached)
    } else if p.total_raised + amount > spec_max_scalable_total() {
        Err(UnicornFactoryError::Overflow)
    } else {
        Ok(
            (
                funded_state(p, (p.total_raised + amount) as u64),
                spec_tokens_for(amount, p.token_price),
            ),
        )
    }
}

/// The buy transition: identical to contribute, without the eager
/// goal check.
pub open spec fn spec_buy(p: ProjectView, amount: u64) -> Result<
    (ProjectView, u64),
    UnicornFactoryError,
> {
    if !p.is_active {
        Err(UnicornFactoryError::ProjectNotActive)
    } else if p.total_raised + amount > u64::MAX {
        Err(UnicornFactoryError::Overflow)
    } else if p.funding_goal != 0 && p.total_raised + amount > spec_max_scalable_total() {
        Err(UnicornFactoryError::Overflow)
    } else {
        Ok(
            (
                funded_state(p, (p.total_raised + amount) as u64),
                spec_tokens_for(amount, p.token_price),
            ),
        )
    }
}

/// The record-level sell transition: refused while inactive, on an
/// overflowing refund, or when the refund exceeds the raised total;
/// otherwise the refund is deducted and the price recomputed.
pub open spec fn spec_sell(p: ProjectView, amount: u64) -> Result<
    (ProjectView, u64),
    UnicornFactoryError,
> {
    if !p.is_active {
        Err(UnicornFactoryError::ProjectNotActive)
    } else if amount * p.token_price > u64::MAX {
        Err(UnicornFactoryError::Overflow)
    } else if amount * p.token_price > p.total_raised {
        Err(UnicornFactoryError::Overflow)
    } else if p.funding_goal != 0 && p.total_raised - amount * p.token_price
        > spec_max_scalable_total() {
        Err(UnicornFactoryError::Overflow)
    } else {
        Ok(
            (
                funded_state(p, (p.total_raised - amount * p.token_price) as u64),
                (amount * p.token_price) as u64,
            ),
        )
    }
}

/// A fresh project record: nothing raised, unit price 1, active.
pub fn new_project(
    authority: &Vec<u8>,
    name: Vec<u8>,
    symbol: Vec<u8>,
    funding_goal: u64,
    bump: u8,
    token_mint: &Vec<u8>,
) -> (p: Project)
    ensures
        p@ == (ProjectView {
            authority: authority@,
            name: name@,
            symbol: symbol@,
            funding_goal,
            total_raised: 0,
            token_price: 1,
            is_active: true,
            bump,
            token_mint: token_mint@,
            milestone_count: 0,
            proposal_count: 0,
        }),
        funding_goal > 0 ==> funding_consistent(p@),
        price_consistent(p@),
{
    Project {
        authority: copy_bytes(authority),
        name,
        symbol,
        funding_goal,
        total_raised: 0,
        token_price: 1,
        is_active: true,
        bump,
        token_mint: copy_bytes(token_mint),
        milestone_count: 0,
        proposal_count: 0,
    }
}

/// Applies a contribution, returning the updated record and the credits
/// to grant.
pub fn contribute(project: &Project, amount: u64) -> (r: Result<
    (Project, u64),
    UnicornFactoryError,
>)
    ensures
        match spec_contribute(project@, amount) {
            Ok(s) => r is Ok && r.unwrap().0@ == s.0 && r.unwrap().1 == s.1,
            Err(e) => r is Err && r.unwrap_err() == e,
        },
{
    if !project.is_active {
        return Err(UnicornFactoryError::ProjectNotActive);
    }
    if project.total_raised >= project.funding_goal {
        return Err(UnicornFactoryError::FundingGoalReached);
    }
    let tokens = calculate_tokens(amount, project.token_price);
    if project.total_raised > u64::MAX / 100 || amount > u64::MAX / 100 - project.total_raised {
        return Err(UnicornFactoryError::Overflow);
    }
    Ok((funded_project(project, project.total_raised + amount), tokens))
}

/// Applies a purchase, returning the updated record and the credits to
/// grant.
pub fn buy(project: &Project, amount: u64) -> (r: Result<(Project, u64), UnicornFactoryError>)
    ensures
        match spec_buy(project@, amount) {
            Ok(s) => r is Ok && r.unwrap().0@ == s.0 && r.unwrap().1 == s.1,
            Err(e) => r is Err && r.unwrap_err() == e,
        },
{
    if !project.is_active {
        return Err(UnicornFactoryError::ProjectNotActive);
    }
    let tokens = calculate_tokens(amount, project.token_price);
    if amount > u64::MAX - project.total_raised {
        return Err(UnicornFactoryError::Overflow);
    }
    let new_total = project.total_raised + amount;
    if project.funding_goal != 0 && new_total > u64::MAX / 100 {
        return Err(UnicornFactoryError::Overflow);
    }
    Ok((funded_project(project, new_total), tokens))
}

/// The refund owed for selling `amount` credits at unit price `price`.
pub fn sell_refund(amount: u64, price: u64) -> (r: Result<u64, UnicornFactoryError>)
    ensures
        amount * price <= u64::MAX ==> r is Ok && r.unwrap() == amount * price,
        amount * price > u64::MAX ==> r is Err && r.unwrap_err() == UnicornFactoryError::Overflow,
{
    if price != 0 && amount > u64::MAX / price {
        proof {
            assert(amount * price > u64::MAX) by (nonlinear_arith)
                requires
                    amount > u64::MAX / price,
                    price > 0,
            ;
        }
        return Err(UnicornFactoryError::Overflow);
    }
    proof {
        if price != 0 {
            assert(amount * price <= (u64::MAX / price) * price) by (nonlinear_arith)
                requires
                    amount <= u64::MAX / price,
                    price > 0,
            ;
            vstd::arithmetic::div_mod::lemma_fundamental_div_mod(u64::MAX as int, price as int);
            vstd::arithmetic::div_mod::lemma_mod_bound(u64::MAX as int, price as int);
            vstd::arithmetic::mul::lemma_mul_is_commutative((u64::MAX / price) as int, price as int);
        }
    }
    Ok(amount * price)
}

/// Settles a sale whose refund was already paid out: deducts the refund
/// from the raised total and recomputes the price.
pub fn sell_settle(project: &Project, refund: u64) -> (r: Result<Project, UnicornFactoryError>)
    ensures
        refund > project.total_raised ==> r is Err && r.unwrap_err()
            == UnicornFactoryError::Overflow,
        (refund <= project.total_raised && project.funding_goal != 0 && project.total_raised
            - refund > spec_max_scalable_total()) ==> r is Err && r.unwrap_err()
            == UnicornFactoryError::Overflow,
        (refund <= project.total_raised && (project.funding_goal == 0 || project.total_raised
            - refund <= spec_max_scalable_total())) ==> r is Ok && r.unwrap()@ == funded_state(
            project@,
            (project.total_raised - refund) as u64,
        ),
{
    if refund > project.total_raised {
        return Err(UnicornFactoryError::Overflow);
    }
    let new_total = project.total_raised - refund;
    if project.funding_goal != 0 && new_total > u64::MAX / 100 {
        return Err(UnicornFactoryError::Overflow);
    }
    Ok(funded_project(project, new_total))
}

/// Rebuilds a project record around a new raised total.
fn funded_project(project: &Project, new_total: u64) -> (p: Project)
    requires
        project.funding_goal == 0 || new_total <= spec_max_scalable_total(),
    ensures
        p@ == funded_state(project@, new_total),
{
    let price = match calculate_new_price(new_total, project.funding_goal) {
        Ok(v) => v,
        Err(_) => 1,
    };
    Project {
        authority: copy_bytes(&project.authority),
        name: copy_bytes(&project.name),
        symbol: copy_bytes(&project.symbol),
        funding_goal: project.funding_goal,
        total_raised: new_total,
        token_price: price,
        is_active: if new_total >= project.funding_goal {
            false
        } else {
            project.is_active
        },
        bump: project.bump,
        token_mint: copy_bytes(&project.token_mint),
        milestone_count: project.milestone_count,
        proposal_count: project.proposal_count,
    }
}

/// One attempted funding operation.
#[verifier::ext_equal]
pub ghost enum FundingOp {
    Contribute { amount: u64 },
    Buy { amount: u64 },
    Sell { amount: u64 },
}

/// The state after one attempted funding operation; a refused operation
/// leaves the record unchanged, as the host discards every effect of a
/// failed instruction.
pub open spec fn apply_funding_op(p: ProjectView, op: FundingOp) -> ProjectView {
    match op {
        FundingOp::Contribute { amount } => match spec_contribute(p, amount) {
            Ok(s) => s.0,
            Err(_) => p,
        },
        FundingOp::Buy { amount } => match spec_buy(p, amount) {
            Ok(s) => s.0,
            Err(_) => p,
        },
        FundingOp::Sell { amount } => match spec_sell(p, amount) {
            Ok(s) => s.0,
            Err(_) => p,
        },
    }
}

/// The state after a whole sequence of attempted funding operations.
pub open spec fn apply_funding_ops(p: ProjectView, ops: Seq<FundingOp>) -> ProjectView
    decreases ops.len(),
{
    if ops.len() == 0 {
        p
    } else {
        apply_funding_ops(apply_funding_op(p, ops[0]), ops.skip(1))
    }
}

/// One funding operation preserves both ledger invariants: the project
/// is inactive exactly when the raised total has reached the goal, and
/// the stored price matches the bonding curve.
pub proof fn lemma_funding_step(p: ProjectView, op: FundingOp)
    requires
        funding_consistent(p),
        price_consistent(p),
    ensures
        funding_consistent(apply_funding_op(p, op)),
        price_consistent(apply_funding_op(p, op)),
{
}

/// Over any sequence of attempted contribute, buy and sell operations,
/// a project that starts consistent stays consistent: it is inactive
/// exactly from the moment the raised total first reaches the funding
/// goal, and its price always matches the curve.
pub proof fn lemma_funding_lifecycle(p: ProjectView, ops: Seq<FundingOp>)
    requires
        funding_consistent(p),
        price_consistent(p),
    ensures
        funding_consistent(apply_funding_ops(p, ops)),
        price_consistent(apply_funding_ops(p, ops)),
    decreases ops.len(),
{
    if ops.len() > 0 {
        lemma_funding_step(p, ops[0]);
        lemma_funding_lifecycle(apply_funding_op(p, ops[0]), ops.skip(1));
    }
}

/// Selling never reactivates a project: an inactive project refuses the
/// sale outright, and a successful sale never turns activity on.
pub proof fn lemma_sell_never_reactivates(p: ProjectView, amount: u64)
    ensures
        !p.is_active ==> spec_sell(p, amount) == Err::<
            (ProjectView, u64),
            UnicornFactoryError,
        >(UnicornFactoryError::ProjectNotActive),
        spec_sell(p, amount) is Ok ==> (spec_sell(p, amount).unwrap().0.is_active
            ==> p.is_active),
{
}

} // verus!
