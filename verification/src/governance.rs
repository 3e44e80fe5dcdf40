//! The governance engine: record-level transitions of proposals and
//! milestones — creation, voting, release, and direct completion.
use vstd::prelude::*;

use crate::codec::copy_bytes;
use crate::errors::UnicornFactoryError;
use crate::milestone::Milestone;
use crate::milestone::MilestoneView;
use crate::proposal::Proposal;
use crate::proposal::ProposalView;

verus! {

/// Length of the voting window that opens when a proposal is created.
pub const VOTING_WINDOW: i64 = 180;

/// A proposal's vote transition: refused once executed or after the
/// window closes, or when a tally would overflow; otherwise one tally
/// rises by one.
pub open spec fn spec_vote(p: ProposalView, choice: bool, now: i64) -> Result<
    ProposalView,
    UnicornFactoryError,
> {
    if p.is_executed {
        Err(UnicornFactoryError::ProposalAlreadyExecuted)
    } else if now > p.voting_end {
        Err(UnicornFactoryError::VotingPeriodEnded)
    } else if (if choice {
        p.yes_votes
    } else {
        p.no_votes
    }) == u64::MAX {
        Err(UnicornFactoryError::Overflow)
    } else {
        Ok(
            if choice {
                ProposalView { yes_votes: (p.yes_votes + 1) as u64, ..p }
            } else {
                ProposalView { no_votes: (p.no_votes + 1) as u64, ..p }
            },
        )
    }
}

/// Why a release is refused before any effect: already executed, the
/// window still open, or a tally that did not pass.  `None` when the
/// vote allows the release.
pub open spec fn spec_release_check(p: ProposalView, now: i64) -> Option<UnicornFactoryError> {
    if p.is_executed {
        Some(UnicornFactoryError::ProposalAlreadyExecuted)
    } else if now <= p.voting_end {
        Some(UnicornFactoryError::VotingPeriodNotEnded)
    } else if p.yes_votes <= p.no_votes {
        Some(UnicornFactoryError::ProposalDidNotPass)
    } else {
        None
    }
}

/// A fresh milestone record: not completed, never targeted by a
/// proposal.
pub fn new_milestone(title: Vec<u8>, description: Vec<u8>, amount: u64) -> (m: Milestone)
    ensures
        m@ == (MilestoneView {
            title: title@,
            description: description@,
            amount,
            is_completed: false,
            completed_at: 0,
            has_proposal: false,
        }),
{
    Milestone { title, description, amount, is_completed: false, completed_at: 0, has_proposal: false }
}

/// A fresh proposal record: zero tallies, created now, with its voting
/// window open for [`VOTING_WINDOW`] seconds.
pub fn new_proposal(
    creator: &Vec<u8>,
    title: Vec<u8>,
    description: Vec<u8>,
    milestone_id: u8,
    now: i64,
) -> (p: Proposal)
    requires
        now <= i64::MAX - VOTING_WINDOW,
    ensures
        p@ == (ProposalView {
            creator: creator@,
            title: title@,
            description: description@,
            milestone_id,
            yes_votes: 0,
            no_votes: 0,
            is_executed: false,
            created_at: now,
            voting_end: (now + VOTING_WINDOW) as i64,
        }),
{
    Proposal {
        creator: copy_bytes(creator),
        title,
        description,
        milestone_id,
        yes_votes: 0,
        no_votes: 0,
        is_executed: false,
        created_at: now,
        voting_end: now + VOTING_WINDOW,
    }
}

/// Marks a milestone as targeted by a proposal; the mark is never
/// reset, whatever becomes of the proposal.
pub fn mark_has_proposal(m: &Milestone) -> (r: Milestone)
    ensures
        r@ == (MilestoneView { has_proposal: true, ..m@ }),
{
    Milestone {
        title: copy_bytes(&m.title),
        description: copy_bytes(&m.description),
        amount: m.amount,
        is_completed: m.is_completed,
        completed_at: m.completed_at,
        has_proposal: true,
    }
}

/// Records one vote.
pub fn vote(proposal: &Proposal, choice: bool, now: i64) -> (r: Result<
    Proposal,
    UnicornFactoryError,
>)
    ensures
        match spec_vote(proposal@, choice, now) {
            Ok(v) => r is Ok && r.unwrap()@ == v,
            Err(e) => r is Err && r.unwrap_err() == e,
        },
{
    if proposal.is_executed {
        return Err(UnicornFactoryError::ProposalAlreadyExecuted);
    }
    if now > proposal.voting_end {
        return Err(UnicornFactoryError::VotingPeriodEnded);
    }
    if choice {
        if proposal.yes_votes == u64::MAX {
            return Err(UnicornFactoryError::Overflow);
        }
        let mut p = clone_proposal(proposal);
        p.yes_votes = p.yes_votes + 1;
        Ok(p)
    } else {
        if proposal.no_votes == u64::MAX {
            return Err(UnicornFactoryError::Overflow);
        }
        let mut p = clone_proposal(proposal);
        p.no_votes = p.no_votes + 1;
        Ok(p)
    }
}

/// Decides whether the vote allows a release, before any effect.
pub fn release_check(proposal: &Proposal, now: i64) -> (r: Result<(), UnicornFactoryError>)
    ensures
        match spec_release_check(proposal@, now) {
            Some(e) => r is Err && r.unwrap_err() == e,
            None => r is Ok,
        },
{
    if proposal.is_executed {
        return Err(UnicornFactoryError::ProposalAlreadyExecuted);
    }
    if now <= proposal.voting_end {
        return Err(UnicornFactoryError::VotingPeriodNotEnded);
    }
    if proposal.yes_votes <= proposal.no_votes {
        return Err(UnicornFactoryError::ProposalDidNotPass);
    }
    Ok(())
}

/// Finalizes a passed release: the proposal becomes executed and the
/// milestone completed.  The milestone's completion time is left as it
/// was: only the direct completion path stamps it.
pub fn release_apply(proposal: &Proposal, milestone: &Milestone) -> (r: (Proposal, Milestone))
    ensures
        r.0@ == (ProposalView { is_executed: true, ..proposal@ }),
        r.1@ == (MilestoneView { is_completed: true, ..milestone@ }),
{
    let mut p = clone_proposal(proposal);
    p.is_executed = true;
    let m = Milestone {
        title: copy_bytes(&milestone.title),
        description: copy_bytes(&milestone.description),
        amount: milestone.amount,
        is_completed: true,
        completed_at: milestone.completed_at,
        has_proposal: milestone.has_proposal,
    };
    (p, m)
}

/// The direct completion path, independent of governance: refused once
/// completed; otherwise stamps the completion time.
pub fn complete_milestone(milestone: &Milestone, now: i64) -> (r: Result<
    Milestone,
    UnicornFactoryError,
>)
    ensures
        milestone@.is_completed ==> r is Err && r.unwrap_err()
            == UnicornFactoryError::MilestoneAlreadyCompleted,
        !milestone@.is_completed ==> r is Ok && r.unwrap()@ == (MilestoneView {
            is_completed: true,
            completed_at: now,
            ..milestone@
        }),
{
    if milestone.is_completed {
        return Err(UnicornFactoryError::MilestoneAlreadyCompleted);
    }
    Ok(
        Milestone {
            title: copy_bytes(&milestone.title),
            description: copy_bytes(&milestone.description),
            amount: milestone.amount,
            is_completed: true,
            completed_at: now,
            has_proposal: milestone.has_proposal,
        },
    )
}

/// A field-for-field copy of a proposal record.
fn clone_proposal(p: &Proposal) -> (r: Proposal)
    ensures
        r@ == p@,
{
    Proposal {
        creator: copy_bytes(&p.creator),
        title: copy_bytes(&p.title),
        description: copy_bytes(&p.description),
        milestone_id: p.milestone_id,
        yes_votes: p.yes_votes,
        no_votes: p.no_votes,
        is_executed: p.is_executed,
        created_at: p.created_at,
        voting_end: p.voting_end,
    }
}

} // verus!
