use solana_program::pubkey::Pubkey;
use unicorn_factory::governance::release_apply;
use unicorn_factory::governance::release_check;
use unicorn_factory::ledger::contribute;
use unicorn_factory::ledger::new_project;
use unicorn_factory::ledger::sell_refund;
use unicorn_factory::ledger::sell_settle;
use unicorn_factory::processor::process_create_proposal;
use unicorn_factory::processor::process_release_funds;
use unicorn_factory::processor::AccountView;
use unicorn_factory::Milestone;
use unicorn_factory::ProgramFailure;
use unicorn_factory::Proposal;
use unicorn_factory::UnicornFactoryError;

const PROGRAM_ID: [u8; 32] = [11u8; 32];

fn account(key: Vec<u8>, is_signer: bool, lamports: u64, data: Vec<u8>) -> AccountView {
    AccountView { key, is_signer, lamports, data, owner: vec![0u8; 32] }
}

fn pda(seeds: &[&[u8]]) -> Vec<u8> {
    Pubkey::find_program_address(seeds, &Pubkey::new_from_array(PROGRAM_ID))
        .0
        .to_bytes()
        .to_vec()
}

/// Funding a project to its goal: prices follow the curve and activity
/// ends exactly at the goal.
#[test]
fn scenario_funding_to_goal() {
    let project = new_project(&vec![7u8; 32], b"Uni".to_vec(), b"UN".to_vec(), 1000, 254, &vec![9u8; 32]);
    assert_eq!(project.token_price, 1);
    assert!(project.is_active);

    let (project, _tokens) = contribute(&project, 100).unwrap();
    assert_eq!(project.total_raised, 100);
    assert_eq!(project.token_price, 11);
    assert!(project.is_active);

    let (project, _tokens) = contribute(&project, 900).unwrap();
    assert_eq!(project.total_raised, 1000);
    assert_eq!(project.token_price, 101);
    assert!(!project.is_active);

    assert_eq!(
        contribute(&project, 1),
        Err(UnicornFactoryError::ProjectNotActive)
    );
}

/// Selling never reactivates: an inactive project refuses the sale, and
/// a sale from an active project leaves it active.
#[test]
fn scenario_sell_keeps_activity() {
    let project = new_project(&vec![7u8; 32], b"Uni".to_vec(), b"UN".to_vec(), 1000, 254, &vec![9u8; 32]);
    let (project, _) = contribute(&project, 500).unwrap();
    assert!(project.is_active);
    let refund = sell_refund(2, project.token_price).unwrap();
    let project = sell_settle(&project, refund).unwrap();
    assert!(project.is_active);
    assert_eq!(project.total_raised, 500 - 2 * 51);

    let (funded, _) = contribute(&project, 2000).unwrap();
    assert!(!funded.is_active);
    assert_eq!(
        unicorn_factory::ledger::sell_refund(u64::MAX, 2),
        Err(UnicornFactoryError::Overflow)
    );
}

fn proposal_record(yes: u64, no: u64, voting_end: i64, executed: bool) -> Proposal {
    Proposal {
        creator: vec![7u8; 32],
        title: b"Fund".to_vec(),
        description: b"It".to_vec(),
        milestone_id: 0,
        yes_votes: yes,
        no_votes: no,
        is_executed: executed,
        created_at: voting_end - 180,
        voting_end,
    }
}

fn milestone_record(amount: u64, has_proposal: bool) -> Milestone {
    Milestone {
        title: b"Demo".to_vec(),
        description: b"Work".to_vec(),
        amount,
        is_completed: false,
        completed_at: 0,
        has_proposal,
    }
}

/// A milestone accepts exactly one proposal, ever.
#[test]
fn scenario_milestone_single_proposal() {
    let authority = vec![7u8; 32];
    let project = new_project(&authority, b"Uni".to_vec(), b"UN".to_vec(), 1000, 254, &vec![9u8; 32]);
    let project_key = vec![2u8; 32];
    let milestone_key = pda(&[b"milestone", &project_key, &[0]]);
    let proposal_key_0 = pda(&[b"proposal", &project_key, &[0]]);

    let accounts = vec![
        account(project_key.clone(), false, 0, project.pack()),
        account(proposal_key_0, false, 0, vec![0u8; Proposal::LEN]),
        account(authority.clone(), true, 0, vec![]),
        account(milestone_key.clone(), false, 0, milestone_record(500, false).pack()),
        account(vec![0u8; 32], false, 0, vec![]),
    ];
    let outcome = process_create_proposal(
        &PROGRAM_ID.to_vec(),
        &accounts,
        b"Fund".to_vec(),
        b"It".to_vec(),
        0,
        1_000,
    )
    .unwrap();
    assert!(outcome.milestone.has_proposal);
    assert_eq!(outcome.project.proposal_count, 1);
    assert_eq!(outcome.proposal.yes_votes, 0);
    assert_eq!(outcome.proposal.no_votes, 0);
    assert_eq!(outcome.proposal.created_at, 1_000);
    assert_eq!(outcome.proposal.voting_end, 1_180);

    // The first proposal was never executed, yet a second one on the
    // same milestone is refused.
    let proposal_key_1 = pda(&[b"proposal", &project_key, &[1]]);
    let accounts = vec![
        account(project_key, false, 0, outcome.project.pack()),
        account(proposal_key_1, false, 0, vec![0u8; Proposal::LEN]),
        account(authority, true, 0, vec![]),
        account(milestone_key, false, 0, outcome.milestone.pack()),
        account(vec![0u8; 32], false, 0, vec![]),
    ];
    assert_eq!(
        process_create_proposal(
            &PROGRAM_ID.to_vec(),
            &accounts,
            b"Again".to_vec(),
            b"More".to_vec(),
            0,
            2_000,
        ),
        Err(ProgramFailure::Custom(UnicornFactoryError::MilestoneAlreadyHasProposal))
    );
}

/// A passed vote releases the milestone's payout once, and only once.
#[test]
fn scenario_release_passed_vote() {
    let authority = vec![7u8; 32];
    let project = new_project(&authority, b"Uni".to_vec(), b"UN".to_vec(), 1000, 254, &vec![9u8; 32]);
    let project_key = vec![2u8; 32];
    let proposal_key = pda(&[b"proposal", &project_key, &[0]]);
    let milestone_key = pda(&[b"milestone", &project_key, &[0]]);
    let proposal = proposal_record(2, 1, 1_180, false);
    let milestone = milestone_record(500, true);

    let mut accounts = vec![
        account(project_key.clone(), false, 1_000, project.pack()),
        account(proposal_key, false, 0, proposal.pack()),
        account(authority, true, 0, vec![]),
        account(milestone_key, false, 0, milestone.pack()),
        account(vec![0u8; 32], false, 0, vec![]),
    ];
    let outcome = process_release_funds(&PROGRAM_ID.to_vec(), &accounts, 0, 1_181).unwrap();
    assert_eq!(outcome.amount, 500);
    assert!(outcome.proposal.is_executed);
    assert!(outcome.milestone.is_completed);

    accounts[1].data = outcome.proposal.pack();
    accounts[3].data = outcome.milestone.pack();
    assert_eq!(
        process_release_funds(&PROGRAM_ID.to_vec(), &accounts, 0, 1_182),
        Err(ProgramFailure::Custom(UnicornFactoryError::ProposalAlreadyExecuted))
    );
}

/// A tied vote never releases, and no tally releases before the window
/// closes.
#[test]
fn scenario_release_refused() {
    let tied = proposal_record(1, 1, 1_180, false);
    assert_eq!(
        release_check(&tied, 1_181),
        Err(UnicornFactoryError::ProposalDidNotPass)
    );

    let passing = proposal_record(99, 0, 1_180, false);
    assert_eq!(
        release_check(&passing, 1_180),
        Err(UnicornFactoryError::VotingPeriodNotEnded)
    );
    assert_eq!(
        release_check(&passing, 100),
        Err(UnicornFactoryError::VotingPeriodNotEnded)
    );
    assert!(release_check(&passing, 1_181).is_ok());
}

/// Releasing marks both records; the completion stamp is left to the
/// direct completion path.
#[test]
fn release_apply_marks_records() {
    let proposal = proposal_record(2, 1, 1_180, false);
    let milestone = milestone_record(500, true);
    let (p, m) = release_apply(&proposal, &milestone);
    assert!(p.is_executed);
    assert!(m.is_completed);
    assert_eq!(m.completed_at, 0);
    assert_eq!(p.yes_votes, 2);
    assert_eq!(m.amount, 500);
}

/// Treasury short of the payout refuses the release.
#[test]
fn scenario_release_treasury_short() {
    let authority = vec![7u8; 32];
    let project = new_project(&authority, b"Uni".to_vec(), b"UN".to_vec(), 1000, 254, &vec![9u8; 32]);
    let project_key = vec![2u8; 32];
    let proposal_key = pda(&[b"proposal", &project_key, &[0]]);
    let milestone_key = pda(&[b"milestone", &project_key, &[0]]);
    let accounts = vec![
        account(project_key, false, 499, project.pack()),
        account(proposal_key, false, 0, proposal_record(2, 1, 1_180, false).pack()),
        account(authority, true, 0, vec![]),
        account(milestone_key, false, 0, milestone_record(500, true).pack()),
        account(vec![0u8; 32], false, 0, vec![]),
    ];
    assert_eq!(
        process_release_funds(&PROGRAM_ID.to_vec(), &accounts, 0, 1_181),
        Err(ProgramFailure::Custom(UnicornFactoryError::InvalidAmount))
    );
}

#[test]
fn error_codes_follow_declaration_order() {
    assert_eq!(UnicornFactoryError::ProjectNotActive.code(), 0);
    assert_eq!(UnicornFactoryError::Overflow.code(), 2);
    assert_eq!(UnicornFactoryError::InvalidAuthority.code(), 5);
    assert_eq!(UnicornFactoryError::MilestoneAlreadyHasProposal.code(), 14);
}

#[test]
fn vote_tally_overflow_refused() {
    let mut proposal = proposal_record(0, 0, 1_180, false);
    proposal.yes_votes = u64::MAX;
    assert_eq!(
        unicorn_factory::governance::vote(&proposal, true, 100),
        Err(UnicornFactoryError::Overflow)
    );
    let voted = unicorn_factory::governance::vote(&proposal, false, 100).unwrap();
    assert_eq!(voted.no_votes, 1);
}

#[test]
fn executed_proposal_refuses_votes() {
    let proposal = proposal_record(2, 1, 1_180, true);
    assert_eq!(
        unicorn_factory::governance::vote(&proposal, true, 100),
        Err(UnicornFactoryError::ProposalAlreadyExecuted)
    );
}
