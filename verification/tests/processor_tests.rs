use solana_program::pubkey::Pubkey;
use unicorn_factory::processor::process_add_milestone;
use unicorn_factory::processor::process_buy_tokens;
use unicorn_factory::processor::process_complete_milestone;
use unicorn_factory::processor::process_contribute;
use unicorn_factory::processor::process_create_proposal;
use unicorn_factory::processor::process_initialize_project;
use unicorn_factory::processor::process_instruction;
use unicorn_factory::processor::process_release_funds;
use unicorn_factory::processor::process_sell_tokens;
use unicorn_factory::processor::process_vote;
use unicorn_factory::processor::AccountView;
use unicorn_factory::processor::InstructionOutcome;
use unicorn_factory::Milestone;
use unicorn_factory::ProgramFailure;
use unicorn_factory::Project;
use unicorn_factory::Proposal;
use unicorn_factory::UnicornFactoryError;

const PROGRAM_ID: [u8; 32] = [11u8; 32];

fn program_id_vec() -> Vec<u8> {
    PROGRAM_ID.to_vec()
}

fn account(key: Vec<u8>, is_signer: bool, lamports: u64, data: Vec<u8>) -> AccountView {
    AccountView { key, is_signer, lamports, data, owner: vec![0u8; 32] }
}

fn system_id() -> Vec<u8> {
    vec![0u8; 32]
}

fn token_program_id() -> Vec<u8> {
    spl_token::id().to_bytes().to_vec()
}

fn project_pda(authority: &[u8]) -> (Vec<u8>, u8) {
    let (key, bump) =
        Pubkey::find_program_address(&[b"project", authority], &Pubkey::new_from_array(PROGRAM_ID));
    (key.to_bytes().to_vec(), bump)
}

fn milestone_pda(project_key: &[u8], index: u8) -> (Vec<u8>, u8) {
    let (key, bump) = Pubkey::find_program_address(
        &[b"milestone", project_key, &[index]],
        &Pubkey::new_from_array(PROGRAM_ID),
    );
    (key.to_bytes().to_vec(), bump)
}

fn proposal_pda(project_key: &[u8], index: u8) -> (Vec<u8>, u8) {
    let (key, bump) = Pubkey::find_program_address(
        &[b"proposal", project_key, &[index]],
        &Pubkey::new_from_array(PROGRAM_ID),
    );
    (key.to_bytes().to_vec(), bump)
}

fn sample_project(authority: Vec<u8>, token_mint: Vec<u8>) -> Project {
    Project {
        authority,
        name: b"Unicorn".to_vec(),
        symbol: b"UNI".to_vec(),
        funding_goal: 1000,
        total_raised: 100,
        token_price: 11,
        is_active: true,
        bump: 254,
        token_mint,
        milestone_count: 0,
        proposal_count: 0,
    }
}

#[test]
fn initialize_project_happy_path() {
    let authority = vec![7u8; 32];
    let (project_key, bump) = project_pda(&authority);
    let mint = vec![9u8; 32];
    let accounts = vec![
        account(project_key, false, 0, vec![0u8; Project::LEN]),
        account(authority.clone(), true, 0, vec![]),
        account(system_id(), false, 0, vec![]),
        account(token_program_id(), false, 0, vec![]),
        account(mint.clone(), false, 0, vec![]),
    ];
    let outcome =
        process_initialize_project(&program_id_vec(), &accounts, b"Uni".to_vec(), b"UN".to_vec(), 1000)
            .unwrap();
    assert_eq!(outcome.bump, bump);
    assert_eq!(outcome.project.authority, authority);
    assert_eq!(outcome.project.name, b"Uni".to_vec());
    assert_eq!(outcome.project.funding_goal, 1000);
    assert_eq!(outcome.project.total_raised, 0);
    assert_eq!(outcome.project.token_price, 1);
    assert!(outcome.project.is_active);
    assert_eq!(outcome.project.bump, bump);
    assert_eq!(outcome.project.token_mint, mint);
}

#[test]
fn initialize_project_wrong_pda_fails() {
    let authority = vec![7u8; 32];
    let accounts = vec![
        account(vec![1u8; 32], false, 0, vec![0u8; Project::LEN]),
        account(authority, true, 0, vec![]),
        account(system_id(), false, 0, vec![]),
        account(token_program_id(), false, 0, vec![]),
        account(vec![9u8; 32], false, 0, vec![]),
    ];
    assert_eq!(
        process_initialize_project(&program_id_vec(), &accounts, vec![], vec![], 1000),
        Err(ProgramFailure::Custom(UnicornFactoryError::InvalidProjectAccount))
    );
}

#[test]
fn initialize_project_already_initialized_fails() {
    let authority = vec![7u8; 32];
    let (project_key, _) = project_pda(&authority);
    let mut data = vec![0u8; Project::LEN];
    data[5] = 1;
    let accounts = vec![
        account(project_key, false, 0, data),
        account(authority, true, 0, vec![]),
        account(system_id(), false, 0, vec![]),
        account(token_program_id(), false, 0, vec![]),
        account(vec![9u8; 32], false, 0, vec![]),
    ];
    assert_eq!(
        process_initialize_project(&program_id_vec(), &accounts, vec![], vec![], 1000),
        Err(ProgramFailure::Custom(UnicornFactoryError::InvalidProjectAccount))
    );
}

#[test]
fn initialize_project_requires_signature() {
    let authority = vec![7u8; 32];
    let (project_key, _) = project_pda(&authority);
    let accounts = vec![
        account(project_key, false, 0, vec![]),
        account(authority, false, 0, vec![]),
        account(system_id(), false, 0, vec![]),
        account(token_program_id(), false, 0, vec![]),
        account(vec![9u8; 32], false, 0, vec![]),
    ];
    assert_eq!(
        process_initialize_project(&program_id_vec(), &accounts, vec![], vec![], 1000),
        Err(ProgramFailure::MissingRequiredSignature)
    );
}

#[test]
fn initialize_project_wrong_token_program_fails() {
    let authority = vec![7u8; 32];
    let (project_key, _) = project_pda(&authority);
    let accounts = vec![
        account(project_key, false, 0, vec![]),
        account(authority, true, 0, vec![]),
        account(system_id(), false, 0, vec![]),
        account(vec![5u8; 32], false, 0, vec![]),
        account(vec![9u8; 32], false, 0, vec![]),
    ];
    assert_eq!(
        process_initialize_project(&program_id_vec(), &accounts, vec![], vec![], 1000),
        Err(ProgramFailure::IncorrectProgramId)
    );
}

fn funding_accounts(project: &Project) -> Vec<AccountView> {
    vec![
        account(vec![2u8; 32], false, 5000, project.pack()),
        account(vec![3u8; 32], true, 0, vec![]),
        account(vec![4u8; 32], false, 0, vec![]),
        account(project.token_mint.clone(), false, 0, vec![]),
        account(token_program_id(), false, 0, vec![]),
        account(system_id(), false, 0, vec![]),
    ]
}

#[test]
fn contribute_happy_path() {
    let project = sample_project(vec![7u8; 32], vec![9u8; 32]);
    let accounts = funding_accounts(&project);
    let outcome = process_contribute(&accounts, 110).unwrap();
    assert_eq!(outcome.tokens_to_mint, 10);
    assert_eq!(outcome.project.total_raised, 210);
    assert_eq!(outcome.project.token_price, 22);
    assert!(outcome.project.is_active);
}

#[test]
fn contribute_not_enough_accounts() {
    assert_eq!(
        process_contribute(&vec![], 10),
        Err(ProgramFailure::NotEnoughAccountKeys)
    );
}

#[test]
fn contribute_inactive_project_fails() {
    let mut project = sample_project(vec![7u8; 32], vec![9u8; 32]);
    project.is_active = false;
    let accounts = funding_accounts(&project);
    assert_eq!(
        process_contribute(&accounts, 10),
        Err(ProgramFailure::Custom(UnicornFactoryError::ProjectNotActive))
    );
}

#[test]
fn contribute_goal_reached_fails() {
    let mut project = sample_project(vec![7u8; 32], vec![9u8; 32]);
    project.total_raised = 1000;
    let accounts = funding_accounts(&project);
    assert_eq!(
        process_contribute(&accounts, 10),
        Err(ProgramFailure::Custom(UnicornFactoryError::FundingGoalReached))
    );
}

#[test]
fn contribute_overflow_fails() {
    let mut project = sample_project(vec![7u8; 32], vec![9u8; 32]);
    project.total_raised = u64::MAX - 5;
    project.funding_goal = u64::MAX;
    let accounts = funding_accounts(&project);
    assert_eq!(
        process_contribute(&accounts, 10),
        Err(ProgramFailure::Custom(UnicornFactoryError::Overflow))
    );
}

#[test]
fn contribute_garbage_project_data_fails() {
    let project = sample_project(vec![7u8; 32], vec![9u8; 32]);
    let mut accounts = funding_accounts(&project);
    accounts[0].data = vec![1u8; 12];
    assert_eq!(
        process_contribute(&accounts, 10),
        Err(ProgramFailure::InvalidAccountData)
    );
}

#[test]
fn buy_tokens_ignores_goal_check() {
    let mut project = sample_project(vec![7u8; 32], vec![9u8; 32]);
    project.total_raised = 1000;
    project.funding_goal = 1000;
    let accounts = funding_accounts(&project);
    let outcome = process_buy_tokens(&accounts, 110).unwrap();
    assert_eq!(outcome.project.total_raised, 1110);
    assert!(!outcome.project.is_active);
}

#[test]
fn buy_tokens_requires_signer() {
    let project = sample_project(vec![7u8; 32], vec![9u8; 32]);
    let mut accounts = funding_accounts(&project);
    accounts[1].is_signer = false;
    assert_eq!(
        process_buy_tokens(&accounts, 10),
        Err(ProgramFailure::MissingRequiredSignature)
    );
}

fn token_account_bytes(mint: &[u8], owner: &[u8], amount: u64, state: u8) -> Vec<u8> {
    let mut d = vec![0u8; 165];
    d[0..32].copy_from_slice(mint);
    d[32..64].copy_from_slice(owner);
    d[64..72].copy_from_slice(&amount.to_le_bytes());
    d[108] = state;
    d
}

fn sell_accounts(project: &Project, seller_token_data: Vec<u8>) -> Vec<AccountView> {
    let seller = vec![3u8; 32];
    let mut seller_token = account(vec![6u8; 32], false, 0, seller_token_data);
    seller_token.owner = token_program_id();
    vec![
        account(vec![2u8; 32], false, 5000, project.pack()),
        account(seller, true, 0, vec![]),
        seller_token,
        account(project.token_mint.clone(), false, 0, vec![]),
        account(token_program_id(), false, 0, vec![]),
        account(system_id(), false, 0, vec![]),
    ]
}

#[test]
fn sell_tokens_happy_path() {
    let project = sample_project(vec![7u8; 32], vec![9u8; 32]);
    let data = token_account_bytes(&project.token_mint, &[3u8; 32], 50, 1);
    let accounts = sell_accounts(&project, data);
    let outcome = process_sell_tokens(&accounts, 5).unwrap();
    assert_eq!(outcome.refund, 55);
    assert_eq!(outcome.project.total_raised, 45);
    assert_eq!(outcome.project.token_price, 5);
    assert!(outcome.project.is_active);
}

#[test]
fn sell_tokens_insufficient_balance_fails() {
    let project = sample_project(vec![7u8; 32], vec![9u8; 32]);
    let data = token_account_bytes(&project.token_mint, &[3u8; 32], 3, 1);
    let accounts = sell_accounts(&project, data);
    assert_eq!(
        process_sell_tokens(&accounts, 5),
        Err(ProgramFailure::Custom(UnicornFactoryError::InvalidAmount))
    );
}

#[test]
fn sell_tokens_uninitialized_token_account_fails() {
    let project = sample_project(vec![7u8; 32], vec![9u8; 32]);
    let data = token_account_bytes(&project.token_mint, &[3u8; 32], 50, 0);
    let accounts = sell_accounts(&project, data);
    assert_eq!(
        process_sell_tokens(&accounts, 5),
        Err(ProgramFailure::UninitializedAccount)
    );
}

#[test]
fn sell_tokens_empty_token_account_fails() {
    let project = sample_project(vec![7u8; 32], vec![9u8; 32]);
    let accounts = sell_accounts(&project, vec![]);
    assert_eq!(
        process_sell_tokens(&accounts, 5),
        Err(ProgramFailure::UninitializedAccount)
    );
}

#[test]
fn sell_tokens_wrong_owner_field_fails() {
    let project = sample_project(vec![7u8; 32], vec![9u8; 32]);
    let data = token_account_bytes(&project.token_mint, &[8u8; 32], 50, 1);
    let accounts = sell_accounts(&project, data);
    assert_eq!(
        process_sell_tokens(&accounts, 5),
        Err(ProgramFailure::Custom(UnicornFactoryError::InvalidAmount))
    );
}

#[test]
fn sell_tokens_wrong_credit_mint_field_fails() {
    let project = sample_project(vec![7u8; 32], vec![9u8; 32]);
    let data = token_account_bytes(&[5u8; 32], &[3u8; 32], 50, 1);
    let accounts = sell_accounts(&project, data);
    assert_eq!(
        process_sell_tokens(&accounts, 5),
        Err(ProgramFailure::Custom(UnicornFactoryError::InvalidAmount))
    );
}

#[test]
fn sell_tokens_treasury_too_small_fails() {
    let project = sample_project(vec![7u8; 32], vec![9u8; 32]);
    let data = token_account_bytes(&project.token_mint, &[3u8; 32], u64::MAX, 1);
    let mut accounts = sell_accounts(&project, data);
    accounts[0].lamports = 10;
    assert_eq!(
        process_sell_tokens(&accounts, 5),
        Err(ProgramFailure::Custom(UnicornFactoryError::InvalidAmount))
    );
}

#[test]
fn sell_tokens_inactive_project_fails() {
    let mut project = sample_project(vec![7u8; 32], vec![9u8; 32]);
    project.is_active = false;
    let data = token_account_bytes(&project.token_mint, &[3u8; 32], 50, 1);
    let accounts = sell_accounts(&project, data);
    assert_eq!(
        process_sell_tokens(&accounts, 5),
        Err(ProgramFailure::Custom(UnicornFactoryError::ProjectNotActive))
    );
}

#[test]
fn add_milestone_happy_path() {
    let authority = vec![7u8; 32];
    let project = sample_project(authority.clone(), vec![9u8; 32]);
    let project_key = vec![2u8; 32];
    let (milestone_key, bump) = milestone_pda(&project_key, 0);
    let accounts = vec![
        account(project_key, false, 0, project.pack()),
        account(milestone_key, false, 0, vec![0u8; Milestone::LEN]),
        account(authority, true, 0, vec![]),
        account(system_id(), false, 0, vec![]),
    ];
    let outcome = process_add_milestone(
        &program_id_vec(),
        &accounts,
        b"Demo".to_vec(),
        b"Work".to_vec(),
        500,
    )
    .unwrap();
    assert_eq!(outcome.milestone_bump, bump);
    assert_eq!(outcome.milestone.amount, 500);
    assert!(!outcome.milestone.is_completed);
    assert!(!outcome.milestone.has_proposal);
    assert_eq!(outcome.project.milestone_count, 1);
}

#[test]
fn add_milestone_wrong_authority_fails() {
    let project = sample_project(vec![7u8; 32], vec![9u8; 32]);
    let project_key = vec![2u8; 32];
    let (milestone_key, _) = milestone_pda(&project_key, 0);
    let accounts = vec![
        account(project_key, false, 0, project.pack()),
        account(milestone_key, false, 0, vec![]),
        account(vec![8u8; 32], true, 0, vec![]),
        account(system_id(), false, 0, vec![]),
    ];
    assert_eq!(
        process_add_milestone(&program_id_vec(), &accounts, vec![], vec![], 500),
        Err(ProgramFailure::Custom(UnicornFactoryError::InvalidAuthority))
    );
}

#[test]
fn complete_milestone_happy_then_repeat_fails() {
    let authority = vec![7u8; 32];
    let project = sample_project(authority.clone(), vec![9u8; 32]);
    let project_key = vec![2u8; 32];
    let (milestone_key, _) = milestone_pda(&project_key, 3);
    let milestone = Milestone {
        title: b"Demo".to_vec(),
        description: b"Work".to_vec(),
        amount: 500,
        is_completed: false,
        completed_at: 0,
        has_proposal: false,
    };
    let mut accounts = vec![
        account(project_key, false, 0, project.pack()),
        account(milestone_key, false, 0, milestone.pack()),
        account(authority, true, 0, vec![]),
        account(system_id(), false, 0, vec![]),
    ];
    let outcome =
        process_complete_milestone(&program_id_vec(), &accounts, 3, 12345).unwrap();
    assert!(outcome.milestone.is_completed);
    assert_eq!(outcome.milestone.completed_at, 12345);
    accounts[1].data = outcome.milestone.pack();
    assert_eq!(
        process_complete_milestone(&program_id_vec(), &accounts, 3, 12346),
        Err(ProgramFailure::Custom(UnicornFactoryError::MilestoneAlreadyCompleted))
    );
}

#[test]
fn vote_happy_path() {
    let project = sample_project(vec![7u8; 32], vec![9u8; 32]);
    let project_key = vec![2u8; 32];
    let (proposal_key, _) = proposal_pda(&project_key, 0);
    let proposal = Proposal {
        creator: vec![7u8; 32],
        title: b"Fund".to_vec(),
        description: b"It".to_vec(),
        milestone_id: 0,
        yes_votes: 0,
        no_votes: 0,
        is_executed: false,
        created_at: 100,
        voting_end: 280,
    };
    let accounts = vec![
        account(project_key, false, 0, project.pack()),
        account(proposal_key, false, 0, proposal.pack()),
        account(vec![5u8; 32], true, 0, vec![]),
        account(system_id(), false, 0, vec![]),
    ];
    let outcome = process_vote(&program_id_vec(), &accounts, 0, true, 150).unwrap();
    assert_eq!(outcome.proposal.yes_votes, 1);
    assert_eq!(outcome.proposal.no_votes, 0);
    let outcome = process_vote(&program_id_vec(), &accounts, 0, false, 150).unwrap();
    assert_eq!(outcome.proposal.no_votes, 1);
}

#[test]
fn vote_after_window_fails() {
    let project = sample_project(vec![7u8; 32], vec![9u8; 32]);
    let project_key = vec![2u8; 32];
    let (proposal_key, _) = proposal_pda(&project_key, 0);
    let proposal = Proposal {
        creator: vec![7u8; 32],
        title: vec![],
        description: vec![],
        milestone_id: 0,
        yes_votes: 0,
        no_votes: 0,
        is_executed: false,
        created_at: 100,
        voting_end: 280,
    };
    let accounts = vec![
        account(project_key, false, 0, project.pack()),
        account(proposal_key, false, 0, proposal.pack()),
        account(vec![5u8; 32], true, 0, vec![]),
        account(system_id(), false, 0, vec![]),
    ];
    assert_eq!(
        process_vote(&program_id_vec(), &accounts, 0, true, 281),
        Err(ProgramFailure::Custom(UnicornFactoryError::VotingPeriodEnded))
    );
}

#[test]
fn vote_wrong_pda_fails() {
    let project = sample_project(vec![7u8; 32], vec![9u8; 32]);
    let accounts = vec![
        account(vec![2u8; 32], false, 0, project.pack()),
        account(vec![1u8; 32], false, 0, vec![]),
        account(vec![5u8; 32], true, 0, vec![]),
        account(system_id(), false, 0, vec![]),
    ];
    assert_eq!(
        process_vote(&program_id_vec(), &accounts, 0, true, 150),
        Err(ProgramFailure::IncorrectProgramId)
    );
}

#[test]
fn process_instruction_dispatches_contribute() {
    let project = sample_project(vec![7u8; 32], vec![9u8; 32]);
    let accounts = funding_accounts(&project);
    let mut data = vec![1u8];
    data.extend_from_slice(&110u64.to_le_bytes());
    match process_instruction(&program_id_vec(), &accounts, &data, 0).unwrap() {
        InstructionOutcome::Contributed(o) => {
            assert_eq!(o.tokens_to_mint, 10);
            assert_eq!(o.project.total_raised, 210);
        }
        other => panic!("wrong outcome: {:?}", other),
    }
}

#[test]
fn process_instruction_rejects_garbage() {
    let accounts = vec![];
    assert_eq!(
        process_instruction(&program_id_vec(), &accounts, &vec![99u8], 0),
        Err(ProgramFailure::InvalidInstructionData)
    );
}

#[test]
fn vote_at_window_boundary_is_accepted() {
    let project = sample_project(vec![7u8; 32], vec![9u8; 32]);
    let project_key = vec![2u8; 32];
    let (proposal_key, _) = proposal_pda(&project_key, 0);
    let proposal = Proposal {
        creator: vec![7u8; 32],
        title: vec![],
        description: vec![],
        milestone_id: 0,
        yes_votes: 0,
        no_votes: 0,
        is_executed: false,
        created_at: 100,
        voting_end: 280,
    };
    let accounts = vec![
        account(project_key, false, 0, project.pack()),
        account(proposal_key, false, 0, proposal.pack()),
        account(vec![5u8; 32], true, 0, vec![]),
        account(system_id(), false, 0, vec![]),
    ];
    let outcome = process_vote(&program_id_vec(), &accounts, 0, true, 280).unwrap();
    assert_eq!(outcome.proposal.yes_votes, 1);
}

#[test]
fn vote_wrong_system_program_fails() {
    let project = sample_project(vec![7u8; 32], vec![9u8; 32]);
    let project_key = vec![2u8; 32];
    let (proposal_key, _) = proposal_pda(&project_key, 0);
    let accounts = vec![
        account(project_key, false, 0, project.pack()),
        account(proposal_key, false, 0, vec![]),
        account(vec![5u8; 32], true, 0, vec![]),
        account(vec![1u8; 32], false, 0, vec![]),
    ];
    assert_eq!(
        process_vote(&program_id_vec(), &accounts, 0, true, 150),
        Err(ProgramFailure::IncorrectProgramId)
    );
}

#[test]
fn sell_tokens_wrong_mint_fails() {
    let project = sample_project(vec![7u8; 32], vec![9u8; 32]);
    let data = token_account_bytes(&project.token_mint, &[3u8; 32], 50, 1);
    let mut accounts = sell_accounts(&project, data);
    accounts[3].key = vec![8u8; 32];
    assert_eq!(
        process_sell_tokens(&accounts, 5),
        Err(ProgramFailure::InvalidAccountData)
    );
}

#[test]
fn sell_tokens_refund_overflow_fails() {
    let mut project = sample_project(vec![7u8; 32], vec![9u8; 32]);
    project.token_price = u64::MAX;
    let data = token_account_bytes(&project.token_mint, &[3u8; 32], u64::MAX, 1);
    let accounts = sell_accounts(&project, data);
    assert_eq!(
        process_sell_tokens(&accounts, 2),
        Err(ProgramFailure::Custom(UnicornFactoryError::Overflow))
    );
}

#[test]
fn create_proposal_on_initialized_account_fails() {
    let authority = vec![7u8; 32];
    let project = sample_project(authority.clone(), vec![9u8; 32]);
    let project_key = vec![2u8; 32];
    let (milestone_key, _) = milestone_pda(&project_key, 0);
    let (proposal_key, _) = proposal_pda(&project_key, 0);
    let milestone = Milestone {
        title: b"Demo".to_vec(),
        description: b"Work".to_vec(),
        amount: 500,
        is_completed: false,
        completed_at: 0,
        has_proposal: false,
    };
    let mut proposal_data = vec![0u8; Proposal::LEN];
    proposal_data[0] = 1;
    let accounts = vec![
        account(project_key, false, 0, project.pack()),
        account(proposal_key, false, 0, proposal_data),
        account(authority, true, 0, vec![]),
        account(milestone_key, false, 0, milestone.pack()),
        account(system_id(), false, 0, vec![]),
    ];
    assert_eq!(
        process_create_proposal(
            &program_id_vec(),
            &accounts,
            b"Fund".to_vec(),
            b"It".to_vec(),
            0,
            1_000,
        ),
        Err(ProgramFailure::AccountAlreadyInitialized)
    );
}

#[test]
fn create_proposal_wrong_authority_fails() {
    let project = sample_project(vec![7u8; 32], vec![9u8; 32]);
    let project_key = vec![2u8; 32];
    let (milestone_key, _) = milestone_pda(&project_key, 0);
    let (proposal_key, _) = proposal_pda(&project_key, 0);
    let accounts = vec![
        account(project_key, false, 0, project.pack()),
        account(proposal_key, false, 0, vec![]),
        account(vec![7u8; 32], false, 0, vec![]),
        account(milestone_key, false, 0, vec![]),
        account(system_id(), false, 0, vec![]),
    ];
    assert_eq!(
        process_create_proposal(
            &program_id_vec(),
            &accounts,
            b"Fund".to_vec(),
            b"It".to_vec(),
            0,
            1_000,
        ),
        Err(ProgramFailure::Custom(UnicornFactoryError::InvalidAuthority))
    );
}

#[test]
fn process_instruction_dispatches_initialize() {
    let authority = vec![7u8; 32];
    let (project_key, bump) = project_pda(&authority);
    let accounts = vec![
        account(project_key, false, 0, vec![0u8; Project::LEN]),
        account(authority, true, 0, vec![]),
        account(system_id(), false, 0, vec![]),
        account(token_program_id(), false, 0, vec![]),
        account(vec![9u8; 32], false, 0, vec![]),
    ];
    let mut data = vec![0u8];
    data.extend_from_slice(&3u32.to_le_bytes());
    data.extend_from_slice(&2u32.to_le_bytes());
    data.extend_from_slice(b"Uni");
    data.extend_from_slice(b"UN");
    data.extend_from_slice(&1000u64.to_le_bytes());
    match process_instruction(&program_id_vec(), &accounts, &data, 0).unwrap() {
        InstructionOutcome::ProjectInitialized(o) => {
            assert_eq!(o.bump, bump);
            assert_eq!(o.project.name, b"Uni".to_vec());
        }
        other => panic!("wrong outcome: {:?}", other),
    }
}

#[test]
fn process_instruction_dispatches_sell() {
    let project = sample_project(vec![7u8; 32], vec![9u8; 32]);
    let data = token_account_bytes(&project.token_mint, &[3u8; 32], 50, 1);
    let accounts = sell_accounts(&project, data);
    let mut ix = vec![3u8];
    ix.extend_from_slice(&5u64.to_le_bytes());
    match process_instruction(&program_id_vec(), &accounts, &ix, 0).unwrap() {
        InstructionOutcome::TokensSold(o) => {
            assert_eq!(o.refund, 55);
            assert_eq!(o.tokens_to_burn, 5);
        }
        other => panic!("wrong outcome: {:?}", other),
    }
}

#[test]
fn contribute_beyond_scalable_total_fails() {
    let mut project = sample_project(vec![7u8; 32], vec![9u8; 32]);
    project.total_raised = u64::MAX / 100;
    project.funding_goal = u64::MAX;
    let accounts = funding_accounts(&project);
    assert_eq!(
        process_contribute(&accounts, 1),
        Err(ProgramFailure::Custom(UnicornFactoryError::Overflow))
    );
}

#[test]
fn buy_with_zero_goal_keeps_guarded_price() {
    let mut project = sample_project(vec![7u8; 32], vec![9u8; 32]);
    project.funding_goal = 0;
    project.total_raised = u64::MAX - 5;
    project.token_price = 1;
    let accounts = funding_accounts(&project);
    let outcome = process_buy_tokens(&accounts, 1).unwrap();
    assert_eq!(outcome.project.total_raised, u64::MAX - 4);
    assert_eq!(outcome.project.token_price, 1);
    assert!(!outcome.project.is_active);
}

#[test]
fn sell_tokens_unscalable_total_fails() {
    let mut project = sample_project(vec![7u8; 32], vec![9u8; 32]);
    project.total_raised = u64::MAX;
    let data = token_account_bytes(&project.token_mint, &[3u8; 32], 50, 1);
    let accounts = sell_accounts(&project, data);
    assert_eq!(
        process_sell_tokens(&accounts, 5),
        Err(ProgramFailure::Custom(UnicornFactoryError::Overflow))
    );
}
