use unicorn_factory::Milestone;
use unicorn_factory::ProgramFailure;
use unicorn_factory::Project;
use unicorn_factory::Proposal;

fn sample_project() -> Project {
    Project {
        authority: vec![7u8; 32],
        name: b"Unicorn".to_vec(),
        symbol: b"UNI".to_vec(),
        funding_goal: 1000,
        total_raised: 100,
        token_price: 11,
        is_active: true,
        bump: 254,
        token_mint: vec![9u8; 32],
        milestone_count: 2,
        proposal_count: 1,
    }
}

#[test]
fn project_pack_len() {
    assert_eq!(sample_project().pack().len(), Project::LEN);
    assert_eq!(Project::LEN, 132);
}

#[test]
fn project_round_trip() {
    let p = sample_project();
    let packed = p.pack();
    let back = Project::unpack(&packed).unwrap();
    assert_eq!(back, p);
}

#[test]
fn project_round_trip_multibyte_name() {
    let mut p = sample_project();
    p.name = "caf\u{e9}\u{1f984}".as_bytes().to_vec();
    let packed = p.pack();
    let back = Project::unpack(&packed).unwrap();
    assert_eq!(back.name, p.name);
}

#[test]
fn project_unpack_truncated_fails() {
    assert_eq!(
        Project::unpack(&vec![0u8; 10]),
        Err(ProgramFailure::InvalidAccountData)
    );
}

#[test]
fn project_unpack_bad_utf8_fails() {
    let mut packed = sample_project().pack();
    packed[32] = 0xff;
    assert_eq!(Project::unpack(&packed), Err(ProgramFailure::InvalidAccountData));
}

#[test]
fn project_unpack_trims_padding() {
    let packed = sample_project().pack();
    let back = Project::unpack(&packed).unwrap();
    assert_eq!(back.name, b"Unicorn".to_vec());
    assert_eq!(back.symbol, b"UNI".to_vec());
}

fn sample_proposal() -> Proposal {
    Proposal {
        creator: vec![3u8; 32],
        title: b"Fund it".to_vec(),
        description: b"Ship the first build".to_vec(),
        milestone_id: 4,
        yes_votes: 12,
        no_votes: 5,
        is_executed: false,
        created_at: 1_700_000_000,
        voting_end: 1_700_000_180,
    }
}

#[test]
fn proposal_round_trip() {
    let p = sample_proposal();
    let packed = p.pack();
    assert_eq!(packed.len(), Proposal::LEN);
    assert_eq!(Proposal::LEN, 354);
    let back = Proposal::unpack(&packed).unwrap();
    assert_eq!(back, p);
}

#[test]
fn proposal_round_trip_negative_times() {
    let mut p = sample_proposal();
    p.created_at = -5;
    p.voting_end = -1;
    let packed = p.pack();
    let back = Proposal::unpack(&packed).unwrap();
    assert_eq!(back.created_at, -5);
    assert_eq!(back.voting_end, -1);
}

#[test]
fn proposal_unpack_truncated_fails() {
    assert_eq!(
        Proposal::unpack(&vec![0u8; Proposal::LEN - 1]),
        Err(ProgramFailure::InvalidAccountData)
    );
}

fn sample_milestone() -> Milestone {
    Milestone {
        title: b"Prototype".to_vec(),
        description: b"A working demo".to_vec(),
        amount: 500,
        is_completed: false,
        completed_at: 0,
        has_proposal: false,
    }
}

#[test]
fn milestone_round_trip() {
    let m = sample_milestone();
    let packed = m.pack();
    assert_eq!(packed.len(), Milestone::LEN);
    assert_eq!(Milestone::LEN, 306);
    let back = Milestone::unpack(&packed).unwrap();
    assert_eq!(back, m);
}

#[test]
fn milestone_unpack_bad_utf8_fails() {
    let mut packed = sample_milestone().pack();
    packed[0] = 0xc0;
    assert_eq!(Milestone::unpack(&packed), Err(ProgramFailure::InvalidAccountData));
}

#[test]
fn milestone_flags_round_trip() {
    let mut m = sample_milestone();
    m.is_completed = true;
    m.completed_at = 42;
    m.has_proposal = true;
    let back = Milestone::unpack(&m.pack()).unwrap();
    assert!(back.is_completed);
    assert!(back.has_proposal);
    assert_eq!(back.completed_at, 42);
}

#[test]
fn project_unpack_multibyte_cut_by_padding_fails() {
    // A name whose last byte opens a two-byte scalar: the padding zero
    // that follows is no continuation byte, so the field is rejected.
    let mut p = sample_project();
    p.name = vec![0x61, 0xc3];
    let packed = p.pack();
    assert_eq!(Project::unpack(&packed), Err(ProgramFailure::InvalidAccountData));
}
