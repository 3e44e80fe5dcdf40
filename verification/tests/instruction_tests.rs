use unicorn_factory::ProgramFailure;
use unicorn_factory::UnicornFactoryInstruction;

fn unpack(bytes: Vec<u8>) -> Result<UnicornFactoryInstruction, ProgramFailure> {
    UnicornFactoryInstruction::unpack(&bytes)
}

#[test]
fn unpack_empty_fails() {
    assert_eq!(unpack(vec![]), Err(ProgramFailure::InvalidInstructionData));
}

#[test]
fn unpack_unknown_tag_fails() {
    assert_eq!(unpack(vec![9, 0, 0]), Err(ProgramFailure::InvalidInstructionData));
}

#[test]
fn unpack_initialize_project() {
    let mut data = vec![0u8];
    data.extend_from_slice(&3u32.to_le_bytes());
    data.extend_from_slice(&2u32.to_le_bytes());
    data.extend_from_slice(b"Uni");
    data.extend_from_slice(b"UN");
    data.extend_from_slice(&1000u64.to_le_bytes());
    match unpack(data).unwrap() {
        UnicornFactoryInstruction::InitializeProject { name, symbol, funding_goal } => {
            assert_eq!(name, b"Uni".to_vec());
            assert_eq!(symbol, b"UN".to_vec());
            assert_eq!(funding_goal, 1000);
        }
        other => panic!("wrong variant: {:?}", other),
    }
}

#[test]
fn unpack_initialize_truncated_fails() {
    let mut data = vec![0u8];
    data.extend_from_slice(&3u32.to_le_bytes());
    data.extend_from_slice(&2u32.to_le_bytes());
    data.extend_from_slice(b"Uni");
    assert_eq!(unpack(data), Err(ProgramFailure::InvalidInstructionData));
}

#[test]
fn unpack_initialize_bad_utf8_fails() {
    let mut data = vec![0u8];
    data.extend_from_slice(&1u32.to_le_bytes());
    data.extend_from_slice(&0u32.to_le_bytes());
    data.push(0xff);
    data.extend_from_slice(&1000u64.to_le_bytes());
    assert_eq!(unpack(data), Err(ProgramFailure::InvalidInstructionData));
}

#[test]
fn unpack_contribute() {
    let mut data = vec![1u8];
    data.extend_from_slice(&500u64.to_le_bytes());
    assert!(matches!(
        unpack(data).unwrap(),
        UnicornFactoryInstruction::Contribute { amount: 500 }
    ));
}

#[test]
fn unpack_contribute_short_fails() {
    assert_eq!(unpack(vec![1, 1, 2, 3]), Err(ProgramFailure::InvalidInstructionData));
}

#[test]
fn unpack_buy_tokens() {
    let mut data = vec![2u8];
    data.extend_from_slice(&7u64.to_le_bytes());
    assert!(matches!(
        unpack(data).unwrap(),
        UnicornFactoryInstruction::BuyTokens { amount: 7 }
    ));
}

#[test]
fn unpack_sell_tokens() {
    let mut data = vec![3u8];
    data.extend_from_slice(&9u64.to_le_bytes());
    assert!(matches!(
        unpack(data).unwrap(),
        UnicornFactoryInstruction::SellTokens { amount: 9 }
    ));
}

#[test]
fn unpack_create_proposal() {
    let mut data = vec![4u8];
    data.extend_from_slice(&5u32.to_le_bytes());
    data.extend_from_slice(&4u32.to_le_bytes());
    data.extend_from_slice(b"Title");
    data.extend_from_slice(b"Desc");
    data.push(3);
    match unpack(data).unwrap() {
        UnicornFactoryInstruction::CreateProposal { title, description, milestone_id } => {
            assert_eq!(title, b"Title".to_vec());
            assert_eq!(description, b"Desc".to_vec());
            assert_eq!(milestone_id, 3);
        }
        other => panic!("wrong variant: {:?}", other),
    }
}

#[test]
fn unpack_create_proposal_missing_milestone_byte_fails() {
    let mut data = vec![4u8];
    data.extend_from_slice(&5u32.to_le_bytes());
    data.extend_from_slice(&4u32.to_le_bytes());
    data.extend_from_slice(b"Title");
    data.extend_from_slice(b"Desc");
    assert_eq!(unpack(data), Err(ProgramFailure::InvalidInstructionData));
}

#[test]
fn unpack_vote() {
    let mut data = vec![5u8];
    data.extend_from_slice(&2u64.to_le_bytes());
    data.push(1);
    assert!(matches!(
        unpack(data).unwrap(),
        UnicornFactoryInstruction::Vote { proposal_id: 2, vote: true }
    ));
    let mut data = vec![5u8];
    data.extend_from_slice(&2u64.to_le_bytes());
    data.push(0);
    assert!(matches!(
        unpack(data).unwrap(),
        UnicornFactoryInstruction::Vote { proposal_id: 2, vote: false }
    ));
}

#[test]
fn unpack_release_funds() {
    let mut data = vec![6u8];
    data.extend_from_slice(&1u64.to_le_bytes());
    assert!(matches!(
        unpack(data).unwrap(),
        UnicornFactoryInstruction::ReleaseFunds { proposal_id: 1 }
    ));
}

#[test]
fn unpack_add_milestone() {
    let mut data = vec![7u8];
    data.extend_from_slice(&4u32.to_le_bytes());
    data.extend_from_slice(&4u32.to_le_bytes());
    data.extend_from_slice(b"Demo");
    data.extend_from_slice(b"Work");
    data.extend_from_slice(&500u64.to_le_bytes());
    match unpack(data).unwrap() {
        UnicornFactoryInstruction::AddMilestone { title, description, amount } => {
            assert_eq!(title, b"Demo".to_vec());
            assert_eq!(description, b"Work".to_vec());
            assert_eq!(amount, 500);
        }
        other => panic!("wrong variant: {:?}", other),
    }
}

#[test]
fn unpack_complete_milestone() {
    assert!(matches!(
        unpack(vec![8u8, 6]).unwrap(),
        UnicornFactoryInstruction::CompleteMilestone { milestone_id: 6 }
    ));
    assert_eq!(unpack(vec![8u8]), Err(ProgramFailure::InvalidInstructionData));
}
