//! Instruction decoding: a single leading tag byte followed by a
//! little-endian payload, with length-prefixed UTF-8 text fields.
use vstd::bytes::spec_u32_from_le_bytes;
use vstd::bytes::spec_u64_from_le_bytes;
use vstd::prelude::*;
use vstd::utf8::valid_utf8;

use crate::codec::is_valid_utf8;
use crate::codec::read_bytes;
use crate::codec::read_u32_le;
use crate::codec::read_u64_le;
use crate::errors::ProgramFailure;

verus! {

/// A decoded instruction.
#[derive(Clone, Debug, PartialEq)]
pub enum UnicornFactoryInstruction {
    InitializeProject { name: Vec<u8>, symbol: Vec<u8>, funding_goal: u64 },
    Contribute { amount: u64 },
    BuyTokens { amount: u64 },
    SellTokens { amount: u64 },
    CreateProposal { title: Vec<u8>, description: Vec<u8>, milestone_id: u8 },
    Vote { proposal_id: u64, vote: bool },
    ReleaseFunds { proposal_id: u64 },
    AddMilestone { title: Vec<u8>, description: Vec<u8>, amount: u64 },
    CompleteMilestone { milestone_id: u8 },
}

/// Mathematical image of a decoded instruction.
#[verifier::ext_equal]
pub ghost enum InstructionView {
    InitializeProject { name: Seq<u8>, symbol: Seq<u8>, funding_goal: u64 },
    Contribute { amount: u64 },
    BuyTokens { amount: u64 },
    SellTokens { amount: u64 },
    CreateProposal { title: Seq<u8>, description: Seq<u8>, milestone_id: u8 },
    Vote { proposal_id: u64, vote: bool },
    ReleaseFunds { proposal_id: u64 },
    AddMilestone { title: Seq<u8>, description: Seq<u8>, amount: u64 },
    CompleteMilestone { milestone_id: u8 },
}

impl View for UnicornFactoryInstruction {
    type V = InstructionView;

    open spec fn view(&self) -> InstructionView {
        match self {
            UnicornFactoryInstruction::InitializeProject { name, symbol, funding_goal } => {
                InstructionView::InitializeProject {
                    name: name@,
                    symbol: symbol@,
                    funding_goal: *funding_goal,
                }
            },
            UnicornFactoryInstruction::Contribute { amount } => {
                InstructionView::Contribute { amount: *amount }
            },
            UnicornFactoryInstruction::BuyTokens { amount } => {
                InstructionView::BuyTokens { amount: *amount }
            },
            UnicornFactoryInstruction::SellTokens { amount } => {
                InstructionView::SellTokens { amount: *amount }
            },
            UnicornFactoryInstruction::CreateProposal { title, description, milestone_id } => {
                InstructionView::CreateProposal {
                    title: title@,
                    description: description@,
                    milestone_id: *milestone_id,
                }
            },
            UnicornFactoryInstruction::Vote { proposal_id, vote } => {
                InstructionView::Vote { proposal_id: *proposal_id, vote: *vote }
            },
            UnicornFactoryInstruction::ReleaseFunds { proposal_id } => {
                InstructionView::ReleaseFunds { proposal_id: *proposal_id }
            },
            UnicornFactoryInstruction::AddMilestone { title, description, amount } => {
                InstructionView::AddMilestone {
                    title: title@,
                    description: description@,
                    amount: *amount,
                }
            },
            UnicornFactoryInstruction::CompleteMilestone { milestone_id } => {
                InstructionView::CompleteMilestone { milestone_id: *milestone_id }
            },
        }
    }
}

/// The instruction encoded in `input`: a tag byte, then the tag's
/// payload.  `None` when the tag is unknown, the payload is truncated,
/// or a text field is not valid UTF-8.
pub open spec fn spec_unpack_instruction(input: Seq<u8>) -> Option<InstructionView> {
    if input.len() == 0 {
        None
    } else {
        let tag = input[0];
        let rest = input.skip(1);
        if tag == 0 {
            spec_parse_initialize(rest)
        } else if tag == 1 {
            if rest.len() < 8 {
                None
            } else {
                Some(
                    InstructionView::Contribute {
                        amount: spec_u64_from_le_bytes(rest.subrange(0, 8)),
                    },
                )
            }
        } else if tag == 2 {
            if rest.len() < 8 {
                None
            } else {
                Some(
                    InstructionView::BuyTokens {
                        amount: spec_u64_from_le_bytes(rest.subrange(0, 8)),
                    },
                )
            }
        } else if tag == 3 {
            if rest.len() < 8 {
                None
            } else {
                Some(
                    InstructionView::SellTokens {
                        amount: spec_u64_from_le_bytes(rest.subrange(0, 8)),
                    },
                )
            }
        } else if tag == 4 {
            spec_parse_create_proposal(rest)
        } else if tag == 5 {
            if rest.len() < 9 {
                None
            } else {
                Some(
                    InstructionView::Vote {
                        proposal_id: spec_u64_from_le_bytes(rest.subrange(0, 8)),
                        vote: rest[8] != 0,
                    },
                )
            }
        } else if tag == 6 {
            if rest.len() < 8 {
                None
            } else {
                Some(
                    InstructionView::ReleaseFunds {
                        proposal_id: spec_u64_from_le_bytes(rest.subrange(0, 8)),
                    },
                )
            }
        } else if tag == 7 {
            spec_parse_add_milestone(rest)
        } else if tag == 8 {
            if rest.len() < 1 {
                None
            } else {
                Some(InstructionView::CompleteMilestone { milestone_id: rest[0] })
            }
        } else {
            None
        }
    }
}

/// Payload of `InitializeProject`: two length prefixes, the two text
/// fields, then the funding goal.
pub open spec fn spec_parse_initialize(rest: Seq<u8>) -> Option<InstructionView> {
    if rest.len() < 8 {
        None
    } else {
        let name_len = spec_u32_from_le_bytes(rest.subrange(0, 4)) as int;
        let symbol_len = spec_u32_from_le_bytes(rest.subrange(4, 8)) as int;
        if rest.len() < 16 + name_len + symbol_len {
            None
        } else {
            let name = rest.subrange(8, 8 + name_len);
            let symbol = rest.subrange(8 + name_len, 8 + name_len + symbol_len);
            if !valid_utf8(name) || !valid_utf8(symbol) {
                None
            } else {
                Some(
                    InstructionView::InitializeProject {
                        name,
                        symbol,
                        funding_goal: spec_u64_from_le_bytes(
                            rest.subrange(8 + name_len + symbol_len, 16 + name_len + symbol_len),
                        ),
                    },
                )
            }
        }
    }
}

/// Payload of `CreateProposal`: two length prefixes, the two text
/// fields, then the milestone index.
pub open spec fn spec_parse_create_proposal(rest: Seq<u8>) -> Option<InstructionView> {
    if rest.len() < 8 {
        None
    } else {
        let title_len = spec_u32_from_le_bytes(rest.subrange(0, 4)) as int;
        let desc_len = spec_u32_from_le_bytes(rest.subrange(4, 8)) as int;
        if rest.len() < 9 + title_len + desc_len {
            None
        } else {
            let title = rest.subrange(8, 8 + title_len);
            let description = rest.subrange(8 + title_len, 8 + title_len + desc_len);
            if !valid_utf8(title) || !valid_utf8(description) {
                None
            } else {
                Some(
                    InstructionView::CreateProposal {
                        title,
                        description,
                        milestone_id: rest[8 + title_len + desc_len],
                    },
                )
            }
        }
    }
}

/// Payload of `AddMilestone`: two length prefixes, the two text fields,
/// then the payout amount.
pub open spec fn spec_parse_add_milestone(rest: Seq<u8>) -> Option<InstructionView> {
    if rest.len() < 8 {
        None
    } else {
        let title_len = spec_u32_from_le_bytes(rest.subrange(0, 4)) as int;
        let desc_len = spec_u32_from_le_bytes(rest.subrange(4, 8)) as int;
        if rest.len() < 16 + title_len + desc_len {
            None
        } else {
            let title = rest.subrange(8, 8 + title_len);
            let description = rest.subrange(8 + title_len, 8 + title_len + desc_len);
            if !valid_utf8(title) || !valid_utf8(description) {
                None
            } else {
                Some(
                    InstructionView::AddMilestone {
                        title,
                        description,
                        amount: spec_u64_from_le_bytes(
                            rest.subrange(8 + title_len + desc_len, 16 + title_len + desc_len),
                        ),
                    },
                )
            }
        }
    }
}

impl UnicornFactoryInstruction {
    /// Decodes an instruction, failing with `InvalidInstructionData` on
    /// anything malformed.
    pub fn unpack(input: &Vec<u8>) -> (r: Result<UnicornFactoryInstruction, ProgramFailure>)
        ensures
            match spec_unpack_instruction(input@) {
                Some(v) => r is Ok && r.unwrap()@ == v,
                None => r is Err && r.unwrap_err() == ProgramFailure::InvalidInstructionData,
            },
    {
        if input.len() == 0 {
            return Err(ProgramFailure::InvalidInstructionData);
        }
        let tag = input[0];
        let rest = read_bytes(input, 1, input.len() - 1);
        proof {
            assert(rest@ =~= input@.skip(1));
        }
        match tag {
            0 => {
                if rest.len() < 8 {
                    return Err(ProgramFailure::InvalidInstructionData);
                }
                let name_len = read_u32_le(&rest, 0) as usize;
                let symbol_len = read_u32_le(&rest, 4) as usize;
                let need: u64 = 16 + name_len as u64 + symbol_len as u64;
                if (rest.len() as u64) < need {
                    return Err(ProgramFailure::InvalidInstructionData);
                }
                let name = read_bytes(&rest, 8, name_len);
                if !is_valid_utf8(&name) {
                    return Err(ProgramFailure::InvalidInstructionData);
                }
                let symbol = read_bytes(&rest, 8 + name_len, symbol_len);
                if !is_valid_utf8(&symbol) {
                    return Err(ProgramFailure::InvalidInstructionData);
                }
                let funding_goal = read_u64_le(&rest, 8 + name_len + symbol_len);
                Ok(UnicornFactoryInstruction::InitializeProject { name, symbol, funding_goal })
            },
            1 => {
                if rest.len() < 8 {
                    return Err(ProgramFailure::InvalidInstructionData);
                }
                Ok(UnicornFactoryInstruction::Contribute { amount: read_u64_le(&rest, 0) })
            },
            2 => {
                if rest.len() < 8 {
                    return Err(ProgramFailure::InvalidInstructionData);
                }
                Ok(UnicornFactoryInstruction::BuyTokens { amount: read_u64_le(&rest, 0) })
            },
            3 => {
                if rest.len() < 8 {
                    return Err(ProgramFailure::InvalidInstructionData);
                }
                Ok(UnicornFactoryInstruction::SellTokens { amount: read_u64_le(&rest, 0) })
            },
            4 => {
                if rest.len() < 8 {
                    return Err(ProgramFailure::InvalidInstructionData);
                }
                let title_len = read_u32_le(&rest, 0) as usize;
                let desc_len = read_u32_le(&rest, 4) as usize;
                let need: u64 = 9 + title_len as u64 + desc_len as u64;
                if (rest.len() as u64) < need {
                    return Err(ProgramFailure::InvalidInstructionData);
                }
                let title = read_bytes(&rest, 8, title_len);
                if !is_valid_utf8(&title) {
                    return Err(ProgramFailure::InvalidInstructionData);
                }
                let description = read_bytes(&rest, 8 + title_len, desc_len);
                if !is_valid_utf8(&description) {
                    return Err(ProgramFailure::InvalidInstructionData);
                }
                let milestone_id = rest[8 + title_len + desc_len];
                Ok(UnicornFactoryInstruction::CreateProposal { title, description, milestone_id })
            },
            5 => {
                if rest.len() < 9 {
                    return Err(ProgramFailure::InvalidInstructionData);
                }
                let proposal_id = read_u64_le(&rest, 0);
                let vote = rest[8] != 0;
                Ok(UnicornFactoryInstruction::Vote { proposal_id, vote })
            },
            6 => {
                if rest.len() < 8 {
                    return Err(ProgramFailure::InvalidInstructionData);
                }
                Ok(UnicornFactoryInstruction::ReleaseFunds { proposal_id: read_u64_le(&rest, 0) })
            },
            7 => {
                if rest.len() < 8 {
                    return Err(ProgramFailure::InvalidInstructionData);
                }
                let title_len = read_u32_le(&rest, 0) as usize;
                let desc_len = read_u32_le(&rest, 4) as usize;
                let need: u64 = 16 + title_len as u64 + desc_len as u64;
                if (rest.len() as u64) < need {
                    return Err(ProgramFailure::InvalidInstructionData);
                }
                let title = read_bytes(&rest, 8, title_len);
                if !is_valid_utf8(&title) {
                    return Err(ProgramFailure::InvalidInstructionData);
                }
                let description = read_bytes(&rest, 8 + title_len, desc_len);
                if !is_valid_utf8(&description) {
                    return Err(ProgramFailure::InvalidInstructionData);
                }
                let amount = read_u64_le(&rest, 8 + title_len + desc_len);
                Ok(UnicornFactoryInstruction::AddMilestone { title, description, amount })
            },
            8 => {
                if rest.len() < 1 {
                    return Err(ProgramFailure::InvalidInstructionData);
                }
                Ok(UnicornFactoryInstruction::CompleteMilestone { milestone_id: rest[0] })
            },
            _ => Err(ProgramFailure::InvalidInstructionData),
        }
    }
}

} // verus!
