//! The error taxonomy: domain errors raised by the funding and governance
//! rules, and the runtime-level failures an instruction can end with.
use vstd::prelude::*;

verus! {

/// A domain-rule violation detected while applying an instruction.
#[derive(Clone, Copy, Debug, PartialEq, Eq, Structural)]
pub enum UnicornFactoryError {
    ProjectNotActive,
    FundingGoalReached,
    Overflow,
    InvalidAmount,
    InvalidProjectAccount,
    InvalidAuthority,
    ProposalNotFound,
    ProposalAlreadyExecuted,
    VotingPeriodEnded,
    AlreadyVoted,
    InvalidMilestone,
    MilestoneAlreadyCompleted,
    VotingPeriodNotEnded,
    ProposalDidNotPass,
    MilestoneAlreadyHasProposal,
}

impl UnicornFactoryError {
    /// The stable numeric code under which this error is surfaced to the
    /// host, following declaration order.
    pub fn code(&self) -> (c: u32)
        ensures
            c == self.spec_code(),
    {
        match self {
            UnicornFactoryError::ProjectNotActive => 0,
            UnicornFactoryError::FundingGoalReached => 1,
            UnicornFactoryError::Overflow => 2,
            UnicornFactoryError::InvalidAmount => 3,
            UnicornFactoryError::InvalidProjectAccount => 4,
            UnicornFactoryError::InvalidAuthority => 5,
            UnicornFactoryError::ProposalNotFound => 6,
            UnicornFactoryError::ProposalAlreadyExecuted => 7,
            UnicornFactoryError::VotingPeriodEnded => 8,
            UnicornFactoryError::AlreadyVoted => 9,
            UnicornFactoryError::InvalidMilestone => 10,
            UnicornFactoryError::MilestoneAlreadyCompleted => 11,
            UnicornFactoryError::VotingPeriodNotEnded => 12,
            UnicornFactoryError::ProposalDidNotPass => 13,
            UnicornFactoryError::MilestoneAlreadyHasProposal => 14,
        }
    }

    /// Numeric code of each variant, in declaration order.
    pub open spec fn spec_code(&self) -> u32 {
        match self {
            UnicornFactoryError::ProjectNotActive => 0,
            UnicornFactoryError::FundingGoalReached => 1,
            UnicornFactoryError::Overflow => 2,
            UnicornFactoryError::InvalidAmount => 3,
            UnicornFactoryError::InvalidProjectAccount => 4,
            UnicornFactoryError::InvalidAuthority => 5,
            UnicornFactoryError::ProposalNotFound => 6,
            UnicornFactoryError::ProposalAlreadyExecuted => 7,
            UnicornFactoryError::VotingPeriodEnded => 8,
            UnicornFactoryError::AlreadyVoted => 9,
            UnicornFactoryError::InvalidMilestone => 10,
            UnicornFactoryError::MilestoneAlreadyCompleted => 11,
            UnicornFactoryError::VotingPeriodNotEnded => 12,
            UnicornFactoryError::ProposalDidNotPass => 13,
            UnicornFactoryError::MilestoneAlreadyHasProposal => 14,
        }
    }
}

/// How an instruction fails: either a runtime-level check (signatures,
/// account identities, malformed data) or a domain rule carried as a
/// [`UnicornFactoryError`].
#[derive(Clone, Copy, Debug, PartialEq, Eq, Structural)]
pub enum ProgramFailure {
    MissingRequiredSignature,
    IncorrectProgramId,
    InvalidAccountData,
    InvalidInstructionData,
    AccountAlreadyInitialized,
    UninitializedAccount,
    NotEnoughAccountKeys,
    Custom(UnicornFactoryError),
}

impl From<UnicornFactoryError> for ProgramFailure {
    fn from(e: UnicornFactoryError) -> (r: ProgramFailure) {
        ProgramFailure::Custom(e)
    }
}

impl vstd::std_specs::convert::FromSpecImpl<UnicornFactoryError> for ProgramFailure {
    open spec fn obeys_from_spec() -> bool {
        true
    }

    open spec fn from_spec(e: UnicornFactoryError) -> ProgramFailure {
        ProgramFailure::Custom(e)
    }
}

} // verus!
