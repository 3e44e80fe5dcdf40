//! The transaction processor: decodes an instruction, resolves the role
//! every account must play — signer, derived sub-account, well-known
//! program — and applies the ledger or governance transition.  Each
//! handler returns either the full outcome to commit, or the failure
//! that voids the whole instruction.
use vstd::prelude::*;

use crate::codec::bytes_eq;
use crate::codec::copy_bytes;
use crate::errors::ProgramFailure;
use crate::errors::UnicornFactoryError;
use crate::governance::VOTING_WINDOW;
use crate::host::derived_address;
use crate::host::spec_spl_token_id;
use crate::host::spec_system_program_id;
use crate::host::spl_token_id;
use crate::host::system_program_id;
use crate::host::try_derive_address;
use crate::governance::new_milestone;
use crate::governance::new_proposal;
use crate::governance::release_apply;
use crate::governance::release_check;
use crate::governance::spec_release_check;
use crate::governance::spec_vote;
use crate::host::parse_token_account;
use crate::host::token_account_ok;
use crate::host::token_account_uninitialized;
use crate::instruction::InstructionView;
use crate::instruction::UnicornFactoryInstruction;
use crate::instruction::spec_unpack_instruction;
use crate::ledger::funded_state;
use crate::ledger::new_project;
use crate::ledger::sell_refund;
use crate::ledger::sell_settle;
use crate::ledger::spec_buy;
use crate::ledger::spec_contribute;
use crate::milestone::Milestone;
use crate::milestone::MilestoneView;
use crate::milestone::spec_unpack_milestone;
use crate::pricing::spec_max_scalable_total;
use crate::project::Project;
use crate::project::ProjectView;
use crate::project::spec_unpack_project;
use crate::proposal::Proposal;
use crate::proposal::ProposalView;
use crate::proposal::spec_unpack_proposal;
use vstd::bytes::spec_u64_from_le_bytes;

verus! {

/// Everything an instruction reads from one host account, as plain
/// values: its address, whether it signed, its balance, its stored
/// bytes, and the program that owns it.
#[derive(Clone, Debug, PartialEq)]
pub struct AccountView {
    pub key: Vec<u8>,
    pub is_signer: bool,
    pub lamports: u64,
    pub data: Vec<u8>,
    pub owner: Vec<u8>,
}

/// Host account addresses and owners are full 32-byte keys.
pub open spec fn accounts_wf(accounts: Seq<AccountView>) -> bool {
    forall|i: int|
        0 <= i < accounts.len() ==> (#[trigger] accounts[i].key)@.len() == 32
            && accounts[i].owner@.len() == 32
}

/// Seed tag of a project sub-account: the bytes of `project`.
pub open spec fn spec_project_seed() -> Seq<u8> {
    seq![112u8, 114u8, 111u8, 106u8, 101u8, 99u8, 116u8]
}

/// Seed tag of a milestone sub-account: the bytes of `milestone`.
pub open spec fn spec_milestone_seed() -> Seq<u8> {
    seq![109u8, 105u8, 108u8, 101u8, 115u8, 116u8, 111u8, 110u8, 101u8]
}

/// Seed tag of a proposal sub-account: the bytes of `proposal`.
pub open spec fn spec_proposal_seed() -> Seq<u8> {
    seq![112u8, 114u8, 111u8, 112u8, 111u8, 115u8, 97u8, 108u8]
}

/// Seed list of a project account: the tag and the authority's key.
pub open spec fn project_seeds(authority: Seq<u8>) -> Seq<Seq<u8>> {
    seq![spec_project_seed(), authority]
}

/// Seed list of a milestone account: the tag, the project's key, and
/// the milestone's index.
pub open spec fn milestone_seeds(project_key: Seq<u8>, index: u8) -> Seq<Seq<u8>> {
    seq![spec_milestone_seed(), project_key, seq![index]]
}

/// Seed list of a proposal account: the tag, the project's key, and
/// the proposal's index.
pub open spec fn proposal_seeds(project_key: Seq<u8>, index: u8) -> Seq<Seq<u8>> {
    seq![spec_proposal_seed(), project_key, seq![index]]
}

/// Whether a stored buffer holds any nonzero byte: the idempotency
/// guard against writing over an initialized sub-account.
pub open spec fn has_nonzero(d: Seq<u8>) -> bool {
    exists|i: int| 0 <= i < d.len() && d[i] != 0
}

/// Decides [`has_nonzero`] on a buffer.
fn data_has_nonzero(d: &Vec<u8>) -> (r: bool)
    ensures
        r == has_nonzero(d@),
{
    let mut i: usize = 0;
    while i < d.len()
        invariant
            i <= d.len(),
            forall|j: int| 0 <= j < i ==> d@[j] == 0,
        decreases d.len() - i,
    {
        if d[i] != 0 {
            return true;
        }
        i = i + 1;
    }
    false
}

/// The bytes of the `project` seed tag.
fn project_seed_vec() -> (r: Vec<u8>)
    ensures
        r@ == spec_project_seed(),
{
    let mut r: Vec<u8> = Vec::new();
    r.push(112);
    r.push(114);
    r.push(111);
    r.push(106);
    r.push(101);
    r.push(99);
    r.push(116);
    proof {
        assert(r@ =~= spec_project_seed());
    }
    r
}

/// The bytes of the `milestone` seed tag.
fn milestone_seed_vec() -> (r: Vec<u8>)
    ensures
        r@ == spec_milestone_seed(),
{
    let mut r: Vec<u8> = Vec::new();
    r.push(109);
    r.push(105);
    r.push(108);
    r.push(101);
    r.push(115);
    r.push(116);
    r.push(111);
    r.push(110);
    r.push(101);
    proof {
        assert(r@ =~= spec_milestone_seed());
    }
    r
}

/// The bytes of the `proposal` seed tag.
fn proposal_seed_vec() -> (r: Vec<u8>)
    ensures
        r@ == spec_proposal_seed(),
{
    let mut r: Vec<u8> = Vec::new();
    r.push(112);
    r.push(114);
    r.push(111);
    r.push(112);
    r.push(111);
    r.push(115);
    r.push(97);
    r.push(108);
    proof {
        assert(r@ =~= spec_proposal_seed());
    }
    r
}

/// Derives the project sub-account address owned by `authority_key`.
fn derive_project_address(authority_key: &Vec<u8>, program_id: &Vec<u8>) -> (r: Option<
    (Vec<u8>, u8),
>)
    requires
        program_id@.len() == 32,
    ensures
        r is Some <==> derived_address(project_seeds(authority_key@), program_id@) is Some,
        r is Some ==> ({
            let d = derived_address(project_seeds(authority_key@), program_id@).unwrap();
            r.unwrap().0@ == d.0 && r.unwrap().1 == d.1 && d.0.len() == 32
        }),
{
    let mut seeds: Vec<Vec<u8>> = Vec::new();
    seeds.push(project_seed_vec());
    seeds.push(copy_bytes(authority_key));
    proof {
        assert(seeds.deep_view() =~~= project_seeds(authority_key@));
    }
    try_derive_address(&seeds, program_id)
}

/// Derives the milestone sub-account address at `index` under the
/// project at `project_key`.
fn derive_milestone_address(project_key: &Vec<u8>, index: u8, program_id: &Vec<u8>) -> (r: Option<
    (Vec<u8>, u8),
>)
    requires
        program_id@.len() == 32,
    ensures
        r is Some <==> derived_address(milestone_seeds(project_key@, index), program_id@) is Some,
        r is Some ==> ({
            let d = derived_address(milestone_seeds(project_key@, index), program_id@).unwrap();
            r.unwrap().0@ == d.0 && r.unwrap().1 == d.1 && d.0.len() == 32
        }),
{
    let mut seeds: Vec<Vec<u8>> = Vec::new();
    seeds.push(milestone_seed_vec());
    seeds.push(copy_bytes(project_key));
    let mut index_seed: Vec<u8> = Vec::new();
    index_seed.push(index);
    seeds.push(index_seed);
    proof {
        assert(seeds.deep_view() =~~= milestone_seeds(project_key@, index));
    }
    try_derive_address(&seeds, program_id)
}

/// Derives the proposal sub-account address at `index` under the
/// project at `project_key`.
fn derive_proposal_address(project_key: &Vec<u8>, index: u8, program_id: &Vec<u8>) -> (r: Option<
    (Vec<u8>, u8),
>)
    requires
        program_id@.len() == 32,
    ensures
        r is Some <==> derived_address(proposal_seeds(project_key@, index), program_id@) is Some,
        r is Some ==> ({
            let d = derived_address(proposal_seeds(project_key@, index), program_id@).unwrap();
            r.unwrap().0@ == d.0 && r.unwrap().1 == d.1 && d.0.len() == 32
        }),
{
    let mut seeds: Vec<Vec<u8>> = Vec::new();
    seeds.push(proposal_seed_vec());
    seeds.push(copy_bytes(project_key));
    let mut index_seed: Vec<u8> = Vec::new();
    index_seed.push(index);
    seeds.push(index_seed);
    proof {
        assert(seeds.deep_view() =~~= proposal_seeds(project_key@, index));
    }
    try_derive_address(&seeds, program_id)
}

/// Outcome of initializing a project: the derived bump seed and the
/// fresh record to persist in a newly created project sub-account.
#[derive(Clone, Debug, PartialEq)]
pub struct InitializeProjectOutcome {
    pub bump: u8,
    pub project: Project,
}

/// Expected result of the initialize handler.
pub open spec fn spec_process_initialize(
    program_id: Seq<u8>,
    accounts: Seq<AccountView>,
    name: Seq<u8>,
    symbol: Seq<u8>,
    funding_goal: u64,
) -> Result<(u8, ProjectView), ProgramFailure> {
    if accounts.len() < 5 {
        Err(ProgramFailure::NotEnoughAccountKeys)
    } else if !accounts[1].is_signer {
        Err(ProgramFailure::MissingRequiredSignature)
    } else if accounts[2].key@ != spec_system_program_id() {
        Err(ProgramFailure::IncorrectProgramId)
    } else if accounts[3].key@ != spec_spl_token_id() {
        Err(ProgramFailure::IncorrectProgramId)
    } else {
        let derived = derived_address(project_seeds(accounts[1].key@), program_id);
        if derived is None || derived.unwrap().0 != accounts[0].key@ {
            Err(ProgramFailure::Custom(UnicornFactoryError::InvalidProjectAccount))
        } else if has_nonzero(accounts[0].data@) {
            Err(ProgramFailure::Custom(UnicornFactoryError::InvalidProjectAccount))
        } else {
            Ok(
                (
                    derived.unwrap().1,
                    ProjectView {
                        authority: accounts[1].key@,
                        name: name,
                        symbol: symbol,
                        funding_goal,
                        total_raised: 0,
                        token_price: 1,
                        is_active: true,
                        bump: derived.unwrap().1,
                        token_mint: accounts[4].key@,
                        milestone_count: 0,
                        proposal_count: 0,
                    },
                ),
            )
        }
    }
}

/// Initializes a project: the authority must sign, the well-known
/// programs must be the expected ones, the project account must be the
/// derived address, and its storage must still be empty.
pub fn process_initialize_project(
    program_id: &Vec<u8>,
    accounts: &Vec<AccountView>,
    name: Vec<u8>,
    symbol: Vec<u8>,
    funding_goal: u64,
) -> (r: Result<InitializeProjectOutcome, ProgramFailure>)
    requires
        program_id@.len() == 32,
    ensures
        match spec_process_initialize(program_id@, accounts@, name@, symbol@, funding_goal) {
            Ok(o) => r is Ok && r.unwrap().bump == o.0 && r.unwrap().project@ == o.1,
            Err(e) => r is Err && r.unwrap_err() == e,
        },
{
    if accounts.len() < 5 {
        return Err(ProgramFailure::NotEnoughAccountKeys);
    }
    if !accounts[1].is_signer {
        return Err(ProgramFailure::MissingRequiredSignature);
    }
    let system_id = system_program_id();
    if !bytes_eq(&accounts[2].key, &system_id) {
        return Err(ProgramFailure::IncorrectProgramId);
    }
    let token_id = spl_token_id();
    if !bytes_eq(&accounts[3].key, &token_id) {
        return Err(ProgramFailure::IncorrectProgramId);
    }
    let bump: u8;
    match derive_project_address(&accounts[1].key, program_id) {
        None => {
            return Err(ProgramFailure::Custom(UnicornFactoryError::InvalidProjectAccount));
        },
        Some(found) => {
            if !bytes_eq(&found.0, &accounts[0].key) {
                return Err(ProgramFailure::Custom(UnicornFactoryError::InvalidProjectAccount));
            }
            bump = found.1;
        },
    }
    if data_has_nonzero(&accounts[0].data) {
        return Err(ProgramFailure::Custom(UnicornFactoryError::InvalidProjectAccount));
    }
    let project = new_project(&accounts[1].key, name, symbol, funding_goal, bump, &accounts[4].key);
    Ok(InitializeProjectOutcome { bump, project })
}

/// Outcome of a contribution or purchase: the amount to move from the
/// caller to the project's treasury, the credits to mint to the
/// caller, and the updated project record.
#[derive(Clone, Debug, PartialEq)]
pub struct FundingOutcome {
    pub amount: u64,
    pub tokens_to_mint: u64,
    pub project: Project,
}

/// Expected result of the contribute handler.
pub open spec fn spec_process_contribute(accounts: Seq<AccountView>, amount: u64) -> Result<
    (ProjectView, u64),
    ProgramFailure,
> {
    if accounts.len() < 6 {
        Err(ProgramFailure::NotEnoughAccountKeys)
    } else if !accounts[1].is_signer {
        Err(ProgramFailure::MissingRequiredSignature)
    } else {
        match spec_unpack_project(accounts[0].data@) {
            None => Err(ProgramFailure::InvalidAccountData),
            Some(p) => match spec_contribute(p, amount) {
                Ok(s) => Ok(s),
                Err(e) => Err(ProgramFailure::Custom(e)),
            },
        }
    }
}

/// Applies a contribution: the contributor must sign; the project must
/// be active and still short of its goal; the raised total grows by the
/// amount and the price is recomputed.
pub fn process_contribute(accounts: &Vec<AccountView>, amount: u64) -> (r: Result<
    FundingOutcome,
    ProgramFailure,
>)
    ensures
        match spec_process_contribute(accounts@, amount) {
            Ok(o) => r is Ok && r.unwrap().project@ == o.0 && r.unwrap().tokens_to_mint == o.1
                && r.unwrap().amount == amount,
            Err(e) => r is Err && r.unwrap_err() == e,
        },
{
    if accounts.len() < 6 {
        return Err(ProgramFailure::NotEnoughAccountKeys);
    }
    if !accounts[1].is_signer {
        return Err(ProgramFailure::MissingRequiredSignature);
    }
    let project = match Project::unpack(&accounts[0].data) {
        Ok(p) => p,
        Err(_) => {
            return Err(ProgramFailure::InvalidAccountData);
        },
    };
    match crate::ledger::contribute(&project, amount) {
        Ok(updated) => Ok(FundingOutcome { amount, tokens_to_mint: updated.1, project: updated.0 }),
        Err(e) => Err(ProgramFailure::Custom(e)),
    }
}

/// Expected result of the buy handler.
pub open spec fn spec_process_buy(accounts: Seq<AccountView>, amount: u64) -> Result<
    (ProjectView, u64),
    ProgramFailure,
> {
    if accounts.len() < 6 {
        Err(ProgramFailure::NotEnoughAccountKeys)
    } else if !accounts[1].is_signer {
        Err(ProgramFailure::MissingRequiredSignature)
    } else {
        match spec_unpack_project(accounts[0].data@) {
            None => Err(ProgramFailure::InvalidAccountData),
            Some(p) => match spec_buy(p, amount) {
                Ok(s) => Ok(s),
                Err(e) => Err(ProgramFailure::Custom(e)),
            },
        }
    }
}

/// Applies a purchase: as a contribution, but without the eager
/// goal-reached refusal.
pub fn process_buy_tokens(accounts: &Vec<AccountView>, amount: u64) -> (r: Result<
    FundingOutcome,
    ProgramFailure,
>)
    ensures
        match spec_process_buy(accounts@, amount) {
            Ok(o) => r is Ok && r.unwrap().project@ == o.0 && r.unwrap().tokens_to_mint == o.1
                && r.unwrap().amount == amount,
            Err(e) => r is Err && r.unwrap_err() == e,
        },
{
    if accounts.len() < 6 {
        return Err(ProgramFailure::NotEnoughAccountKeys);
    }
    if !accounts[1].is_signer {
        return Err(ProgramFailure::MissingRequiredSignature);
    }
    let project = match Project::unpack(&accounts[0].data) {
        Ok(p) => p,
        Err(_) => {
            return Err(ProgramFailure::InvalidAccountData);
        },
    };
    match crate::ledger::buy(&project, amount) {
        Ok(updated) => Ok(FundingOutcome { amount, tokens_to_mint: updated.1, project: updated.0 }),
        Err(e) => Err(ProgramFailure::Custom(e)),
    }
}


/// Outcome of a sale: the credits to burn from the seller's token
/// account, the refund to move from the treasury to the seller, and
/// the updated project record.
#[derive(Clone, Debug, PartialEq)]
pub struct SellOutcome {
    pub tokens_to_burn: u64,
    pub refund: u64,
    pub project: Project,
}

/// Expected result of the sell handler.
pub open spec fn spec_process_sell(accounts: Seq<AccountView>, amount: u64) -> Result<
    (ProjectView, u64),
    ProgramFailure,
> {
    if accounts.len() < 6 {
        Err(ProgramFailure::NotEnoughAccountKeys)
    } else if !accounts[1].is_signer {
        Err(ProgramFailure::MissingRequiredSignature)
    } else if accounts[4].key@ != spec_spl_token_id() {
        Err(ProgramFailure::IncorrectProgramId)
    } else if accounts[5].key@ != spec_system_program_id() {
        Err(ProgramFailure::IncorrectProgramId)
    } else {
        match spec_unpack_project(accounts[0].data@) {
            None => Err(ProgramFailure::InvalidAccountData),
            Some(p) => {
                if !p.is_active {
                    Err(ProgramFailure::Custom(UnicornFactoryError::ProjectNotActive))
                } else if p.token_mint != accounts[3].key@ {
                    Err(ProgramFailure::InvalidAccountData)
                } else if accounts[2].data@.len() == 0 {
                    Err(ProgramFailure::UninitializedAccount)
                } else if accounts[2].owner@ != spec_spl_token_id() {
                    Err(ProgramFailure::IncorrectProgramId)
                } else if accounts[2].data@.len() != 165 {
                    Err(ProgramFailure::InvalidAccountData)
                } else if !token_account_ok(accounts[2].data@) {
                    Err(
                        if token_account_uninitialized(accounts[2].data@) {
                            ProgramFailure::UninitializedAccount
                        } else {
                            ProgramFailure::InvalidAccountData
                        },
                    )
                } else {
                    let balance = spec_u64_from_le_bytes(accounts[2].data@.subrange(64, 72));
                    let mint = accounts[2].data@.subrange(0, 32);
                    let owner = accounts[2].data@.subrange(32, 64);
                    if balance < amount {
                        Err(ProgramFailure::Custom(UnicornFactoryError::InvalidAmount))
                    } else if mint != accounts[3].key@ {
                        Err(ProgramFailure::Custom(UnicornFactoryError::InvalidAmount))
                    } else if owner != accounts[1].key@ {
                        Err(ProgramFailure::Custom(UnicornFactoryError::InvalidAmount))
                    } else if amount * p.token_price > u64::MAX {
                        Err(ProgramFailure::Custom(UnicornFactoryError::Overflow))
                    } else if accounts[0].lamports < amount * p.token_price {
                        Err(ProgramFailure::Custom(UnicornFactoryError::InvalidAmount))
                    } else if amount * p.token_price > p.total_raised {
                        Err(ProgramFailure::Custom(UnicornFactoryError::Overflow))
                    } else if p.funding_goal != 0 && p.total_raised - amount * p.token_price
                        > spec_max_scalable_total() {
                        Err(ProgramFailure::Custom(UnicornFactoryError::Overflow))
                    } else {
                        Ok(
                            (
                                funded_state(
                                    p,
                                    (p.total_raised - amount * p.token_price) as u64,
                                ),
                                (amount * p.token_price) as u64,
                            ),
                        )
                    }
                }
            },
        }
    }
}

/// Applies a sale: the seller must sign and present a token account
/// owned by the token program; too few credits in it, a credit mint
/// other than the project's, a recorded owner other than the seller,
/// or a treasury short of the refund are each refused as an invalid
/// amount.  On success the refund of `amount` credits at the current
/// price leaves the treasury, the raised total falls by it, and the
/// price is recomputed.
pub fn process_sell_tokens(accounts: &Vec<AccountView>, amount: u64) -> (r: Result<
    SellOutcome,
    ProgramFailure,
>)
    ensures
        match spec_process_sell(accounts@, amount) {
            Ok(o) => r is Ok && r.unwrap().project@ == o.0 && r.unwrap().refund == o.1
                && r.unwrap().tokens_to_burn == amount,
            Err(e) => r is Err && r.unwrap_err() == e,
        },
{
    if accounts.len() < 6 {
        return Err(ProgramFailure::NotEnoughAccountKeys);
    }
    if !accounts[1].is_signer {
        return Err(ProgramFailure::MissingRequiredSignature);
    }
    let token_id = spl_token_id();
    if !bytes_eq(&accounts[4].key, &token_id) {
        return Err(ProgramFailure::IncorrectProgramId);
    }
    let system_id = system_program_id();
    if !bytes_eq(&accounts[5].key, &system_id) {
        return Err(ProgramFailure::IncorrectProgramId);
    }
    let project = match Project::unpack(&accounts[0].data) {
        Ok(p) => p,
        Err(_) => {
            return Err(ProgramFailure::InvalidAccountData);
        },
    };
    if !project.is_active {
        return Err(ProgramFailure::Custom(UnicornFactoryError::ProjectNotActive));
    }
    if !bytes_eq(&project.token_mint, &accounts[3].key) {
        return Err(ProgramFailure::InvalidAccountData);
    }
    if accounts[2].data.len() == 0 {
        return Err(ProgramFailure::UninitializedAccount);
    }
    if !bytes_eq(&accounts[2].owner, &token_id) {
        return Err(ProgramFailure::IncorrectProgramId);
    }
    if accounts[2].data.len() != 165 {
        return Err(ProgramFailure::InvalidAccountData);
    }
    let info = match parse_token_account(&accounts[2].data) {
        Ok(i) => i,
        Err(e) => {
            return Err(e);
        },
    };
    if info.amount < amount {
        return Err(ProgramFailure::Custom(UnicornFactoryError::InvalidAmount));
    }
    if !bytes_eq(&info.mint, &accounts[3].key) {
        return Err(ProgramFailure::Custom(UnicornFactoryError::InvalidAmount));
    }
    if !bytes_eq(&info.owner, &accounts[1].key) {
        return Err(ProgramFailure::Custom(UnicornFactoryError::InvalidAmount));
    }
    let refund = match sell_refund(amount, project.token_price) {
        Ok(v) => v,
        Err(e) => {
            return Err(ProgramFailure::Custom(e));
        },
    };
    if accounts[0].lamports < refund {
        return Err(ProgramFailure::Custom(UnicornFactoryError::InvalidAmount));
    }
    let updated = match sell_settle(&project, refund) {
        Ok(p) => p,
        Err(e) => {
            return Err(ProgramFailure::Custom(e));
        },
    };
    Ok(SellOutcome { tokens_to_burn: amount, refund, project: updated })
}

/// Outcome of creating a proposal: the derived bump seed, the fresh
/// proposal record for a newly created proposal sub-account, the
/// milestone now marked as targeted, and the project with its proposal
/// counter advanced.
#[derive(Clone, Debug, PartialEq)]
pub struct CreateProposalOutcome {
    pub proposal_bump: u8,
    pub proposal: Proposal,
    pub milestone: Milestone,
    pub project: Project,
}

/// Expected result of the create-proposal handler.
pub open spec fn spec_process_create_proposal(
    program_id: Seq<u8>,
    accounts: Seq<AccountView>,
    title: Seq<u8>,
    description: Seq<u8>,
    milestone_id: u8,
    now: i64,
) -> Result<(u8, ProposalView, MilestoneView, ProjectView), ProgramFailure> {
    if accounts.len() < 5 {
        Err(ProgramFailure::NotEnoughAccountKeys)
    } else if accounts[4].key@ != spec_system_program_id() {
        Err(ProgramFailure::IncorrectProgramId)
    } else {
        match spec_unpack_project(accounts[0].data@) {
            None => Err(ProgramFailure::InvalidAccountData),
            Some(p) => {
                if !accounts[2].is_signer || accounts[2].key@ != p.authority {
                    Err(ProgramFailure::Custom(UnicornFactoryError::InvalidAuthority))
                } else {
                    match spec_unpack_milestone(accounts[3].data@) {
                        None => Err(ProgramFailure::InvalidAccountData),
                        Some(m) => {
                            let md = derived_address(
                                milestone_seeds(accounts[0].key@, milestone_id),
                                program_id,
                            );
                            if md is None || md.unwrap().0 != accounts[3].key@ {
                                Err(ProgramFailure::IncorrectProgramId)
                            } else if m.has_proposal {
                                Err(
                                    ProgramFailure::Custom(
                                        UnicornFactoryError::MilestoneAlreadyHasProposal,
                                    ),
                                )
                            } else {
                                let pd = derived_address(
                                    proposal_seeds(accounts[0].key@, p.proposal_count),
                                    program_id,
                                );
                                if pd is None || pd.unwrap().0 != accounts[1].key@ {
                                    Err(ProgramFailure::IncorrectProgramId)
                                } else if has_nonzero(accounts[1].data@) {
                                    Err(ProgramFailure::AccountAlreadyInitialized)
                                } else if now > i64::MAX - VOTING_WINDOW {
                                    Err(ProgramFailure::Custom(UnicornFactoryError::Overflow))
                                } else if p.proposal_count == 255 {
                                    Err(ProgramFailure::Custom(UnicornFactoryError::Overflow))
                                } else {
                                    Ok(
                                        (
                                            pd.unwrap().1,
                                            ProposalView {
                                                creator: accounts[2].key@,
                                                title: title,
                                                description: description,
                                                milestone_id,
                                                yes_votes: 0,
                                                no_votes: 0,
                                                is_executed: false,
                                                created_at: now,
                                                voting_end: (now + VOTING_WINDOW) as i64,
                                            },
                                            MilestoneView { has_proposal: true, ..m },
                                            ProjectView {
                                                proposal_count: (p.proposal_count + 1) as u8,
                                                ..p
                                            },
                                        ),
                                    )
                                }
                            }
                        },
                    }
                }
            },
        }
    }
}

/// Creates a proposal: the project authority must sign; the milestone
/// account must be the derived address for the given index and must not
/// already be targeted; the proposal account must be the derived
/// address for the project's next proposal index and still empty.  The
/// milestone is marked as targeted for good, whatever the vote ends as.
pub fn process_create_proposal(
    program_id: &Vec<u8>,
    accounts: &Vec<AccountView>,
    title: Vec<u8>,
    description: Vec<u8>,
    milestone_id: u8,
    now: i64,
) -> (r: Result<CreateProposalOutcome, ProgramFailure>)
    requires
        program_id@.len() == 32,
    ensures
        match spec_process_create_proposal(
            program_id@,
            accounts@,
            title@,
            description@,
            milestone_id,
            now,
        ) {
            Ok(o) => r is Ok && r.unwrap().proposal_bump == o.0 && r.unwrap().proposal@ == o.1
                && r.unwrap().milestone@ == o.2 && r.unwrap().project@ == o.3,
            Err(e) => r is Err && r.unwrap_err() == e,
        },
{
    if accounts.len() < 5 {
        return Err(ProgramFailure::NotEnoughAccountKeys);
    }
    let system_id = system_program_id();
    if !bytes_eq(&accounts[4].key, &system_id) {
        return Err(ProgramFailure::IncorrectProgramId);
    }
    let project = match Project::unpack(&accounts[0].data) {
        Ok(p) => p,
        Err(_) => {
            return Err(ProgramFailure::InvalidAccountData);
        },
    };
    if !accounts[2].is_signer || !bytes_eq(&accounts[2].key, &project.authority) {
        return Err(ProgramFailure::Custom(UnicornFactoryError::InvalidAuthority));
    }
    let milestone = match Milestone::unpack(&accounts[3].data) {
        Ok(m) => m,
        Err(_) => {
            return Err(ProgramFailure::InvalidAccountData);
        },
    };
    match derive_milestone_address(&accounts[0].key, milestone_id, program_id) {
        None => {
            return Err(ProgramFailure::IncorrectProgramId);
        },
        Some(found) => {
            if !bytes_eq(&found.0, &accounts[3].key) {
                return Err(ProgramFailure::IncorrectProgramId);
            }
        },
    }
    if milestone.has_proposal {
        return Err(ProgramFailure::Custom(UnicornFactoryError::MilestoneAlreadyHasProposal));
    }
    let proposal_bump: u8;
    match derive_proposal_address(&accounts[0].key, project.proposal_count, program_id) {
        None => {
            return Err(ProgramFailure::IncorrectProgramId);
        },
        Some(found) => {
            if !bytes_eq(&found.0, &accounts[1].key) {
                return Err(ProgramFailure::IncorrectProgramId);
            }
            proposal_bump = found.1;
        },
    }
    if data_has_nonzero(&accounts[1].data) {
        return Err(ProgramFailure::AccountAlreadyInitialized);
    }
    if now > i64::MAX - VOTING_WINDOW {
        return Err(ProgramFailure::Custom(UnicornFactoryError::Overflow));
    }
    if project.proposal_count == 255 {
        return Err(ProgramFailure::Custom(UnicornFactoryError::Overflow));
    }
    let proposal = new_proposal(&accounts[2].key, title, description, milestone_id, now);
    let marked = crate::governance::mark_has_proposal(&milestone);
    let updated = with_proposal_count(&project, project.proposal_count + 1);
    Ok(CreateProposalOutcome { proposal_bump, proposal, milestone: marked, project: updated })
}

/// Outcome of a vote: the proposal with one tally advanced.
#[derive(Clone, Debug, PartialEq)]
pub struct VoteOutcome {
    pub proposal: Proposal,
}

/// Expected result of the vote handler.
pub open spec fn spec_process_vote(
    program_id: Seq<u8>,
    accounts: Seq<AccountView>,
    proposal_id: u64,
    choice: bool,
    now: i64,
) -> Result<ProposalView, ProgramFailure> {
    if accounts.len() < 4 {
        Err(ProgramFailure::NotEnoughAccountKeys)
    } else if !accounts[2].is_signer {
        Err(ProgramFailure::MissingRequiredSignature)
    } else if accounts[3].key@ != spec_system_program_id() {
        Err(ProgramFailure::IncorrectProgramId)
    } else {
        match spec_unpack_project(accounts[0].data@) {
            None => Err(ProgramFailure::InvalidAccountData),
            Some(p) => {
                let pd = derived_address(
                    proposal_seeds(accounts[0].key@, proposal_id as u8),
                    program_id,
                );
                if pd is None || pd.unwrap().0 != accounts[1].key@ {
                    Err(ProgramFailure::IncorrectProgramId)
                } else {
                    match spec_unpack_proposal(accounts[1].data@) {
                        None => Err(ProgramFailure::InvalidAccountData),
                        Some(pr) => match spec_vote(pr, choice, now) {
                            Ok(v) => Ok(v),
                            Err(e) => Err(ProgramFailure::Custom(e)),
                        },
                    }
                }
            },
        }
    }
}

/// Records one vote: the voter must sign, and the proposal account must
/// be the derived address for the given index.  Every accepted call
/// counts as one vote; no voter deduplication is applied.
pub fn process_vote(
    program_id: &Vec<u8>,
    accounts: &Vec<AccountView>,
    proposal_id: u64,
    choice: bool,
    now: i64,
) -> (r: Result<VoteOutcome, ProgramFailure>)
    requires
        program_id@.len() == 32,
    ensures
        match spec_process_vote(program_id@, accounts@, proposal_id, choice, now) {
            Ok(o) => r is Ok && r.unwrap().proposal@ == o,
            Err(e) => r is Err && r.unwrap_err() == e,
        },
{
    if accounts.len() < 4 {
        return Err(ProgramFailure::NotEnoughAccountKeys);
    }
    if !accounts[2].is_signer {
        return Err(ProgramFailure::MissingRequiredSignature);
    }
    let system_id = system_program_id();
    if !bytes_eq(&accounts[3].key, &system_id) {
        return Err(ProgramFailure::IncorrectProgramId);
    }
    match Project::unpack(&accounts[0].data) {
        Ok(_) => {},
        Err(_) => {
            return Err(ProgramFailure::InvalidAccountData);
        },
    }
    let index = #[verifier::truncate] (proposal_id as u8);
    match derive_proposal_address(&accounts[0].key, index, program_id) {
        None => {
            return Err(ProgramFailure::IncorrectProgramId);
        },
        Some(found) => {
            if !bytes_eq(&found.0, &accounts[1].key) {
                return Err(ProgramFailure::IncorrectProgramId);
            }
        },
    }
    let proposal = match Proposal::unpack(&accounts[1].data) {
        Ok(p) => p,
        Err(_) => {
            return Err(ProgramFailure::InvalidAccountData);
        },
    };
    match crate::governance::vote(&proposal, choice, now) {
        Ok(updated) => Ok(VoteOutcome { proposal: updated }),
        Err(e) => Err(ProgramFailure::Custom(e)),
    }
}

/// Outcome of a release: the payout to move from the treasury to the
/// authority, the executed proposal, and the completed milestone.
#[derive(Clone, Debug, PartialEq)]
pub struct ReleaseOutcome {
    pub amount: u64,
    pub proposal: Proposal,
    pub milestone: Milestone,
}

/// Expected result of the release handler.
pub open spec fn spec_process_release(
    program_id: Seq<u8>,
    accounts: Seq<AccountView>,
    proposal_id: u64,
    now: i64,
) -> Result<(u64, ProposalView, MilestoneView), ProgramFailure> {
    if accounts.len() < 5 {
        Err(ProgramFailure::NotEnoughAccountKeys)
    } else if accounts[4].key@ != spec_system_program_id() {
        Err(ProgramFailure::IncorrectProgramId)
    } else {
        match spec_unpack_project(accounts[0].data@) {
            None => Err(ProgramFailure::InvalidAccountData),
            Some(p) => {
                if !accounts[2].is_signer || accounts[2].key@ != p.authority {
                    Err(ProgramFailure::Custom(UnicornFactoryError::InvalidAuthority))
                } else {
                    let pd = derived_address(
                        proposal_seeds(accounts[0].key@, proposal_id as u8),
                        program_id,
                    );
                    if pd is None || pd.unwrap().0 != accounts[1].key@ {
                        Err(ProgramFailure::IncorrectProgramId)
                    } else {
                        match spec_unpack_proposal(accounts[1].data@) {
                            None => Err(ProgramFailure::InvalidAccountData),
                            Some(pr) => match spec_release_check(pr, now) {
                                Some(e) => Err(ProgramFailure::Custom(e)),
                                None => match spec_unpack_milestone(accounts[3].data@) {
                                    None => Err(ProgramFailure::InvalidAccountData),
                                    Some(m) => {
                                        let md = derived_address(
                                            milestone_seeds(accounts[0].key@, pr.milestone_id),
                                            program_id,
                                        );
                                        if md is None || md.unwrap().0 != accounts[3].key@ {
                                            Err(ProgramFailure::IncorrectProgramId)
                                        } else if accounts[0].lamports < m.amount {
                                            Err(
                                                ProgramFailure::Custom(
                                                    UnicornFactoryError::InvalidAmount,
                                                ),
                                            )
                                        } else {
                                            Ok(
                                                (
                                                    m.amount,
                                                    ProposalView { is_executed: true, ..pr },
                                                    MilestoneView { is_completed: true, ..m },
                                                ),
                                            )
                                        }
                                    },
                                },
                            },
                        }
                    }
                }
            },
        }
    }
}

/// Releases a milestone's payout: the project authority must sign, the
/// proposal and milestone accounts must be the derived addresses, the
/// voting window must have closed with more yes than no votes, and the
/// treasury must cover the payout fixed at the milestone's creation.
/// The proposal becomes executed and the milestone completed.
pub fn process_release_funds(
    program_id: &Vec<u8>,
    accounts: &Vec<AccountView>,
    proposal_id: u64,
    now: i64,
) -> (r: Result<ReleaseOutcome, ProgramFailure>)
    requires
        program_id@.len() == 32,
    ensures
        match spec_process_release(program_id@, accounts@, proposal_id, now) {
            Ok(o) => r is Ok && r.unwrap().amount == o.0 && r.unwrap().proposal@ == o.1
                && r.unwrap().milestone@ == o.2,
            Err(e) => r is Err && r.unwrap_err() == e,
        },
{
    if accounts.len() < 5 {
        return Err(ProgramFailure::NotEnoughAccountKeys);
    }
    let system_id = system_program_id();
    if !bytes_eq(&accounts[4].key, &system_id) {
        return Err(ProgramFailure::IncorrectProgramId);
    }
    let project = match Project::unpack(&accounts[0].data) {
        Ok(p) => p,
        Err(_) => {
            return Err(ProgramFailure::InvalidAccountData);
        },
    };
    if !accounts[2].is_signer || !bytes_eq(&accounts[2].key, &project.authority) {
        return Err(ProgramFailure::Custom(UnicornFactoryError::InvalidAuthority));
    }
    let index = #[verifier::truncate] (proposal_id as u8);
    match derive_proposal_address(&accounts[0].key, index, program_id) {
        None => {
            return Err(ProgramFailure::IncorrectProgramId);
        },
        Some(found) => {
            if !bytes_eq(&found.0, &accounts[1].key) {
                return Err(ProgramFailure::IncorrectProgramId);
            }
        },
    }
    let proposal = match Proposal::unpack(&accounts[1].data) {
        Ok(p) => p,
        Err(_) => {
            return Err(ProgramFailure::InvalidAccountData);
        },
    };
    match release_check(&proposal, now) {
        Ok(_) => {},
        Err(e) => {
            return Err(ProgramFailure::Custom(e));
        },
    }
    let milestone = match Milestone::unpack(&accounts[3].data) {
        Ok(m) => m,
        Err(_) => {
            return Err(ProgramFailure::InvalidAccountData);
        },
    };
    match derive_milestone_address(&accounts[0].key, proposal.milestone_id, program_id) {
        None => {
            return Err(ProgramFailure::IncorrectProgramId);
        },
        Some(found) => {
            if !bytes_eq(&found.0, &accounts[3].key) {
                return Err(ProgramFailure::IncorrectProgramId);
            }
        },
    }
    if accounts[0].lamports < milestone.amount {
        return Err(ProgramFailure::Custom(UnicornFactoryError::InvalidAmount));
    }
    let amount = milestone.amount;
    let applied = release_apply(&proposal, &milestone);
    Ok(ReleaseOutcome { amount, proposal: applied.0, milestone: applied.1 })
}

/// Outcome of adding a milestone: the derived bump seed, the fresh
/// milestone record for a newly created milestone sub-account, and the
/// project with its milestone counter advanced.
#[derive(Clone, Debug, PartialEq)]
pub struct AddMilestoneOutcome {
    pub milestone_bump: u8,
    pub milestone: Milestone,
    pub project: Project,
}

/// Expected result of the add-milestone handler.
pub open spec fn spec_process_add_milestone(
    program_id: Seq<u8>,
    accounts: Seq<AccountView>,
    title: Seq<u8>,
    description: Seq<u8>,
    amount: u64,
) -> Result<(u8, MilestoneView, ProjectView), ProgramFailure> {
    if accounts.len() < 4 {
        Err(ProgramFailure::NotEnoughAccountKeys)
    } else if accounts[3].key@ != spec_system_program_id() {
        Err(ProgramFailure::IncorrectProgramId)
    } else {
        match spec_unpack_project(accounts[0].data@) {
            None => Err(ProgramFailure::InvalidAccountData),
            Some(p) => {
                if !accounts[2].is_signer || accounts[2].key@ != p.authority {
                    Err(ProgramFailure::Custom(UnicornFactoryError::InvalidAuthority))
                } else {
                    let md = derived_address(
                        milestone_seeds(accounts[0].key@, p.milestone_count),
                        program_id,
                    );
                    if md is None || md.unwrap().0 != accounts[1].key@ {
                        Err(ProgramFailure::IncorrectProgramId)
                    } else if has_nonzero(accounts[1].data@) {
                        Err(ProgramFailure::AccountAlreadyInitialized)
                    } else if p.milestone_count == 255 {
                        Err(ProgramFailure::Custom(UnicornFactoryError::Overflow))
                    } else {
                        Ok(
                            (
                                md.unwrap().1,
                                MilestoneView {
                                    title: title,
                                    description: description,
                                    amount,
                                    is_completed: false,
                                    completed_at: 0,
                                    has_proposal: false,
                                },
                                ProjectView {
                                    milestone_count: (p.milestone_count + 1) as u8,
                                    ..p
                                },
                            ),
                        )
                    }
                }
            },
        }
    }
}

/// Adds a milestone: the project authority must sign, and the milestone
/// account must be the derived address for the project's next milestone
/// index and still empty.
pub fn process_add_milestone(
    program_id: &Vec<u8>,
    accounts: &Vec<AccountView>,
    title: Vec<u8>,
    description: Vec<u8>,
    amount: u64,
) -> (r: Result<AddMilestoneOutcome, ProgramFailure>)
    requires
        program_id@.len() == 32,
    ensures
        match spec_process_add_milestone(program_id@, accounts@, title@, description@, amount) {
            Ok(o) => r is Ok && r.unwrap().milestone_bump == o.0 && r.unwrap().milestone@ == o.1
                && r.unwrap().project@ == o.2,
            Err(e) => r is Err && r.unwrap_err() == e,
        },
{
    if accounts.len() < 4 {
        return Err(ProgramFailure::NotEnoughAccountKeys);
    }
    let system_id = system_program_id();
    if !bytes_eq(&accounts[3].key, &system_id) {
        return Err(ProgramFailure::IncorrectProgramId);
    }
    let project = match Project::unpack(&accounts[0].data) {
        Ok(p) => p,
        Err(_) => {
            return Err(ProgramFailure::InvalidAccountData);
        },
    };
    if !accounts[2].is_signer || !bytes_eq(&accounts[2].key, &project.authority) {
        return Err(ProgramFailure::Custom(UnicornFactoryError::InvalidAuthority));
    }
    let milestone_bump: u8;
    match derive_milestone_address(&accounts[0].key, project.milestone_count, program_id) {
        None => {
            return Err(ProgramFailure::IncorrectProgramId);
        },
        Some(found) => {
            if !bytes_eq(&found.0, &accounts[1].key) {
                return Err(ProgramFailure::IncorrectProgramId);
            }
            milestone_bump = found.1;
        },
    }
    if data_has_nonzero(&accounts[1].data) {
        return Err(ProgramFailure::AccountAlreadyInitialized);
    }
    if project.milestone_count == 255 {
        return Err(ProgramFailure::Custom(UnicornFactoryError::Overflow));
    }
    let milestone = new_milestone(title, description, amount);
    let updated = with_milestone_count(&project, project.milestone_count + 1);
    Ok(AddMilestoneOutcome { milestone_bump, milestone, project: updated })
}

/// Outcome of the direct completion path: the milestone marked
/// completed with its completion time stamped.
#[derive(Clone, Debug, PartialEq)]
pub struct CompleteMilestoneOutcome {
    pub milestone: Milestone,
}

/// Expected result of the complete-milestone handler.
pub open spec fn spec_process_complete_milestone(
    program_id: Seq<u8>,
    accounts: Seq<AccountView>,
    milestone_id: u8,
    now: i64,
) -> Result<MilestoneView, ProgramFailure> {
    if accounts.len() < 4 {
        Err(ProgramFailure::NotEnoughAccountKeys)
    } else if accounts[3].key@ != spec_system_program_id() {
        Err(ProgramFailure::IncorrectProgramId)
    } else {
        match spec_unpack_project(accounts[0].data@) {
            None => Err(ProgramFailure::InvalidAccountData),
            Some(p) => {
                if !accounts[2].is_signer || accounts[2].key@ != p.authority {
                    Err(ProgramFailure::Custom(UnicornFactoryError::InvalidAuthority))
                } else {
                    let md = derived_address(
                        milestone_seeds(accounts[0].key@, milestone_id),
                        program_id,
                    );
                    if md is None || md.unwrap().0 != accounts[1].key@ {
                        Err(ProgramFailure::IncorrectProgramId)
                    } else {
                        match spec_unpack_milestone(accounts[1].data@) {
                            None => Err(ProgramFailure::InvalidAccountData),
                            Some(m) => {
                                if m.is_completed {
                                    Err(
                                        ProgramFailure::Custom(
                                            UnicornFactoryError::MilestoneAlreadyCompleted,
                                        ),
                                    )
                                } else {
                                    Ok(
                                        MilestoneView {
                                            is_completed: true,
                                            completed_at: now,
                                            ..m
                                        },
                                    )
                                }
                            },
                        }
                    }
                }
            },
        }
    }
}

/// Completes a milestone directly, outside governance: the project
/// authority must sign, the milestone account must be the derived
/// address, and the milestone must not already be completed.
pub fn process_complete_milestone(
    program_id: &Vec<u8>,
    accounts: &Vec<AccountView>,
    milestone_id: u8,
    now: i64,
) -> (r: Result<CompleteMilestoneOutcome, ProgramFailure>)
    requires
        program_id@.len() == 32,
    ensures
        match spec_process_complete_milestone(program_id@, accounts@, milestone_id, now) {
            Ok(o) => r is Ok && r.unwrap().milestone@ == o,
            Err(e) => r is Err && r.unwrap_err() == e,
        },
{
    if accounts.len() < 4 {
        return Err(ProgramFailure::NotEnoughAccountKeys);
    }
    let system_id = system_program_id();
    if !bytes_eq(&accounts[3].key, &system_id) {
        return Err(ProgramFailure::IncorrectProgramId);
    }
    let project = match Project::unpack(&accounts[0].data) {
        Ok(p) => p,
        Err(_) => {
            return Err(ProgramFailure::InvalidAccountData);
        },
    };
    if !accounts[2].is_signer || !bytes_eq(&accounts[2].key, &project.authority) {
        return Err(ProgramFailure::Custom(UnicornFactoryError::InvalidAuthority));
    }
    match derive_milestone_address(&accounts[0].key, milestone_id, program_id) {
        None => {
            return Err(ProgramFailure::IncorrectProgramId);
        },
        Some(found) => {
            if !bytes_eq(&found.0, &accounts[1].key) {
                return Err(ProgramFailure::IncorrectProgramId);
            }
        },
    }
    let milestone = match Milestone::unpack(&accounts[1].data) {
        Ok(m) => m,
        Err(_) => {
            return Err(ProgramFailure::InvalidAccountData);
        },
    };
    match crate::governance::complete_milestone(&milestone, now) {
        Ok(updated) => Ok(CompleteMilestoneOutcome { milestone: updated }),
        Err(e) => Err(ProgramFailure::Custom(e)),
    }
}

/// A project record with its proposal counter replaced.
fn with_proposal_count(project: &Project, count: u8) -> (p: Project)
    ensures
        p@ == (ProjectView { proposal_count: count, ..project@ }),
{
    Project {
        authority: copy_bytes(&project.authority),
        name: copy_bytes(&project.name),
        symbol: copy_bytes(&project.symbol),
        funding_goal: project.funding_goal,
        total_raised: project.total_raised,
        token_price: project.token_price,
        is_active: project.is_active,
        bump: project.bump,
        token_mint: copy_bytes(&project.token_mint),
        milestone_count: project.milestone_count,
        proposal_count: count,
    }
}

/// A project record with its milestone counter replaced.
fn with_milestone_count(project: &Project, count: u8) -> (p: Project)
    ensures
        p@ == (ProjectView { milestone_count: count, ..project@ }),
{
    Project {
        authority: copy_bytes(&project.authority),
        name: copy_bytes(&project.name),
        symbol: copy_bytes(&project.symbol),
        funding_goal: project.funding_goal,
        total_raised: project.total_raised,
        token_price: project.token_price,
        is_active: project.is_active,
        bump: project.bump,
        token_mint: copy_bytes(&project.token_mint),
        milestone_count: count,
        proposal_count: project.proposal_count,
    }
}

/// Everything one committed instruction changes or requests.
#[derive(Clone, Debug, PartialEq)]
pub enum InstructionOutcome {
    ProjectInitialized(InitializeProjectOutcome),
    Contributed(FundingOutcome),
    TokensBought(FundingOutcome),
    TokensSold(SellOutcome),
    ProposalCreated(CreateProposalOutcome),
    Voted(VoteOutcome),
    FundsReleased(ReleaseOutcome),
    MilestoneAdded(AddMilestoneOutcome),
    MilestoneCompleted(CompleteMilestoneOutcome),
}

/// Mathematical image of an instruction's outcome.
#[verifier::ext_equal]
pub ghost enum OutcomeView {
    ProjectInitialized(u8, ProjectView),
    Contributed(ProjectView, u64),
    TokensBought(ProjectView, u64),
    TokensSold(ProjectView, u64),
    ProposalCreated(u8, ProposalView, MilestoneView, ProjectView),
    Voted(ProposalView),
    FundsReleased(u64, ProposalView, MilestoneView),
    MilestoneAdded(u8, MilestoneView, ProjectView),
    MilestoneCompleted(MilestoneView),
}

impl View for InstructionOutcome {
    type V = OutcomeView;

    open spec fn view(&self) -> OutcomeView {
        match self {
            InstructionOutcome::ProjectInitialized(o) => OutcomeView::ProjectInitialized(
                o.bump,
                o.project@,
            ),
            InstructionOutcome::Contributed(o) => OutcomeView::Contributed(
                o.project@,
                o.tokens_to_mint,
            ),
            InstructionOutcome::TokensBought(o) => OutcomeView::TokensBought(
                o.project@,
                o.tokens_to_mint,
            ),
            InstructionOutcome::TokensSold(o) => OutcomeView::TokensSold(o.project@, o.refund),
            InstructionOutcome::ProposalCreated(o) => OutcomeView::ProposalCreated(
                o.proposal_bump,
                o.proposal@,
                o.milestone@,
                o.project@,
            ),
            InstructionOutcome::Voted(o) => OutcomeView::Voted(o.proposal@),
            InstructionOutcome::FundsReleased(o) => OutcomeView::FundsReleased(
                o.amount,
                o.proposal@,
                o.milestone@,
            ),
            InstructionOutcome::MilestoneAdded(o) => OutcomeView::MilestoneAdded(
                o.milestone_bump,
                o.milestone@,
                o.project@,
            ),
            InstructionOutcome::MilestoneCompleted(o) => OutcomeView::MilestoneCompleted(
                o.milestone@,
            ),
        }
    }
}

/// Expected result of a whole instruction: decoding, then the tag's
/// handler.
pub open spec fn spec_process_instruction(
    program_id: Seq<u8>,
    accounts: Seq<AccountView>,
    instruction_data: Seq<u8>,
    now: i64,
) -> Result<OutcomeView, ProgramFailure> {
    match spec_unpack_instruction(instruction_data) {
        None => Err(ProgramFailure::InvalidInstructionData),
        Some(iv) => match iv {
            InstructionView::InitializeProject { name, symbol, funding_goal } => match
                spec_process_initialize(program_id, accounts, name, symbol, funding_goal) {
                Ok(o) => Ok(OutcomeView::ProjectInitialized(o.0, o.1)),
                Err(e) => Err(e),
            },
            InstructionView::Contribute { amount } => match spec_process_contribute(
                accounts,
                amount,
            ) {
                Ok(o) => Ok(OutcomeView::Contributed(o.0, o.1)),
                Err(e) => Err(e),
            },
            InstructionView::BuyTokens { amount } => match spec_process_buy(accounts, amount) {
                Ok(o) => Ok(OutcomeView::TokensBought(o.0, o.1)),
                Err(e) => Err(e),
            },
            InstructionView::SellTokens { amount } => match spec_process_sell(accounts, amount) {
                Ok(o) => Ok(OutcomeView::TokensSold(o.0, o.1)),
                Err(e) => Err(e),
            },
            InstructionView::CreateProposal { title, description, milestone_id } => match
                spec_process_create_proposal(
                program_id,
                accounts,
                title,
                description,
                milestone_id,
                now,
            ) {
                Ok(o) => Ok(OutcomeView::ProposalCreated(o.0, o.1, o.2, o.3)),
                Err(e) => Err(e),
            },
            InstructionView::Vote { proposal_id, vote } => match spec_process_vote(
                program_id,
                accounts,
                proposal_id,
                vote,
                now,
            ) {
                Ok(o) => Ok(OutcomeView::Voted(o)),
                Err(e) => Err(e),
            },
            InstructionView::ReleaseFunds { proposal_id } => match spec_process_release(
                program_id,
                accounts,
                proposal_id,
                now,
            ) {
                Ok(o) => Ok(OutcomeView::FundsReleased(o.0, o.1, o.2)),
                Err(e) => Err(e),
            },
            InstructionView::AddMilestone { title, description, amount } => match
                spec_process_add_milestone(program_id, accounts, title, description, amount) {
                Ok(o) => Ok(OutcomeView::MilestoneAdded(o.0, o.1, o.2)),
                Err(e) => Err(e),
            },
            InstructionView::CompleteMilestone { milestone_id } => match
                spec_process_complete_milestone(program_id, accounts, milestone_id, now) {
                Ok(o) => Ok(OutcomeView::MilestoneCompleted(o)),
                Err(e) => Err(e),
            },
        },
    }
}

/// Decodes and applies one instruction against the given accounts at
/// time `now`, returning everything to commit, or the failure that
/// voids the invocation.
#[verifier::rlimit(100)]
pub fn process_instruction(
    program_id: &Vec<u8>,
    accounts: &Vec<AccountView>,
    instruction_data: &Vec<u8>,
    now: i64,
) -> (r: Result<InstructionOutcome, ProgramFailure>)
    requires
        program_id@.len() == 32,
    ensures
        match spec_process_instruction(program_id@, accounts@, instruction_data@, now) {
            Ok(o) => r is Ok && r.unwrap()@ == o,
            Err(e) => r is Err && r.unwrap_err() == e,
        },
{
    let instruction = match UnicornFactoryInstruction::unpack(instruction_data) {
        Ok(i) => i,
        Err(_) => {
            return Err(ProgramFailure::InvalidInstructionData);
        },
    };
    match instruction {
        UnicornFactoryInstruction::InitializeProject { name, symbol, funding_goal } => {
            match process_initialize_project(program_id, accounts, name, symbol, funding_goal) {
                Ok(o) => Ok(InstructionOutcome::ProjectInitialized(o)),
                Err(e) => Err(e),
            }
        },
        UnicornFactoryInstruction::Contribute { amount } => {
            match process_contribute(accounts, amount) {
                Ok(o) => Ok(InstructionOutcome::Contributed(o)),
                Err(e) => Err(e),
            }
        },
        UnicornFactoryInstruction::BuyTokens { amount } => {
            match process_buy_tokens(accounts, amount) {
                Ok(o) => Ok(InstructionOutcome::TokensBought(o)),
                Err(e) => Err(e),
            }
        },
        UnicornFactoryInstruction::SellTokens { amount } => {
            match process_sell_tokens(accounts, amount) {
                Ok(o) => Ok(InstructionOutcome::TokensSold(o)),
                Err(e) => Err(e),
            }
        },
        UnicornFactoryInstruction::CreateProposal { title, description, milestone_id } => {
            match process_create_proposal(
                program_id,
                accounts,
                title,
                description,
                milestone_id,
                now,
            ) {
                Ok(o) => Ok(InstructionOutcome::ProposalCreated(o)),
                Err(e) => Err(e),
            }
        },
        UnicornFactoryInstruction::Vote { proposal_id, vote } => {
            match process_vote(program_id, accounts, proposal_id, vote, now) {
                Ok(o) => Ok(InstructionOutcome::Voted(o)),
                Err(e) => Err(e),
            }
        },
        UnicornFactoryInstruction::ReleaseFunds { proposal_id } => {
            match process_release_funds(program_id, accounts, proposal_id, now) {
                Ok(o) => Ok(InstructionOutcome::FundsReleased(o)),
                Err(e) => Err(e),
            }
        },
        UnicornFactoryInstruction::AddMilestone { title, description, amount } => {
            match process_add_milestone(program_id, accounts, title, description, amount) {
                Ok(o) => Ok(InstructionOutcome::MilestoneAdded(o)),
                Err(e) => Err(e),
            }
        },
        UnicornFactoryInstruction::CompleteMilestone { milestone_id } => {
            match process_complete_milestone(program_id, accounts, milestone_id, now) {
                Ok(o) => Ok(InstructionOutcome::MilestoneCompleted(o)),
                Err(e) => Err(e),
            }
        },
    }
}


/// A funded contribution or purchase moves the raised total by exactly
/// the paid amount, and the project stays active afterwards exactly
/// while the new total is below the goal: it deactivates the moment
/// the goal is first reached.
pub proof fn lemma_funding_deactivates_at_goal(accounts: Seq<AccountView>, amount: u64)
    requires
        accounts.len() >= 6,
        accounts[1].is_signer,
        spec_unpack_project(accounts[0].data@) is Some,
    ensures
        ({
            let p = spec_unpack_project(accounts[0].data@).unwrap();
            &&& (p.is_active && p.total_raised < p.funding_goal && p.total_raised + amount
                <= spec_max_scalable_total()) ==> ({
                let r = spec_process_contribute(accounts, amount);
                &&& r is Ok
                &&& r.unwrap().0.total_raised == p.total_raised + amount
                &&& (r.unwrap().0.is_active <==> p.total_raised + amount < p.funding_goal)
            })
            &&& (p.is_active && p.total_raised + amount <= u64::MAX && (p.funding_goal == 0
                || p.total_raised + amount <= spec_max_scalable_total())) ==> ({
                let r = spec_process_buy(accounts, amount);
                &&& r is Ok
                &&& r.unwrap().0.total_raised == p.total_raised + amount
                &&& (r.unwrap().0.is_active <==> p.total_raised + amount < p.funding_goal)
            })
        }),
{
}

/// An inactive project refuses every sale outright, before any burn or
/// transfer: the sell path never turns activity back on.
pub proof fn lemma_sell_refused_when_inactive(accounts: Seq<AccountView>, amount: u64)
    requires
        accounts.len() >= 6,
        accounts[1].is_signer,
        accounts[4].key@ == spec_spl_token_id(),
        accounts[5].key@ == spec_system_program_id(),
        spec_unpack_project(accounts[0].data@) is Some,
        !spec_unpack_project(accounts[0].data@).unwrap().is_active,
    ensures
        ({
            let r = spec_process_sell(accounts, amount);
            r == Err::<(ProjectView, u64), ProgramFailure>(
                ProgramFailure::Custom(UnicornFactoryError::ProjectNotActive),
            )
        }),
{
}

/// A milestone accepts at most one proposal, ever: once marked, a new
/// proposal on it is refused whatever became of the first; a
/// successful creation binds the proposal to the milestone, marks the
/// milestone for good, and advances the proposal counter by one.
pub proof fn lemma_one_proposal_per_milestone(
    program_id: Seq<u8>,
    accounts: Seq<AccountView>,
    title: Seq<u8>,
    description: Seq<u8>,
    milestone_id: u8,
    now: i64,
)
    requires
        accounts.len() >= 5,
        accounts[4].key@ == spec_system_program_id(),
        spec_unpack_project(accounts[0].data@) is Some,
        accounts[2].is_signer,
        accounts[2].key@ == spec_unpack_project(accounts[0].data@).unwrap().authority,
        spec_unpack_milestone(accounts[3].data@) is Some,
    ensures
        ({
            let p = spec_unpack_project(accounts[0].data@).unwrap();
            let m = spec_unpack_milestone(accounts[3].data@).unwrap();
            let md = derived_address(milestone_seeds(accounts[0].key@, milestone_id), program_id);
            let r = spec_process_create_proposal(
                program_id,
                accounts,
                title,
                description,
                milestone_id,
                now,
            );
            let milestone_addressed = md is Some && md.unwrap().0 == accounts[3].key@;
            &&& (milestone_addressed && m.has_proposal) ==> r == Err::<
                (u8, ProposalView, MilestoneView, ProjectView),
                ProgramFailure,
            >(ProgramFailure::Custom(UnicornFactoryError::MilestoneAlreadyHasProposal))
            &&& ({
                let pd = derived_address(
                    proposal_seeds(accounts[0].key@, p.proposal_count),
                    program_id,
                );
                (milestone_addressed && !m.has_proposal && pd is Some && pd.unwrap().0
                    == accounts[1].key@ && !has_nonzero(accounts[1].data@) && now <= i64::MAX
                    - VOTING_WINDOW && p.proposal_count < 255) ==> ({
                    &&& r is Ok
                    &&& r.unwrap().1.milestone_id == milestone_id
                    &&& r.unwrap().1.yes_votes == 0 && r.unwrap().1.no_votes == 0
                    &&& !r.unwrap().1.is_executed
                    &&& r.unwrap().2.has_proposal
                    &&& r.unwrap().3.proposal_count == p.proposal_count + 1
                })
            })
        }),
{
}

/// Release is gated by the vote: an executed proposal, a window still
/// open, and a tally that did not strictly pass are each refused
/// before any effect; a passed vote with a funded treasury releases
/// exactly the payout fixed at the milestone's creation, executes the
/// proposal, and completes the milestone.
pub proof fn lemma_release_gated_by_vote(
    program_id: Seq<u8>,
    accounts: Seq<AccountView>,
    proposal_id: u64,
    now: i64,
)
    requires
        accounts.len() >= 5,
        accounts[4].key@ == spec_system_program_id(),
        spec_unpack_project(accounts[0].data@) is Some,
        accounts[2].is_signer,
        accounts[2].key@ == spec_unpack_project(accounts[0].data@).unwrap().authority,
        spec_unpack_proposal(accounts[1].data@) is Some,
    ensures
        ({
            let pr = spec_unpack_proposal(accounts[1].data@).unwrap();
            let pd = derived_address(
                proposal_seeds(accounts[0].key@, proposal_id as u8),
                program_id,
            );
            let r = spec_process_release(program_id, accounts, proposal_id, now);
            let addressed = pd is Some && pd.unwrap().0 == accounts[1].key@;
            &&& (addressed && pr.is_executed) ==> r == Err::<
                (u64, ProposalView, MilestoneView),
                ProgramFailure,
            >(ProgramFailure::Custom(UnicornFactoryError::ProposalAlreadyExecuted))
            &&& (addressed && !pr.is_executed && now <= pr.voting_end) ==> r == Err::<
                (u64, ProposalView, MilestoneView),
                ProgramFailure,
            >(ProgramFailure::Custom(UnicornFactoryError::VotingPeriodNotEnded))
            &&& (addressed && !pr.is_executed && now > pr.voting_end && pr.yes_votes
                <= pr.no_votes) ==> r == Err::<
                (u64, ProposalView, MilestoneView),
                ProgramFailure,
            >(ProgramFailure::Custom(UnicornFactoryError::ProposalDidNotPass))
            &&& ({
                let m_opt = spec_unpack_milestone(accounts[3].data@);
                let md = derived_address(
                    milestone_seeds(accounts[0].key@, pr.milestone_id),
                    program_id,
                );
                (addressed && !pr.is_executed && now > pr.voting_end && pr.yes_votes > pr.no_votes
                    && m_opt is Some && md is Some && md.unwrap().0 == accounts[3].key@
                    && accounts[0].lamports >= m_opt.unwrap().amount) ==> ({
                    &&& r is Ok
                    &&& r.unwrap().0 == m_opt.unwrap().amount
                    &&& r.unwrap().1.is_executed
                    &&& r.unwrap().2.is_completed
                })
            })
        }),
{
}

} // verus!
