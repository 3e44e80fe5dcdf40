//! Trusted boundary to the host ledger's libraries: deterministic
//! sub-account address derivation, the token program's identity, and
//! the token program's account codec.  Everything else the host does
//! (value transfer, mint, burn, rent, the clock) is an effect performed
//! outside this crate and handed in as plain values.
use solana_program::program_pack::Pack;
use vstd::bytes::spec_u64_from_le_bytes;
use vstd::prelude::*;

use crate::errors::ProgramFailure;

verus! {

/// The address and bump seed the host's deterministic derivation
/// assigns to a seed list under a program id, when one exists: a pure
/// function of its arguments.
pub uninterp spec fn derived_address(seeds: Seq<Seq<u8>>, program_id: Seq<u8>) -> Option<
    (Seq<u8>, u8),
>;

/// Relies on Pubkey::try_find_program_address of solana-program: the
/// result is a deterministic function of the seed list and the program
/// id alone, and a derived address is 32 bytes.
#[verifier::external_body]
pub(crate) fn try_derive_address(seeds: &Vec<Vec<u8>>, program_id: &Vec<u8>) -> (r: Option<
    (Vec<u8>, u8),
>)
    requires
        program_id@.len() == 32,
    ensures
        r is Some <==> derived_address(seeds.deep_view(), program_id@) is Some,
        r is Some ==> ({
            let d = derived_address(seeds.deep_view(), program_id@).unwrap();
            r.unwrap().0@ == d.0 && r.unwrap().1 == d.1 && d.0.len() == 32
        }),
{
    let refs: Vec<&[u8]> = seeds.iter().map(|s| s.as_slice()).collect();
    let arr: [u8; 32] = program_id.as_slice().try_into().unwrap();
    let pid = solana_program::pubkey::Pubkey::new_from_array(arr);
    solana_program::pubkey::Pubkey::try_find_program_address(&refs, &pid).map(
        |found: (solana_program::pubkey::Pubkey, u8)| (found.0.to_bytes().to_vec(), found.1),
    )
}

/// Byte form of the token program's declared identity,
/// `TokenkegQfeZyiNwAJbNbGKPFXCWuBvf9Ss623VQ5DA`.
pub open spec fn spec_spl_token_id() -> Seq<u8> {
    seq![
        6u8, 221u8, 246u8, 225u8, 215u8, 101u8, 161u8, 147u8, 217u8, 203u8, 225u8, 70u8, 206u8,
        235u8, 121u8, 172u8, 28u8, 180u8, 133u8, 237u8, 95u8, 91u8, 55u8, 145u8, 58u8, 140u8,
        245u8, 133u8, 126u8, 255u8, 0u8, 169u8,
    ]
}

/// Relies on spl_token::id: returns the token program's declared
/// identity, a fixed 32-byte constant.
#[verifier::external_body]
pub(crate) fn spl_token_id() -> (r: Vec<u8>)
    ensures
        r@ == spec_spl_token_id(),
{
    spl_token::id().to_bytes().to_vec()
}

/// Byte form of the value-transfer program's identity: thirty-two zero
/// bytes.
pub open spec fn spec_system_program_id() -> Seq<u8> {
    Seq::new(32, |i: int| 0u8)
}

/// The value-transfer program's identity as a vector.
pub fn system_program_id() -> (r: Vec<u8>)
    ensures
        r@ == spec_system_program_id(),
{
    let mut v: Vec<u8> = Vec::new();
    let mut i: usize = 0;
    while i < 32
        invariant
            i <= 32,
            v@ =~= Seq::new(i as nat, |j: int| 0u8),
        decreases 32 - i,
    {
        v.push(0u8);
        i = i + 1;
    }
    proof {
        assert(v@ =~= spec_system_program_id());
    }
    v
}

/// What the sell path reads from a holder's token account: its mint,
/// its recorded owner, and its balance.
#[derive(Clone, Debug, PartialEq)]
pub struct TokenAccountRecord {
    pub mint: Vec<u8>,
    pub owner: Vec<u8>,
    pub amount: u64,
}

/// A 4-byte optional-field tag as the token program writes it: 0 or 1
/// in the first byte, zeros after.
pub open spec fn coption_tag_ok(d: Seq<u8>, off: int) -> bool {
    (d[off] == 0 || d[off] == 1) && d[off + 1] == 0 && d[off + 2] == 0 && d[off + 3] == 0
}

/// A token account buffer the token program accepts as initialized:
/// exactly 165 bytes, well-formed optional-field tags, and a state
/// byte that is initialized (1) or frozen (2).
pub open spec fn token_account_ok(d: Seq<u8>) -> bool {
    &&& d.len() == 165
    &&& coption_tag_ok(d, 72)
    &&& (d[108] == 1 || d[108] == 2)
    &&& coption_tag_ok(d, 109)
    &&& coption_tag_ok(d, 129)
}

/// A token account buffer whose structure the token program accepts
/// but whose state byte says it was never initialized.
pub open spec fn token_account_uninitialized(d: Seq<u8>) -> bool {
    &&& d.len() == 165
    &&& coption_tag_ok(d, 72)
    &&& d[108] == 0
    &&& coption_tag_ok(d, 109)
    &&& coption_tag_ok(d, 129)
}

/// Relies on spl_token::state::Account::unpack: the mint, owner and
/// balance sit at fixed little-endian offsets; the buffer is rejected
/// unless it is exactly 165 bytes with well-formed optional-field
/// tags, and rejected as uninitialized when its state byte is 0.
#[verifier::external_body]
#[allow(deprecated)]
pub(crate) fn parse_token_account(data: &Vec<u8>) -> (r: Result<TokenAccountRecord, ProgramFailure>)
    ensures
        r is Ok <==> token_account_ok(data@),
        r is Ok ==> ({
            let a = r.unwrap();
            a.mint@ == data@.subrange(0, 32) && a.owner@ == data@.subrange(32, 64) && a.amount
                == spec_u64_from_le_bytes(data@.subrange(64, 72))
        }),
        r is Err ==> r.unwrap_err() == (if token_account_uninitialized(data@) {
            ProgramFailure::UninitializedAccount
        } else {
            ProgramFailure::InvalidAccountData
        }),
{
    match spl_token::state::Account::unpack(data.as_slice()) {
        Ok(a) => Ok(
            TokenAccountRecord {
                mint: a.mint.to_bytes().to_vec(),
                owner: a.owner.to_bytes().to_vec(),
                amount: a.amount,
            },
        ),
        Err(solana_program::program_error::ProgramError::UninitializedAccount) => Err(
            ProgramFailure::UninitializedAccount,
        ),
        Err(_) => Err(ProgramFailure::InvalidAccountData),
    }
}

} // verus!
