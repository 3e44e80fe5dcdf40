//! The Project record: one per funding campaign, persisted as a
//! fixed-width byte buffer.
use vstd::bytes::spec_u64_from_le_bytes;
use vstd::bytes::spec_u64_to_le_bytes;
use vstd::prelude::*;
use vstd::utf8::valid_utf8;

use crate::codec::is_valid_utf8;
use crate::codec::lemma_trim_pad;
use crate::codec::lemma_valid_utf8_append_zeros;
use crate::codec::pad_to;
use crate::codec::read_bytes;
use crate::codec::read_trimmed;
use crate::codec::read_u64_le;
use crate::codec::trim_trailing_zeros;
use crate::codec::write_bytes;
use crate::codec::write_padded;
use crate::codec::write_u64_le;
use crate::errors::ProgramFailure;

verus! {

/// Width of the fixed name field, in bytes.
pub const NAME_WIDTH: usize = 32;

/// Width of the fixed symbol field, in bytes.
pub const SYMBOL_WIDTH: usize = 8;

/// One funding campaign: its administrator, display metadata, bonding-curve
/// state, credit mint, and the sequence counters for its milestones and
/// proposals.
#[derive(Clone, Debug, PartialEq)]
pub struct Project {
    pub authority: Vec<u8>,
    pub name: Vec<u8>,
    pub symbol: Vec<u8>,
    pub funding_goal: u64,
    pub total_raised: u64,
    pub token_price: u64,
    pub is_active: bool,
    pub bump: u8,
    pub token_mint: Vec<u8>,
    pub milestone_count: u8,
    pub proposal_count: u8,
}

/// Mathematical image of a [`Project`].
#[verifier::ext_equal]
pub ghost struct ProjectView {
    pub authority: Seq<u8>,
    pub name: Seq<u8>,
    pub symbol: Seq<u8>,
    pub funding_goal: u64,
    pub total_raised: u64,
    pub token_price: u64,
    pub is_active: bool,
    pub bump: u8,
    pub token_mint: Seq<u8>,
    pub milestone_count: u8,
    pub proposal_count: u8,
}

impl View for Project {
    type V = ProjectView;

    open spec fn view(&self) -> ProjectView {
        ProjectView {
            authority: self.authority@,
            name: self.name@,
            symbol: self.symbol@,
            funding_goal: self.funding_goal,
            total_raised: self.total_raised,
            token_price: self.token_price,
            is_active: self.is_active,
            bump: self.bump,
            token_mint: self.token_mint@,
            milestone_count: self.milestone_count,
            proposal_count: self.proposal_count,
        }
    }
}

impl ProjectView {
    /// Both identity fields hold full 32-byte keys.
    pub open spec fn keys_wf(self) -> bool {
        self.authority.len() == 32 && self.token_mint.len() == 32
    }

    /// Well-formed record: full keys, and text fields that are valid
    /// UTF-8 within their declared width.
    pub open spec fn wf(self) -> bool {
        &&& self.keys_wf()
        &&& self.name.len() <= NAME_WIDTH
        &&& valid_utf8(self.name)
        &&& self.symbol.len() <= SYMBOL_WIDTH
        &&& valid_utf8(self.symbol)
    }
}

/// The byte image of a project record: every field in declaration order,
/// text fields zero-padded to their fixed width.
pub open spec fn spec_pack_project(p: ProjectView) -> Seq<u8> {
    p.authority + pad_to(p.name, NAME_WIDTH as int) + pad_to(p.symbol, SYMBOL_WIDTH as int)
        + spec_u64_to_le_bytes(p.funding_goal) + spec_u64_to_le_bytes(p.total_raised)
        + spec_u64_to_le_bytes(p.token_price) + seq![bool_byte(p.is_active)] + seq![p.bump]
        + p.token_mint + seq![p.milestone_count] + seq![p.proposal_count]
}

/// The record read back from a byte buffer: `None` when the buffer is
/// truncated or a text field is not valid UTF-8.
pub open spec fn spec_unpack_project(src: Seq<u8>) -> Option<ProjectView> {
    if src.len() < Project::LEN {
        None
    } else if !valid_utf8(src.subrange(32, 64)) || !valid_utf8(src.subrange(64, 72)) {
        None
    } else {
        Some(
            ProjectView {
                authority: src.subrange(0, 32),
                name: trim_trailing_zeros(src.subrange(32, 64)),
                symbol: trim_trailing_zeros(src.subrange(64, 72)),
                funding_goal: spec_u64_from_le_bytes(src.subrange(72, 80)),
                total_raised: spec_u64_from_le_bytes(src.subrange(80, 88)),
                token_price: spec_u64_from_le_bytes(src.subrange(88, 96)),
                is_active: src[96] != 0,
                bump: src[97],
                token_mint: src.subrange(98, 130),
                milestone_count: src[130],
                proposal_count: src[131],
            },
        )
    }
}

/// Byte encoding of a flag.
pub open spec fn bool_byte(b: bool) -> u8 {
    if b {
        1u8
    } else {
        0u8
    }
}

impl Project {
    /// Packed size of the record, in bytes.
    pub const LEN: usize = 32 + 32 + 8 + 8 + 8 + 8 + 1 + 1 + 32 + 1 + 1;

    /// Serializes the record into its fixed-width byte image.
    pub fn pack(&self) -> (out: Vec<u8>)
        requires
            self@.keys_wf(),
        ensures
            out@ == spec_pack_project(self@),
            out@.len() == Project::LEN,
    {
        let mut out: Vec<u8> = Vec::new();
        write_bytes(&mut out, &self.authority);
        write_padded(&mut out, &self.name, NAME_WIDTH);
        write_padded(&mut out, &self.symbol, SYMBOL_WIDTH);
        write_u64_le(&mut out, self.funding_goal);
        write_u64_le(&mut out, self.total_raised);
        write_u64_le(&mut out, self.token_price);
        out.push(if self.is_active {
            1u8
        } else {
            0u8
        });
        out.push(self.bump);
        write_bytes(&mut out, &self.token_mint);
        out.push(self.milestone_count);
        out.push(self.proposal_count);
        proof {
            vstd::bytes::lemma_auto_spec_u64_to_from_le_bytes();
            assert(out@ =~= spec_pack_project(self@));
        }
        out
    }

    /// Deserializes a record, failing on a truncated buffer or malformed
    /// UTF-8 in a text field.
    pub fn unpack(src: &Vec<u8>) -> (r: Result<Project, ProgramFailure>)
        ensures
            match spec_unpack_project(src@) {
                Some(v) => r is Ok && r.unwrap()@ == v && v.wf(),
                None => r is Err && r.unwrap_err() == ProgramFailure::InvalidAccountData,
            },
    {
        if src.len() < Self::LEN {
            return Err(ProgramFailure::InvalidAccountData);
        }
        let name_raw = read_bytes(src, 32, 32);
        if !is_valid_utf8(&name_raw) {
            return Err(ProgramFailure::InvalidAccountData);
        }
        let symbol_raw = read_bytes(src, 64, 8);
        if !is_valid_utf8(&symbol_raw) {
            return Err(ProgramFailure::InvalidAccountData);
        }
        let p = Project {
            authority: read_bytes(src, 0, 32),
            name: read_trimmed(src, 32, 32),
            symbol: read_trimmed(src, 64, 8),
            funding_goal: read_u64_le(src, 72),
            total_raised: read_u64_le(src, 80),
            token_price: read_u64_le(src, 88),
            is_active: src[96] != 0,
            bump: src[97],
            token_mint: read_bytes(src, 98, 32),
            milestone_count: src[130],
            proposal_count: src[131],
        };
        proof {
            lemma_trim_valid_utf8_wf(src@.subrange(32, 64), NAME_WIDTH as int);
            lemma_trim_valid_utf8_wf(src@.subrange(64, 72), SYMBOL_WIDTH as int);
        }
        Ok(p)
    }
}

/// Trimming a valid fixed-width UTF-8 field leaves a valid field within
/// the width.
proof fn lemma_trim_valid_utf8_wf(s: Seq<u8>, w: int)
    requires
        s.len() == w,
        valid_utf8(s),
    ensures
        trim_trailing_zeros(s).len() <= w,
        valid_utf8(trim_trailing_zeros(s)),
    decreases s.len(),
{
    crate::codec::lemma_trim_len(s);
    crate::codec::lemma_trim_valid_utf8(s);
}

/// A project record survives the pack/unpack round trip field for field,
/// provided its text fields carry no trailing zero byte of their own.
pub proof fn lemma_project_round_trip(p: ProjectView)
    requires
        p.wf(),
        p.name.len() > 0 ==> p.name[p.name.len() - 1] != 0,
        p.symbol.len() > 0 ==> p.symbol[p.symbol.len() - 1] != 0,
    ensures
        spec_unpack_project(spec_pack_project(p)) == Some(p),
{
    let packed = spec_pack_project(p);
    let name_field = pad_to(p.name, NAME_WIDTH as int);
    let symbol_field = pad_to(p.symbol, SYMBOL_WIDTH as int);
    assert(name_field =~= p.name + Seq::new((NAME_WIDTH - p.name.len()) as nat, |i: int| 0u8));
    assert(symbol_field =~= p.symbol + Seq::new(
        (SYMBOL_WIDTH - p.symbol.len()) as nat,
        |i: int| 0u8,
    ));
    lemma_valid_utf8_append_zeros(p.name, (NAME_WIDTH - p.name.len()) as nat);
    lemma_valid_utf8_append_zeros(p.symbol, (SYMBOL_WIDTH - p.symbol.len()) as nat);
    vstd::bytes::lemma_auto_spec_u64_to_from_le_bytes();
    assert(packed.len() == Project::LEN);
    assert(packed.subrange(0, 32) =~= p.authority);
    assert(packed.subrange(32, 64) =~= name_field);
    assert(packed.subrange(64, 72) =~= symbol_field);
    assert(packed.subrange(72, 80) =~= spec_u64_to_le_bytes(p.funding_goal));
    assert(packed.subrange(80, 88) =~= spec_u64_to_le_bytes(p.total_raised));
    assert(packed.subrange(88, 96) =~= spec_u64_to_le_bytes(p.token_price));
    assert(packed[96] == bool_byte(p.is_active));
    assert(packed[97] == p.bump);
    assert(packed.subrange(98, 130) =~= p.token_mint);
    assert(packed[130] == p.milestone_count);
    assert(packed[131] == p.proposal_count);
    lemma_trim_pad(p.name, NAME_WIDTH as int);
    lemma_trim_pad(p.symbol, SYMBOL_WIDTH as int);
    assert(spec_unpack_project(packed).unwrap() =~= p);
}

} // verus!
