//! The Proposal record: one per governance vote, bound to exactly one
//! milestone.
use vstd::bytes::spec_u64_from_le_bytes;
use vstd::bytes::spec_u64_to_le_bytes;
use vstd::prelude::*;
use vstd::utf8::valid_utf8;

use crate::codec::is_valid_utf8;
use crate::codec::lemma_i64_le_bytes_round_trip;
use crate::codec::lemma_trim_len;
use crate::codec::lemma_trim_pad;
use crate::codec::lemma_trim_valid_utf8;
use crate::codec::lemma_valid_utf8_append_zeros;
use crate::codec::pad_to;
use crate::codec::read_bytes;
use crate::codec::read_i64_le;
use crate::codec::read_trimmed;
use crate::codec::read_u64_le;
use crate::codec::spec_i64_from_le_bytes;
use crate::codec::spec_i64_to_le_bytes;
use crate::codec::trim_trailing_zeros;
use crate::codec::write_bytes;
use crate::codec::write_i64_le;
use crate::codec::write_padded;
use crate::codec::write_u64_le;
use crate::errors::ProgramFailure;
use crate::milestone::DESC_WIDTH;
use crate::milestone::TITLE_WIDTH;
use crate::project::bool_byte;

verus! {

/// One governance vote: its creator, the milestone it targets, the
/// unweighted tallies, and the voting window.
#[derive(Clone, Debug, PartialEq)]
pub struct Proposal {
    pub creator: Vec<u8>,
    pub title: Vec<u8>,
    pub description: Vec<u8>,
    pub milestone_id: u8,
    pub yes_votes: u64,
    pub no_votes: u64,
    pub is_executed: bool,
    pub created_at: i64,
    pub voting_end: i64,
}

/// Mathematical image of a [`Proposal`].
#[verifier::ext_equal]
pub ghost struct ProposalView {
    pub creator: Seq<u8>,
    pub title: Seq<u8>,
    pub description: Seq<u8>,
    pub milestone_id: u8,
    pub yes_votes: u64,
    pub no_votes: u64,
    pub is_executed: bool,
    pub created_at: i64,
    pub voting_end: i64,
}

impl View for Proposal {
    type V = ProposalView;

    open spec fn view(&self) -> ProposalView {
        ProposalView {
            creator: self.creator@,
            title: self.title@,
            description: self.description@,
            milestone_id: self.milestone_id,
            yes_votes: self.yes_votes,
            no_votes: self.no_votes,
            is_executed: self.is_executed,
            created_at: self.created_at,
            voting_end: self.voting_end,
        }
    }
}

impl ProposalView {
    /// Well-formed record: a full creator key, and text fields that are
    /// valid UTF-8 within their declared width.
    pub open spec fn wf(self) -> bool {
        &&& self.creator.len() == 32
        &&& self.title.len() <= TITLE_WIDTH
        &&& valid_utf8(self.title)
        &&& self.description.len() <= DESC_WIDTH
        &&& valid_utf8(self.description)
    }
}

/// The byte image of a proposal record: every field in declaration
/// order, text fields zero-padded to their fixed width.
pub open spec fn spec_pack_proposal(p: ProposalView) -> Seq<u8> {
    p.creator + pad_to(p.title, TITLE_WIDTH as int) + pad_to(p.description, DESC_WIDTH as int)
        + seq![p.milestone_id] + spec_u64_to_le_bytes(p.yes_votes) + spec_u64_to_le_bytes(
        p.no_votes,
    ) + seq![bool_byte(p.is_executed)] + spec_i64_to_le_bytes(p.created_at) + spec_i64_to_le_bytes(
        p.voting_end,
    )
}

/// The record read back from a byte buffer: `None` when the buffer is
/// truncated or a text field is not valid UTF-8.
pub open spec fn spec_unpack_proposal(src: Seq<u8>) -> Option<ProposalView> {
    if src.len() < Proposal::LEN {
        None
    } else if !valid_utf8(src.subrange(32, 64)) || !valid_utf8(src.subrange(64, 320)) {
        None
    } else {
        Some(
            ProposalView {
                creator: src.subrange(0, 32),
                title: trim_trailing_zeros(src.subrange(32, 64)),
                description: trim_trailing_zeros(src.subrange(64, 320)),
                milestone_id: src[320],
                yes_votes: spec_u64_from_le_bytes(src.subrange(321, 329)),
                no_votes: spec_u64_from_le_bytes(src.subrange(329, 337)),
                is_executed: src[337] != 0,
                created_at: spec_i64_from_le_bytes(src.subrange(338, 346)),
                voting_end: spec_i64_from_le_bytes(src.subrange(346, 354)),
            },
        )
    }
}

impl Proposal {
    /// Packed size of the record, in bytes.
    pub const LEN: usize = 32 + 32 + 256 + 1 + 8 + 8 + 1 + 8 + 8;

    /// Serializes the record into its fixed-width byte image.
    pub fn pack(&self) -> (out: Vec<u8>)
        requires
            self@.creator.len() == 32,
        ensures
            out@ == spec_pack_proposal(self@),
            out@.len() == Proposal::LEN,
    {
        let mut out: Vec<u8> = Vec::new();
        write_bytes(&mut out, &self.creator);
        write_padded(&mut out, &self.title, TITLE_WIDTH);
        write_padded(&mut out, &self.description, DESC_WIDTH);
        out.push(self.milestone_id);
        write_u64_le(&mut out, self.yes_votes);
        write_u64_le(&mut out, self.no_votes);
        out.push(if self.is_executed {
            1u8
        } else {
            0u8
        });
        write_i64_le(&mut out, self.created_at);
        write_i64_le(&mut out, self.voting_end);
        proof {
            vstd::bytes::lemma_auto_spec_u64_to_from_le_bytes();
            assert(out@ =~= spec_pack_proposal(self@));
        }
        out
    }

    /// Deserializes a record, failing on a truncated buffer or malformed
    /// UTF-8 in a text field.
    pub fn unpack(src: &Vec<u8>) -> (r: Result<Proposal, ProgramFailure>)
        ensures
            match spec_unpack_proposal(src@) {
                Some(v) => r is Ok && r.unwrap()@ == v && v.wf(),
                None => r is Err && r.unwrap_err() == ProgramFailure::InvalidAccountData,
            },
    {
        if src.len() < Self::LEN {
            return Err(ProgramFailure::InvalidAccountData);
        }
        let title_raw = read_bytes(src, 32, 32);
        if !is_valid_utf8(&title_raw) {
            return Err(ProgramFailure::InvalidAccountData);
        }
        let desc_raw = read_bytes(src, 64, 256);
        if !is_valid_utf8(&desc_raw) {
            return Err(ProgramFailure::InvalidAccountData);
        }
        let p = Proposal {
            creator: read_bytes(src, 0, 32),
            title: read_trimmed(src, 32, 32),
            description: read_trimmed(src, 64, 256),
            milestone_id: src[320],
            yes_votes: read_u64_le(src, 321),
            no_votes: read_u64_le(src, 329),
            is_executed: src[337] != 0,
            created_at: read_i64_le(src, 338),
            voting_end: read_i64_le(src, 346),
        };
        proof {
            lemma_trim_len(src@.subrange(32, 64));
            lemma_trim_valid_utf8(src@.subrange(32, 64));
            lemma_trim_len(src@.subrange(64, 320));
            lemma_trim_valid_utf8(src@.subrange(64, 320));
        }
        Ok(p)
    }
}

/// A proposal record survives the pack/unpack round trip field for
/// field, provided its text fields carry no trailing zero byte of their
/// own.
pub proof fn lemma_proposal_round_trip(p: ProposalView)
    requires
        p.wf(),
        p.title.len() > 0 ==> p.title[p.title.len() - 1] != 0,
        p.description.len() > 0 ==> p.description[p.description.len() - 1] != 0,
    ensures
        spec_unpack_proposal(spec_pack_proposal(p)) == Some(p),
{
    let packed = spec_pack_proposal(p);
    let title_field = pad_to(p.title, TITLE_WIDTH as int);
    let desc_field = pad_to(p.description, DESC_WIDTH as int);
    assert(title_field =~= p.title + Seq::new((TITLE_WIDTH - p.title.len()) as nat, |i: int| 0u8));
    assert(desc_field =~= p.description + Seq::new(
        (DESC_WIDTH - p.description.len()) as nat,
        |i: int| 0u8,
    ));
    lemma_valid_utf8_append_zeros(p.title, (TITLE_WIDTH - p.title.len()) as nat);
    lemma_valid_utf8_append_zeros(p.description, (DESC_WIDTH - p.description.len()) as nat);
    vstd::bytes::lemma_auto_spec_u64_to_from_le_bytes();
    lemma_i64_le_bytes_round_trip(p.created_at);
    lemma_i64_le_bytes_round_trip(p.voting_end);
    assert(packed.len() == Proposal::LEN);
    assert(packed.subrange(0, 32) =~= p.creator);
    assert(packed.subrange(32, 64) =~= title_field);
    assert(packed.subrange(64, 320) =~= desc_field);
    assert(packed[320] == p.milestone_id);
    assert(packed.subrange(321, 329) =~= spec_u64_to_le_bytes(p.yes_votes));
    assert(packed.subrange(329, 337) =~= spec_u64_to_le_bytes(p.no_votes));
    assert(packed[337] == bool_byte(p.is_executed));
    assert(packed.subrange(338, 346) =~= spec_i64_to_le_bytes(p.created_at));
    assert(packed.subrange(346, 354) =~= spec_i64_to_le_bytes(p.voting_end));
    lemma_trim_pad(p.title, TITLE_WIDTH as int);
    lemma_trim_pad(p.description, DESC_WIDTH as int);
    assert(spec_unpack_proposal(packed).unwrap() =~= p);
}

} // verus!
