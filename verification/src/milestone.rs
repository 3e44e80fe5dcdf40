//! The Milestone record: one per declared funding checkpoint.
use vstd::bytes::spec_u64_from_le_bytes;
use vstd::bytes::spec_u64_to_le_bytes;
use vstd::prelude::*;
use vstd::utf8::valid_utf8;

use crate::codec::is_valid_utf8;
use crate::codec::lemma_i64_le_bytes_round_trip;
use crate::codec::lemma_trim_len;
use crate::codec::lemma_trim_pad;
use crate::codec::lemma_trim_valid_utf8;
use crate::codec::lemma_valid_utf8_append_zeros;
use crate::codec::pad_to;
use crate::codec::read_i64_le;
use crate::codec::read_trimmed;
use crate::codec::read_u64_le;
use crate::codec::spec_i64_from_le_bytes;
use crate::codec::spec_i64_to_le_bytes;
use crate::codec::trim_trailing_zeros;
use crate::codec::write_i64_le;
use crate::codec::write_padded;
use crate::codec::write_u64_le;
use crate::errors::ProgramFailure;
use crate::project::bool_byte;

verus! {

/// Width of a fixed title field, in bytes.
pub const TITLE_WIDTH: usize = 32;

/// Width of a fixed description field, in bytes.
pub const DESC_WIDTH: usize = 256;

/// One funding checkpoint: its payout, completion state, and whether a
/// proposal has ever targeted it.
#[derive(Clone, Debug, PartialEq)]
pub struct Milestone {
    pub title: Vec<u8>,
    pub description: Vec<u8>,
    pub amount: u64,
    pub is_completed: bool,
    pub completed_at: i64,
    pub has_proposal: bool,
}

/// Mathematical image of a [`Milestone`].
#[verifier::ext_equal]
pub ghost struct MilestoneView {
    pub title: Seq<u8>,
    pub description: Seq<u8>,
    pub amount: u64,
    pub is_completed: bool,
    pub completed_at: i64,
    pub has_proposal: bool,
}

impl View for Milestone {
    type V = MilestoneView;

    open spec fn view(&self) -> MilestoneView {
        MilestoneView {
            title: self.title@,
            description: self.description@,
            amount: self.amount,
            is_completed: self.is_completed,
            completed_at: self.completed_at,
            has_proposal: self.has_proposal,
        }
    }
}

impl MilestoneView {
    /// Well-formed record: text fields are valid UTF-8 within their
    /// declared width.
    pub open spec fn wf(self) -> bool {
        &&& self.title.len() <= TITLE_WIDTH
        &&& valid_utf8(self.title)
        &&& self.description.len() <= DESC_WIDTH
        &&& valid_utf8(self.description)
    }
}

/// The byte image of a milestone record: every field in declaration
/// order, text fields zero-padded to their fixed width.
pub open spec fn spec_pack_milestone(m: MilestoneView) -> Seq<u8> {
    pad_to(m.title, TITLE_WIDTH as int) + pad_to(m.description, DESC_WIDTH as int)
        + spec_u64_to_le_bytes(m.amount) + seq![bool_byte(m.is_completed)] + spec_i64_to_le_bytes(
        m.completed_at,
    ) + seq![bool_byte(m.has_proposal)]
}

/// The record read back from a byte buffer: `None` when the buffer is
/// truncated or a text field is not valid UTF-8.
pub open spec fn spec_unpack_milestone(src: Seq<u8>) -> Option<MilestoneView> {
    if src.len() < Milestone::LEN {
        None
    } else if !valid_utf8(src.subrange(0, 32)) || !valid_utf8(src.subrange(32, 288)) {
        None
    } else {
        Some(
            MilestoneView {
                title: trim_trailing_zeros(src.subrange(0, 32)),
                description: trim_trailing_zeros(src.subrange(32, 288)),
                amount: spec_u64_from_le_bytes(src.subrange(288, 296)),
                is_completed: src[296] != 0,
                completed_at: spec_i64_from_le_bytes(src.subrange(297, 305)),
                has_proposal: src[305] != 0,
            },
        )
    }
}

impl Milestone {
    /// Packed size of the record, in bytes.
    pub const LEN: usize = 32 + 256 + 8 + 1 + 8 + 1;

    /// Serializes the record into its fixed-width byte image.
    pub fn pack(&self) -> (out: Vec<u8>)
        ensures
            out@ == spec_pack_milestone(self@),
            out@.len() == Milestone::LEN,
    {
        let mut out: Vec<u8> = Vec::new();
        write_padded(&mut out, &self.title, TITLE_WIDTH);
        write_padded(&mut out, &self.description, DESC_WIDTH);
        write_u64_le(&mut out, self.amount);
        out.push(if self.is_completed {
            1u8
        } else {
            0u8
        });
        write_i64_le(&mut out, self.completed_at);
        out.push(if self.has_proposal {
            1u8
        } else {
            0u8
        });
        proof {
            vstd::bytes::lemma_auto_spec_u64_to_from_le_bytes();
            assert(out@ =~= spec_pack_milestone(self@));
        }
        out
    }

    /// Deserializes a record, failing on a truncated buffer or malformed
    /// UTF-8 in a text field.
    pub fn unpack(src: &Vec<u8>) -> (r: Result<Milestone, ProgramFailure>)
        ensures
            match spec_unpack_milestone(src@) {
                Some(v) => r is Ok && r.unwrap()@ == v && v.wf(),
                None => r is Err && r.unwrap_err() == ProgramFailure::InvalidAccountData,
            },
    {
        if src.len() < Self::LEN {
            return Err(ProgramFailure::InvalidAccountData);
        }
        let title_raw = crate::codec::read_bytes(src, 0, 32);
        if !is_valid_utf8(&title_raw) {
            return Err(ProgramFailure::InvalidAccountData);
        }
        let desc_raw = crate::codec::read_bytes(src, 32, 256);
        if !is_valid_utf8(&desc_raw) {
            return Err(ProgramFailure::InvalidAccountData);
        }
        let m = Milestone {
            title: read_trimmed(src, 0, 32),
            description: read_trimmed(src, 32, 256),
            amount: read_u64_le(src, 288),
            is_completed: src[296] != 0,
            completed_at: read_i64_le(src, 297),
            has_proposal: src[305] != 0,
        };
        proof {
            lemma_trim_len(src@.subrange(0, 32));
            lemma_trim_valid_utf8(src@.subrange(0, 32));
            lemma_trim_len(src@.subrange(32, 288));
            lemma_trim_valid_utf8(src@.subrange(32, 288));
        }
        Ok(m)
    }
}

/// A milestone record survives the pack/unpack round trip field for
/// field, provided its text fields carry no trailing zero byte of their
/// own.
pub proof fn lemma_milestone_round_trip(m: MilestoneView)
    requires
        m.wf(),
        m.title.len() > 0 ==> m.title[m.title.len() - 1] != 0,
        m.description.len() > 0 ==> m.description[m.description.len() - 1] != 0,
    ensures
        spec_unpack_milestone(spec_pack_milestone(m)) == Some(m),
{
    let packed = spec_pack_milestone(m);
    let title_field = pad_to(m.title, TITLE_WIDTH as int);
    let desc_field = pad_to(m.description, DESC_WIDTH as int);
    assert(title_field =~= m.title + Seq::new((TITLE_WIDTH - m.title.len()) as nat, |i: int| 0u8));
    assert(desc_field =~= m.description + Seq::new(
        (DESC_WIDTH - m.description.len()) as nat,
        |i: int| 0u8,
    ));
    lemma_valid_utf8_append_zeros(m.title, (TITLE_WIDTH - m.title.len()) as nat);
    lemma_valid_utf8_append_zeros(m.description, (DESC_WIDTH - m.description.len()) as nat);
    vstd::bytes::lemma_auto_spec_u64_to_from_le_bytes();
    lemma_i64_le_bytes_round_trip(m.completed_at);
    assert(packed.len() == Milestone::LEN);
    assert(packed.subrange(0, 32) =~= title_field);
    assert(packed.subrange(32, 288) =~= desc_field);
    assert(packed.subrange(288, 296) =~= spec_u64_to_le_bytes(m.amount));
    assert(packed[296] == bool_byte(m.is_completed));
    assert(packed.subrange(297, 305) =~= spec_i64_to_le_bytes(m.completed_at));
    assert(packed[305] == bool_byte(m.has_proposal));
    lemma_trim_pad(m.title, TITLE_WIDTH as int);
    lemma_trim_pad(m.description, DESC_WIDTH as int);
    assert(spec_unpack_milestone(packed).unwrap() =~= m);
}

} // verus!
