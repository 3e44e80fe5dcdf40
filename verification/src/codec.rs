//! Byte-level building blocks for the wire and record encodings:
//! little-endian integers, zero-padded fixed-width fields, and UTF-8
//! validation of the variable-length text fields.
use vstd::bytes::spec_u32_from_le_bytes;
use vstd::bytes::spec_u32_to_le_bytes;
use vstd::bytes::spec_u64_from_le_bytes;
use vstd::bytes::spec_u64_to_le_bytes;
use vstd::bytes::u32_from_le_bytes;
use vstd::bytes::u32_to_le_bytes;
use vstd::bytes::u64_from_le_bytes;
use vstd::bytes::u64_to_le_bytes;
use vstd::prelude::*;
use vstd::utf8::valid_first_scalar;
use vstd::utf8::valid_utf8;

verus! {

/// `s` truncated or zero-padded on the right to exactly `w` bytes.
pub open spec fn pad_to(s: Seq<u8>, w: int) -> Seq<u8> {
    if s.len() >= w {
        s.take(w)
    } else {
        s + Seq::new((w - s.len()) as nat, |i: int| 0u8)
    }
}

/// `s` with every trailing zero byte removed.
pub open spec fn trim_trailing_zeros(s: Seq<u8>) -> Seq<u8>
    decreases s.len(),
{
    if s.len() > 0 && s[s.len() - 1] == 0 {
        trim_trailing_zeros(s.drop_last())
    } else {
        s
    }
}

/// Little-endian bytes of a signed 64-bit value: the bytes of its
/// two's-complement bit pattern.
pub open spec fn spec_i64_to_le_bytes(x: i64) -> Seq<u8> {
    spec_u64_to_le_bytes(x as u64)
}

/// The signed 64-bit value whose two's-complement bit pattern is stored
/// in the 8 little-endian bytes `s`.
pub open spec fn spec_i64_from_le_bytes(s: Seq<u8>) -> i64 {
    spec_u64_from_le_bytes(s) as i64
}

/// Appends all of `src` to `out`.
pub fn write_bytes(out: &mut Vec<u8>, src: &Vec<u8>)
    ensures
        final(out)@ == old(out)@ + src@,
{
    let mut i: usize = 0;
    while i < src.len()
        invariant
            i <= src.len(),
            out@ == old(out)@ + src@.take(i as int),
        decreases src.len() - i,
    {
        out.push(src[i]);
        i = i + 1;
        proof {
            assert(src@.take(i as int) =~= src@.take(i - 1) + seq![src@[i - 1]]);
        }
    }
    proof {
        assert(src@.take(src@.len() as int) =~= src@);
    }
}

/// Appends `src`, truncated or zero-padded to exactly `w` bytes, to `out`.
pub fn write_padded(out: &mut Vec<u8>, src: &Vec<u8>, w: usize)
    ensures
        final(out)@ == old(out)@ + pad_to(src@, w as int),
{
    let ghost padded = pad_to(src@, w as int);
    proof {
        assert(padded.len() == w);
    }
    let mut i: usize = 0;
    while i < w
        invariant
            i <= w,
            padded == pad_to(src@, w as int),
            padded.len() == w,
            out@ == old(out)@ + padded.take(i as int),
        decreases w - i,
    {
        if i < src.len() {
            out.push(src[i]);
            proof {
                assert(padded[i as int] == src@[i as int]);
            }
        } else {
            out.push(0u8);
            proof {
                assert(padded[i as int] == 0u8);
            }
        }
        i = i + 1;
        proof {
            assert(padded.take(i as int) =~= padded.take(i - 1) + seq![padded[i - 1]]);
        }
    }
    proof {
        assert(padded.take(w as int) =~= padded);
    }
}

/// Appends the 8 little-endian bytes of `x` to `out`.
pub fn write_u64_le(out: &mut Vec<u8>, x: u64)
    ensures
        final(out)@ == old(out)@ + spec_u64_to_le_bytes(x),
{
    let b = u64_to_le_bytes(x);
    write_bytes(out, &b);
}

/// Appends the 4 little-endian bytes of `x` to `out`.
pub fn write_u32_le(out: &mut Vec<u8>, x: u32)
    ensures
        final(out)@ == old(out)@ + spec_u32_to_le_bytes(x),
{
    let b = u32_to_le_bytes(x);
    write_bytes(out, &b);
}

/// Appends the 8 little-endian two's-complement bytes of `x` to `out`.
pub fn write_i64_le(out: &mut Vec<u8>, x: i64)
    ensures
        final(out)@ == old(out)@ + spec_i64_to_le_bytes(x),
{
    let bits = #[verifier::truncate] (x as u64);
    write_u64_le(out, bits);
}

/// Copies `src[off..off + len]` into a fresh vector.
pub fn read_bytes(src: &Vec<u8>, off: usize, len: usize) -> (r: Vec<u8>)
    requires
        off + len <= src.len(),
    ensures
        r@ == src@.subrange(off as int, off + len),
{
    vstd::slice::slice_to_vec(vstd::slice::slice_subrange(src.as_slice(), off, off + len))
}

/// Whether two byte vectors hold the same bytes.
pub fn bytes_eq(a: &Vec<u8>, b: &Vec<u8>) -> (r: bool)
    ensures
        r <==> a@ == b@,
{
    if a.len() != b.len() {
        return false;
    }
    let mut i: usize = 0;
    while i < a.len()
        invariant
            i <= a.len(),
            a@.len() == b@.len(),
            forall|j: int| 0 <= j < i ==> a@[j] == b@[j],
        decreases a.len() - i,
    {
        if a[i] != b[i] {
            return false;
        }
        i = i + 1;
    }
    proof {
        assert(a@ =~= b@);
    }
    true
}

/// Copies a byte vector.
pub fn copy_bytes(src: &Vec<u8>) -> (r: Vec<u8>)
    ensures
        r@ == src@,
{
    vstd::slice::slice_to_vec(src.as_slice())
}

/// Reads the little-endian `u64` stored at `src[off..off + 8]`.
pub fn read_u64_le(src: &Vec<u8>, off: usize) -> (x: u64)
    requires
        off + 8 <= src.len(),
    ensures
        x == spec_u64_from_le_bytes(src@.subrange(off as int, off + 8)),
{
    u64_from_le_bytes(vstd::slice::slice_subrange(src.as_slice(), off, off + 8))
}

/// Reads the little-endian `u32` stored at `src[off..off + 4]`.
pub fn read_u32_le(src: &Vec<u8>, off: usize) -> (x: u32)
    requires
        off + 4 <= src.len(),
    ensures
        x == spec_u32_from_le_bytes(src@.subrange(off as int, off + 4)),
{
    u32_from_le_bytes(vstd::slice::slice_subrange(src.as_slice(), off, off + 4))
}

/// Reads the little-endian two's-complement `i64` stored at
/// `src[off..off + 8]`.
pub fn read_i64_le(src: &Vec<u8>, off: usize) -> (x: i64)
    requires
        off + 8 <= src.len(),
    ensures
        x == spec_i64_from_le_bytes(src@.subrange(off as int, off + 8)),
{
    let bits = read_u64_le(src, off);
    #[verifier::truncate] (bits as i64)
}

/// A signed 64-bit value survives the round trip through its
/// two's-complement little-endian bytes.
pub proof fn lemma_i64_le_bytes_round_trip(x: i64)
    ensures
        spec_i64_from_le_bytes(spec_i64_to_le_bytes(x)) == x,
        spec_i64_to_le_bytes(x).len() == 8,
{
    vstd::bytes::lemma_auto_spec_u64_to_from_le_bytes();
    assert((x as u64) as i64 == x) by (bit_vector);
}

/// Copies `src[off..off + w]` with its trailing zero bytes removed.
pub fn read_trimmed(src: &Vec<u8>, off: usize, w: usize) -> (r: Vec<u8>)
    requires
        off + w <= src.len(),
    ensures
        r@ == trim_trailing_zeros(src@.subrange(off as int, off + w)),
{
    let ghost field = src@.subrange(off as int, off + w);
    proof {
        assert(field.take(w as int) =~= field);
    }
    let mut end: usize = w;
    while end > 0 && src[off + end - 1] == 0
        invariant
            end <= w,
            off + w <= src.len(),
            field == src@.subrange(off as int, off + w),
            trim_trailing_zeros(field.take(end as int)) == trim_trailing_zeros(field),
        decreases end,
    {
        proof {
            assert(field.take(end as int)[end - 1] == src@[off + end - 1]);
            assert(field.take(end as int).drop_last() =~= field.take(end - 1));
        }
        end = end - 1;
    }
    proof {
        if end > 0 {
            assert(field.take(end as int)[end - 1] == src@[off + end - 1]);
        }
        assert(trim_trailing_zeros(field.take(end as int)) == field.take(end as int));
        assert(src@.subrange(off as int, off + end) =~= field.take(end as int));
    }
    read_bytes(src, off, end)
}

/// Trimming removes any run of appended zero bytes.
pub proof fn lemma_trim_appended_zeros(s: Seq<u8>, k: nat)
    ensures
        trim_trailing_zeros(s + Seq::new(k, |i: int| 0u8)) == trim_trailing_zeros(s),
    decreases k,
{
    if k == 0 {
        assert(s + Seq::new(0, |i: int| 0u8) =~= s);
    } else {
        let padded = s + Seq::new(k, |i: int| 0u8);
        assert(padded[padded.len() - 1] == 0u8);
        assert(padded.drop_last() =~= s + Seq::new((k - 1) as nat, |i: int| 0u8));
        lemma_trim_appended_zeros(s, (k - 1) as nat);
    }
}

/// A field with no trailing zero byte survives padding and trimming.
pub proof fn lemma_trim_pad(s: Seq<u8>, w: int)
    requires
        s.len() <= w,
        s.len() > 0 ==> s[s.len() - 1] != 0,
    ensures
        trim_trailing_zeros(pad_to(s, w)) == s,
{
    if s.len() == w {
        assert(pad_to(s, w) =~= s + Seq::new(0, |i: int| 0u8));
    }
    lemma_trim_appended_zeros(s, (w - s.len()) as nat);
    assert(trim_trailing_zeros(s) == s);
}

/// Trimming never lengthens a field.
pub proof fn lemma_trim_len(s: Seq<u8>)
    ensures
        trim_trailing_zeros(s).len() <= s.len(),
    decreases s.len(),
{
    if s.len() > 0 && s[s.len() - 1] == 0 {
        lemma_trim_len(s.drop_last());
    }
}

/// Dropping a final zero byte from a valid UTF-8 encoding keeps it
/// valid: the zero byte is a complete one-byte scalar of its own.
pub proof fn lemma_valid_utf8_drop_last_zero(s: Seq<u8>)
    requires
        valid_utf8(s),
        s.len() > 0,
        s[s.len() - 1] == 0,
    ensures
        valid_utf8(s.drop_last()),
    decreases s.len(),
{
    let w = vstd::utf8::length_of_first_scalar(s);
    assert(valid_first_scalar(s));
    assert(1 <= w <= 4);
    assert(w <= s.len());
    if w == s.len() {
        assert(w == 1) by {
            if w > 1 {
                assert(vstd::utf8::is_continuation_byte(s[s.len() - 1]));
            }
        }
        assert(s.drop_last() =~= Seq::<u8>::empty());
    } else {
        let t = s.drop_last();
        assert(forall|j: int| 0 <= j < t.len() ==> t[j] == s[j]);
        assert(valid_first_scalar(t));
        assert(vstd::utf8::length_of_first_scalar(t) == w);
        let p = vstd::utf8::pop_first_scalar(s);
        assert(p.len() == s.len() - w);
        assert(p[p.len() - 1] == s[s.len() - 1]);
        lemma_valid_utf8_drop_last_zero(p);
        assert(vstd::utf8::pop_first_scalar(t) =~= p.drop_last());
    }
}

/// Trimming trailing zero bytes from a valid UTF-8 encoding keeps it
/// valid.
pub proof fn lemma_trim_valid_utf8(s: Seq<u8>)
    requires
        valid_utf8(s),
    ensures
        valid_utf8(trim_trailing_zeros(s)),
    decreases s.len(),
{
    if s.len() > 0 && s[s.len() - 1] == 0 {
        lemma_valid_utf8_drop_last_zero(s);
        lemma_trim_valid_utf8(s.drop_last());
    }
}

/// A run of zero bytes is valid UTF-8: each is a one-byte scalar.
pub proof fn lemma_zeros_valid_utf8(k: nat)
    ensures
        valid_utf8(Seq::new(k, |i: int| 0u8)),
    decreases k,
{
    let z = Seq::new(k, |i: int| 0u8);
    if k > 0 {
        assert(z[0] == 0u8);
        assert((0u8 & 0x7f) == 0u8) by (bit_vector);
        assert(valid_first_scalar(z));
        lemma_zeros_valid_utf8((k - 1) as nat);
        assert(vstd::utf8::pop_first_scalar(z) =~= Seq::new((k - 1) as nat, |i: int| 0u8));
    }
}

/// Zero-padding a valid UTF-8 field keeps it valid UTF-8.
pub proof fn lemma_valid_utf8_append_zeros(s: Seq<u8>, k: nat)
    requires
        valid_utf8(s),
    ensures
        valid_utf8(s + Seq::new(k, |i: int| 0u8)),
    decreases s.len(),
{
    let z = Seq::new(k, |i: int| 0u8);
    if s.len() == 0 {
        lemma_zeros_valid_utf8(k);
        assert(s + z =~= z);
    } else {
        let w = vstd::utf8::length_of_first_scalar(s);
        assert(valid_first_scalar(s));
        assert(1 <= w <= 4);
        assert(w <= s.len());
        assert(forall|j: int| 0 <= j < s.len() ==> (s + z)[j] == s[j]);
        assert(valid_first_scalar(s + z));
        assert(vstd::utf8::length_of_first_scalar(s + z) == w);
        lemma_valid_utf8_append_zeros(vstd::utf8::pop_first_scalar(s), k);
        assert(vstd::utf8::pop_first_scalar(s + z) =~= vstd::utf8::pop_first_scalar(s) + z);
    }
}

/// Whether `bytes` is a valid UTF-8 encoding, decided against the
/// reference definition [`vstd::utf8::valid_utf8`].
pub fn is_valid_utf8(bytes: &Vec<u8>) -> (ok: bool)
    ensures
        ok == valid_utf8(bytes@),
{
    proof {
        assert(bytes@.skip(0) =~= bytes@);
    }
    let mut i: usize = 0;
    loop
        invariant
            i <= bytes.len(),
            valid_utf8(bytes@) == valid_utf8(bytes@.skip(i as int)),
        decreases bytes.len() - i,
    {
        if i == bytes.len() {
            proof {
                assert(bytes@.skip(i as int).len() == 0);
            }
            return true;
        }
        let ghost s = bytes@.skip(i as int);
        proof {
            assert(s.len() == bytes.len() - i);
            assert(forall|j: int| 0 <= j < s.len() ==> s[j] == bytes@[i + j]);
        }
        let b0 = bytes[i];
        let width: usize;
        if b0 < 0x80 {
            width = 1;
            proof {
                assert((b0 & 0x7f) <= 0x7f) by (bit_vector);
                assert(valid_first_scalar(s));
            }
        } else if 0xc0 <= b0 && b0 <= 0xdf {
            if i + 1 >= bytes.len() {
                return false;
            }
            let b1 = bytes[i + 1];
            if !(0x80 <= b1 && b1 <= 0xbf) {
                return false;
            }
            let cp: u32 = (((b0 & 0x1f) as u32) << 6u32) | ((b1 & 0x3f) as u32);
            if cp < 0x80 {
                return false;
            }
            if 0xd800 <= cp && cp <= 0xdfff {
                return false;
            }
            width = 2;
            proof {
                assert(valid_first_scalar(s));
            }
        } else if 0xe0 <= b0 && b0 <= 0xef {
            if bytes.len() - i < 3 {
                return false;
            }
            let b1 = bytes[i + 1];
            let b2 = bytes[i + 2];
            if !(0x80 <= b1 && b1 <= 0xbf) || !(0x80 <= b2 && b2 <= 0xbf) {
                return false;
            }
            let cp: u32 = (((b0 & 0x0f) as u32) << 12u32) | (((b1 & 0x3f) as u32) << 6u32) | ((b2
                & 0x3f) as u32);
            if cp < 0x800 {
                return false;
            }
            if 0xd800 <= cp && cp <= 0xdfff {
                return false;
            }
            width = 3;
            proof {
                assert(valid_first_scalar(s));
            }
        } else if 0xf0 <= b0 && b0 <= 0xf7 {
            if bytes.len() - i < 4 {
                return false;
            }
            let b1 = bytes[i + 1];
            let b2 = bytes[i + 2];
            let b3 = bytes[i + 3];
            if !(0x80 <= b1 && b1 <= 0xbf) || !(0x80 <= b2 && b2 <= 0xbf) || !(0x80 <= b3 && b3
                <= 0xbf) {
                return false;
            }
            let cp: u32 = (((b0 & 0x07) as u32) << 18u32) | (((b1 & 0x3f) as u32) << 12u32) | (((b2
                & 0x3f) as u32) << 6u32) | ((b3 & 0x3f) as u32);
            if cp < 0x10000 || cp > 0x10ffff {
                return false;
            }
            if 0xd800 <= cp && cp <= 0xdfff {
                return false;
            }
            width = 4;
            proof {
                assert(valid_first_scalar(s));
            }
        } else {
            return false;
        }
        proof {
            assert(vstd::utf8::length_of_first_scalar(s) == width);
            assert(vstd::utf8::pop_first_scalar(s) =~= bytes@.skip(i + width));
        }
        i = i + width;
    }
}

} // verus!
