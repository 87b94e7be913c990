use vstd::prelude::*;
use vstd::bytes::*;
use vstd::slice::slice_subrange;

use crate::error::RuneError;

pub mod bitcoin_varint;

verus! {

/// The variable-width integer codec: a value in `[0, 252]` is a single
/// byte; larger values are a tag byte (`0xfd`, `0xfe`, `0xff`) followed by
/// a little-endian integer of 2, 4 or 8 bytes.
pub struct VarInt {}

/// How many bytes a VarInt occupies in total, as decided by its tag byte
/// alone.
pub open spec fn spec_varint_width(tag: u8) -> nat {
    if tag == 0xff {
        9
    } else if tag == 0xfe {
        5
    } else if tag == 0xfd {
        3
    } else {
        1
    }
}

/// The canonical encoding of `v`: the shortest form of the tag scheme that
/// holds the value. Encoders of this scheme have historically disagreed
/// on the boundaries (some widened to 4 bytes already at 256, or to 8
/// bytes at 65536, and some read values up to 128 bits); this codec
/// follows the canonical table — one byte through 252, then 2, 4 or 8
/// little-endian bytes behind the `0xfd`, `0xfe`, `0xff` tags — and the
/// decoder, which goes by the tag byte alone, reads any of those forms.
pub open spec fn spec_varint_enc(v: u64) -> Seq<u8> {
    if v <= 252 {
        seq![v as u8]
    } else if v <= 0xffff {
        seq![0xfdu8] + spec_u16_to_le_bytes(v as u16)
    } else if v <= 0xffff_ffff {
        seq![0xfeu8] + spec_u32_to_le_bytes(v as u32)
    } else {
        seq![0xffu8] + spec_u64_to_le_bytes(v)
    }
}

/// The value carried by the VarInt at the head of `s`.
pub open spec fn spec_varint_value(s: Seq<u8>) -> u64
    recommends
        s.len() >= spec_varint_width(s[0]),
{
    if s[0] == 0xff {
        spec_u64_from_le_bytes(s.subrange(1, 9))
    } else if s[0] == 0xfe {
        spec_u32_from_le_bytes(s.subrange(1, 5)) as u64
    } else if s[0] == 0xfd {
        spec_u16_from_le_bytes(s.subrange(1, 3)) as u64
    } else {
        s[0] as u64
    }
}

/// Decoding the VarInt at the head of `s`: the value and the number of
/// bytes consumed, or nothing when the tag asks for more bytes than `s`
/// holds.
pub open spec fn spec_varint_dec(s: Seq<u8>) -> Option<(u64, nat)> {
    if s.len() == 0 || s.len() < spec_varint_width(s[0]) {
        None
    } else {
        Some((spec_varint_value(s), spec_varint_width(s[0])))
    }
}

/// Boundary widths of the encoding: one byte through 252, then 3, 5 or 9
/// bytes as each tagged range is entered.
pub proof fn lemma_varint_enc_len(v: u64)
    ensures
        1 <= spec_varint_enc(v).len() <= 9,
        v <= 252 ==> spec_varint_enc(v).len() == 1,
        253 <= v <= 0xffff ==> spec_varint_enc(v).len() == 3 && spec_varint_enc(v)[0] == 0xfd,
        0x1_0000 <= v <= 0xffff_ffff ==> spec_varint_enc(v).len() == 5 && spec_varint_enc(v)[0]
            == 0xfe,
        0x1_0000_0000 <= v ==> spec_varint_enc(v).len() == 9 && spec_varint_enc(v)[0] == 0xff,
{
    lemma_auto_spec_u16_to_from_le_bytes();
    lemma_auto_spec_u32_to_from_le_bytes();
    lemma_auto_spec_u64_to_from_le_bytes();
}

/// Round trip of the codec: the VarInt decoded at the head of an encoded
/// value, whatever follows it, is that value, and the bytes consumed are
/// exactly the encoding's length.
pub proof fn lemma_varint_round_trip(v: u64, rest: Seq<u8>)
    ensures
        spec_varint_dec(spec_varint_enc(v) + rest) == Some(
            (v, spec_varint_enc(v).len()),
        ),
{
    lemma_auto_spec_u16_to_from_le_bytes();
    lemma_auto_spec_u32_to_from_le_bytes();
    lemma_auto_spec_u64_to_from_le_bytes();
    let s = spec_varint_enc(v) + rest;
    if v <= 252 {
        assert(s[0] == v as u8);
        assert(spec_varint_width(s[0]) == 1);
    } else if v <= 0xffff {
        assert(s[0] == 0xfd);
        assert(s.subrange(1, 3) =~= spec_u16_to_le_bytes(v as u16));
        assert(spec_varint_value(s) == v as u16 as u64);
    } else if v <= 0xffff_ffff {
        assert(s[0] == 0xfe);
        assert(s.subrange(1, 5) =~= spec_u32_to_le_bytes(v as u32));
        assert(spec_varint_value(s) == v as u32 as u64);
    } else {
        assert(s[0] == 0xff);
        assert(s.subrange(1, 9) =~= spec_u64_to_le_bytes(v));
        assert(spec_varint_value(s) == v);
    }
}

impl VarInt {
    /// Encode `length` as a VarInt byte string.
    pub fn get_bytes(length: u64) -> (r: Vec<u8>)
        ensures
            r@ == spec_varint_enc(length),
    {
        if length <= 252 {
            let mut r: Vec<u8> = Vec::new();
            r.push(length as u8);
            proof {
                assert(r@ =~= spec_varint_enc(length));
            }
            r
        } else if length <= 0xffff {
            let mut r: Vec<u8> = Vec::new();
            r.push(0xfd);
            let mut tail = u16_to_le_bytes(length as u16);
            r.append(&mut tail);
            proof {
                assert(r@ =~= spec_varint_enc(length));
            }
            r
        } else if length <= 0xffff_ffff {
            let mut r: Vec<u8> = Vec::new();
            r.push(0xfe);
            let mut tail = u32_to_le_bytes(length as u32);
            r.append(&mut tail);
            proof {
                assert(r@ =~= spec_varint_enc(length));
            }
            r
        } else {
            let mut r: Vec<u8> = Vec::new();
            r.push(0xff);
            let mut tail = u64_to_le_bytes(length);
            r.append(&mut tail);
            proof {
                assert(r@ =~= spec_varint_enc(length));
            }
            r
        }
    }

    /// Decode the VarInt found at `offset` in `bytes`.
    pub fn read_bytes_at(bytes: &[u8], offset: usize) -> (r: Result<
        (u64, u8),
        RuneError,
    >)
        requires
            offset <= bytes@.len(),
        ensures
            (match spec_varint_dec(bytes@.skip(offset as int)) {
                Some(vn) => r == Ok::<(u64, u8), RuneError>((vn.0, vn.1 as u8)),
                None => r == Err::<(u64, u8), RuneError>(RuneError::TruncatedInput),
            }),
    {
        let ghost s = bytes@.skip(offset as int);
        let n = bytes.len();
        if offset >= n {
            return Err(RuneError::TruncatedInput);
        }
        let tag = bytes[offset];
        assert(tag == s[0]);
        if tag == 0xff {
            if n - offset < 9 {
                return Err(RuneError::TruncatedInput);
            }
            let v = u64_from_le_bytes(slice_subrange(bytes, offset + 1, offset + 9));
            proof {
                assert(bytes@.subrange(offset + 1, offset + 9) =~= s.subrange(1, 9));
            }
            Ok((v, 9))
        } else if tag == 0xfe {
            if n - offset < 5 {
                return Err(RuneError::TruncatedInput);
            }
            let v = u32_from_le_bytes(slice_subrange(bytes, offset + 1, offset + 5));
            proof {
                assert(bytes@.subrange(offset + 1, offset + 5) =~= s.subrange(1, 5));
            }
            Ok((v as u64, 5))
        } else if tag == 0xfd {
            if n - offset < 3 {
                return Err(RuneError::TruncatedInput);
            }
            let v = u16_from_le_bytes(slice_subrange(bytes, offset + 1, offset + 3));
            proof {
                assert(bytes@.subrange(offset + 1, offset + 3) =~= s.subrange(1, 3));
            }
            Ok((v as u64, 3))
        } else {
            Ok((tag as u64, 1))
        }
    }

    /// Decode the VarInt at the head of `bytes`.
    pub fn read_bytes(bytes: Vec<u8>) -> (r: Result<(u64, u8), RuneError>)
        ensures
            (match spec_varint_dec(bytes@) {
                Some(vn) => r == Ok::<(u64, u8), RuneError>((vn.0, vn.1 as u8)),
                None => r == Err::<(u64, u8), RuneError>(RuneError::TruncatedInput),
            }),
    {
        proof {
            assert(bytes@.skip(0) =~= bytes@);
        }
        Self::read_bytes_at(bytes.as_slice(), 0)
    }
}

} // verus!
