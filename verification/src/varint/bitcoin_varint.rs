use vstd::prelude::*;

use crate::error::RuneError;
use crate::varint::{spec_varint_dec, spec_varint_enc};

verus! {

/// Marker for the free-function form of the codec.
pub struct VarInt {}

/// Encode `n` as a VarInt byte string. The tag scheme carries at most
/// eight little-endian payload bytes, so the value must fit in 64 bits.
pub fn encode(n: u128) -> (r: Vec<u8>)
    requires
        n <= u64::MAX,
    ensures
        r@ == spec_varint_enc(n as u64),
{
    crate::varint::VarInt::get_bytes(n as u64)
}

/// Decode the VarInt at the head of `buffer`: the value and the number of
/// bytes consumed, or `TruncatedInput` when the tag asks for more bytes
/// than the buffer holds.
pub fn decode(buffer: &[u8]) -> (r: Result<(u128, usize), RuneError>)
    ensures
        (match spec_varint_dec(buffer@) {
            Some(vn) => r == Ok::<(u128, usize), RuneError>((vn.0 as u128, vn.1 as usize)),
            None => r == Err::<(u128, usize), RuneError>(RuneError::TruncatedInput),
        }),
{
    proof {
        assert(buffer@.skip(0) =~= buffer@);
    }
    match crate::varint::VarInt::read_bytes_at(buffer, 0) {
        Ok((v, n)) => Ok((v as u128, n as usize)),
        Err(e) => Err(e),
    }
}

} // verus!
