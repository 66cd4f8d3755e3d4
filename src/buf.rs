//! Appending fixed-width integers to a byte buffer, through `bytes::BufMut`.
use crate::bits::le_bytes;
use bytes::BufMut;
use vstd::prelude::*;

verus! {

/// Relies on `bytes::BufMut::put_u8` for `Vec<u8>`: it extends the vector
/// with the one byte.
#[verifier::external_body]
pub(crate) fn put_u8(buf: &mut Vec<u8>, n: u8)
    ensures
        final(buf)@ == old(buf)@.push(n),
{
    buf.put_u8(n)
}

/// Relies on `bytes::BufMut::put_u16_le` for `Vec<u8>`: it extends the
/// vector with `n.to_le_bytes()`.
#[verifier::external_body]
pub(crate) fn put_u16_le(buf: &mut Vec<u8>, n: u16)
    ensures
        final(buf)@ == old(buf)@ + le_bytes(n as nat, 2),
{
    buf.put_u16_le(n)
}

/// Relies on `bytes::BufMut::put_u32_le` for `Vec<u8>`: it extends the
/// vector with `n.to_le_bytes()`.
#[verifier::external_body]
pub(crate) fn put_u32_le(buf: &mut Vec<u8>, n: u32)
    ensures
        final(buf)@ == old(buf)@ + le_bytes(n as nat, 4),
{
    buf.put_u32_le(n)
}

} // verus!
