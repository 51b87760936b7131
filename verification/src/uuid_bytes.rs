//! UUIDs as 128-bit values, and the calls into the `uuid` crate that produce them.
use vstd::prelude::*;

verus! {

/// The value of `s` read as a big-endian number.
pub open spec fn be_value(s: Seq<u8>) -> nat
    decreases s.len(),
{
    if s.len() == 0 {
        0
    } else {
        be_value(s.drop_last()) * 256 + s.last() as nat
    }
}

/// The last `n` bytes of the big-endian representation of `v`.
pub open spec fn be_bytes(v: nat, n: nat) -> Seq<u8>
    decreases n,
{
    if n == 0 {
        Seq::empty()
    } else {
        be_bytes(v / 256, (n - 1) as nat).push((v % 256) as u8)
    }
}

/// The UUID bytes, in RFC order, of the 16 bytes `b` in the mixed-endian
/// GUID layout: the first three fields are little-endian.
pub open spec fn guid_le_to_rfc(b: Seq<u8>) -> Seq<u8> {
    seq![b[3], b[2], b[1], b[0], b[5], b[4], b[7], b[6]] + b.subrange(8, 16)
}

/// The UUID held little-endian in the 16 bytes `b`, as a `u128`.
pub open spec fn uuid_from_le(b: Seq<u8>) -> nat {
    be_value(guid_le_to_rfc(b))
}

/// Calls `uuid::Builder::from_slice_le` on the 16 bytes `b` and returns
/// the UUID's value, `Uuid::as_u128`. The contract claims what the source
/// shows: the first three fields are byte-swapped (`Uuid::from_bytes_le`)
/// and `as_u128` reads the resulting bytes big-endian. `from_slice_le`
/// fails only on a length other than 16, which `requires` excludes.
#[verifier::external_body]
pub(crate) fn uuid_from_slice_le(b: &[u8]) -> (r: u128)
    requires
        b@.len() == 16,
    ensures
        r as nat == uuid_from_le(b@),
{
    uuid::Builder::from_slice_le(b).unwrap().into_uuid().as_u128()
}

/// Calls `uuid::Uuid::from_u128(v).as_bytes()`: the UUID's sixteen bytes in
/// RFC order. The contract claims what the source shows: `from_u128`
/// stores `v.to_be_bytes()` and `as_bytes` returns the stored bytes.
#[verifier::external_body]
pub(crate) fn uuid_bytes(v: u128) -> (r: [u8; 16])
    ensures
        r@ == be_bytes(v as nat, 16),
{
    *uuid::Uuid::from_u128(v).as_bytes()
}

} // verus!
