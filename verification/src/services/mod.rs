//! The services of the secure partition.
use vstd::prelude::*;
use crate::payload::{Payload, PAYLOAD_LEN};

pub mod battery;
pub mod fw_mgmt;
pub mod thermal;
pub mod ucsi;

pub use battery::Battery;
pub use fw_mgmt::FwMgmt;
pub use thermal::Thermal;
pub use ucsi::Ucsi;

verus! {

/// Calls `zerocopy::FromBytes::ref_from_bytes` for a byte array of length `N`.
/// The contract claims what zerocopy documents: the call succeeds exactly
/// when `source` has the size of the type (an `[u8; N]` has size `N` and
/// alignment 1, so no alignment error can occur), and the array then views
/// the same bytes.
#[verifier::external_body]
fn array_ref_from_bytes<const N: usize>(source: &[u8]) -> (r: Option<&[u8; N]>)
    ensures
        r is Some <==> source@.len() == N,
        r matches Some(a) ==> a@ == source@,
{
    <[u8; N] as zerocopy::FromBytes>::ref_from_bytes(source).ok()
}

/// Borrows the `N`-byte request that follows the command byte of a payload;
/// `None` when it does not fit in the payload.
pub fn parse_ffa_request<const N: usize>(payload: &Payload) -> (r: Option<&[u8; N]>)
    ensures
        r is Some <==> 1 + N <= PAYLOAD_LEN,
        r matches Some(a) ==> a@ == payload@.subrange(1, 1 + N),
{
    let start: usize = 1;
    if N > PAYLOAD_LEN - start {
        return None;
    }
    let end = start + N;
    match payload.get(start, end) {
        Some(bytes) => array_ref_from_bytes::<N>(bytes),
        None => None,
    }
}

} // verus!
