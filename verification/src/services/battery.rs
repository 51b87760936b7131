//! Battery service that forwards `GetBst` requests to the embedded
//! controller over the ODP relay and decodes its answer.
//!
//! Battery service id is `0x08`, `GetBst` is message 2. The request body is
//! the battery id; the response body is four little-endian `u32` dwords:
//! battery state, present rate, remaining capacity and present voltage.
//! The relay itself (MCTP framing, transport) is driven by the caller: this
//! module says what is sent and what the answer means.
use vstd::prelude::*;
use crate::payload::{le_u32_at, padded, u32s_le_bytes, Payload};
use crate::service::{Response, ServiceError};

verus! {

/// The ODP service id of the battery service.
pub const ODP_SERVICE_BATTERY: u8 = 0x08;

/// `BatteryCmd::GetBst`.
pub const BATTERY_CMD_GET_BST: u16 = 2;

/// Length of the body of a `GetBst` response.
pub const GET_BST_RESPONSE_BODY_LEN: usize = 16;

/// The header of an ODP message.
#[derive(Debug, Clone, Copy, PartialEq, Eq, Structural)]
pub struct OdpHeader {
    pub is_request: bool,
    pub service: u8,
    pub is_error: bool,
    pub message_id: u16,
}

/// An ODP request: header and body.
pub struct OdpRequest {
    pub header: OdpHeader,
    pub body: Vec<u8>,
}

/// An ODP response as received by the relay.
pub struct OdpResponse {
    pub header: OdpHeader,
    pub body: Vec<u8>,
}

/// Failures of the relay (MCTP and transport).
#[derive(Debug, Clone, Copy, PartialEq, Eq, Structural)]
pub enum RelayError {
    Transport,
    BufferTooSmall,
    UnexpectedResponseKind,
    Decode,
    Other,
}

/// Errors of `Battery::get_bst`.
#[derive(Debug, Clone, Copy, PartialEq, Eq, Structural)]
pub enum BatteryError {
    /// The relay (MCTP and transport) failed, or the answer's body was too
    /// short to decode.
    Relay(RelayError),
    /// The embedded controller's answer was not a battery service response.
    UnexpectedResponse,
}

impl From<RelayError> for BatteryError {
    fn from(e: RelayError) -> (r: Self) {
        BatteryError::Relay(e)
    }
}

impl vstd::std_specs::convert::FromSpecImpl<RelayError> for BatteryError {
    open spec fn obeys_from_spec() -> bool {
        true
    }

    open spec fn from_spec(v: RelayError) -> Self {
        BatteryError::Relay(v)
    }
}

/// The decoded body of a `GetBst` response.
#[derive(Debug, Clone, Copy, PartialEq, Eq, Structural)]
pub struct BstReturnRaw {
    pub battery_state: u32,
    pub battery_present_rate: u32,
    pub battery_remaining_capacity: u32,
    pub battery_present_voltage: u32,
}

impl BstReturnRaw {
    /// The four dwords, in wire order.
    pub open spec fn values(self) -> Seq<u32> {
        seq![self.battery_state, self.battery_present_rate, self.battery_remaining_capacity, self.battery_present_voltage]
    }
}

/// The status decoded from a response body of at least 16 bytes.
pub open spec fn spec_decode_bst(body: Seq<u8>) -> BstReturnRaw {
    BstReturnRaw {
        battery_state: le_u32_at(body, 0),
        battery_present_rate: le_u32_at(body, 4),
        battery_remaining_capacity: le_u32_at(body, 8),
        battery_present_voltage: le_u32_at(body, 12),
    }
}

/// What `get_bst` makes of what the relay answered.
pub open spec fn spec_get_bst(reply: Result<(OdpHeader, Seq<u8>), RelayError>) -> Result<BstReturnRaw, BatteryError> {
    match reply {
        Err(e) => Err(BatteryError::Relay(e)),
        Ok((header, body)) => if header.service != ODP_SERVICE_BATTERY {
            Err(BatteryError::UnexpectedResponse)
        } else if body.len() < GET_BST_RESPONSE_BODY_LEN {
            Err(BatteryError::Relay(RelayError::Decode))
        } else {
            Ok(spec_decode_bst(body))
        },
    }
}

/// The relay's answer as plain values.
pub open spec fn reply_view(reply: Result<OdpResponse, RelayError>) -> Result<(OdpHeader, Seq<u8>), RelayError> {
    match reply {
        Ok(resp) => Ok((resp.header, resp.body@)),
        Err(e) => Err(e),
    }
}

/// The battery service. It holds no state: the relay belongs to the caller.
pub struct Battery {}

impl Battery {
    pub fn new() -> (r: Self) {
        Battery {}
    }

    /// The request that asks the embedded controller for the status of
    /// battery `battery_id`.
    pub fn get_bst_request(&self, battery_id: u8) -> (r: OdpRequest)
        ensures
            r.header == (OdpHeader {
                is_request: true,
                service: ODP_SERVICE_BATTERY,
                is_error: false,
                message_id: BATTERY_CMD_GET_BST,
            }),
            r.body@ == seq![battery_id],
    {
        let header = OdpHeader {
            is_request: true,
            service: ODP_SERVICE_BATTERY,
            is_error: false,
            message_id: BATTERY_CMD_GET_BST,
        };
        let body = vec![battery_id];
        OdpRequest { header, body }
    }

    /// Decodes the relay's answer to a `GetBst` request. The relay has already
    /// checked that the message id matches; an answer from another service
    /// is an unexpected response, and a battery answer must carry at least 16
    /// bytes.
    pub fn get_bst(&self, reply: Result<OdpResponse, RelayError>) -> (r: Result<BstReturnRaw, BatteryError>)
        ensures
            r == spec_get_bst(reply_view(reply)),
    {
        let response = match reply {
            Ok(resp) => resp,
            Err(e) => {
                return Err(BatteryError::Relay(e));
            },
        };
        if response.header.service != ODP_SERVICE_BATTERY {
            return Err(BatteryError::UnexpectedResponse);
        }
        if response.body.len() < GET_BST_RESPONSE_BODY_LEN {
            return Err(BatteryError::Relay(RelayError::Decode));
        }
        let payload = vstd::slice::slice_subrange(response.body.as_slice(), 0, GET_BST_RESPONSE_BODY_LEN);
        let r = BstReturnRaw {
            battery_state: vstd::bytes::u32_from_le_bytes(vstd::slice::slice_subrange(payload, 0, 4)),
            battery_present_rate: vstd::bytes::u32_from_le_bytes(vstd::slice::slice_subrange(payload, 4, 8)),
            battery_remaining_capacity: vstd::bytes::u32_from_le_bytes(vstd::slice::slice_subrange(payload, 8, 12)),
            battery_present_voltage: vstd::bytes::u32_from_le_bytes(vstd::slice::slice_subrange(payload, 12, 16)),
        };
        proof {
            let body = response.body@;
            assert(body.subrange(0, 16).subrange(0, 4) =~= body.subrange(0, 4));
            assert(body.subrange(0, 16).subrange(4, 8) =~= body.subrange(4, 8));
            assert(body.subrange(0, 16).subrange(8, 12) =~= body.subrange(8, 12));
            assert(body.subrange(0, 16).subrange(12, 16) =~= body.subrange(12, 16));
        }
        Ok(r)
    }

    /// The direct response payload for a battery status: the four dwords,
    /// little-endian.
    pub fn bst_payload(bst: BstReturnRaw) -> (p: Payload)
        ensures
            p@ == padded(u32s_le_bytes(bst.values())),
    {
        let vals = [bst.battery_state, bst.battery_present_rate, bst.battery_remaining_capacity, bst.battery_present_voltage];
        assert(vals@ =~= bst.values());
        Payload::from_u32s(vals.as_slice())
    }

    /// The answer to a direct request once the relay answered the `GetBst`
    /// request for battery 0: the status, or `BatteryRelayFailed` whatever
    /// went wrong.
    pub fn ffa_reply(&self, reply: Result<OdpResponse, RelayError>) -> (r: Result<Response, ServiceError>)
        ensures
            match spec_get_bst(reply_view(reply)) {
                Ok(bst) => r matches Ok(resp) && resp.call is None && resp.payload@ == padded(u32s_le_bytes(bst.values())),
                Err(_) => r == Err::<Response, ServiceError>(ServiceError::BatteryRelayFailed),
            },
    {
        match self.get_bst(reply) {
            Ok(bst) => Ok(Response::reply(Self::bst_payload(bst))),
            Err(_) => Err(ServiceError::BatteryRelayFailed),
        }
    }
}

/// The wire format round-trips: a battery response whose body starts with
/// the four dwords of `bst`, little-endian, decodes to `bst`.
pub proof fn lemma_bst_round_trip(bst: BstReturnRaw, header: OdpHeader, rest: Seq<u8>)
    requires
        header.service == ODP_SERVICE_BATTERY,
    ensures
        spec_get_bst(Ok((header, u32s_le_bytes(bst.values()) + rest))) == Ok::<BstReturnRaw, BatteryError>(bst),
{
    let s = bst.values();
    let body = u32s_le_bytes(s) + rest;
    crate::payload::lemma_u32s_le_bytes(s);
    vstd::bytes::lemma_auto_spec_u32_to_from_le_bytes();
    assert forall|i: int| 0 <= i < 4 implies #[trigger] le_u32_at(body, 4 * i) == s[i] by {
        assert(body.subrange(4 * i, 4 * i + 4) =~= u32s_le_bytes(s).subrange(4 * i, 4 * i + 4));
    }
    assert(le_u32_at(body, 4 * 0int) == s[0]);
    assert(le_u32_at(body, 4 * 1int) == s[1]);
    assert(le_u32_at(body, 4 * 2int) == s[2]);
    assert(le_u32_at(body, 4 * 3int) == s[3]);
}

} // verus!
