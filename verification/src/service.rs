//! Requests, responses and the service interface of the secure partition.
use vstd::prelude::*;
use crate::payload::Payload;

verus! {

/// An FF-A direct request as seen by a service: the endpoints, the UUID of
/// the addressed service (the UUID's bytes read as a big-endian `u128`) and
/// the register payload.
pub struct DirectRequest {
    pub source_id: u16,
    pub destination_id: u16,
    pub uuid: u128,
    pub payload: Payload,
}

/// An FF-A call that the partition must make before it answers a request.
pub enum FfaCall {
    /// Hand the CPU back to the normal world for `timeout` (a retry hint).
    Yield { timeout: u64 },
    /// Signal the notifications in `bitmap` from `sender` to `receiver`.
    NotificationSet { sender: u16, receiver: u16, flags: u32, bitmap: u64 },
    /// Retrieve the memory region that the normal world shared.
    MemRetrieve,
}

/// What a service answers: the call to make first, if any, then the payload
/// of the direct response.
pub struct Response {
    pub call: Option<FfaCall>,
    pub payload: Payload,
}

impl Response {
    /// An answer that needs no FF-A call.
    pub fn reply(payload: Payload) -> (r: Response)
        ensures
            r.call is None,
            r.payload == payload,
    {
        Response { call: None, payload }
    }
}

/// The reasons for which a request is refused.
#[derive(Debug, PartialEq, Eq, Structural, Clone, Copy)]
pub enum ServiceError {
    /// No service of the handler chain has the request's UUID.
    UnknownUuid,
    /// Indirect messages are not supported by the firmware-management service.
    IndirectNotSupported,
    /// The firmware-management service does not know the command byte.
    UnknownFwMgmtCommand,
    /// The thermal service does not know the command byte.
    UnknownThermalCommand,
    /// The battery service does not know the command byte.
    UnknownBatteryCommand,
    /// The UCSI doorbell tag is not the expected one.
    UcsiUnexpectedDoorbell,
    /// The battery status could not be obtained from the embedded controller.
    BatteryRelayFailed,
}

impl ServiceError {
    /// The text that accompanies the error on the wire.
    pub fn message(&self) -> (r: &'static str)
        ensures
            *self == ServiceError::UnknownUuid ==> r@ == "Unknown UUID"@,
            *self == ServiceError::IndirectNotSupported ==> r@ == "process_indirect not supported"@,
            *self == ServiceError::UnknownFwMgmtCommand ==> r@ == "Unknown FwMgmt Command"@,
            *self == ServiceError::UnknownThermalCommand ==> r@ == "Unknown Thermal Command"@,
            *self == ServiceError::UnknownBatteryCommand ==> r@ == "Unknown Battery Command"@,
            *self == ServiceError::UcsiUnexpectedDoorbell ==> r@ == "UCSI: unexpected doorbell tag"@,
            *self == ServiceError::BatteryRelayFailed ==> r@ == "Battery: GetBst round-trip failed (transport or wire decode)"@,
    {
        match self {
            ServiceError::UnknownUuid => "Unknown UUID",
            ServiceError::IndirectNotSupported => "process_indirect not supported",
            ServiceError::UnknownFwMgmtCommand => "Unknown FwMgmt Command",
            ServiceError::UnknownThermalCommand => "Unknown Thermal Command",
            ServiceError::UnknownBatteryCommand => "Unknown Battery Command",
            ServiceError::UcsiUnexpectedDoorbell => "UCSI: unexpected doorbell tag",
            ServiceError::BatteryRelayFailed => "Battery: GetBst round-trip failed (transport or wire decode)",
        }
    }
}

/// A service of the secure partition, addressed by its UUID.
pub trait Service: Sized {
    /// The service's UUID.
    const UUID: u128;

    /// The service's name.
    const NAME: &'static str;

    /// Whether `after` and `r` are a possible state and answer of the service
    /// after it handled `msg` in state `self`. A service that does not say
    /// more allows any state and answer.
    open spec fn handled(self, msg: DirectRequest, after: Self, r: Result<Response, ServiceError>) -> bool {
        true
    }

    /// Handles a direct request addressed to the service.
    fn ffa_msg_send_direct_req2(&mut self, msg: &DirectRequest) -> (r: Result<Response, ServiceError>)
        ensures
            old(self).handled(*msg, *final(self), r),
    ;
}

} // verus!
