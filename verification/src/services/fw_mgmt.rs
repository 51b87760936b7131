//! Firmware-management service: firmware state, service list, board id,
//! test notification and memory sharing.
use vstd::prelude::*;
use vstd::bytes::*;
use crate::payload::{padded, push_le_u16, push_le_u64, Payload};
use crate::service::{DirectRequest, FfaCall, Response, Service, ServiceError};

verus! {

/// The UUID of the service, 330c1273-fde5-4757-9819-5b6539037502.
pub const FW_MGMT_UUID: u128 = 0x330c1273_fde5_4757_9819_5b6539037502;

pub const EC_CAP_INDIRECT_MSG: u8 = 0x0;
pub const EC_CAP_GET_FW_STATE: u8 = 0x1;
pub const EC_CAP_GET_SVC_LIST: u8 = 0x2;
pub const EC_CAP_GET_BID: u8 = 0x3;
pub const EC_CAP_TEST_NFY: u8 = 0x4;
pub const EC_CAP_MAP_SHARE: u8 = 0x5;

/// Flags and bitmap of the test notification.
pub const TEST_NOTIFY_FLAGS: u32 = 0b10;
pub const TEST_NOTIFY_BITMAP: u64 = 0b10;

/// Answer to GET_FW_STATE.
pub struct FwStateRsp {
    pub fw_version: u16,
    pub secure_state: u8,
    pub boot_status: u8,
}

pub open spec fn fw_state_bytes(r: FwStateRsp) -> Seq<u8> {
    spec_u16_to_le_bytes(r.fw_version) + seq![r.secure_state] + seq![r.boot_status]
}

impl FwStateRsp {
    /// The response payload: version (LE), secure state, boot status.
    pub fn into_payload(self) -> (p: Payload)
        ensures
            p@ == padded(fw_state_bytes(self)),
    {
        proof { crate::payload::lemma_le_lens(); }
        let mut v: Vec<u8> = Vec::new();
        push_le_u16(&mut v, self.fw_version);
        v.push(self.secure_state);
        v.push(self.boot_status);
        assert(v@ =~= fw_state_bytes(self));
        Payload::from_bytes(v.as_slice())
    }
}

/// Answer to GET_SVC_LIST.
pub struct ServiceListRsp {
    pub status: i64,
    pub debug_mask: u16,
    pub battery_mask: u8,
    pub fan_mask: u8,
    pub thermal_mask: u8,
    pub hid_mask: u8,
    pub key_mask: u16,
}

pub open spec fn service_list_bytes(r: ServiceListRsp) -> Seq<u8> {
    spec_u64_to_le_bytes(r.status as u64) + spec_u16_to_le_bytes(r.debug_mask) + seq![r.battery_mask]
        + seq![r.fan_mask] + seq![r.thermal_mask] + seq![r.hid_mask] + spec_u16_to_le_bytes(r.key_mask)
}

impl ServiceListRsp {
    /// The response payload, field after field, little-endian.
    pub fn into_payload(self) -> (p: Payload)
        ensures
            p@ == padded(service_list_bytes(self)),
    {
        proof { crate::payload::lemma_le_lens(); }
        let mut v: Vec<u8> = Vec::new();
        push_le_u64(&mut v, self.status as u64);
        push_le_u16(&mut v, self.debug_mask);
        v.push(self.battery_mask);
        v.push(self.fan_mask);
        v.push(self.thermal_mask);
        v.push(self.hid_mask);
        push_le_u16(&mut v, self.key_mask);
        assert(v@ =~= service_list_bytes(self));
        Payload::from_bytes(v.as_slice())
    }
}

/// Answer to GET_BID.
pub struct GetBidRsp {
    pub status: i64,
    pub bid: u64,
}

pub open spec fn bid_bytes(r: GetBidRsp) -> Seq<u8> {
    spec_u64_to_le_bytes(r.status as u64) + spec_u64_to_le_bytes(r.bid)
}

impl GetBidRsp {
    /// The response payload: status then board id, little-endian.
    pub fn into_payload(self) -> (p: Payload)
        ensures
            p@ == padded(bid_bytes(self)),
    {
        proof { crate::payload::lemma_le_lens(); }
        let mut v: Vec<u8> = Vec::new();
        push_le_u64(&mut v, self.status as u64);
        push_le_u64(&mut v, self.bid);
        Payload::from_bytes(v.as_slice())
    }
}

/// A response holding only a status.
pub struct GenericRsp {
    pub status: i64,
}

pub open spec fn generic_bytes(r: GenericRsp) -> Seq<u8> {
    spec_u64_to_le_bytes(r.status as u64)
}

impl GenericRsp {
    /// The response payload: the status, little-endian.
    pub fn into_payload(self) -> (p: Payload)
        ensures
            p@ == padded(generic_bytes(self)),
    {
        proof { crate::payload::lemma_le_lens(); }
        let mut v: Vec<u8> = Vec::new();
        push_le_u64(&mut v, self.status as u64);
        Payload::from_bytes(v.as_slice())
    }
}

/// The firmware state this firmware reports.
pub open spec fn spec_fw_state() -> FwStateRsp {
    FwStateRsp { fw_version: 0x0100, secure_state: 0x0, boot_status: 0x1 }
}

/// The service list this firmware reports.
pub open spec fn spec_svc_list() -> ServiceListRsp {
    ServiceListRsp {
        status: 0x0,
        debug_mask: 0x1,
        battery_mask: 0x1,
        fan_mask: 0x1,
        thermal_mask: 0x1,
        hid_mask: 0x0,
        key_mask: 0x7,
    }
}

/// The board id this firmware reports.
pub open spec fn spec_bid() -> GetBidRsp {
    GetBidRsp { status: 0x0, bid: 0xdead0001 }
}

/// The answer of the service to a request payload: the call to make, if
/// any, and the bytes of the response, or the error.
pub open spec fn fw_mgmt_answer(msg: DirectRequest) -> Result<(Option<FfaCall>, Seq<u8>), ServiceError> {
    let cmd = msg.payload@[0];
    if cmd == EC_CAP_INDIRECT_MSG {
        Err(ServiceError::IndirectNotSupported)
    } else if cmd == EC_CAP_GET_FW_STATE {
        Ok((None, fw_state_bytes(spec_fw_state())))
    } else if cmd == EC_CAP_GET_SVC_LIST {
        Ok((None, service_list_bytes(spec_svc_list())))
    } else if cmd == EC_CAP_GET_BID {
        Ok((None, bid_bytes(spec_bid())))
    } else if cmd == EC_CAP_TEST_NFY {
        Ok((
            Some(FfaCall::NotificationSet {
                sender: msg.destination_id,
                receiver: msg.source_id,
                flags: TEST_NOTIFY_FLAGS,
                bitmap: TEST_NOTIFY_BITMAP,
            }),
            generic_bytes(GenericRsp { status: 0 }),
        ))
    } else if cmd == EC_CAP_MAP_SHARE {
        Ok((Some(FfaCall::MemRetrieve), generic_bytes(GenericRsp { status: 0 })))
    } else {
        Err(ServiceError::UnknownFwMgmtCommand)
    }
}

/// The service answers exactly the commands GET_FW_STATE to MAP_SHARE; of
/// those, only TEST_NFY and MAP_SHARE need an FF-A call first.
pub proof fn lemma_fw_mgmt_commands(msg: DirectRequest)
    ensures
        fw_mgmt_answer(msg) is Ok <==> EC_CAP_GET_FW_STATE <= msg.payload@[0] <= EC_CAP_MAP_SHARE,
        fw_mgmt_answer(msg) matches Ok((call, _b)) ==> (call is Some <==> msg.payload@[0] >= EC_CAP_TEST_NFY),
        fw_mgmt_answer(msg) is Err ==> fw_mgmt_answer(msg) == Err::<(Option<FfaCall>, Seq<u8>), ServiceError>(
            if msg.payload@[0] == EC_CAP_INDIRECT_MSG {
                ServiceError::IndirectNotSupported
            } else {
                ServiceError::UnknownFwMgmtCommand
            },
        ),
{
}

/// The firmware-management service. It holds no state.
#[derive(Default)]
pub struct FwMgmt {}

impl FwMgmt {
    pub fn new() -> (r: Self) {
        FwMgmt {}
    }

    /// The firmware state: version 1.0, not secure, booted.
    pub fn get_fw_state(&self) -> (r: FwStateRsp)
        ensures
            r == spec_fw_state(),
    {
        FwStateRsp { fw_version: 0x0100, secure_state: 0x0, boot_status: 0x1 }
    }

    /// The list of services present.
    pub fn get_svc_list(&self) -> (r: ServiceListRsp)
        ensures
            r == spec_svc_list(),
    {
        ServiceListRsp {
            status: 0x0,
            debug_mask: 0x1,
            battery_mask: 0x1,
            fan_mask: 0x1,
            thermal_mask: 0x1,
            hid_mask: 0x0,
            key_mask: 0x7,
        }
    }

    /// The board id.
    pub fn get_bid(&self) -> (r: GetBidRsp)
        ensures
            r == spec_bid(),
    {
        GetBidRsp { status: 0x0, bid: 0xdead0001 }
    }

    /// Sharing memory: the region is retrieved first, then success is answered.
    pub fn map_share(&self, _address: u64, _length: u64) -> (r: Response)
        ensures
            r.call == Some(FfaCall::MemRetrieve),
            r.payload@ == padded(generic_bytes(GenericRsp { status: 0 })),
    {
        Response { call: Some(FfaCall::MemRetrieve), payload: GenericRsp { status: 0x0 }.into_payload() }
    }

    /// The test notification goes from the request's destination back to its
    /// source; then success is answered.
    pub fn test_notify(&self, msg: &DirectRequest) -> (r: Response)
        ensures
            r.call == Some(FfaCall::NotificationSet {
                sender: msg.destination_id,
                receiver: msg.source_id,
                flags: TEST_NOTIFY_FLAGS,
                bitmap: TEST_NOTIFY_BITMAP,
            }),
            r.payload@ == padded(generic_bytes(GenericRsp { status: 0 })),
    {
        let call = FfaCall::NotificationSet {
            sender: msg.destination_id,
            receiver: msg.source_id,
            flags: TEST_NOTIFY_FLAGS,
            bitmap: TEST_NOTIFY_BITMAP,
        };
        Response { call: Some(call), payload: GenericRsp { status: 0x0 }.into_payload() }
    }

    /// Indirect messages are not supported.
    pub fn process_indirect(&self, _seq_num: u16, _rx_buffer: u64, _tx_buffer: u64) -> (r: Result<Response, ServiceError>)
        ensures
            r == Err::<Response, ServiceError>(ServiceError::IndirectNotSupported),
    {
        Err(ServiceError::IndirectNotSupported)
    }
}

impl Service for FwMgmt {
    const UUID: u128 = FW_MGMT_UUID;

    const NAME: &'static str = "FwMgmt";

    open spec fn handled(self, msg: DirectRequest, after: Self, r: Result<Response, ServiceError>) -> bool {
        match fw_mgmt_answer(msg) {
            Ok((call, bytes)) => r matches Ok(resp) && resp.call == call && resp.payload@ == padded(bytes),
            Err(e) => r == Err::<Response, ServiceError>(e),
        }
    }

    fn ffa_msg_send_direct_req2(&mut self, msg: &DirectRequest) -> (r: Result<Response, ServiceError>) {
        let cmd = msg.payload.u8_at(0);
        if cmd == EC_CAP_INDIRECT_MSG {
            self.process_indirect(msg.payload.u8_at(1) as u16, msg.payload.register_at(4), msg.payload.register_at(5))
        } else if cmd == EC_CAP_GET_FW_STATE {
            Ok(Response::reply(self.get_fw_state().into_payload()))
        } else if cmd == EC_CAP_GET_SVC_LIST {
            Ok(Response::reply(self.get_svc_list().into_payload()))
        } else if cmd == EC_CAP_GET_BID {
            Ok(Response::reply(self.get_bid().into_payload()))
        } else if cmd == EC_CAP_TEST_NFY {
            Ok(self.test_notify(msg))
        } else if cmd == EC_CAP_MAP_SHARE {
            Ok(self.map_share(msg.payload.register_at(1), msg.payload.register_at(2)))
        } else {
            Err(ServiceError::UnknownFwMgmtCommand)
        }
    }
}

} // verus!
