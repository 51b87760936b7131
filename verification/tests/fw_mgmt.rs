use ec_service_lib::payload::Payload;
use ec_service_lib::service::{DirectRequest, FfaCall, Response, Service, ServiceError};
use ec_service_lib::services::fw_mgmt::{FwMgmt, GenericRsp, EC_CAP_GET_BID, EC_CAP_GET_FW_STATE, EC_CAP_GET_SVC_LIST, EC_CAP_INDIRECT_MSG, EC_CAP_MAP_SHARE, EC_CAP_TEST_NFY, FW_MGMT_UUID};

/// A FwMgmt request with the given command byte.
fn fwmgmt_req(cmd: u8) -> DirectRequest {
    let mut bytes = [0u8; 14 * 8];
    bytes[0] = cmd;
    DirectRequest { source_id: 0x0001, destination_id: 0x8001, uuid: FW_MGMT_UUID, payload: Payload::from_bytes(&bytes) }
}

/// The status (i64) in register 0.
fn resp_status_i64(resp: &Response) -> i64 {
    resp.payload.u64_at(0) as i64
}

#[test]
fn test_get_fw_state() {
    let mut svc = FwMgmt::new();
    let resp = svc.ffa_msg_send_direct_req2(&fwmgmt_req(EC_CAP_GET_FW_STATE)).unwrap();
    let p = resp.payload;
    assert_eq!(p.u8_at(0), 0x00);
    assert_eq!(p.u8_at(1), 0x01);
    assert_eq!(p.u8_at(2), 0x00);
    assert_eq!(p.u8_at(3), 0x01);
}

#[test]
fn test_get_svc_list() {
    let mut svc = FwMgmt::new();
    let resp = svc.ffa_msg_send_direct_req2(&fwmgmt_req(EC_CAP_GET_SVC_LIST)).unwrap();
    assert_eq!(resp_status_i64(&resp), 0x0);
    let p = resp.payload;
    assert_eq!(p.u8_at(8), 0x01);
    assert_eq!(p.u8_at(10), 0x01);
    assert_eq!(p.u8_at(11), 0x01);
    assert_eq!(p.u8_at(12), 0x01);
    assert_eq!(p.u8_at(13), 0x00);
    assert_eq!(p.u8_at(14), 0x07);
}

#[test]
fn test_get_bid() {
    let mut svc = FwMgmt::new();
    let resp = svc.ffa_msg_send_direct_req2(&fwmgmt_req(EC_CAP_GET_BID)).unwrap();
    assert_eq!(resp_status_i64(&resp), 0x0);
    let bid = resp.payload.u64_at(8);
    assert_eq!(bid, 0xdead0001);
}

#[test]
fn test_process_indirect_returns_error() {
    let mut svc = FwMgmt::new();
    let result = svc.ffa_msg_send_direct_req2(&fwmgmt_req(EC_CAP_INDIRECT_MSG));
    assert!(result.is_err(), "process_indirect should return an error");
}

#[test]
fn fw_mgmt_test_unknown_command_returns_error() {
    let mut svc = FwMgmt::new();
    let result = svc.ffa_msg_send_direct_req2(&fwmgmt_req(0xFF));
    assert!(result.is_err());
}

#[test]
fn errors_name_their_cause() {
    let mut svc = FwMgmt::new();
    let e = svc.ffa_msg_send_direct_req2(&fwmgmt_req(EC_CAP_INDIRECT_MSG)).err().unwrap();
    assert_eq!(e, ServiceError::IndirectNotSupported);
    assert_eq!(e.message(), "process_indirect not supported");
    let e = svc.ffa_msg_send_direct_req2(&fwmgmt_req(0x06)).err().unwrap();
    assert_eq!(e, ServiceError::UnknownFwMgmtCommand);
    assert_eq!(e.message(), "Unknown FwMgmt Command");
}

#[test]
fn test_notify_goes_back_to_sender_then_succeeds() {
    let mut svc = FwMgmt::new();
    let resp = svc.ffa_msg_send_direct_req2(&fwmgmt_req(EC_CAP_TEST_NFY)).unwrap();
    match resp.call {
        Some(FfaCall::NotificationSet { sender, receiver, flags, bitmap }) => {
            assert_eq!(sender, 0x8001);
            assert_eq!(receiver, 0x0001);
            assert_eq!(flags, 0b10);
            assert_eq!(bitmap, 0b10);
        }
        _ => panic!("expected a notification"),
    }
    assert_eq!(resp_status_i64(&resp), 0);
}

#[test]
fn map_share_retrieves_memory_then_succeeds() {
    let mut svc = FwMgmt::new();
    let resp = svc.ffa_msg_send_direct_req2(&fwmgmt_req(EC_CAP_MAP_SHARE)).unwrap();
    assert!(matches!(resp.call, Some(FfaCall::MemRetrieve)));
    assert_eq!(resp_status_i64(&resp), 0);
    assert_eq!(resp.payload.u64_at(8), 0);
}

#[test]
fn fw_state_bytes_are_exact() {
    let p = FwMgmt::new().get_fw_state().into_payload();
    assert_eq!(&p.bytes[..4], &[0x00, 0x01, 0x00, 0x01]);
    assert!(p.bytes[4..].iter().all(|&b| b == 0));
    let p = FwMgmt::new().get_svc_list().into_payload();
    assert_eq!(&p.bytes[..16], &[0, 0, 0, 0, 0, 0, 0, 0, 1, 0, 1, 1, 1, 0, 7, 0]);
}

#[test]
fn generic_status_encodes_negative_values() {
    let p = GenericRsp { status: -1 }.into_payload();
    assert_eq!(p.u64_at(0), u64::MAX);
    assert_eq!(p.u8_at(8), 0);
}
