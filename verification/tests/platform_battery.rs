use ec_service_lib::payload::Payload;
use ec_service_lib::platform::battery::{Battery, BixRsp, BstRsp, PifRsp, PsrRsp, StaRsp, ValueRsp, EC_BAT_GET_BIX, EC_BAT_GET_BST, EC_BAT_GET_PSR, EC_BAT_GET_PIF, EC_BAT_GET_BPS, EC_BAT_GET_BTP, EC_BAT_GET_BPT, EC_BAT_GET_BPC, EC_BAT_GET_BMC, EC_BAT_GET_BMD, EC_BAT_GET_BCT, EC_BAT_GET_BTM, EC_BAT_GET_BMS, EC_BAT_GET_BMA, EC_BAT_GET_STA};
use ec_service_lib::service::{DirectRequest, Service, ServiceError};

/// A battery request with just the command byte.
fn bat_req(cmd: u8) -> DirectRequest {
    DirectRequest { source_id: 0, destination_id: 0, uuid: Battery::UUID, payload: Payload::from_bytes(&[cmd]) }
}

/// A battery request with a value at offset 4 and the store flag at offset 8.
fn bat_req_with_value(cmd: u8, value: u32) -> DirectRequest {
    let mut bytes = [0u8; 14 * 8];
    bytes[0] = cmd;
    bytes[4..8].copy_from_slice(&value.to_le_bytes());
    bytes[8] = 1;
    DirectRequest { source_id: 0, destination_id: 0, uuid: Battery::UUID, payload: Payload::from_bytes(&bytes) }
}

#[test]
fn battery_get_bst_works() {
    let mut bat = Battery::new();
    let msg = DirectRequest { source_id: 0, destination_id: 0, uuid: Battery::UUID, payload: Payload::from_bytes(&[EC_BAT_GET_BST]) };
    let resp = bat.ffa_msg_send_direct_req2(&msg).unwrap();
    let bst = BstRsp::from_payload(&resp.payload);
    assert_eq!(bst.state, 0x1);
    assert_eq!(bst.present_rate, 500);
    assert_eq!(bst.remaining_cap, 5000);
    assert_eq!(bst.present_volt, 12000);
}

#[test]
fn test_get_bix() {
    let mut bat = Battery::new();
    let resp = bat.ffa_msg_send_direct_req2(&bat_req(EC_BAT_GET_BIX)).unwrap();
    let bix = BixRsp::from_payload(&resp.payload);
    assert_eq!(bix.events, 0);
    assert_eq!(bix.status, 0);
    assert_eq!(bix.last_full_charge, 4500);
    assert_eq!(bix.cycle_count, 42);
    assert_eq!(bix.state, 0x1);
    assert_eq!(bix.present_rate, 500);
    assert_eq!(bix.remaining_cap, 5000);
    assert_eq!(bix.present_volt, 12000);
    assert_eq!(bix.psr_state, 0x1);
    assert_eq!(bix.psr_max_out, 65000);
    assert_eq!(bix.psr_max_in, 0);
}

#[test]
fn test_get_bst_from_state() {
    let mut bat = Battery::new();
    let resp = bat.ffa_msg_send_direct_req2(&bat_req(EC_BAT_GET_BST)).unwrap();
    let bst = BstRsp::from_payload(&resp.payload);
    assert_eq!(bst.state, 0x1);
    assert_eq!(bst.present_rate, 500);
    assert_eq!(bst.remaining_cap, 5000);
    assert_eq!(bst.present_volt, 12000);
}

#[test]
fn test_get_psr() {
    let mut bat = Battery::new();
    let resp = bat.ffa_msg_send_direct_req2(&bat_req(EC_BAT_GET_PSR)).unwrap();
    assert_eq!(PsrRsp::from_payload(&resp.payload).psr_state, 0x1);
}

#[test]
fn test_get_pif() {
    let mut bat = Battery::new();
    let resp = bat.ffa_msg_send_direct_req2(&bat_req(EC_BAT_GET_PIF)).unwrap();
    assert_eq!(PifRsp::from_payload(&resp.payload).max_power, 65000);
}

fn value_of(bat: &mut Battery, req: DirectRequest) -> u32 {
    let resp = bat.ffa_msg_send_direct_req2(&req).unwrap();
    ValueRsp::from_payload(&resp.payload).value
}

#[test]
fn test_get_bps() {
    let mut bat = Battery::new();
    assert_eq!(value_of(&mut bat, bat_req(EC_BAT_GET_BPS)), 0x1);
}

#[test]
fn test_get_btp_default() {
    let mut bat = Battery::new();
    assert_eq!(value_of(&mut bat, bat_req(EC_BAT_GET_BTP)), 10);
}

#[test]
fn test_get_bpt() {
    let mut bat = Battery::new();
    assert_eq!(value_of(&mut bat, bat_req(EC_BAT_GET_BPT)), 80);
}

#[test]
fn test_get_bpc() {
    let mut bat = Battery::new();
    assert_eq!(value_of(&mut bat, bat_req(EC_BAT_GET_BPC)), 100);
}

#[test]
fn test_get_bmc_default() {
    let mut bat = Battery::new();
    assert_eq!(value_of(&mut bat, bat_req(EC_BAT_GET_BMC)), 0);
}

#[test]
fn test_get_bmd() {
    let mut bat = Battery::new();
    assert_eq!(value_of(&mut bat, bat_req(EC_BAT_GET_BMD)), 0);
}

#[test]
fn test_get_bct() {
    let mut bat = Battery::new();
    assert_eq!(value_of(&mut bat, bat_req(EC_BAT_GET_BCT)), 120);
}

#[test]
fn test_get_btm() {
    let mut bat = Battery::new();
    assert_eq!(value_of(&mut bat, bat_req(EC_BAT_GET_BTM)), 2980);
}

#[test]
fn test_get_bms() {
    let mut bat = Battery::new();
    assert_eq!(value_of(&mut bat, bat_req(EC_BAT_GET_BMS)), 0x1);
}

#[test]
fn test_get_bma() {
    let mut bat = Battery::new();
    assert_eq!(value_of(&mut bat, bat_req(EC_BAT_GET_BMA)), 0);
}

#[test]
fn test_get_sta() {
    let mut bat = Battery::new();
    let resp = bat.ffa_msg_send_direct_req2(&bat_req(EC_BAT_GET_STA)).unwrap();
    assert_eq!(StaRsp::from_payload(&resp.payload).sta_status, 0x1F);
}

#[test]
fn test_btp_set_get_round_trip() {
    let mut bat = Battery::new();
    assert_eq!(value_of(&mut bat, bat_req_with_value(EC_BAT_GET_BTP, 25)), 25);
    assert_eq!(value_of(&mut bat, bat_req(EC_BAT_GET_BTP)), 25);
}

#[test]
fn test_bmc_set_get_round_trip() {
    let mut bat = Battery::new();
    assert_eq!(value_of(&mut bat, bat_req_with_value(EC_BAT_GET_BMC, 0x42)), 0x42);
    assert_eq!(value_of(&mut bat, bat_req(EC_BAT_GET_BMC)), 0x42);
}

#[test]
fn test_btp_set_overwrites_previous() {
    let mut bat = Battery::new();
    let _ = value_of(&mut bat, bat_req_with_value(EC_BAT_GET_BTP, 50));
    let _ = value_of(&mut bat, bat_req_with_value(EC_BAT_GET_BTP, 75));
    assert_eq!(value_of(&mut bat, bat_req(EC_BAT_GET_BTP)), 75);
}

#[test]
fn test_btp_zero_value_write() {
    let mut bat = Battery::new();
    let _ = value_of(&mut bat, bat_req_with_value(EC_BAT_GET_BTP, 50));
    assert_eq!(value_of(&mut bat, bat_req_with_value(EC_BAT_GET_BTP, 0)), 0);
    assert_eq!(value_of(&mut bat, bat_req(EC_BAT_GET_BTP)), 0);
}

#[test]
fn test_bmc_zero_value_write() {
    let mut bat = Battery::new();
    let _ = value_of(&mut bat, bat_req_with_value(EC_BAT_GET_BMC, 0x42));
    assert_eq!(value_of(&mut bat, bat_req_with_value(EC_BAT_GET_BMC, 0)), 0);
    assert_eq!(value_of(&mut bat, bat_req(EC_BAT_GET_BMC)), 0);
}

#[test]
fn battery_test_unknown_command_returns_error() {
    let mut bat = Battery::new();
    let result = bat.ffa_msg_send_direct_req2(&bat_req(0xFF));
    assert!(result.is_err());
    assert_eq!(result.err(), Some(ServiceError::UnknownBatteryCommand));
}

#[test]
fn writes_do_not_touch_other_values() {
    let mut bat = Battery::default();
    let _ = value_of(&mut bat, bat_req_with_value(EC_BAT_GET_BTP, 33));
    assert_eq!(value_of(&mut bat, bat_req(EC_BAT_GET_BMC)), 0);
    assert_eq!(value_of(&mut bat, bat_req(EC_BAT_GET_BPT)), 80);
    let bix = BixRsp::from_payload(&bat.ffa_msg_send_direct_req2(&bat_req(EC_BAT_GET_BIX)).unwrap().payload);
    assert_eq!(bix.cycle_count, 42);
}
