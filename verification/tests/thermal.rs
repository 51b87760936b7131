use ec_service_lib::payload::Payload;
use ec_service_lib::service::{DirectRequest, FfaCall, Response, Service, ServiceError};
use ec_service_lib::services::thermal::{ReadVarReq, SetVarReq, TempRsp, Thermal, ThresholdReq, ThresholdRsp, EC_THM_GET_THRS, EC_THM_GET_TMP, EC_THM_GET_VAR, EC_THM_SET_SCP, EC_THM_SET_THRS, EC_THM_SET_VAR, MAX_VARS, THERMAL_UUID};
use uuid::{Builder, Uuid};

fn thermal_req(payload: Payload) -> DirectRequest {
    DirectRequest { source_id: 0, destination_id: 0, uuid: THERMAL_UUID, payload }
}

fn resp_status(resp: &Response) -> i64 {
    resp.payload.u64_at(0) as i64
}

fn uuid_of(s: &str) -> Uuid {
    Uuid::parse_str(s).unwrap()
}

fn set_threshold_payload(sensor_id: u8, timeout: u16, low_temp: u32, high_temp: u32) -> Payload {
    let mut bytes = [0u8; 14 * 8];
    bytes[0] = EC_THM_SET_THRS;
    bytes[1] = sensor_id;
    bytes[3..5].copy_from_slice(&timeout.to_le_bytes());
    bytes[5..9].copy_from_slice(&low_temp.to_le_bytes());
    bytes[9..13].copy_from_slice(&high_temp.to_le_bytes());
    Payload::from_bytes(&bytes)
}

fn get_threshold_payload(sensor_id: u8) -> Payload {
    let mut bytes = [0u8; 14 * 8];
    bytes[0] = EC_THM_GET_THRS;
    bytes[1] = sensor_id;
    Payload::from_bytes(&bytes)
}

fn set_cooling_policy_payload(sensor_id: u8, policy_type: u8) -> Payload {
    let mut bytes = [0u8; 14 * 8];
    bytes[0] = EC_THM_SET_SCP;
    bytes[1] = sensor_id;
    bytes[2] = policy_type;
    Payload::from_bytes(&bytes)
}

fn set_variable_payload(uuid: &Uuid, data: u32) -> Payload {
    let mut bytes = [0u8; 14 * 8];
    bytes[0] = EC_THM_SET_VAR;
    bytes[1] = 0;
    bytes[2..4].copy_from_slice(&4u16.to_le_bytes());
    bytes[4..20].copy_from_slice(&uuid.to_bytes_le());
    bytes[20..24].copy_from_slice(&data.to_le_bytes());
    Payload::from_bytes(&bytes)
}

fn get_variable_payload(uuid: &Uuid) -> Payload {
    let mut bytes = [0u8; 14 * 8];
    bytes[0] = EC_THM_GET_VAR;
    bytes[1] = 0;
    bytes[2..4].copy_from_slice(&4u16.to_le_bytes());
    bytes[4..20].copy_from_slice(&uuid.to_bytes_le());
    Payload::from_bytes(&bytes)
}

#[test]
fn test_set_get_threshold_round_trip() {
    let mut thermal = Thermal::new();
    let sensor_id = 2u8;
    let timeout = 500u16;
    let low_temp = 15u32;
    let high_temp = 85u32;
    let set_resp = thermal
        .ffa_msg_send_direct_req2(&thermal_req(set_threshold_payload(sensor_id, timeout, low_temp, high_temp)))
        .unwrap();
    assert_eq!(resp_status(&set_resp), 0);
    let get_resp = thermal.ffa_msg_send_direct_req2(&thermal_req(get_threshold_payload(sensor_id))).unwrap();
    let p = get_resp.payload;
    assert_eq!(p.u64_at(0) as i64, 0, "status should be 0");
    assert_eq!(p.u32_at(8), timeout as u32, "timeout round-trip");
    assert_eq!(p.u32_at(12), low_temp, "low_temp round-trip");
    assert_eq!(p.u32_at(16), high_temp, "high_temp round-trip");
}

#[test]
fn test_set_get_variable_round_trip() {
    let mut thermal = Thermal::new();
    let var_uuid = uuid_of("aabbccdd-1122-3344-5566-778899aabbcc");
    let data = 0x42u32;
    let set_resp = thermal.ffa_msg_send_direct_req2(&thermal_req(set_variable_payload(&var_uuid, data))).unwrap();
    assert_eq!(resp_status(&set_resp), 0);
    let get_resp = thermal.ffa_msg_send_direct_req2(&thermal_req(get_variable_payload(&var_uuid))).unwrap();
    let p = get_resp.payload;
    assert_eq!(p.u64_at(0) as i64, 0, "status should be 0");
    assert_eq!(p.u32_at(8), data, "data round-trip");
}

#[test]
fn test_set_cooling_policy_returns_success() {
    let mut thermal = Thermal::new();
    let resp = thermal.ffa_msg_send_direct_req2(&thermal_req(set_cooling_policy_payload(0, 1))).unwrap();
    assert_eq!(resp_status(&resp), 0);
}

#[test]
fn test_get_temperature_response_format() {
    let rsp = TempRsp { status: 0, temp: 0x1234 };
    let payload = rsp.into_payload();
    assert_eq!(payload.u64_at(0) as i64, 0, "status should be 0");
    assert_eq!(payload.u64_at(8), 0x1234, "temperature should be 0x1234");
}

#[test]
fn get_temperature_yields_first() {
    let mut thermal = Thermal::new();
    let mut bytes = [0u8; 112];
    bytes[0] = EC_THM_GET_TMP;
    let resp = thermal.ffa_msg_send_direct_req2(&thermal_req(Payload::from_bytes(&bytes))).unwrap();
    assert!(matches!(resp.call, Some(FfaCall::Yield { timeout: 0x1_0000_0000 })));
    assert_eq!(resp_status(&resp), 0);
    assert_eq!(resp.payload.u64_at(8), 0x1234);
}

#[test]
fn test_get_threshold_unset_sensor_returns_zeroed_defaults() {
    let mut thermal = Thermal::new();
    let resp = thermal.ffa_msg_send_direct_req2(&thermal_req(get_threshold_payload(0))).unwrap();
    let p = resp.payload;
    assert_eq!(p.u64_at(0) as i64, 0, "status should be 0 for unset sensor");
    assert_eq!(p.u32_at(8), 0, "timeout should be 0 for unset sensor");
    assert_eq!(p.u32_at(12), 0, "low_temp should be 0 for unset sensor");
    assert_eq!(p.u32_at(16), 0, "high_temp should be 0 for unset sensor");
}

#[test]
fn test_get_variable_unknown_uuid_returns_error() {
    let mut thermal = Thermal::new();
    let unknown_uuid = uuid_of("00000000-0000-0000-0000-000000000001");
    let resp = thermal.ffa_msg_send_direct_req2(&thermal_req(get_variable_payload(&unknown_uuid))).unwrap();
    let p = resp.payload;
    assert_eq!(p.u64_at(0) as i64, -1, "status should be -1 for unknown UUID");
    assert_eq!(p.u32_at(8), 0, "data should be 0 for unknown UUID");
}

#[test]
fn test_set_threshold_upsert_overwrites() {
    let mut thermal = Thermal::new();
    let sensor_id = 1u8;
    thermal.ffa_msg_send_direct_req2(&thermal_req(set_threshold_payload(sensor_id, 100, 10, 50))).unwrap();
    thermal.ffa_msg_send_direct_req2(&thermal_req(set_threshold_payload(sensor_id, 200, 20, 90))).unwrap();
    let resp = thermal.ffa_msg_send_direct_req2(&thermal_req(get_threshold_payload(sensor_id))).unwrap();
    let p = resp.payload;
    assert_eq!(p.u64_at(0) as i64, 0);
    assert_eq!(p.u32_at(8), 200, "timeout should be updated value");
    assert_eq!(p.u32_at(12), 20, "low_temp should be updated value");
    assert_eq!(p.u32_at(16), 90, "high_temp should be updated value");
}

#[test]
fn test_set_variable_upsert_overwrites() {
    let mut thermal = Thermal::new();
    let var_uuid = uuid_of("11111111-2222-3333-4444-555555555555");
    thermal.ffa_msg_send_direct_req2(&thermal_req(set_variable_payload(&var_uuid, 100))).unwrap();
    thermal.ffa_msg_send_direct_req2(&thermal_req(set_variable_payload(&var_uuid, 200))).unwrap();
    let resp = thermal.ffa_msg_send_direct_req2(&thermal_req(get_variable_payload(&var_uuid))).unwrap();
    assert_eq!(resp.payload.u32_at(8), 200, "data should be updated value");
}

#[test]
fn test_variable_store_full_rejects() {
    let mut thermal = Thermal::new();
    for i in 0..MAX_VARS {
        let mut uuid_bytes = [0u8; 16];
        uuid_bytes[0] = i as u8;
        let var_uuid = Builder::from_slice_le(&uuid_bytes).unwrap().into_uuid();
        let resp = thermal.ffa_msg_send_direct_req2(&thermal_req(set_variable_payload(&var_uuid, i as u32))).unwrap();
        assert_eq!(resp_status(&resp), 0, "slot {i} should be accepted");
    }
    let mut new_uuid_bytes = [0u8; 16];
    new_uuid_bytes[0] = 0xFF;
    let new_uuid = Builder::from_slice_le(&new_uuid_bytes).unwrap().into_uuid();
    let resp = thermal.ffa_msg_send_direct_req2(&thermal_req(set_variable_payload(&new_uuid, 999))).unwrap();
    assert_eq!(resp_status(&resp), -1, "store is full; new UUID rejected");
    let resp = thermal.ffa_msg_send_direct_req2(&thermal_req(get_variable_payload(&new_uuid))).unwrap();
    assert_eq!(resp.payload.u64_at(0) as i64, -1, "rejected UUID absent");
    for i in 0..MAX_VARS {
        let mut uuid_bytes = [0u8; 16];
        uuid_bytes[0] = i as u8;
        let var_uuid = Builder::from_slice_le(&uuid_bytes).unwrap().into_uuid();
        let resp = thermal.ffa_msg_send_direct_req2(&thermal_req(get_variable_payload(&var_uuid))).unwrap();
        assert_eq!(resp.payload.u64_at(0) as i64, 0, "uuid {i} retained");
        assert_eq!(resp.payload.u32_at(8), i as u32, "uuid {i} data retained");
    }
    let mut uuid0_bytes = [0u8; 16];
    uuid0_bytes[0] = 0;
    let uuid0 = Builder::from_slice_le(&uuid0_bytes).unwrap().into_uuid();
    let resp = thermal.ffa_msg_send_direct_req2(&thermal_req(set_variable_payload(&uuid0, 4242))).unwrap();
    assert_eq!(resp_status(&resp), 0, "update-in-place allowed when full");
    let resp = thermal.ffa_msg_send_direct_req2(&thermal_req(get_variable_payload(&uuid0))).unwrap();
    assert_eq!(resp.payload.u32_at(8), 4242, "uuid0 updated in place");
}

#[test]
fn test_threshold_sensor_id_out_of_bounds() {
    let mut thermal = Thermal::new();
    let set_resp = thermal.ffa_msg_send_direct_req2(&thermal_req(set_threshold_payload(8, 100, 10, 50))).unwrap();
    assert_eq!(resp_status(&set_resp), -1, "set with sensor_id=8 should return -1");
    let get_resp = thermal.ffa_msg_send_direct_req2(&thermal_req(get_threshold_payload(8))).unwrap();
    assert_eq!(resp_status(&get_resp), -1, "get with sensor_id=8 should return -1");
    let set_resp = thermal.ffa_msg_send_direct_req2(&thermal_req(set_threshold_payload(255, 100, 10, 50))).unwrap();
    assert_eq!(resp_status(&set_resp), -1, "set with sensor_id=255 should return -1");
}

#[test]
fn test_multiple_sensors_independent() {
    let mut thermal = Thermal::new();
    thermal.ffa_msg_send_direct_req2(&thermal_req(set_threshold_payload(0, 100, 10, 50))).unwrap();
    thermal.ffa_msg_send_direct_req2(&thermal_req(set_threshold_payload(3, 200, 20, 90))).unwrap();
    let resp0 = thermal.ffa_msg_send_direct_req2(&thermal_req(get_threshold_payload(0))).unwrap();
    assert_eq!(resp0.payload.u32_at(8), 100, "sensor 0 timeout");
    assert_eq!(resp0.payload.u32_at(12), 10, "sensor 0 low_temp");
    assert_eq!(resp0.payload.u32_at(16), 50, "sensor 0 high_temp");
    let resp3 = thermal.ffa_msg_send_direct_req2(&thermal_req(get_threshold_payload(3))).unwrap();
    assert_eq!(resp3.payload.u32_at(8), 200, "sensor 3 timeout");
    assert_eq!(resp3.payload.u32_at(12), 20, "sensor 3 low_temp");
    assert_eq!(resp3.payload.u32_at(16), 90, "sensor 3 high_temp");
}

#[test]
fn test_cooling_policy_sensor_id_out_of_bounds() {
    let mut thermal = Thermal::new();
    let resp = thermal.ffa_msg_send_direct_req2(&thermal_req(set_cooling_policy_payload(8, 1))).unwrap();
    assert_eq!(resp_status(&resp), -1, "cooling policy with sensor_id=8 should return -1");
}

#[test]
fn unknown_thermal_command_is_refused() {
    let mut thermal = Thermal::default();
    let mut bytes = [0u8; 112];
    bytes[0] = 0x7;
    let r = thermal.ffa_msg_send_direct_req2(&thermal_req(Payload::from_bytes(&bytes)));
    assert_eq!(r.err(), Some(ServiceError::UnknownThermalCommand));
}

#[test]
fn variable_requests_of_other_lengths_are_refused() {
    let mut thermal = Thermal::new();
    let var_uuid = uuid_of("aabbccdd-1122-3344-5566-778899aabbcc");
    let mut p = set_variable_payload(&var_uuid, 7);
    p.bytes[2] = 2;
    let resp = thermal.ffa_msg_send_direct_req2(&thermal_req(p)).unwrap();
    assert_eq!(resp_status(&resp), -1);
    let resp = thermal.ffa_msg_send_direct_req2(&thermal_req(get_variable_payload(&var_uuid))).unwrap();
    assert_eq!(resp_status(&resp), -1);
}

#[test]
fn variable_request_decodes_uuid_from_its_little_endian_bytes() {
    let var_uuid = uuid_of("aabbccdd-1122-3344-5566-778899aabbcc");
    let req = SetVarReq::from_payload(&set_variable_payload(&var_uuid, 9));
    assert_eq!(req.var_uuid, var_uuid.as_u128());
    assert_eq!(req.len, 4);
    assert_eq!(req.data, 9);
    let read = ReadVarReq::from_payload(&get_variable_payload(&var_uuid));
    assert_eq!(read.var_uuid, 0xaabbccdd_1122_3344_5566_778899aabbcc);
}

#[test]
fn read_variable_request_encodes_uuid_in_rfc_order() {
    let var_uuid = uuid_of("aabbccdd-1122-3344-5566-778899aabbcc");
    let p = ReadVarReq { id: 3, len: 4, var_uuid: var_uuid.as_u128() }.into_payload();
    assert_eq!(p.u8_at(0), 3);
    assert_eq!(p.u16_at(1), 4);
    assert_eq!(p.slice(3, 19), var_uuid.as_bytes());
}

#[test]
fn threshold_request_reads_its_fields() {
    let req = ThresholdReq::from_payload(&set_threshold_payload(5, 0xBEEF, 7, 9));
    assert_eq!((req.id, req.timeout, req.low_temp, req.high_temp), (5, 0xBEEF, 7, 9));
    let p = ThresholdRsp { status: -1, timeout: 1, low_temp: 2, high_temp: 3 }.into_payload();
    assert_eq!(p.u64_at(0), u64::MAX);
    assert_eq!((p.u32_at(8), p.u32_at(12), p.u32_at(16)), (1, 2, 3));
}
