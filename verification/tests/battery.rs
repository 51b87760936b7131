use ec_service_lib::services::battery::{Battery, BatteryError, OdpHeader, OdpResponse, RelayError, BATTERY_CMD_GET_BST, ODP_SERVICE_BATTERY};

fn canned_response(service: u8, body: Vec<u8>) -> Result<OdpResponse, RelayError> {
    Ok(OdpResponse {
        header: OdpHeader { is_request: false, service, is_error: false, message_id: BATTERY_CMD_GET_BST },
        body,
    })
}

#[test]
fn round_trips_get_bst_against_ec_serializer() {
    // The EC serializes a BST as four little-endian dwords.
    let (state, rate, capacity, voltage) = (0x0000_0001u32, 0x1122_3344u32, 0x5566_7788u32, 0x99AA_BBCCu32);
    let mut response_body = Vec::new();
    for v in [state, rate, capacity, voltage] {
        response_body.extend_from_slice(&v.to_le_bytes());
    }
    assert_eq!(response_body.len(), 16, "GetBst response body must be 16 bytes");

    let svc = Battery::new();
    let request = svc.get_bst_request(0);
    let result = svc
        .get_bst(canned_response(ODP_SERVICE_BATTERY, response_body))
        .expect("get_bst should decode synthesized response");
    assert_eq!(result.battery_state, state);
    assert_eq!(result.battery_present_rate, rate);
    assert_eq!(result.battery_remaining_capacity, capacity);
    assert_eq!(result.battery_present_voltage, voltage);

    assert!(request.header.is_request, "must be a request");
    assert_eq!(request.header.service, ODP_SERVICE_BATTERY);
    assert_eq!(request.header.message_id, BATTERY_CMD_GET_BST);
    assert_eq!(request.body, vec![0u8]);
}

#[test]
fn get_bst_refuses_other_services_and_short_bodies() {
    let svc = Battery::new();
    assert_eq!(
        svc.get_bst(canned_response(0x09, vec![0; 16])),
        Err(BatteryError::UnexpectedResponse)
    );
    assert_eq!(svc.get_bst(canned_response(ODP_SERVICE_BATTERY, vec![0; 15])), Err(BatteryError::Relay(RelayError::Decode)));
    assert_eq!(svc.get_bst(Err(RelayError::Transport)), Err(BatteryError::Relay(RelayError::Transport)));
    assert_eq!(BatteryError::from(RelayError::Decode), BatteryError::Relay(RelayError::Decode));
}

#[test]
fn ffa_reply_packs_the_status_or_fails() {
    let svc = Battery::new();
    let mut body = Vec::new();
    for v in [1u32, 2, 3, 4, 5] {
        body.extend_from_slice(&v.to_le_bytes());
    }
    let resp = svc.ffa_reply(canned_response(ODP_SERVICE_BATTERY, body)).unwrap();
    assert_eq!((resp.payload.u32_at(0), resp.payload.u32_at(4), resp.payload.u32_at(8), resp.payload.u32_at(12)), (1, 2, 3, 4));
    assert_eq!(resp.payload.u32_at(16), 0);
    let err = svc.ffa_reply(Err(RelayError::Transport)).err().unwrap();
    assert_eq!(err.message(), "Battery: GetBst round-trip failed (transport or wire decode)");
}
