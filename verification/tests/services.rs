use ec_service_lib::payload::Payload;
use ec_service_lib::services::parse_ffa_request;

#[test]
fn parse_ffa_request_skips_command_byte() {
    let payload = Payload::from_bytes(&[0xAA, 1, 2, 3, 4]);
    assert_eq!(parse_ffa_request::<4>(&payload), Some(&[1, 2, 3, 4]));
}

#[test]
fn parse_ffa_request_rejects_type_larger_than_payload() {
    let payload = Payload::from_bytes(&[]);
    assert!(parse_ffa_request::<112>(&payload).is_none());
}

#[test]
fn parse_ffa_request_accepts_the_whole_rest() {
    let payload = Payload::from_bytes(&[9, 8, 7]);
    let r = parse_ffa_request::<111>(&payload).unwrap();
    assert_eq!(r[0], 8);
    assert_eq!(r[1], 7);
    assert_eq!(r[110], 0);
}

#[test]
fn payload_reads_little_endian() {
    let p = Payload::from_bytes(&[1, 0x34, 0x12, 0x78, 0x56, 0x34, 0x12]);
    assert_eq!(p.u8_at(0), 1);
    assert_eq!(p.u16_at(1), 0x1234);
    assert_eq!(p.u32_at(3), 0x12345678);
    assert_eq!(p.u64_at(0), 0x0012_3456_7812_3401);
    assert_eq!(p.register_at(13), 0);
    assert_eq!(p.get(110, 113), None);
    assert_eq!(p.get(1, 3), Some(&[0x34u8, 0x12][..]));
    assert_eq!(p.slice(3, 5), &[0x78, 0x56]);
    assert_eq!(Payload::zeroed().bytes, [0u8; 112]);
}

#[test]
fn payload_from_u32s_packs_dwords() {
    let p = Payload::from_u32s(&[0x01020304, 5]);
    assert_eq!(&p.bytes[..8], &[4, 3, 2, 1, 5, 0, 0, 0]);
    assert_eq!(p.u32_at(4), 5);
}
