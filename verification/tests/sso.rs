use mania::event::{event_payload, has_event_section, unsupported_event, EventError};
use mania::packet::{BinaryPacket, PacketBuilder, PacketReader};
use mania::sso::{is_service_header_complete, is_sso_body_complete, BodyKey, PacketError, PacketType, SsoPacket};
use std::io::Write;

fn service_packet(protocol: u32, auth: u8, uin: &str, body: &[u8]) -> Vec<u8> {
    PacketBuilder::new()
        .u32(0)
        .u32(protocol)
        .u8(auth)
        .u8(0)
        .section(|p| p.string(uin))
        .bytes(body)
        .build()
}

#[test]
fn packet_type_numbers() {
    assert_eq!(PacketType::try_from_u32(12), Ok(PacketType::T12));
    assert_eq!(PacketType::try_from_u32(13), Ok(PacketType::T13));
    assert_eq!(PacketType::try_from_u32(14), Err(14));
}

#[test]
fn parse_service_reads_the_outer_layer() {
    let p = service_packet(12, 1, "10001", &[1, 2, 3]);
    let f = SsoPacket::parse_service(p, 10001).unwrap();
    assert_eq!(f.protocol, PacketType::T12);
    assert_eq!(f.key, BodyKey::SessionKey);
    assert_eq!(f.uin, 10001);
    assert_eq!(f.body, vec![1, 2, 3]);

    let p = service_packet(13, 0, "5", &[]);
    let f = SsoPacket::parse_service(p, 10001).unwrap();
    assert_eq!(f.protocol, PacketType::T13);
    assert_eq!(f.key, BodyKey::Plain);
    assert_eq!(f.uin, 5);

    let p = service_packet(12, 2, "10001", &[9]);
    assert_eq!(SsoPacket::parse_service(p, 10001).unwrap().key, BodyKey::ZeroKey);
}

#[test]
fn parse_service_errors() {
    let p = service_packet(11, 0, "1", &[]);
    assert!(matches!(SsoPacket::parse_service(p, 1), Err(PacketError::UnknownSsoPacketType(11))));
    let p = service_packet(12, 0, "x1", &[]);
    assert!(matches!(SsoPacket::parse_service(p, 1), Err(PacketError::InvalidUin(u)) if u == "x1"));
    let p = service_packet(12, 0, "2", &[]);
    assert!(matches!(SsoPacket::parse_service(p, 1), Err(PacketError::UinMismatch(1, 2))));
    let p = service_packet(12, 3, "1", &[]);
    assert!(matches!(SsoPacket::parse_service(p, 1), Err(PacketError::UnknownAuthFlag(3))));
}

fn sso_body(ret: i32, compressed: bool, payload: &[u8]) -> Vec<u8> {
    let b = PacketBuilder::new()
        .u32(0)
        .u32(77)
        .i32(ret)
        .section(|p| p.string("extra"))
        .section(|p| p.string("wtlogin.login"))
        .section(|p| p.bytes(&[1]))
        .u32(if compressed { 1 } else { 0 })
        .u32(2)
        .bytes(&[0xab, 0xcd]);
    if compressed {
        let mut enc = flate2::write::ZlibEncoder::new(Vec::new(), flate2::Compression::default());
        enc.write_all(payload).unwrap();
        let zipped = enc.finish().unwrap();
        b.section(|p| p.bytes(&zipped)).build()
    } else {
        b.bytes(payload).build()
    }
}

#[test]
fn parse_sso_plain() {
    let pkt = SsoPacket::parse_sso(sso_body(0, false, &[5, 6, 7])).unwrap();
    assert_eq!(pkt.packet_type(), PacketType::T12);
    assert_eq!(pkt.command(), "wtlogin.login");
    assert_eq!(pkt.sequence(), 77);
    assert_eq!(pkt.payload(), vec![5, 6, 7]);
}

#[test]
fn parse_sso_inflates_and_prefixes_the_length() {
    let pkt = SsoPacket::parse_sso(sso_body(0, true, b"inflated!")).unwrap();
    let mut expected = vec![0, 0, 0, 13];
    expected.extend_from_slice(b"inflated!");
    assert_eq!(pkt.payload(), expected);
}

#[test]
fn parse_sso_errors() {
    match SsoPacket::parse_sso(sso_body(-10, false, &[])) {
        Err(PacketError::SsoPacketRetFailed { command, sequence, ret_code, extra }) => {
            assert_eq!(command, "wtlogin.login");
            assert_eq!(sequence, 77);
            assert_eq!(ret_code, -10);
            assert_eq!(extra, "extra");
        }
        other => panic!("{other:?}"),
    }
    let mut bad = PacketBuilder::new()
        .u32(0)
        .u32(1)
        .i32(0)
        .section(|p| p)
        .section(|p| p)
        .section(|p| p)
        .u32(1)
        .u32(0)
        .section(|p| p.bytes(&[1, 2, 3]))
        .build();
    bad.truncate(bad.len());
    assert!(matches!(SsoPacket::parse_sso(bad), Err(PacketError::InflateFailed(_))));
}

#[test]
fn build_protocol13_frames_the_packet() {
    let pkt = SsoPacket::with_sequence(
        PacketType::T13,
        "cmd".to_string(),
        0x01020304,
        BinaryPacket(vec![0xee]),
    );
    let out = pkt.build_protocol13(&[0xaa]);
    let mut r = PacketReader::new(out);
    let mut inner = r.section();
    assert_eq!(r.remaining(), 0);
    assert_eq!(inner.u32(), 13);
    assert_eq!(inner.u8(), 0);
    assert_eq!(inner.u32(), 0x01020304);
    assert_eq!(inner.u8(), 0);
    assert_eq!(inner.section().string(), "0");
    let mut head = inner.section();
    assert_eq!(head.section().string(), "cmd");
    assert_eq!(head.section().remaining(), 0);
    assert_eq!(head.section().bytes(), vec![0xaa]);
    assert_eq!(inner.section().bytes(), vec![0xee]);
    assert_eq!(inner.remaining(), 0);
}

#[test]
fn protocol12_body_and_frame() {
    let pkt = SsoPacket::with_sequence(PacketType::T12, "c".to_string(), 9, BinaryPacket(vec![1]));
    let body = pkt.build_protocol12_body(1600001615, &[0x77], "ab", "3.2.10", &[0x55]);
    let mut r = PacketReader::new(body);
    let mut head = r.section();
    assert_eq!(head.u32(), 9);
    assert_eq!(head.u32(), 1600001615);
    assert_eq!(head.u32(), 2052);
    let mut fixed = vec![0u8; 12];
    fixed[0] = 2;
    assert_eq!(head.read_packet(12).0, fixed);
    assert_eq!(head.section().bytes(), vec![0x77]);
    assert_eq!(head.section().string(), "c");
    assert_eq!(head.section().remaining(), 0);
    assert_eq!(head.section().string(), "ab");
    assert_eq!(head.section().remaining(), 0);
    assert_eq!(head.section_16().string(), "3.2.10");
    assert_eq!(head.section().bytes(), vec![0x55]);
    assert_eq!(r.section().bytes(), vec![1]);

    let frame = SsoPacket::wrap_protocol12(&[], 12345, &[0xde, 0xad]);
    let mut r = PacketReader::new(frame);
    let mut inner = r.section();
    assert_eq!(inner.u32(), 12);
    assert_eq!(inner.u8(), 2);
    assert_eq!(inner.section().remaining(), 0);
    assert_eq!(inner.u8(), 0);
    assert_eq!(inner.section().string(), "12345");
    assert_eq!(inner.bytes(), vec![0xde, 0xad]);
    let frame = SsoPacket::wrap_protocol12(&[1], 1, &[]);
    assert_eq!(frame[8], 1);
}

#[test]
fn trace_ids() {
    let mut bytes = vec![0u8; 24];
    bytes[0] = 0x0f;
    bytes[1] = 0xab;
    bytes[15] = 0x10;
    bytes[16] = 0xff;
    bytes[23] = 0x01;
    let t = mania::sso::trace_from_bytes(&bytes);
    assert_eq!(t, "00-0fab0000000000000000000000000010-ff00000000000001-01");
    let r = mania::sso::random_trace();
    assert!(r.starts_with("00-"));
    assert!(r.ends_with("-01"));
    let parts: Vec<&str> = r.split('-').collect();
    assert_eq!(parts.len(), 4);
    assert_eq!(parts[1].len(), 32);
    assert_eq!(parts[2].len(), 16);
    assert!(parts[1].chars().chain(parts[2].chars()).all(|c| c.is_ascii_hexdigit() && !c.is_ascii_uppercase()));
}

#[test]
fn event_payload_is_the_first_section() {
    let body = PacketBuilder::new().section(|p| p.bytes(&[7, 8, 9])).bytes(&[1]).build();
    let pkt = SsoPacket::with_sequence(PacketType::T12, "x".to_string(), 1, BinaryPacket(body));
    assert!(has_event_section(&pkt));
    assert_eq!(event_payload(&pkt), vec![7, 8, 9]);
    let short = SsoPacket::with_sequence(PacketType::T12, "x".to_string(), 1, BinaryPacket(vec![0, 0, 0, 9, 1]));
    assert!(!has_event_section(&short));
    let tiny = SsoPacket::with_sequence(PacketType::T12, "x".to_string(), 1, BinaryPacket(vec![0, 0]));
    assert!(!has_event_section(&tiny));
    match unsupported_event("a.b") {
        EventError::UnsupportedEvent(c) => assert_eq!(c, "a.b"),
        other => panic!("{other:?}"),
    }
}

#[test]
fn header_and_body_completeness() {
    let pkt = service_packet(12, 1, "10001", &[1, 2, 3]);
    assert!(is_service_header_complete(&pkt));
    assert!(!is_service_header_complete(&pkt[..12]));
    let body = sso_body(0, false, &[5, 6, 7]);
    assert!(is_sso_body_complete(&body));
    assert!(!is_sso_body_complete(&body[..20]));
    let zipped = sso_body(0, true, b"inflated!");
    assert!(is_sso_body_complete(&zipped));
    assert!(!is_sso_body_complete(&zipped[..zipped.len() - 1]));
}
