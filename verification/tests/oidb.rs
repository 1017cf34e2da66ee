use mania::oidb::{OidbLafter, OidbPacket, OidbSvcTrpcTcpBase};
use mania::sso::PacketError;

#[test]
fn oidb_request_fields() {
    let p = OidbPacket::new(0x6d6, 2, vec![1, 2], false, true);
    let b = p.to_base();
    assert_eq!((b.command, b.sub_command, b.error_code), (0x6d6, 2, 0));
    assert_eq!(b.body, vec![1, 2]);
    assert!(b.error_msg.is_empty());
    assert!(b.lafter.is_none());
    assert_eq!(b.reserved, 1);
    let q = OidbPacket::new(0x11c5, 100, vec![], true, false).to_base();
    assert!(q.lafter.is_some());
    assert_eq!(q.reserved, 0);
}

#[test]
fn oidb_answers() {
    let ok = OidbPacket::parse(OidbSvcTrpcTcpBase {
        command: 0x6d6,
        sub_command: 2,
        error_code: 0,
        body: vec![9],
        error_msg: String::new(),
        lafter: Some(OidbLafter),
        reserved: 0,
    })
    .unwrap();
    assert_eq!(ok.into_body(), vec![9]);
    match OidbPacket::parse(OidbSvcTrpcTcpBase {
        command: 0x11c5,
        sub_command: 100,
        error_code: 17,
        body: vec![],
        error_msg: "denied".into(),
        lafter: None,
        reserved: 0,
    }) {
        Err(PacketError::OidbPacketRetFailed { command, ret_code, client_wording }) => {
            assert_eq!(command, "0x11c5_100");
            assert_eq!(ret_code, 17);
            assert_eq!(client_wording, "denied");
        }
        other => panic!("{other:?}"),
    }
}
