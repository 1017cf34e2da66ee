use mania::event::{CECommandMarker, EventError};
use mania::file_download::{FileGroupDownloadEvent, FileGroupDownloadReply};
use mania::packet::{PacketBuilder, PacketReader};
use mania::sso::PacketError;
use mania::tlv::{serialize_tlv_set, TlvError};
use mania::trans_emp::{
    build_trans_emp_body, build_wtlogin_packet, parse_trans_emp, parse_wtlogin_packet,
    qr_login_step, query_result_data_bytes, QrLoginStep, TransEmp, TransEmp12ConfirmedData,
    TransEmp12Res, TransEmpParsed, TransEmpStatus,
};

#[test]
fn new_events() {
    let f = TransEmp::new_fetch_qr_code();
    assert_eq!(f.status, TransEmpStatus::FetchQrCode);
    assert!(f.result.is_none());
    assert_eq!(f.status.command(), 0x31);
    let q = TransEmp::new_query_result();
    assert_eq!(q.status, TransEmpStatus::QueryResult);
    assert_eq!(q.status.command(), 0x12);
    assert_eq!(q.command(), "wtlogin.trans_emp");
}

#[test]
fn wtlogin_frame_layout_and_back() {
    let key = vec![0x04; 65];
    let out = build_wtlogin_packet(2066, 7, 0, 19, &[0x11; 16], &key, &[0x11, 0x00], |b: Vec<u8>| b.iter().map(|x| x ^ 0xff).collect());
    let content_len = 2 + 2 + 2 + 4 + 1 + 1 + 4 + 1 + 2 + 2 + 4 + 1 + 1 + 16 + 2 + 2 + 2 + 65 + 2 + 1;
    assert_eq!(out.len(), 3 + content_len);
    assert_eq!(out[0], 2);
    assert_eq!(u16::from_be_bytes([out[1], out[2]]) as usize, content_len + 3);
    assert_eq!(&out[3..5], &8001u16.to_be_bytes());
    assert_eq!(&out[5..7], &2066u16.to_be_bytes());
    assert_eq!(&out[7..9], &7u16.to_be_bytes());
    assert_eq!(*out.last().unwrap(), 3);
    let encrypted = &out[out.len() - 3..out.len() - 1];
    assert_eq!(encrypted, &[0xee, 0xff]);
}

#[test]
fn parse_wtlogin_decrypts_the_body() {
    let mut p = vec![2];
    p.extend_from_slice(&[0; 15]);
    p.extend_from_slice(&[9, 8, 7]);
    p.push(3);
    assert_eq!(parse_wtlogin_packet(p, |b: Vec<u8>| b.iter().map(|x| x ^ 0xff).collect()).unwrap(), vec![0xf6, 0xf7, 0xf8]);
}

#[test]
fn parse_wtlogin_errors() {
    match parse_wtlogin_packet(vec![1], |b: Vec<u8>| b) {
        Err(PacketError::OtherError(m)) => assert_eq!(m, "invalid packet header when parse_wtlogin_packet"),
        other => panic!("{other:?}"),
    }
    let mut p = vec![2];
    p.extend_from_slice(&[0; 16]);
    match parse_wtlogin_packet(p, |b: Vec<u8>| b) {
        Err(PacketError::OtherError(m)) => assert_eq!(m, "invalid packet end when parse_wtlogin_packet"),
        other => panic!("{other:?}"),
    }
}

#[test]
fn trans_emp_body_layout() {
    let body = build_trans_emp_body(1600001615, 0x31, &[0xaa, 0xbb], 0x01020304);
    let request_len = 4 + 1 + 2 + 2 + 21 + 1 + 2 + 2 + 4 + 8 + 2 + 1;
    assert_eq!(body.len(), 1 + 2 + 4 + 4 + 2 + 1 + request_len);
    let mut r = PacketReader::new(body);
    assert_eq!(r.u8(), 0);
    assert_eq!(r.u16() as usize, request_len);
    assert_eq!(r.u32(), 1600001615);
    assert_eq!(r.u32(), 0x72);
    assert_eq!(r.u16(), 0);
    assert_eq!(r.u8(), 0);
    assert_eq!(r.u32(), 0x01020304);
    assert_eq!(r.u8(), 2);
    assert_eq!(r.u16(), 43 + 2 + 1);
    assert_eq!(r.u16(), 0x31);
}

#[test]
fn query_result_data_layout() {
    let d = query_result_data_bytes(5, &[1, 2, 3]);
    assert_eq!(d, vec![0, 0, 0, 0, 0, 5, 0, 3, 1, 2, 3, 0, 0, 0, 0, 0, 0, 0, 0, 0, 0, 0, 0, 0]);
}

fn answer(command: u16, rest: &[u8]) -> Vec<u8> {
    PacketBuilder::new().u32(0).u32(0).u16(command).bytes(&[0; 40]).u32(1).bytes(rest).build()
}

fn record(tag: u16, value: &[u8]) -> Vec<u8> {
    PacketBuilder::new().u16(tag).bytes_with_length(value).build()
}

#[test]
fn parse_qr_code_answer() {
    let all = vec![record(0x017, &[0x89, 0x50]), record(0x01c, &[0, 0, 0, 120]), record(0x0d1, &[1])];
    let records = serialize_tlv_set(&all, PacketBuilder::new()).build();
    let rest = PacketBuilder::new().u8(0).bytes_with_length(&[7, 7]).bytes(&records).build();
    match parse_trans_emp(answer(0x31, &rest)).unwrap() {
        TransEmpParsed::QrCode { signature, records } => {
            assert_eq!(signature, vec![7, 7]);
            assert_eq!(records.get(0x017).unwrap(), &vec![0x89, 0x50]);
            assert_eq!(records.get(0x01c).unwrap(), &vec![0, 0, 0, 120]);
        }
        other => panic!("{other:?}"),
    }
    let partial = serialize_tlv_set(&vec![record(0x017, &[1]), record(0x0d1, &[1])], PacketBuilder::new()).build();
    let rest = PacketBuilder::new().u8(0).bytes_with_length(&[7]).bytes(&partial).build();
    match parse_trans_emp(answer(0x31, &rest)) {
        Err(EventError::MissingTlv(TlvError::MissingTlv(t))) => assert_eq!(t, 0x01c),
        other => panic!("{other:?}"),
    }
}

#[test]
fn parse_states() {
    for (state, name) in [(17u8, "expired"), (48, "scan"), (53, "confirm"), (54, "canceled")] {
        let parsed = parse_trans_emp(answer(0x12, &[state])).unwrap();
        let ok = match (name, parsed) {
            ("expired", TransEmpParsed::Query(TransEmp12Res::CodeExpired)) => true,
            ("scan", TransEmpParsed::Query(TransEmp12Res::WaitingForScan)) => true,
            ("confirm", TransEmpParsed::Query(TransEmp12Res::WaitingForConfirm)) => true,
            ("canceled", TransEmpParsed::Query(TransEmp12Res::Canceled)) => true,
            _ => false,
        };
        assert!(ok, "{state}");
    }
    match parse_trans_emp(answer(0x12, &[99])) {
        Err(EventError::OtherError(m)) => assert_eq!(m, "unknown trans_emp ret code: 99"),
        other => panic!("{other:?}"),
    }
    match parse_trans_emp(answer(0x2a, &[])) {
        Err(EventError::OtherError(m)) => assert_eq!(m, "unsupported trans_emp command: 0x2a"),
        other => panic!("{other:?}"),
    }
}

#[test]
fn parse_confirmed_state() {
    let recs = vec![record(0x01e, &[1]), record(0x018, &[2]), record(0x019, &[3])];
    let mut rest = vec![0u8; 13];
    rest.extend(serialize_tlv_set(&recs, PacketBuilder::new()).build());
    match parse_trans_emp(answer(0x12, &rest)).unwrap() {
        TransEmpParsed::Query(TransEmp12Res::Confirmed(d)) => {
            assert_eq!(d.tgtgt_key, vec![1]);
            assert_eq!(d.temp_password, vec![2]);
            assert_eq!(d.no_pic_sig, vec![3]);
        }
        other => panic!("{other:?}"),
    }
    let mut rest = vec![0u8; 13];
    rest.extend(serialize_tlv_set(&recs[..2].to_vec(), PacketBuilder::new()).build());
    assert!(matches!(
        parse_trans_emp(answer(0x12, &rest)),
        Err(EventError::MissingTlv(TlvError::MissingTlv(0x019)))
    ));
}

#[test]
fn qr_login_steps() {
    assert!(matches!(qr_login_step(TransEmp12Res::WaitingForScan), QrLoginStep::KeepWaiting));
    assert!(matches!(qr_login_step(TransEmp12Res::WaitingForConfirm), QrLoginStep::KeepWaiting));
    match qr_login_step(TransEmp12Res::CodeExpired) {
        QrLoginStep::Fail(m) => assert_eq!(m, "QR code expired"),
        _ => panic!("expired code must fail"),
    }
    match qr_login_step(TransEmp12Res::Canceled) {
        QrLoginStep::Fail(m) => assert_eq!(m, "QR code login canceled by user"),
        _ => panic!("canceled login must fail"),
    }
    let data = TransEmp12ConfirmedData {
        tgtgt_key: vec![1],
        temp_password: vec![2],
        no_pic_sig: vec![3],
    };
    match qr_login_step(TransEmp12Res::Confirmed(data)) {
        QrLoginStep::LogIn(d) => {
            assert_eq!(d.tgtgt_key, vec![1]);
            assert_eq!(d.temp_password, vec![2]);
            assert_eq!(d.no_pic_sig, vec![3]);
        }
        _ => panic!("confirmed code must log in"),
    }
}

#[test]
fn info_sync_command() {
    assert_eq!(
        mania::event::InfoSyncEvent.command(),
        "trpc.msg.register_proxy.RegisterProxy.SsoInfoSync"
    );
}

#[test]
fn group_file_links() {
    let e = FileGroupDownloadEvent { group_uin: 42, file_url: String::new(), file_id: "/abc".into() };
    assert_eq!(e.command(), "OidbSvcTrpcTcp.0x6d6_2");
    let req = e.request();
    assert_eq!((req.group_uin, req.app_id, req.bus_id), (42, 7, 102));
    assert_eq!(req.file_id, "/abc");
    let ok = FileGroupDownloadEvent::parse_reply(Some(FileGroupDownloadReply {
        ret_code: 0,
        client_wording: String::new(),
        download_dns: "ftn.example".into(),
        download_url: vec![0x0a, 0xff],
    }))
    .unwrap();
    assert_eq!(ok.file_url, "https://ftn.example/ftn_handler/0aff/?fname=");
    match FileGroupDownloadEvent::parse_reply(Some(FileGroupDownloadReply {
        ret_code: -3,
        client_wording: "gone".into(),
        download_dns: String::new(),
        download_url: vec![],
    })) {
        Err(EventError::OidbPacketInternalError(c, w)) => {
            assert_eq!(c, -3);
            assert_eq!(w, "gone");
        }
        _ => panic!("nonzero code must be an error"),
    }
    match FileGroupDownloadEvent::parse_reply(None) {
        Err(EventError::OtherError(m)) => assert_eq!(m, "Missing OidbSvcTrpcTcp0x6D62response"),
        _ => panic!("missing answer must be an error"),
    }
}

#[test]
fn trans_emp_completeness() {
    let records = serialize_tlv_set(&vec![record(0x017, &[0x89, 0x50])], PacketBuilder::new()).build();
    let rest = PacketBuilder::new().u8(0).bytes_with_length(&[7, 7]).bytes(&records).build();
    let qr = answer(0x31, &rest);
    assert!(mania::trans_emp::is_trans_emp_complete(&qr));
    assert!(!mania::trans_emp::is_trans_emp_complete(&qr[..qr.len() - 1]));
    assert!(mania::trans_emp::is_trans_emp_complete(&answer(0x12, &[48])));
    assert!(!mania::trans_emp::is_trans_emp_complete(&answer(0x12, &[])));
    assert!(!mania::trans_emp::is_trans_emp_complete(&answer(0x12, &[0, 1, 2])));
    assert!(!mania::trans_emp::is_trans_emp_complete(&[0u8; 53]));
}

#[test]
fn qr_login_time_limit_and_keys() {
    let confirmed = || TransEmp12ConfirmedData { tgtgt_key: vec![1], temp_password: vec![2], no_pic_sig: vec![3] };
    assert!(matches!(mania::trans_emp::qr_login_next(0, TransEmp12Res::WaitingForScan), QrLoginStep::KeepWaiting));
    assert!(matches!(mania::trans_emp::qr_login_next(119_999, TransEmp12Res::Confirmed(confirmed())), QrLoginStep::LogIn(_)));
    match mania::trans_emp::qr_login_next(120_000, TransEmp12Res::Confirmed(confirmed())) {
        QrLoginStep::Fail(m) => assert_eq!(m, "QR code scan timed out after 120s!"),
        other => panic!("{other:?}"),
    }
    match mania::trans_emp::qr_login_next(5, TransEmp12Res::Canceled) {
        QrLoginStep::Fail(m) => assert_eq!(m, "QR code login canceled by user"),
        other => panic!("{other:?}"),
    }
    assert_eq!(mania::trans_emp::QR_POLL_INTERVAL_MS, 2000);
    let mut keys = mania::trans_emp::SessionKeys { tgtgt_key: vec![], temp_password: None, no_pic_sig: None };
    mania::trans_emp::store_confirmed_keys(&mut keys, confirmed());
    assert_eq!((keys.tgtgt_key, keys.temp_password, keys.no_pic_sig), (vec![1], Some(vec![2]), Some(vec![3])));
}
