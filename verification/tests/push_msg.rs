use mania::event::EventError;
use mania::push_msg::{
    classify_push, extract_0x2dc_head, extract_0x_sub_type, extract_msg_body_content,
    extract_poke_info, extract_stable_msg_content, extract_unstable_msg_content, ContentHead,
    Event0x210SubType, Event0x2DCSubType, Event0x2DCSubType16Field13, MessageBody, PkgType,
    PushMsg, PushMsgBody,
};
use mania::push_msg::{classify_0x2dc_sub16, route_push, NoticeKind, PushRoute, ResponseHead};

fn push(sub_type: Option<u32>, content: Option<Vec<u8>>) -> PushMsg {
    push_of(0x210, sub_type, content, None)
}

fn push_of(
    typ: u32,
    sub_type: Option<u32>,
    content: Option<Vec<u8>>,
    head: Option<ResponseHead>,
) -> PushMsg {
    PushMsg {
        message: Some(PushMsgBody {
            response_head: head,
            content_head: Some(ContentHead {
                typ,
                sub_type,
                msg_uid: None,
                time_stamp: None,
                sequence: None,
                nt_msg_seq: None,
            }),
            body: Some(MessageBody { rich_text: None, msg_content: content }),
        }),
    }
}

#[test]
fn push_kinds() {
    assert_eq!(classify_push(166).unwrap(), PkgType::PrivateMessage);
    assert_eq!(classify_push(0x2DC).unwrap(), PkgType::Event0x2DC);
    assert!(PkgType::GroupMessage.is_chat());
    assert!(!PkgType::Event0x210.is_chat());
    match classify_push(1) {
        Err(EventError::InternalWarning(m)) => assert_eq!(m, "receive unknown olpush message type: 1"),
        other => panic!("{other:?}"),
    }
    assert_eq!(Event0x2DCSubType::try_from_u32(17), Some(Event0x2DCSubType::GroupRecallNotice));
    assert_eq!(Event0x2DCSubType::try_from_u32(18), None);
    assert_eq!(
        Event0x2DCSubType16Field13::try_from_u32(35),
        Some(Event0x2DCSubType16Field13::GroupReactionNotice)
    );
    assert_eq!(Event0x210SubType::try_from_u32(290), Some(Event0x210SubType::FriendPokeNotice));
    assert_eq!(Event0x210SubType::try_from_u32(291), None);
}

#[test]
fn message_content_is_taken_once() {
    let mut p = push(Some(39), Some(vec![1, 2]));
    assert_eq!(extract_msg_body_content(&mut p), Some(vec![1, 2]));
    assert_eq!(extract_msg_body_content(&mut p), None);
    match extract_stable_msg_content(&mut p, "missing") {
        Err(EventError::OtherError(m)) => assert_eq!(m, "missing"),
        other => panic!("{other:?}"),
    }
    match extract_unstable_msg_content(&mut p, "gone") {
        Err(EventError::InternalWarning(m)) => assert_eq!(m, "gone"),
        other => panic!("{other:?}"),
    }
    let mut p = push(None, Some(vec![3]));
    assert_eq!(extract_stable_msg_content(&mut p, "x").unwrap(), vec![3]);
}

#[test]
fn sub_type() {
    assert_eq!(extract_0x_sub_type(&push(Some(12), None)).unwrap(), 12);
    match extract_0x_sub_type(&push(None, None)) {
        Err(EventError::OtherError(m)) => assert_eq!(m, "Cannot get sub_type in PushMsg"),
        other => panic!("{other:?}"),
    }
    match extract_0x_sub_type(&PushMsg { message: None }) {
        Err(EventError::OtherError(_)) => {}
        other => panic!("{other:?}"),
    }
}

#[test]
fn group_notice_head() {
    let (uin, proto) = extract_0x2dc_head(vec![0, 0, 1, 0, 9, 0, 2, 0xaa, 0xbb, 0xcc]);
    assert_eq!(uin, 256);
    assert_eq!(proto, vec![0xaa, 0xbb]);
}

fn params(kv: &[(&str, &str)]) -> Vec<(String, String)> {
    kv.iter().map(|(k, v)| (k.to_string(), v.to_string())).collect()
}

#[test]
fn poke_info() {
    let p = extract_poke_info(params(&[
        ("alt_str1", "pokes"),
        ("uin_str1", "111"),
        ("uin_str2", "222"),
        ("suffix", "gently"),
        ("action_img_url", "http://x"),
        ("uin_str2", "333"),
    ]));
    assert_eq!(p.action, "pokes");
    assert_eq!(p.operator_uin, 111);
    assert_eq!(p.target_uin, 333);
    assert_eq!(p.suffix, "gently");
    assert_eq!(p.action_img_url, "http://x");

    let p = extract_poke_info(params(&[("action_str", "taps"), ("alt_str1", "pokes"), ("uin_str1", "x")]));
    assert_eq!(p.action, "taps");
    assert_eq!(p.operator_uin, 0);
    assert_eq!(p.target_uin, 0);
    assert_eq!(p.suffix, "");
}

fn warning(r: Result<PushRoute, EventError>) -> String {
    match r {
        Err(EventError::InternalWarning(m)) => m,
        other => panic!("expected a warning, got {other:?}"),
    }
}

fn error(r: Result<PushRoute, EventError>) -> String {
    match r {
        Err(EventError::OtherError(m)) => m,
        other => panic!("expected an error, got {other:?}"),
    }
}

#[test]
fn routes_by_type() {
    let mut p = push_of(82, None, Some(vec![1]), None);
    assert!(matches!(route_push(&mut p), Ok(PushRoute::Chat(PkgType::GroupMessage))));
    assert!(extract_msg_body_content(&mut p).is_some());
    let mut p = push_of(529, None, None, None);
    assert!(matches!(route_push(&mut p), Ok(PushRoute::PrivateFile)));
    let mut p = push_of(84, None, Some(vec![7, 8]), None);
    match route_push(&mut p) {
        Ok(PushRoute::Notice(NoticeKind::GroupRequestJoin, c)) => assert_eq!(c, vec![7, 8]),
        other => panic!("{other:?}"),
    }
    assert!(extract_msg_body_content(&mut p).is_none());
    let mut p = push_of(44, None, None, None);
    assert_eq!(error(route_push(&mut p)), "GroupAdminChangedNotice missing msg_content");
    let mut p = push_of(5, None, None, None);
    assert_eq!(warning(route_push(&mut p)), "receive unknown olpush message type: 5");
    let mut p = PushMsg { message: None };
    assert_eq!(error(route_push(&mut p)), "Cannot get typ in PushMsg");
}

#[test]
fn routes_group_notices() {
    let mut p = push_of(0x2DC, Some(12), Some(vec![3]), None);
    match route_push(&mut p) {
        Ok(PushRoute::Notice(NoticeKind::GroupMute, c)) => assert_eq!(c, vec![3]),
        other => panic!("{other:?}"),
    }
    let mut p = push_of(0x2DC, Some(20), None, None);
    assert_eq!(warning(route_push(&mut p)), "0x2dc sub type 20 missing msg_content");
    let mut p = push_of(0x2DC, Some(21), None, None);
    assert_eq!(error(route_push(&mut p)), "0x2dc GroupEssenceNotice missing msg_content");
    let mut p = push_of(0x2DC, Some(5), Some(vec![1]), None);
    assert_eq!(
        warning(route_push(&mut p)),
        "receive unknown olpush message 0x2dc sub type: TryFromPrimitiveError { number: 5 }"
    );
    let mut p = push_of(0x2DC, None, Some(vec![1]), None);
    assert_eq!(error(route_push(&mut p)), "Cannot get sub_type in PushMsg");
}

#[test]
fn routes_friend_notices() {
    let head = || Some(ResponseHead { from_uin: 10001, from_uid: Some("u_abc".into()), to_uin: 0, to_uid: None, grp: None });
    let mut p = push_of(0x210, Some(35), Some(vec![4, 5]), head());
    match route_push(&mut p) {
        Ok(PushRoute::FriendRequest { content, from_uin }) => {
            assert_eq!(content, vec![4, 5]);
            assert_eq!(from_uin, 10001);
        }
        other => panic!("{other:?}"),
    }
    assert!(extract_msg_body_content(&mut p).is_some());
    let mut p = push_of(0x210, Some(138), Some(vec![6]), Some(ResponseHead { from_uin: 1, from_uid: None, to_uin: 0, to_uid: None, grp: None }));
    match route_push(&mut p) {
        Ok(PushRoute::FriendRecall { content, from_uid }) => {
            assert_eq!(content, vec![6]);
            assert_eq!(from_uid, "");
        }
        other => panic!("{other:?}"),
    }
    let mut p = push_of(0x210, Some(138), Some(vec![6]), None);
    assert_eq!(
        error(route_push(&mut p)),
        "Missing response_head in Event0x210SubType::FriendRecallNotice"
    );
    let mut p = push_of(0x210, Some(35), None, head());
    assert_eq!(
        error(route_push(&mut p)),
        "Missing msg_content in Event0x210SubType::FriendRecallNotice"
    );
    let mut p = push_of(0x210, Some(226), Some(vec![9]), None);
    assert!(matches!(route_push(&mut p), Ok(PushRoute::Notice(NoticeKind::NewFriend, _))));
    let mut p = push_of(0x210, Some(38), None, None);
    assert_eq!(warning(route_push(&mut p)), "0x210 GroupMemberEnterNotice missing msg_content");
    let mut p = push_of(0x210, Some(212), Some(vec![1]), None);
    assert_eq!(warning(route_push(&mut p)), "TODO: handle 0x210 sub type GroupKickNotice");
    let mut p = push_of(0x210, Some(199), Some(vec![1]), None);
    assert_eq!(warning(route_push(&mut p)), "TODO: handle 0x210 sub type ServicePinChanged");
    let mut p = push_of(0x210, Some(1), Some(vec![1]), None);
    assert_eq!(
        warning(route_push(&mut p)),
        "receive unknown olpush message 0x210 sub type: TryFromPrimitiveError { number: 1 }"
    );
}

#[test]
fn sub_type_16_kinds() {
    assert_eq!(classify_0x2dc_sub16(Some(12)).unwrap(), Event0x2DCSubType16Field13::GroupNameChangeNotice);
    match classify_0x2dc_sub16(None) {
        Err(EventError::InternalWarning(m)) => assert_eq!(
            m,
            "Failed to parse 0x2dc sub type 16 field 13: No discriminant in enum `Event0x2DCSubType16Field13` matches the value `0`"
        ),
        other => panic!("{other:?}"),
    }
}

#[test]
fn group_notice_completeness() {
    assert!(mania::push_msg::is_group_notice_complete(&[0, 0, 0, 1, 9, 0, 2, 5, 6]));
    assert!(!mania::push_msg::is_group_notice_complete(&[0, 0, 0, 1, 9, 0, 3, 5, 6]));
    assert!(!mania::push_msg::is_group_notice_complete(&[0, 0, 0, 1, 9, 0]));
}

#[test]
fn codes_name_one_kind_each() {
    let codes = [166, 82, 141, 0x210, 0x2DC, 208, 529, 525, 84, 87, 44, 33, 34];
    let kinds: Vec<PkgType> = codes.iter().map(|&c| PkgType::try_from_u32(c).unwrap()).collect();
    for i in 0..kinds.len() {
        for j in 0..kinds.len() {
            assert_eq!(kinds[i] == kinds[j], i == j);
        }
    }
    let subs = [29, 35, 38, 39, 138, 179, 199, 226, 290, 212];
    let kinds: Vec<Event0x210SubType> = subs.iter().map(|&c| Event0x210SubType::try_from_u32(c).unwrap()).collect();
    for i in 0..kinds.len() {
        for j in 0..kinds.len() {
            assert_eq!(kinds[i] == kinds[j], i == j);
        }
    }
}

#[test]
fn oidb_round_trip_on_values() {
    let p = mania::oidb::OidbPacket::new(0x126e, 100, vec![4, 2], true, true);
    let q = mania::oidb::OidbPacket::parse(p.to_base()).unwrap();
    let b = q.to_base();
    assert_eq!((b.command, b.sub_command, b.reserved), (0x126e, 100, 1));
    assert!(b.lafter.is_some());
    assert_eq!(q.into_body(), vec![4, 2]);
}
