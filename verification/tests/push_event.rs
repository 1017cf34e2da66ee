use mania::event::EventError;
use mania::message::chain::MessageType;
use mania::message::entity::MarketFaceElem;
use mania::message::packer::{FileExtra, FileExtraFile};
use mania::notice::{group_request_join, GroupJoin, NoticeEvent};
use mania::push_event::PushMessageEvent;
use mania::push_msg::{
    ContentHead, Elem, MessageBody, NoticeKind, PushMsg, PushMsgBody, PushRoute, ResponseHead,
    RichText,
};

fn message(typ: u32, content: Option<Vec<u8>>, head: Option<ResponseHead>) -> PushMsg {
    let face = MarketFaceElem {
        face_id: Some(vec![0xab]),
        tab_id: Some(1),
        key: Some("k".into()),
        face_name: Some("[face]".into()),
    };
    PushMsg {
        message: Some(PushMsgBody {
            response_head: head,
            content_head: Some(ContentHead {
                typ,
                sub_type: None,
                msg_uid: Some(9),
                time_stamp: Some(1),
                sequence: Some(2),
                nt_msg_seq: Some(3),
            }),
            body: Some(MessageBody {
                rich_text: Some(RichText {
                    elems: vec![Elem {
                        market_face: Some(face),
                        common_elem: None,
                        video_file: None,
                        trans_elem: None,
                    }],
                }),
                msg_content: content,
            }),
        }),
    }
}

fn head() -> Option<ResponseHead> {
    Some(ResponseHead { from_uin: 5, from_uid: Some("u5".into()), to_uin: 6, to_uid: None, grp: None })
}

fn no_file(_: Vec<u8>) -> Result<FileExtra, String> {
    Err("unused".into())
}

fn no_notice(_: PushRoute) -> Result<Option<NoticeEvent>, EventError> {
    Err(EventError::OtherError("unused".into()))
}

#[test]
fn chat_gives_chain_and_no_events() {
    let (ev, extra) = PushMessageEvent::parse(message(166, None, head()), no_file, no_notice).unwrap();
    assert!(extra.is_none());
    let chain = ev.chain.unwrap();
    assert_eq!(chain.friend_uin, 5);
    assert_eq!(chain.to_string(), "[face]");
    assert!(matches!(chain.typ, MessageType::Friend(_)));
    match PushMessageEvent::parse(message(82, None, None), no_file, no_notice) {
        Err(EventError::OtherError(m)) => assert_eq!(m, "parse_chain failed: missing ResponseHead"),
        other => panic!("{other:?}"),
    }
}

#[test]
fn private_file_gives_chain_and_empty_events() {
    let decode = |bytes: Vec<u8>| -> Result<FileExtra, String> {
        assert_eq!(bytes, vec![1, 2]);
        Ok(FileExtra {
            file: Some(FileExtraFile {
                file_size: Some(3),
                file_name: Some("f.txt".into()),
                file_md5: Some(vec![7]),
                file_uuid: Some("fu".into()),
                file_hash: Some("fh".into()),
            }),
        })
    };
    let (ev, extra) = PushMessageEvent::parse(message(529, Some(vec![1, 2]), head()), decode, no_notice).unwrap();
    assert_eq!(extra.unwrap().len(), 0);
    let chain = ev.chain.unwrap();
    assert_eq!(chain.entities.len(), 2);
    assert_eq!(chain.to_string(), "[face][文件] f.txt");
    match PushMessageEvent::parse(message(529, None, head()), decode, no_notice) {
        Err(EventError::OtherError(m)) => assert_eq!(m, "parse_file_chain failed: missing msg_content"),
        other => panic!("{other:?}"),
    }
}

#[test]
fn notices_give_events() {
    let notice = |route: PushRoute| -> Result<Option<NoticeEvent>, EventError> {
        match route {
            PushRoute::Notice(NoticeKind::GroupRequestJoin, content) => {
                assert_eq!(content, vec![4]);
                Ok(Some(NoticeEvent::GroupSysRequestJoin(group_request_join(GroupJoin {
                    target_uid: "t".into(),
                    group_uin: 77,
                }))))
            }
            other => panic!("{other:?}"),
        }
    };
    let (ev, extra) = PushMessageEvent::parse(message(84, Some(vec![4]), None), no_file, notice).unwrap();
    assert!(ev.chain.is_none());
    let events = extra.unwrap();
    assert_eq!(events.len(), 1);
    match &events[0] {
        NoticeEvent::GroupSysRequestJoin(e) => assert_eq!((e.group_uin, e.target_uid.as_str()), (77, "t")),
        other => panic!("{other:?}"),
    }
    let none = |_: PushRoute| -> Result<Option<NoticeEvent>, EventError> { Ok(None) };
    let (ev, extra) = PushMessageEvent::parse(message(84, Some(vec![4]), None), no_file, none).unwrap();
    assert!(ev.chain.is_none());
    assert!(extra.unwrap().is_empty());
    match PushMessageEvent::parse(message(84, None, None), no_file, none) {
        Err(EventError::OtherError(m)) => assert_eq!(m, "GroupRequestJoinNotice missing msg_content"),
        other => panic!("{other:?}"),
    }
    match PushMessageEvent::parse(message(1, None, None), no_file, none) {
        Err(EventError::InternalWarning(m)) => assert_eq!(m, "receive unknown olpush message type: 1"),
        other => panic!("{other:?}"),
    }
    let failing = |_: PushRoute| -> Result<Option<NoticeEvent>, EventError> {
        Err(EventError::OtherError("bad notice".into()))
    };
    match PushMessageEvent::parse(message(84, Some(vec![4]), None), no_file, failing) {
        Err(EventError::OtherError(m)) => assert_eq!(m, "bad notice"),
        other => panic!("{other:?}"),
    }
}
