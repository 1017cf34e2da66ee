use mania::message::packer::{FileExtra, FileExtraFile, MessagePacker};
use mania::push_msg::{ContentHead, Elem, MessageBody, PushMsgBody, ResponseGrp, ResponseHead, RichText};
use mania::entity::bot_friend::{BotFriend, BotFriendGroup};
use mania::entity::sys_face::{SysFaceEntry, SysFacePackEntry};
use mania::message::chain::{ClientSequence, MessageChain, MessageId, MessageType};
use mania::message::entity::{
    group_file_extra, record_from_elem, video_from_elem, CommonElem, Entity, FileEntity, FileUnique,
    GroupFileInfo, MarketFaceElem, MarketFaceEntity, TransElem,
};
use mania::upload::{IndexInfo, IndexNode, MsgInfo, MsgInfoBody};

#[test]
fn friend_avatar_url() {
    let f = BotFriend::new(
        1234567,
        "u_x".into(),
        "nick".into(),
        "".into(),
        "".into(),
        "".into(),
        Some(BotFriendGroup { group_id: 1, group_name: "g".into() }),
    );
    assert_eq!(f.avatar, "https://q1.qlogo.cn/g?b=qq&nk=1234567&s=640");
    assert_eq!(f.uin, 1234567);
    assert_eq!(f.group.unwrap().group_id, 1);
}

fn face(q_sid: &str, t: Option<i32>, p: Option<i32>) -> SysFaceEntry {
    SysFaceEntry::new(q_sid.into(), None, None, None, t, p, None, None, None, None, None)
}

#[test]
fn super_qsids_filters_and_parses() {
    let pack = SysFacePackEntry::new(
        "pack".into(),
        vec![
            face("1", Some(1), Some(1)),
            face("x", None, Some(1)),
            face("2", Some(2), Some(1)),
            face("3", Some(1), Some(2)),
            face("1", Some(1), Some(1)),
        ],
    );
    assert_eq!(pack.get_unique_super_qsids(&[(2, 1)]), Ok(vec![1, 3, 1]));
    assert_eq!(pack.get_unique_super_qsids(&[]), Ok(vec![1, 2, 3, 1]));
}

#[test]
fn super_qsids_reports_the_first_bad_qsid() {
    let pack = SysFacePackEntry::new(
        "pack".into(),
        vec![face("1", Some(1), Some(1)), face("a", Some(1), Some(1)), face("", Some(1), Some(1))],
    );
    assert_eq!(
        pack.get_unique_super_qsids(&[]),
        Err("Failed to parse q_sid to u32: invalid digit found in string".to_string())
    );
}

#[test]
fn message_ids() {
    let id = MessageId::from_client_sequence(ClientSequence(5));
    assert_eq!(id.0, (0x01000000u64 << 32) | 5);
    assert_eq!(id.random(), 5);
}

#[test]
fn market_face_unpack() {
    let elem = MarketFaceElem {
        face_id: Some(vec![0xde, 0x01]),
        tab_id: Some(7),
        key: Some("k".into()),
        face_name: Some("[smile]".into()),
    };
    let e = MarketFaceEntity::unpack_element(&elem).unwrap();
    assert_eq!(e.emoji_id, "de01");
    assert_eq!(e.emoji_package_id, 7);
    assert_eq!(e.key, "k");
    assert_eq!(e.summary, "[smile]");
    let missing = MarketFaceElem { tab_id: None, ..elem };
    assert!(MarketFaceEntity::unpack_element(&missing).is_none());
}

#[test]
fn every_element_reports_packing() {
    let face = Entity::MarketFace(MarketFaceEntity {
        emoji_id: String::new(),
        emoji_package_id: 0,
        key: String::new(),
        summary: String::new(),
    });
    assert!(face.need_pack());
    assert!(Entity::need_pack_content(&[face]));
    let file = Entity::File(FileEntity {
        file_size: 1,
        file_name: "a.txt".into(),
        file_md5: vec![],
        file_url: None,
        file_sha1: vec![],
        extra: None,
    });
    assert!(file.need_pack());
    assert!(Entity::need_pack_content(&[file]));
    assert!(!Entity::need_pack_content(&[]));
}

#[test]
fn message_type_default() {
    assert!(matches!(MessageType::default(), MessageType::Unset));
}

#[test]
fn element_texts() {
    let file = FileEntity {
        file_size: 12345678901,
        file_name: "a.txt".into(),
        file_md5: vec![],
        file_url: None,
        file_sha1: vec![],
        extra: None,
    };
    assert_eq!(file.debug_string(), "[File]: a.txt (12345678901): failed to receive file url");
    assert_eq!(file.to_string(), "[文件] a.txt");
    let face = MarketFaceEntity {
        emoji_id: "de01".into(),
        emoji_package_id: 7,
        key: "k".into(),
        summary: "[smile]".into(),
    };
    assert_eq!(face.debug_string(), "[MarketFace]: [smile] FaceId: de01 TabId: 7 Key: k");
    assert_eq!(face.to_string(), "[smile]");
    let with_url = Entity::File(FileEntity { file_url: Some("http://x".into()), ..file });
    assert_eq!(with_url.debug_string(), "[File]: a.txt (12345678901): http://x");
    assert_eq!(Entity::MarketFace(face).to_string(), "[smile]");
}

#[test]
fn message_chains() {
    let mut g = MessageChain::group(777);
    assert!(g.is_group());
    assert_eq!(g.debug_string(), "[MessageChain(0 -> 777)] ");
    assert!(g.message_id.0 >> 32 == 0x01000000 && (g.message_id.0 & 0xffff_ffff) >= 100000000);
    g.entities.push(Entity::MarketFace(MarketFaceEntity {
        emoji_id: "ab".into(),
        emoji_package_id: 1,
        key: "k".into(),
        summary: "[s]".into(),
    }));
    g.entities.push(Entity::File(FileEntity {
        file_size: 3,
        file_name: "f".into(),
        file_md5: vec![],
        file_url: None,
        file_sha1: vec![],
        extra: None,
    }));
    assert_eq!(
        g.debug_string(),
        "[MessageChain(0 -> 777)] [MarketFace]: [s] FaceId: ab TabId: 1 Key: k | [File]: f (3): failed to receive file url"
    );
    assert_eq!(g.to_string(), "[s][文件] f");
    let f = MessageChain::friend(42, "u_friend", "u_self");
    assert!(!f.is_group());
    assert_eq!(f.uid, "u_friend");
    assert_eq!(f.self_uid, "u_self");
    assert_eq!(f.debug_string(), "[MessageChain(42)] ");
    match &f.typ {
        MessageType::Friend(elem) => {
            assert!(elem.friend_info.is_none());
            assert!(elem.client_sequence.0 >= 100000000);
        }
        _ => panic!("a friend message"),
    }
    assert_eq!(MessageChain::empty().debug_string(), "[MessageChain(Empty)] ");
    assert_eq!(MessageChain::empty().to_string(), "");
}

#[test]
fn parse_chain_reads_pushed_messages() {
    let face = MarketFaceElem { face_id: Some(vec![0xde, 0x01]), tab_id: Some(7), key: Some("k".into()), face_name: Some("[s]".into()) };
    let body = |grp: Option<ResponseGrp>, typ: u32| PushMsgBody {
        response_head: Some(ResponseHead { from_uin: 11, from_uid: Some("u_from".into()), to_uin: 22, to_uid: Some("u_to".into()), grp }),
        content_head: Some(ContentHead { typ, sub_type: None, msg_uid: Some(77), time_stamp: Some(1700000000), sequence: Some(5), nt_msg_seq: Some(6) }),
        body: Some(MessageBody {
            rich_text: Some(RichText { elems: vec![face_elem(Some(face.clone())), face_elem(None)] }),
            msg_content: None,
        }),
    };
    let g = MessagePacker::parse_chain(body(Some(ResponseGrp { group_code: Some(999), group_card: None }), 82)).unwrap();
    assert!(g.is_group());
    assert_eq!((g.friend_uin, g.message_id.0, g.time, g.sequence, g.target_uin), (11, 77, 1700000000, 5, 0));
    assert_eq!(g.entities.len(), 1);
    assert_eq!(g.to_string(), "[s]");
    assert_eq!(g.debug_string(), "[MessageChain(11 -> 999)] [MarketFace]: [s] FaceId: de01 TabId: 7 Key: k");
    let f = MessagePacker::parse_chain(body(None, 166)).unwrap();
    assert_eq!((f.uid.as_str(), f.self_uid.as_str(), f.target_uin, f.sequence), ("u_from", "u_to", 22, 6));
    match &f.typ {
        MessageType::Friend(e) => assert_eq!(e.client_sequence.0, 5),
        other => panic!("{other:?}"),
    }
    assert!(matches!(MessagePacker::parse_chain(body(None, 141)).unwrap().typ, MessageType::Temp));
    let mut missing = body(None, 166);
    missing.content_head = None;
    assert_eq!(MessagePacker::parse_chain(missing).err().unwrap(), "missing ContentHead");
    let mut missing = body(None, 166);
    missing.response_head = None;
    assert_eq!(MessagePacker::parse_chain(missing).err().unwrap(), "missing ResponseHead");
}

#[test]
fn parse_private_file_adds_the_file() {
    let body = |content: Option<Vec<u8>>| PushMsgBody {
        response_head: Some(ResponseHead { from_uin: 11, from_uid: Some("u".into()), to_uin: 22, to_uid: None, grp: None }),
        content_head: Some(ContentHead { typ: 529, sub_type: None, msg_uid: None, time_stamp: None, sequence: None, nt_msg_seq: Some(3) }),
        body: Some(MessageBody { rich_text: None, msg_content: content }),
    };
    let full = |_: Vec<u8>| Ok(FileExtra { file: Some(FileExtraFile {
        file_size: Some(12),
        file_name: Some("a.txt".into()),
        file_md5: Some(vec![1]),
        file_uuid: Some("id".into()),
        file_hash: Some("h".into()),
    }) });
    let c = MessagePacker::parse_private_file(body(Some(vec![9])), full).unwrap();
    assert_eq!(c.entities.len(), 1);
    assert_eq!(c.entities[0].to_string(), "[文件] a.txt");
    assert_eq!(c.sequence, 3);
    assert_eq!(MessagePacker::parse_private_file(body(None), full).err().unwrap(), "missing msg_content");
    let bad = |_: Vec<u8>| -> Result<FileExtra, String> { Err("DecodeError".into()) };
    assert_eq!(MessagePacker::parse_private_file(body(Some(vec![9])), bad).err().unwrap(), "failed to decode FileExtra: DecodeError");
    let nofile = |_: Vec<u8>| Ok(FileExtra { file: None });
    assert_eq!(MessagePacker::parse_private_file(body(Some(vec![9])), nofile).err().unwrap(), "missing file");
    let partial = |_: Vec<u8>| Ok(FileExtra { file: Some(FileExtraFile { file_size: Some(1), file_name: None, file_md5: None, file_uuid: None, file_hash: None }) });
    assert_eq!(MessagePacker::parse_private_file(body(Some(vec![9])), partial).err().unwrap(), "missing file fields");
}

fn face_elem(market_face: Option<MarketFaceElem>) -> Elem {
    Elem { market_face, common_elem: None, video_file: None, trans_elem: None }
}

fn index_info(hash: &str) -> MsgInfo {
    MsgInfo {
        msg_info_body: vec![MsgInfoBody {
            index: Some(IndexNode {
                info: Some(IndexInfo {
                    file_sha1: "00".into(),
                    file_hash: hash.into(),
                    file_name: "clip".into(),
                    time: 12,
                    height: 480,
                    width: 640,
                    file_size: 4096,
                }),
                file_uuid: "uuid-1".into(),
            }),
        }],
    }
}

fn common(business_type: u32, service_type: u32, hash: &str) -> Elem {
    Elem {
        market_face: None,
        common_elem: Some(CommonElem { service_type, business_type, msg_info: Some(index_info(hash)) }),
        video_file: None,
        trans_elem: None,
    }
}

#[test]
fn record_and_video_elements() {
    let r = record_from_elem(22, 48, Some(index_info("a0b1"))).ok().unwrap();
    assert_eq!(r.audio_uuid.as_deref(), Some("uuid-1"));
    assert_eq!((r.audio_name.as_str(), r.audio_length), ("clip", 12));
    assert_eq!(r.audio_md5, vec![0xa0, 0xb1]);
    assert_eq!(r.file_sha1.as_deref(), Some("a0b1"));
    assert!(r.msg_info.is_some());
    assert_eq!(r.debug_string(), "[Record]: ");
    assert_eq!(r.to_string(), "[语音]");
    assert!(record_from_elem(12, 48, Some(index_info("ff"))).is_ok());
    assert!(record_from_elem(21, 48, Some(index_info("ff"))).err().unwrap().is_some());
    assert!(record_from_elem(22, 47, Some(index_info("ff"))).is_err());
    assert!(record_from_elem(22, 48, Some(index_info("xyz"))).err().unwrap().is_some());
    let v = video_from_elem(CommonElem { service_type: 48, business_type: 21, msg_info: Some(index_info("ff")) }).unwrap();
    assert_eq!((v.file_name.as_str(), v.height, v.width, v.video_size, v.video_length), ("clip", 480, 640, 4096, 12));
    assert_eq!(v.node.as_ref().unwrap().file_uuid, "uuid-1");
    assert_eq!(v.debug_string(), "[Video]: 640x480: 4096 ");
    assert_eq!(v.to_string(), "[视频]");
    assert!(video_from_elem(CommonElem { service_type: 47, business_type: 21, msg_info: Some(index_info("ff")) }).is_none());
    assert!(video_from_elem(CommonElem { service_type: 48, business_type: 21, msg_info: Some(MsgInfo { msg_info_body: vec![] }) }).is_none());
    let mut neg = video_from_elem(CommonElem { service_type: 48, business_type: 21, msg_info: Some(index_info("ff")) }).unwrap();
    neg.width = -1;
    neg.video_url = "http://v".into();
    assert_eq!(neg.debug_string(), "[Video]: -1x480: 4096 http://v");
    // A voice message whose hash is not hexadecimal is read as a video.
    match Entity::unpack_element(common(22, 48, "zz")) {
        Some(Entity::Video(v)) => assert_eq!(v.file_name, "clip"),
        other => panic!("{other:?}"),
    }
    match Entity::unpack_element(common(22, 48, "0a")) {
        Some(Entity::Record(r)) => assert_eq!(r.audio_md5, vec![0x0a]),
        other => panic!("{other:?}"),
    }
    assert!(Entity::unpack_element(common(22, 1, "0a")).is_none());
}

#[test]
fn group_file_elements() {
    assert_eq!(group_file_extra(24, &[9, 0, 2, 0xaa, 0xbb, 0xcc]), Some(vec![0xaa, 0xbb]));
    assert_eq!(group_file_extra(24, &[9, 0, 0]), Some(vec![]));
    assert_eq!(group_file_extra(23, &[9, 0, 2, 0xaa, 0xbb]), None);
    assert_eq!(group_file_extra(23, &[]), None);
    let other = TransElem { elem_type: 7, elem_value: vec![], group_file: None };
    assert!(FileEntity::unpack_element(&other).is_none());
    let info = GroupFileInfo { file_id: "/id".into(), file_name: "a.txt".into(), file_size: 10, file_md5: "0f".into() };
    let t = TransElem { elem_type: 24, elem_value: vec![1, 0, 1, 7], group_file: Some(info) };
    let f = FileEntity::unpack_element(&t).unwrap();
    assert_eq!((f.file_size, f.file_name.as_str(), f.file_md5.clone()), (10, "a.txt", vec![0x0f]));
    match &f.extra {
        Some(FileUnique::Group(g)) => assert_eq!(g.file_id.as_deref(), Some("/id")),
        other => panic!("{other:?}"),
    }
    let bad = TransElem { elem_type: 24, elem_value: vec![1, 0, 1, 7], group_file: Some(GroupFileInfo { file_id: "x".into(), file_name: "b".into(), file_size: 1, file_md5: "g".into() }) };
    assert!(FileEntity::unpack_element(&bad).is_none());
    let elem = Elem { market_face: None, common_elem: None, video_file: None, trans_elem: Some(t) };
    match Entity::unpack_element(elem) {
        Some(Entity::File(f)) => assert_eq!(f.file_name, "a.txt"),
        other => panic!("{other:?}"),
    }
}

#[test]
fn parse_chain_keeps_element_order() {
    let face = MarketFaceElem { face_id: Some(vec![1]), tab_id: Some(2), key: Some("k".into()), face_name: Some("[f]".into()) };
    let body = PushMsgBody {
        response_head: Some(ResponseHead { from_uin: 1, from_uid: None, to_uin: 2, to_uid: None, grp: None }),
        content_head: Some(ContentHead { typ: 166, sub_type: None, msg_uid: None, time_stamp: None, sequence: None, nt_msg_seq: None }),
        body: Some(MessageBody {
            rich_text: Some(RichText {
                elems: vec![common(21, 48, "00"), face_elem(None), common(22, 48, "01"), face_elem(Some(face))],
            }),
            msg_content: None,
        }),
    };
    let c = MessagePacker::parse_chain(body).unwrap();
    assert_eq!(c.entities.len(), 3);
    assert!(matches!(c.entities[0], Entity::Video(_)));
    assert!(matches!(c.entities[1], Entity::Record(_)));
    assert!(matches!(c.entities[2], Entity::MarketFace(_)));
    assert_eq!(c.to_string(), "[视频][语音][f]");
}

#[test]
fn from_elems_skips_unread_elements() {
    let es = Entity::from_elems(vec![face_elem(None), common(12, 48, "0b"), common(1, 2, "00"), face_elem(None)]);
    assert_eq!(es.len(), 1);
    match &es[0] {
        Entity::Record(r) => assert_eq!(r.audio_md5, vec![0x0b]),
        other => panic!("{other:?}"),
    }
    assert!(Entity::need_pack_content(&es));
    assert!(Entity::from_elems(vec![]).is_empty());
}

#[test]
fn records_and_videos_pack_to_common_elements() {
    let r = record_from_elem(22, 48, Some(index_info("a0"))).ok().unwrap();
    let elems = r.pack_element();
    assert_eq!(elems.len(), 1);
    let c = elems[0].common_elem.as_ref().unwrap();
    assert_eq!((c.service_type, c.business_type), (48, 22));
    let info = c.msg_info.as_ref().unwrap();
    assert_eq!(info.msg_info_body[0].index.as_ref().unwrap().file_uuid, "uuid-1");
    let again = Entity::unpack_element(elems.into_iter().next().unwrap());
    assert!(matches!(again, Some(Entity::Record(_))));
    let v = Entity::Video(video_from_elem(CommonElem { service_type: 48, business_type: 21, msg_info: Some(index_info("ff")) }).unwrap());
    let elems = v.to_elems();
    let c = elems[0].common_elem.as_ref().unwrap();
    assert_eq!((c.service_type, c.business_type), (48, 21));
    assert!(c.msg_info.as_ref().unwrap().msg_info_body.is_empty());
    assert!(elems[0].market_face.is_none() && elems[0].trans_elem.is_none());
}

#[test]
fn from_elems_of_parts_concatenate() {
    let a = || vec![common(22, 48, "01"), face_elem(None)];
    let b = || vec![face_elem(None), common(21, 48, "02"), common(1, 1, "00")];
    let whole: Vec<Elem> = a().into_iter().chain(b()).collect();
    let joined = Entity::from_elems(whole);
    let parts: Vec<Entity> = Entity::from_elems(a()).into_iter().chain(Entity::from_elems(b())).collect();
    assert_eq!(joined.len(), parts.len());
    assert_eq!(joined.len(), 2);
    for (x, y) in joined.iter().zip(parts.iter()) {
        assert_eq!(x.debug_string(), y.debug_string());
    }
}
