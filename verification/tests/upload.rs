use mania::event::EventError;
use mania::message::entity::{RecordEntity, VideoEntity, VideoFile};
use mania::push_msg::RichText;
use mania::upload::{
    apply_record_upload_reply, apply_video_upload_reply, image_summary, record_upload_step,
    upload_c2c_record, upload_c2c_video, upload_group_record, upload_group_video, upload_name, upload_step, video_summary,
    read_upload_resp, video_upload_step, HighwayUploadPlan, Ntv2RichMediaResp, RecordGroupUploadEvent,
    UploadResp, VideoC2CUploadEvent, IndexInfo, IndexNode, MsgInfo,
    MsgInfoBody, UploadError, UploadKind, UploadReply,
};
use mania::upload_args::{
    image_c2c_upload_request, record_group_upload_request, video_c2c_upload_request,
    ImageC2CUploadArgs, RecordGroupUploadArgs, UploadScene, VideoC2CUploadArgs,
};

fn entry(sha1: &str, hash: &str, uuid: &str) -> MsgInfoBody {
    MsgInfoBody {
        index: Some(IndexNode {
            info: Some(IndexInfo {
                file_sha1: sha1.into(),
                file_hash: hash.into(),
                file_name: String::new(),
                time: 0,
                height: 0,
                width: 0,
                file_size: 0,
            }),
            file_uuid: uuid.into(),
        }),
    }
}

#[test]
fn names_and_summaries() {
    assert_eq!(upload_name(None, &[0xab, 0x01], "jpg"), "ab01.jpg");
    assert_eq!(upload_name(Some("/tmp/a.png".into()), &[0xab], "png"), "/tmp/a.png");
    assert_eq!(image_summary(None), "[图片]");
    assert_eq!(image_summary(Some("s".into())), "s");
    assert_eq!(video_summary(), "[视频]");
}

#[test]
fn upload_steps() {
    let reply = UploadReply {
        u_key: Some("key".into()),
        msg_info: MsgInfo { msg_info_body: vec![entry("0A0b", "ff00", "uuid0"), entry("11", "22", "uuid1")] },
        sub_file_u_keys: vec!["thumbkey".into()],
    };
    let p = upload_step(UploadKind::GroupImage, &reply, 1024, 99).unwrap().unwrap();
    assert_eq!((p.command, p.block_size), (1004, 1024));
    assert_eq!(p.file_uuid, "uuid0");
    assert_eq!(p.u_key, "key");
    assert_eq!(p.md5, vec![0xff, 0x00]);
    assert_eq!(p.sha1, Some(vec![0x0a, 0x0b]));
    let v = upload_step(UploadKind::C2CVideo, &reply, 7, 99).unwrap().unwrap();
    assert_eq!(v.command, 1001);
    assert!(v.sha1.is_none());
    let t = upload_step(UploadKind::GroupVideoThumb, &reply, 7, 99).unwrap().unwrap();
    assert_eq!((t.command, t.file_uuid.as_str(), t.u_key.as_str()), (1006, "uuid1", "thumbkey"));
    let none = UploadReply { u_key: None, msg_info: MsgInfo { msg_info_body: vec![] }, sub_file_u_keys: vec![String::new()] };
    assert!(upload_step(UploadKind::C2CImage, &none, 7, 99).unwrap().is_none());
    assert!(upload_step(UploadKind::C2CVideoThumb, &none, 7, 99).unwrap().is_none());
    let empty = UploadReply { u_key: Some("k".into()), msg_info: MsgInfo { msg_info_body: vec![] }, sub_file_u_keys: vec![] };
    match upload_step(UploadKind::GroupRecord, &empty, 7, 99) {
        Err(UploadError::GenericError(m)) => assert_eq!(m, "No index node in response"),
        other => panic!("{other:?}"),
    }
    let no_index = UploadReply { u_key: Some("k".into()), msg_info: MsgInfo { msg_info_body: vec![MsgInfoBody { index: None }] }, sub_file_u_keys: vec![] };
    match upload_step(UploadKind::GroupRecord, &no_index, 7, 99) {
        Err(UploadError::GenericError(m)) => assert_eq!(m, "No index in response"),
        other => panic!("{other:?}"),
    }
    let bad = UploadReply { u_key: Some("k".into()), msg_info: MsgInfo { msg_info_body: vec![entry("zz", "00", "u")] }, sub_file_u_keys: vec![] };
    assert!(matches!(upload_step(UploadKind::C2CRecord, &bad, 7, 99), Err(UploadError::HexError)));
    assert_eq!(upload_step(UploadKind::GroupVideo, &bad, 7, 99).unwrap().unwrap().command, 1005);
    let odd = UploadReply { u_key: Some("k".into()), msg_info: MsgInfo { msg_info_body: vec![entry("00", "abc", "u")] }, sub_file_u_keys: vec![] };
    assert!(matches!(upload_step(UploadKind::GroupVideo, &odd, 7, 99), Err(UploadError::HexError)));
}

#[test]
fn upload_requests() {
    let v = VideoC2CUploadArgs {
        uid: "u".into(),
        video_size: 100,
        video_md5: vec![1],
        video_sha1: vec![2],
        video_name: "v.mp4".into(),
        thumb_size: 10,
        thumb_md5: vec![3],
        thumb_sha1: vec![4],
        thumb_name: "t.jpg".into(),
        thumb_width: 640,
        thumb_height: 480,
        summary: "[视频]".into(),
    };
    let r = video_c2c_upload_request(&v, 99);
    assert_eq!((r.request_id, r.command, r.business_type, r.client_random_id), (3, 100, 2, 99));
    assert_eq!(r.files.len(), 2);
    assert_eq!(r.files[0].file_hash, "01");
    assert_eq!(r.files[0].file_sha1, "02");
    assert_eq!(r.files[1].file_name, "t.jpg");
    assert_eq!((r.files[1].width, r.files[1].sub_file_type, r.files[1].file_type.typ), (640, 100, 1));
    assert_eq!(r.video_pb_reserve, vec![0x80, 0x01, 0x00]);
    assert!(matches!(r.scene, UploadScene::C2C { account_type: 2, .. }));
    let i = ImageC2CUploadArgs {
        uid: "u".into(),
        size: 5,
        md5: vec![0xaa],
        sha1: vec![0xbb],
        name: "a.png".into(),
        pic_type: 1001,
        sub_type: 0,
        height: 1,
        width: 2,
        summary: "[图片]".into(),
    };
    let r = image_c2c_upload_request(&i, 1);
    assert_eq!(r.files[0].file_sha1, "aa");
    assert_eq!(r.files[0].file_type.pic_format, 1001);
    assert_eq!(r.pic_reserve_c2c, Some((0, "[图片]".to_string())));
    let g = RecordGroupUploadArgs { group_uin: 42, size: 9, length: 3, md5: vec![1], sha1: vec![2], name: "x.amr".into() };
    let r = record_group_upload_request(&g, 1);
    assert!(matches!(r.scene, UploadScene::Group { group_uin: 42 }));
    assert_eq!((r.files[0].time, r.files[0].file_type.voice_format), (3, 1));
    assert_eq!(r.ptt_pb_reserve, vec![0x08, 0x00, 0x38, 0x00]);
    assert_eq!(r.ptt_general_flags.len(), 10);
}

fn video(size: i32, thumb_size: i32) -> VideoEntity {
    VideoEntity {
        file_name: "v.mp4".into(),
        video_hash: String::new(),
        height: 720,
        width: 1280,
        video_size: size,
        video_length: 3,
        video_thumb_size: thumb_size,
        video_thumb_height: 0,
        video_thumb_width: 0,
        video_url: String::new(),
        video_path: None,
        video_thumb_path: None,
        node: None,
        video_uuid: None,
        msg_info: None,
        compat: None,
    }
}

fn reply() -> UploadReply {
    UploadReply {
        u_key: Some("key".into()),
        msg_info: MsgInfo { msg_info_body: vec![entry("0a", "ff00", "uuid0"), entry("11", "22", "uuid1")] },
        sub_file_u_keys: vec!["thumbkey".into()],
    }
}

#[test]
fn video_upload_sizes_and_reply() {
    let mut v = video(5000, 300);
    let r = reply();
    let main = video_upload_step(&v, true, false, &r, 64).unwrap().unwrap();
    assert_eq!((main.command, main.size, main.file_uuid.as_str()), (1005, 5000, "uuid0"));
    let thumb = video_upload_step(&v, true, true, &r, 64).unwrap().unwrap();
    assert_eq!((thumb.command, thumb.size, thumb.file_uuid.as_str()), (1006, 300, "uuid1"));
    let c2c = video_upload_step(&v, false, false, &r, 64).unwrap().unwrap();
    assert_eq!((c2c.command, c2c.size), (1001, 5000));
    let c2c_thumb = video_upload_step(&v, false, true, &r, 64).unwrap().unwrap();
    assert_eq!((c2c_thumb.command, c2c_thumb.size), (1002, 300));
    let file = VideoFile {
        file_uuid: "fu".into(),
        file_md5: vec![1, 2],
        file_size: 5000,
        file_width: 1280,
        file_height: 720,
    };
    apply_video_upload_reply(&mut v, r, file);
    let info = v.msg_info.as_ref().unwrap();
    assert_eq!(info.msg_info_body.len(), 2);
    assert_eq!(info.msg_info_body[0].index.as_ref().unwrap().file_uuid, "uuid0");
    assert_eq!(v.compat.as_ref().unwrap().file_uuid, "fu");
    assert_eq!(v.video_size, 5000);
    assert_eq!(v.file_name, "v.mp4");
}

#[test]
fn record_upload_size_and_reply() {
    let r = reply();
    let g = record_upload_step(true, &r, 64, 1234).unwrap().unwrap();
    assert_eq!((g.command, g.size, g.md5.clone()), (1008, 1234, vec![0xff, 0x00]));
    assert_eq!(g.sha1, Some(vec![0x0a]));
    let c = record_upload_step(false, &r, 64, 1234).unwrap().unwrap();
    assert_eq!(c.command, 1007);
    let mut rec = RecordEntity {
        audio_length: 4,
        audio_md5: vec![],
        audio_name: "a".into(),
        audio_url: String::new(),
        file_path: None,
        file_size: 0,
        audio_uuid: None,
        file_sha1: None,
        msg_info: None,
        compat: None,
    };
    apply_record_upload_reply(&mut rec, r, RichText { elems: vec![] });
    assert!(rec.compat.is_some());
    assert_eq!(rec.msg_info.unwrap().msg_info_body.len(), 2);
    assert_eq!(rec.audio_length, 4);
}

fn file() -> VideoFile {
    VideoFile { file_uuid: "fu".into(), file_md5: vec![], file_size: 1, file_width: 2, file_height: 3 }
}

#[test]
fn whole_video_uploads() {
    let calls = std::cell::RefCell::new(Vec::new());
    let record = |p: HighwayUploadPlan| -> Result<(), String> {
        calls.borrow_mut().push((p.command, p.size, p.file_uuid));
        Ok(())
    };
    let mut v = video(5000, 300);
    upload_group_video(&mut v, reply(), file(), 64, record, record).unwrap();
    assert_eq!(*calls.borrow(), vec![(1005, 5000, "uuid0".to_string()), (1006, 300, "uuid1".to_string())]);
    assert_eq!(v.compat.as_ref().unwrap().file_uuid, "fu");
    assert!(v.msg_info.is_some());

    calls.borrow_mut().clear();
    let mut c = video(10, 20);
    let mut no_thumb = reply();
    no_thumb.sub_file_u_keys = vec![String::new()];
    upload_c2c_video(&mut c, no_thumb, file(), 64, record, record).unwrap();
    assert_eq!(*calls.borrow(), vec![(1001, 10, "uuid0".to_string())]);
    assert!(c.msg_info.is_some());

    let failing = |_: HighwayUploadPlan| -> Result<(), String> { Err("broken pipe".into()) };
    let mut f = video(10, 20);
    match upload_group_video(&mut f, reply(), file(), 64, failing, record) {
        Err(UploadError::Transfer(m)) => assert_eq!(m, "broken pipe"),
        other => panic!("{other:?}"),
    }
    assert!(f.msg_info.is_none() && f.compat.is_none());
    let mut bad = reply();
    bad.msg_info.msg_info_body.truncate(1);
    let mut g = video(10, 20);
    match upload_group_video(&mut g, bad, file(), 64, record, record) {
        Err(UploadError::GenericError(m)) => assert_eq!(m, "No index node in response"),
        other => panic!("{other:?}"),
    }
    assert!(g.msg_info.is_none());
}

#[test]
fn whole_record_uploads() {
    let calls = std::cell::RefCell::new(Vec::new());
    let record = |p: HighwayUploadPlan| -> Result<(), String> {
        calls.borrow_mut().push((p.command, p.size));
        Ok(())
    };
    let mut rec = RecordEntity {
        audio_length: 4,
        audio_md5: vec![],
        audio_name: "a".into(),
        audio_url: String::new(),
        file_path: None,
        file_size: 0,
        audio_uuid: None,
        file_sha1: None,
        msg_info: None,
        compat: None,
    };
    upload_group_record(&mut rec, reply(), RichText { elems: vec![] }, 64, 777, record).unwrap();
    assert_eq!(*calls.borrow(), vec![(1008, 777)]);
    assert!(rec.msg_info.is_some() && rec.compat.is_some());
    let mut skipped = reply();
    skipped.u_key = None;
    rec.msg_info = None;
    upload_c2c_record(&mut rec, skipped, RichText { elems: vec![] }, 64, 777, record).unwrap();
    assert_eq!(calls.borrow().len(), 1);
    assert!(rec.msg_info.is_some());
}

fn answer(with_upload: bool, with_info: bool) -> Ntv2RichMediaResp {
    Ntv2RichMediaResp {
        upload: if with_upload {
            Some(UploadResp {
                u_key: Some("k".into()),
                msg_info: if with_info { Some(MsgInfo { msg_info_body: vec![entry("01", "02", "u")] }) } else { None },
                sub_file_u_keys: vec!["s".into()],
                compat_q_msg: vec![8, 9],
            })
        } else {
            None
        },
    }
}

#[test]
fn upload_answers() {
    let (reply, compat) = read_upload_resp(answer(true, true)).unwrap();
    assert_eq!((reply.u_key.as_deref(), reply.sub_file_u_keys.clone(), compat), (Some("k"), vec!["s".to_string()], vec![8, 9]));
    assert_eq!(reply.msg_info.msg_info_body.len(), 1);
    match read_upload_resp(answer(false, true)) {
        Err(EventError::OtherError(m)) => assert_eq!(m, "Missing UploadResp"),
        other => panic!("{other:?}"),
    }
    match read_upload_resp(answer(true, false)) {
        Err(EventError::OtherError(m)) => assert_eq!(m, "Missing MsgInfo"),
        other => panic!("{other:?}"),
    }
    let g = RecordGroupUploadArgs { group_uin: 42, size: 9, length: 3, md5: vec![1], sha1: vec![2], name: "x.amr".into() };
    let ev = RecordGroupUploadEvent::parse(g, answer(true, true), |b| {
        assert_eq!(b, vec![8, 9]);
        Ok(RichText { elems: vec![] })
    })
    .unwrap();
    assert_eq!((ev.req.group_uin, ev.res.upload.u_key.as_deref()), (42, Some("k")));
    let g = RecordGroupUploadArgs { group_uin: 42, size: 9, length: 3, md5: vec![1], sha1: vec![2], name: "x.amr".into() };
    match RecordGroupUploadEvent::parse(g, answer(true, true), |_| Err(EventError::OtherError("bad".into()))) {
        Err(EventError::OtherError(m)) => assert_eq!(m, "bad"),
        other => panic!("{other:?}"),
    }
    let v = VideoC2CUploadArgs {
        uid: "u".into(),
        video_size: 100,
        video_md5: vec![1],
        video_sha1: vec![2],
        video_name: "v.mp4".into(),
        thumb_size: 10,
        thumb_md5: vec![3],
        thumb_sha1: vec![4],
        thumb_name: "t.jpg".into(),
        thumb_width: 640,
        thumb_height: 480,
        summary: "[视频]".into(),
    };
    let ev = VideoC2CUploadEvent::parse(v, answer(true, true), |_| Ok(file())).unwrap();
    assert_eq!((ev.req.video_size, ev.res.video_file.file_uuid.as_str()), (100, "fu"));
    let mut video = video(100, 10);
    // The answer asks for a thumbnail but describes only the video.
    match upload_c2c_video(&mut video, ev.res.upload, ev.res.video_file, 64, |_| Ok(()), |_| Ok(())) {
        Err(UploadError::GenericError(m)) => assert_eq!(m, "No index node in response"),
        other => panic!("{other:?}"),
    }
    assert!(video.compat.is_none() && video.msg_info.is_none());
}

#[test]
fn whole_image_uploads() {
    let calls = std::cell::RefCell::new(Vec::new());
    let record = |p: HighwayUploadPlan| -> Result<(), String> {
        calls.borrow_mut().push((p.command, p.size, p.sha1.clone()));
        Ok(())
    };
    let info = mania::upload::upload_group_image(reply(), 64, 4321, record).unwrap();
    assert_eq!(info.msg_info_body.len(), 2);
    let info = mania::upload::upload_c2c_image(reply(), 64, 99, record).unwrap();
    assert_eq!(info.msg_info_body[0].index.as_ref().unwrap().file_uuid, "uuid0");
    assert_eq!(*calls.borrow(), vec![(1004, 4321, Some(vec![0x0a])), (1003, 99, Some(vec![0x0a]))]);
    let mut skipped = reply();
    skipped.u_key = None;
    assert!(mania::upload::upload_group_image(skipped, 64, 1, record).is_ok());
    assert_eq!(calls.borrow().len(), 2);
    match mania::upload::upload_group_image(reply(), 64, 1, |_: HighwayUploadPlan| -> Result<(), String> { Err("down".into()) }) {
        Err(UploadError::Transfer(m)) => assert_eq!(m, "down"),
        other => panic!("{other:?}"),
    }
}
