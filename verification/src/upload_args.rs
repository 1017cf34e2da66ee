//! What an upload request needs to know of the file, and the requests
//! built from it.
use vstd::prelude::*;
use crate::text::{hex_encode, hex_lower};

verus! {

/// An image sent to a friend.
#[derive(Debug)]
pub struct ImageC2CUploadArgs {
    pub uid: String,
    pub size: u32,
    pub md5: Vec<u8>,
    pub sha1: Vec<u8>,
    pub name: String,
    pub pic_type: u32,
    pub sub_type: u32,
    pub height: u32,
    pub width: u32,
    pub summary: String,
}

/// A voice message sent to a group.
#[derive(Debug)]
pub struct RecordGroupUploadArgs {
    pub group_uin: u32,
    pub size: u32,
    pub length: u32,
    pub md5: Vec<u8>,
    pub sha1: Vec<u8>,
    pub name: String,
}

/// A video sent to a friend, with its thumbnail.
#[derive(Debug)]
pub struct VideoC2CUploadArgs {
    pub uid: String,
    pub video_size: u32,
    pub video_md5: Vec<u8>,
    pub video_sha1: Vec<u8>,
    pub video_name: String,
    pub thumb_size: u32,
    pub thumb_md5: Vec<u8>,
    pub thumb_sha1: Vec<u8>,
    pub thumb_name: String,
    pub thumb_width: u32,
    pub thumb_height: u32,
    pub summary: String,
}

/// The kind and format of an uploaded file.
#[derive(Debug)]
pub struct UploadFileType {
    pub typ: u32,
    pub pic_format: u32,
    pub video_format: u32,
    pub voice_format: u32,
}

/// One file of an upload request.
#[derive(Debug)]
pub struct UploadFileInfo {
    pub file_size: u32,
    pub file_hash: String,
    pub file_sha1: String,
    pub file_name: String,
    pub file_type: UploadFileType,
    pub width: u32,
    pub height: u32,
    pub time: u32,
    pub original: u32,
    pub sub_file_type: u32,
}

/// Whom an upload is for.
#[derive(Debug)]
pub enum UploadScene {
    C2C { account_type: u32, target_uid: String },
    Group { group_uin: u32 },
}

/// A rich media upload request (sent as OIDB 0x11c5, 0x11e9 or 0x126e, sub
/// command 100).
#[derive(Debug)]
pub struct RichMediaUploadRequest {
    pub request_id: u32,
    pub command: u32,
    pub request_type: u32,
    pub business_type: u32,
    pub scene_type: u32,
    pub scene: UploadScene,
    pub agent_type: u32,
    pub files: Vec<UploadFileInfo>,
    pub try_fast_upload_completed: bool,
    pub srv_send_msg: bool,
    pub client_random_id: u64,
    pub compat_q_msg_scene_type: u32,
    pub pic_biz_type: u32,
    pub pic_text_summary: String,
    /// The sub type and summary repeated for a picture sent to a friend.
    pub pic_reserve_c2c: Option<(u32, String)>,
    pub video_pb_reserve: Vec<u8>,
    pub ptt_reserve: Vec<u8>,
    pub ptt_pb_reserve: Vec<u8>,
    pub ptt_general_flags: Vec<u8>,
    pub client_seq: u32,
    pub no_need_compat_msg: bool,
}

/// `f` describes a file of `size` bytes with the given hashes (in lowercase
/// hexadecimal), name, type and format, size in pixels, duration, original
/// flag and sub file type.
pub open spec fn file_info_is(
    f: UploadFileInfo,
    size: u32,
    hash: Seq<u8>,
    sha1: Seq<u8>,
    name: Seq<char>,
    typ: u32,
    pic_format: u32,
    voice_format: u32,
    width: u32,
    height: u32,
    time: u32,
    original: u32,
    sub_file_type: u32,
) -> bool {
    &&& f.file_size == size
    &&& f.file_hash@ == hex_lower(hash)
    &&& f.file_sha1@ == hex_lower(sha1)
    &&& f.file_name@ == name
    &&& f.file_type.typ == typ
    &&& f.file_type.pic_format == pic_format
    &&& f.file_type.video_format == 0
    &&& f.file_type.voice_format == voice_format
    &&& f.width == width
    &&& f.height == height
    &&& f.time == time
    &&& f.original == original
    &&& f.sub_file_type == sub_file_type
}

/// The fields that every upload request holds alike: command 100, request
/// type 2, agent type 2, fast upload tried, the message not sent by the
/// server, the client's random id, compat scene type 2, client sequence 0
/// and a compat message wanted.
pub open spec fn request_common(r: RichMediaUploadRequest, client_random_id: u64) -> bool {
    &&& r.command == 100
    &&& r.request_type == 2
    &&& r.agent_type == 2
    &&& r.try_fast_upload_completed
    &&& !r.srv_send_msg
    &&& r.client_random_id == client_random_id
    &&& r.compat_q_msg_scene_type == 2
    &&& r.client_seq == 0
    &&& !r.no_need_compat_msg
}

/// The request to upload a video and its thumbnail to a friend: request id
/// 3, business type 2, scene type 1 with the friend's uid (account type 2),
/// the video (type 2) and the thumbnail (type 1, sub file type 100) by
/// their hashes in hexadecimal, names and sizes, the summary and the video
/// reserve bytes `80 01 00`.
pub fn video_c2c_upload_request(args: &VideoC2CUploadArgs, client_random_id: u64) -> (r:
    RichMediaUploadRequest)
    ensures
        request_common(r, client_random_id),
        r.request_id == 3,
        r.business_type == 2,
        r.scene_type == 1,
        r.scene matches UploadScene::C2C { account_type, target_uid } && account_type == 2
            && target_uid@ == args.uid@,
        r.files@.len() == 2,
        file_info_is(r.files@[0], args.video_size, args.video_md5@, args.video_sha1@,
            args.video_name@, 2, 0, 0, 0, 0, 0, 0, 0),
        file_info_is(r.files@[1], args.thumb_size, args.thumb_md5@, args.thumb_sha1@,
            args.thumb_name@, 1, 0, 0, args.thumb_width, args.thumb_height, 0, 0, 100),
        r.pic_biz_type == 0,
        r.pic_text_summary@ == args.summary@,
        r.pic_reserve_c2c is None,
        r.video_pb_reserve@ == seq![0x80u8, 0x01u8, 0x00u8],
        r.ptt_reserve@.len() == 0,
        r.ptt_pb_reserve@.len() == 0,
        r.ptt_general_flags@.len() == 0,
{
    let video = UploadFileInfo {
        file_size: args.video_size,
        file_hash: hex_encode(args.video_md5.as_slice()),
        file_sha1: hex_encode(args.video_sha1.as_slice()),
        file_name: args.video_name.clone(),
        file_type: UploadFileType { typ: 2, pic_format: 0, video_format: 0, voice_format: 0 },
        width: 0,
        height: 0,
        time: 0,
        original: 0,
        sub_file_type: 0,
    };
    let thumb = UploadFileInfo {
        file_size: args.thumb_size,
        file_hash: hex_encode(args.thumb_md5.as_slice()),
        file_sha1: hex_encode(args.thumb_sha1.as_slice()),
        file_name: args.thumb_name.clone(),
        file_type: UploadFileType { typ: 1, pic_format: 0, video_format: 0, voice_format: 0 },
        width: args.thumb_width,
        height: args.thumb_height,
        time: 0,
        original: 0,
        sub_file_type: 100,
    };
    let mut files: Vec<UploadFileInfo> = Vec::new();
    files.push(video);
    files.push(thumb);
    RichMediaUploadRequest {
        request_id: 3,
        command: 100,
        request_type: 2,
        business_type: 2,
        scene_type: 1,
        scene: UploadScene::C2C { account_type: 2, target_uid: args.uid.clone() },
        agent_type: 2,
        files,
        try_fast_upload_completed: true,
        srv_send_msg: false,
        client_random_id,
        compat_q_msg_scene_type: 2,
        pic_biz_type: 0,
        pic_text_summary: args.summary.clone(),
        pic_reserve_c2c: None,
        video_pb_reserve: vec![0x80u8, 0x01u8, 0x00u8],
        ptt_reserve: Vec::new(),
        ptt_pb_reserve: Vec::new(),
        ptt_general_flags: Vec::new(),
        client_seq: 0,
        no_need_compat_msg: false,
    }
}

/// The request to upload an image to a friend: request id 1, business type
/// 1, scene type 1 with the friend's uid (account type 2), the image (type
/// 1 in its format, original) whose hash fields both hold the MD5 in
/// hexadecimal, and the sub type and summary, also repeated for the
/// friend.
pub fn image_c2c_upload_request(args: &ImageC2CUploadArgs, client_random_id: u64) -> (r:
    RichMediaUploadRequest)
    ensures
        request_common(r, client_random_id),
        r.request_id == 1,
        r.business_type == 1,
        r.scene_type == 1,
        r.scene matches UploadScene::C2C { account_type, target_uid } && account_type == 2
            && target_uid@ == args.uid@,
        r.files@.len() == 1,
        file_info_is(r.files@[0], args.size, args.md5@, args.md5@, args.name@, 1, args.pic_type,
            0, args.width, args.height, 0, 1, 0),
        r.pic_biz_type == args.sub_type,
        r.pic_text_summary@ == args.summary@,
        r.pic_reserve_c2c matches Some((t, s)) && t == args.sub_type && s@ == args.summary@,
        r.video_pb_reserve@.len() == 0,
        r.ptt_reserve@.len() == 0,
        r.ptt_pb_reserve@.len() == 0,
        r.ptt_general_flags@.len() == 0,
{
    let image = UploadFileInfo {
        file_size: args.size,
        file_hash: hex_encode(args.md5.as_slice()),
        file_sha1: hex_encode(args.md5.as_slice()),
        file_name: args.name.clone(),
        file_type: UploadFileType {
            typ: 1,
            pic_format: args.pic_type,
            video_format: 0,
            voice_format: 0,
        },
        width: args.width,
        height: args.height,
        time: 0,
        original: 1,
        sub_file_type: 0,
    };
    let mut files: Vec<UploadFileInfo> = Vec::new();
    files.push(image);
    RichMediaUploadRequest {
        request_id: 1,
        command: 100,
        request_type: 2,
        business_type: 1,
        scene_type: 1,
        scene: UploadScene::C2C { account_type: 2, target_uid: args.uid.clone() },
        agent_type: 2,
        files,
        try_fast_upload_completed: true,
        srv_send_msg: false,
        client_random_id,
        compat_q_msg_scene_type: 2,
        pic_biz_type: args.sub_type,
        pic_text_summary: args.summary.clone(),
        pic_reserve_c2c: Some((args.sub_type, args.summary.clone())),
        video_pb_reserve: Vec::new(),
        ptt_reserve: Vec::new(),
        ptt_pb_reserve: Vec::new(),
        ptt_general_flags: Vec::new(),
        client_seq: 0,
        no_need_compat_msg: false,
    }
}

/// The request to upload a voice message to a group: request id 1,
/// business type 3, scene type 2 with the group, the record (type 3, voice
/// format 1, its duration) by its hashes in hexadecimal, an empty summary
/// and the voice reserve bytes `08 00 38 00` and general flags
/// `9a 01 07 aa 03 04 08 08 12 00`.
pub fn record_group_upload_request(args: &RecordGroupUploadArgs, client_random_id: u64) -> (r:
    RichMediaUploadRequest)
    ensures
        request_common(r, client_random_id),
        r.request_id == 1,
        r.business_type == 3,
        r.scene_type == 2,
        r.scene matches UploadScene::Group { group_uin } && group_uin == args.group_uin,
        r.files@.len() == 1,
        file_info_is(r.files@[0], args.size, args.md5@, args.sha1@, args.name@, 3, 0, 1, 0, 0,
            args.length, 0, 0),
        r.pic_biz_type == 0,
        r.pic_text_summary@.len() == 0,
        r.pic_reserve_c2c is None,
        r.video_pb_reserve@.len() == 0,
        r.ptt_reserve@.len() == 0,
        r.ptt_pb_reserve@ == seq![0x08u8, 0x00u8, 0x38u8, 0x00u8],
        r.ptt_general_flags@ == seq![
            0x9au8, 0x01u8, 0x07u8, 0xaau8, 0x03u8, 0x04u8, 0x08u8, 0x08u8, 0x12u8, 0x00u8,
        ],
{
    let record = UploadFileInfo {
        file_size: args.size,
        file_hash: hex_encode(args.md5.as_slice()),
        file_sha1: hex_encode(args.sha1.as_slice()),
        file_name: args.name.clone(),
        file_type: UploadFileType { typ: 3, pic_format: 0, video_format: 0, voice_format: 1 },
        width: 0,
        height: 0,
        time: args.length,
        original: 0,
        sub_file_type: 0,
    };
    let mut files: Vec<UploadFileInfo> = Vec::new();
    files.push(record);
    RichMediaUploadRequest {
        request_id: 1,
        command: 100,
        request_type: 2,
        business_type: 3,
        scene_type: 2,
        scene: UploadScene::Group { group_uin: args.group_uin },
        agent_type: 2,
        files,
        try_fast_upload_completed: true,
        srv_send_msg: false,
        client_random_id,
        compat_q_msg_scene_type: 2,
        pic_biz_type: 0,
        pic_text_summary: String::new(),
        pic_reserve_c2c: None,
        video_pb_reserve: Vec::new(),
        ptt_reserve: Vec::new(),
        ptt_pb_reserve: vec![0x08u8, 0x00u8, 0x38u8, 0x00u8],
        ptt_general_flags: vec![0x9au8, 0x01u8, 0x07u8, 0xaau8, 0x03u8, 0x04u8, 0x08u8, 0x08u8, 0x12u8, 0x00u8],
        client_seq: 0,
        no_need_compat_msg: false,
    }
}

} // verus!
