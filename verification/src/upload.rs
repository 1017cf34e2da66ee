//! Uploading images, videos and voice messages: what to call the file, and
//! what to upload once the server has answered the upload request.
use vstd::prelude::*;
use vstd::string::StringExecFns;
use crate::event::EventError;
use crate::message::entity::{RecordEntity, VideoEntity, VideoFile};
use crate::upload_args::{RecordGroupUploadArgs, VideoC2CUploadArgs};
use crate::push_msg::RichText;
use crate::text::{hex_encode, hex_lower};

verus! {

// ---------------------------------------------------------------------------
// Hexadecimal decoding
// ---------------------------------------------------------------------------

/// The value of the hexadecimal digit `c`, in either case.
pub open spec fn hex_digit_value(c: char) -> Option<u8> {
    if '0' <= c <= '9' {
        Some((c as int - 0x30) as u8)
    } else if 'a' <= c <= 'f' {
        Some((c as int - 0x57) as u8)
    } else if 'A' <= c <= 'F' {
        Some((c as int - 0x37) as u8)
    } else {
        None
    }
}

/// The bytes that the hexadecimal text `s` spells, two digits per byte; none
/// where its length is odd or a character is not a digit.
pub open spec fn hex_decoded(s: Seq<char>) -> Option<Seq<u8>>
    decreases s.len(),
{
    if s.len() == 0 {
        Some(Seq::empty())
    } else if s.len() == 1 {
        None
    } else {
        match (hex_digit_value(s[0]), hex_digit_value(s[1]), hex_decoded(s.skip(2))) {
            (Some(a), Some(b), Some(rest)) => Some(seq![(a * 16 + b) as u8] + rest),
            _ => None,
        }
    }
}

/// Calls `hex::decode` on the text's bytes: both cases of digits are read,
/// two per byte; an odd length or any other character is an error, which
/// is given as nothing.
#[verifier::external_body]
pub(crate) fn hex_decode(s: &str) -> (r: Option<Vec<u8>>)
    ensures
        match hex_decoded(s@) {
            Some(b) => r matches Some(v) && v@ == b,
            None => r is None,
        },
{
    hex::decode(s).ok()
}

// ---------------------------------------------------------------------------
// Names and summaries
// ---------------------------------------------------------------------------

/// The name a file is uploaded under when it has no path: its hash in
/// lowercase hexadecimal, a dot and the extension.
pub open spec fn default_name(hash: Seq<u8>, ext: Seq<char>) -> Seq<char> {
    hex_lower(hash) + "."@ + ext
}

/// The name to upload a file under: its path, or else the default name
/// made of `hash` and `ext` (the image format, `mp4` for a video, `jpg` for
/// its thumbnail, `amr` or `mp3` for a voice message).
pub fn upload_name(path: Option<String>, hash: &[u8], ext: &str) -> (r: String)
    ensures
        path matches Some(p) ==> r == p,
        path is None ==> r@ == default_name(hash@, ext@),
{
    match path {
        Some(p) => p,
        None => {
            let mut n = hex_encode(hash);
            n.append(".");
            n.append(ext);
            n
        },
    }
}

/// The summary shown for an image: its own, or `[图片]`.
pub fn image_summary(summary: Option<String>) -> (r: String)
    ensures
        summary matches Some(s) ==> r == s,
        summary is None ==> r@ == "[图片]"@,
{
    match summary {
        Some(s) => s,
        None => String::from_str("[图片]"),
    }
}

/// The summary shown for a video.
pub fn video_summary() -> (r: String)
    ensures
        r@ == "[视频]"@,
{
    String::from_str("[视频]")
}

// ---------------------------------------------------------------------------
// The step after the upload request
// ---------------------------------------------------------------------------

/// What is uploaded.
#[derive(Clone, Copy, Debug, PartialEq, Eq, Structural)]
pub enum UploadKind {
    C2CVideo,
    C2CVideoThumb,
    C2CImage,
    GroupImage,
    GroupVideo,
    GroupVideoThumb,
    C2CRecord,
    GroupRecord,
}

impl UploadKind {
    /// The highway command for the kind.
    pub open spec fn spec_command(self) -> u32 {
        match self {
            UploadKind::C2CVideo => 1001,
            UploadKind::C2CVideoThumb => 1002,
            UploadKind::C2CImage => 1003,
            UploadKind::GroupImage => 1004,
            UploadKind::GroupVideo => 1005,
            UploadKind::GroupVideoThumb => 1006,
            UploadKind::C2CRecord => 1007,
            UploadKind::GroupRecord => 1008,
        }
    }

    pub fn command(&self) -> (r: u32)
        ensures
            r == self.spec_command(),
    {
        match self {
            UploadKind::C2CVideo => 1001,
            UploadKind::C2CVideoThumb => 1002,
            UploadKind::C2CImage => 1003,
            UploadKind::GroupImage => 1004,
            UploadKind::GroupVideo => 1005,
            UploadKind::GroupVideoThumb => 1006,
            UploadKind::C2CRecord => 1007,
            UploadKind::GroupRecord => 1008,
        }
    }

    /// A video's thumbnail: described by the second entry of the answer and
    /// uploaded under the first extra file's key.
    pub open spec fn is_thumb(self) -> bool {
        self is C2CVideoThumb || self is GroupVideoThumb
    }

    /// A video itself: its hash list is computed while reading it, so only
    /// the MD5 is taken from the answer.
    pub open spec fn is_video(self) -> bool {
        self is C2CVideo || self is GroupVideo
    }
}

/// What the server says of a stored file: its hashes in hexadecimal, its
/// name, its duration, size in pixels and size in bytes.
#[derive(Debug)]
pub struct IndexInfo {
    pub file_sha1: String,
    pub file_hash: String,
    pub file_name: String,
    pub time: u32,
    pub height: u32,
    pub width: u32,
    pub file_size: u32,
}

/// Where the server keeps a file.
#[derive(Debug)]
pub struct IndexNode {
    pub info: Option<IndexInfo>,
    pub file_uuid: String,
}

/// One entry of the answer's message information.
#[derive(Debug)]
pub struct MsgInfoBody {
    pub index: Option<IndexNode>,
}

/// Where the server keeps the files of a message.
#[derive(Debug)]
pub struct MsgInfo {
    pub msg_info_body: Vec<MsgInfoBody>,
}

/// The server's answer to an upload request, as far as the upload needs it.
#[derive(Debug)]
pub struct UploadReply {
    /// The key to upload the main file under, where it must be uploaded.
    pub u_key: Option<String>,
    pub msg_info: MsgInfo,
    /// The keys of the extra files (a video's thumbnail), in order.
    pub sub_file_u_keys: Vec<String>,
}

/// What to upload: the highway command, the file's id and key on the
/// server, its size, its MD5 and, where the answer gives it, its SHA-1, and
/// the block size.
#[derive(Debug)]
pub struct HighwayUploadPlan {
    pub command: u32,
    pub size: u32,
    pub file_uuid: String,
    pub u_key: String,
    pub md5: Vec<u8>,
    pub sha1: Option<Vec<u8>>,
    pub block_size: u32,
}

/// Why an upload cannot go on.
#[derive(Debug)]
pub enum UploadError {
    GenericError(String),
    /// A hash in the answer is not hexadecimal.
    HexError,
    /// The upload itself failed, for the reason given.
    Transfer(String),
}

/// The key the file of `kind` is uploaded under, if it must be uploaded:
/// the answer's key for a main file, the first extra file's key, when it is
/// not empty, for a thumbnail.
pub open spec fn upload_key(kind: UploadKind, reply: UploadReply) -> Option<Seq<char>> {
    if kind.is_thumb() {
        if reply.sub_file_u_keys@.len() > 0 && reply.sub_file_u_keys@[0]@.len() > 0 {
            Some(reply.sub_file_u_keys@[0]@)
        } else {
            None
        }
    } else {
        match reply.u_key {
            Some(k) => Some(k@),
            None => None,
        }
    }
}

/// What `upload_step` gives for `kind`, the answer `reply`, the block size
/// and the file's size.
pub open spec fn step_follows(
    kind: UploadKind,
    reply: UploadReply,
    chunk_size: u32,
    size: u32,
    r: Result<Option<HighwayUploadPlan>, UploadError>,
) -> bool {
    &&& (upload_key(kind, reply) is None ==> (r matches Ok(p) && p is None))
    &&& (upload_key(kind, reply) is Some ==> ({
            let pos: int = if kind.is_thumb() { 1 } else { 0 };
            let entries = reply.msg_info.msg_info_body@;
            if entries.len() <= pos {
                r matches Err(UploadError::GenericError(m)) && m@ == "No index node in response"@
            } else if entries[pos].index is None {
                r matches Err(UploadError::GenericError(m)) && m@ == "No index in response"@
            } else if entries[pos].index->0.info is None {
                r matches Err(UploadError::GenericError(m)) && m@ == "No info in response"@
            } else {
                let node = entries[pos].index->0;
                let info = node.info->0;
                let sha1 = hex_decoded(info.file_sha1@);
                let md5 = hex_decoded(info.file_hash@);
                if !kind.is_video() && sha1 is None {
                    r matches Err(UploadError::HexError)
                } else if md5 is None {
                    r matches Err(UploadError::HexError)
                } else {
                    r matches Ok(Some(p)) && p.command == kind.spec_command() && p.file_uuid
                        == node.file_uuid && p.u_key@ == upload_key(kind, reply)->0 && p.md5@
                        == md5->0 && (kind.is_video() ==> p.sha1 is None) && (!kind.is_video()
                        ==> (p.sha1 matches Some(s) && s@ == sha1->0)) && p.block_size
                        == chunk_size && p.size == size
                }
            }
        }))
}

/// The plan for `kind` from the answer `reply`: nothing where no key asks
/// for an upload; else the entry (the second for a thumbnail, the first
/// otherwise) must be there with its index and its hashes, each missing
/// part an error naming it and a hash that is not hexadecimal a hex error
/// (the SHA-1 is read first, and not at all for a video); the plan holds
/// the command of `kind`, the file's id, the key, `size`, the hashes and
/// the block size.
pub fn upload_step(kind: UploadKind, reply: &UploadReply, chunk_size: u32, size: u32) -> (r: Result<
    Option<HighwayUploadPlan>,
    UploadError,
>)
    ensures
        step_follows(kind, *reply, chunk_size, size, r),
{
    let thumb = match kind {
        UploadKind::C2CVideoThumb | UploadKind::GroupVideoThumb => true,
        _ => false,
    };
    let video = match kind {
        UploadKind::C2CVideo | UploadKind::GroupVideo => true,
        _ => false,
    };
    let u_key = if thumb {
        if reply.sub_file_u_keys.len() > 0 && !reply.sub_file_u_keys[0].as_str().is_empty() {
            reply.sub_file_u_keys[0].clone()
        } else {
            return Ok(None);
        }
    } else {
        match &reply.u_key {
            Some(k) => k.clone(),
            None => {
                return Ok(None);
            },
        }
    };
    let pos: usize = if thumb { 1 } else { 0 };
    if reply.msg_info.msg_info_body.len() <= pos {
        return Err(UploadError::GenericError(String::from_str("No index node in response")));
    }
    let node = match &reply.msg_info.msg_info_body[pos].index {
        Some(n) => n,
        None => {
            return Err(UploadError::GenericError(String::from_str("No index in response")));
        },
    };
    let info = match &node.info {
        Some(i) => i,
        None => {
            return Err(UploadError::GenericError(String::from_str("No info in response")));
        },
    };
    let sha1 = if video {
        None
    } else {
        match hex_decode(info.file_sha1.as_str()) {
            Some(s) => Some(s),
            None => {
                return Err(UploadError::HexError);
            },
        }
    };
    let md5 = match hex_decode(info.file_hash.as_str()) {
        Some(m) => m,
        None => {
            return Err(UploadError::HexError);
        },
    };
    Ok(
        Some(
            HighwayUploadPlan {
                command: kind.command(),
                size,
                file_uuid: node.file_uuid.clone(),
                u_key,
                md5,
                sha1,
                block_size: chunk_size,
            },
        ),
    )
}

// ---------------------------------------------------------------------------
// Videos and voice messages
// ---------------------------------------------------------------------------

/// The kind of a video upload: to a group or to a friend, the video itself
/// or its thumbnail.
pub open spec fn video_kind(group: bool, thumb: bool) -> UploadKind {
    if group {
        if thumb {
            UploadKind::GroupVideoThumb
        } else {
            UploadKind::GroupVideo
        }
    } else {
        if thumb {
            UploadKind::C2CVideoThumb
        } else {
            UploadKind::C2CVideo
        }
    }
}

/// The size uploaded for a video or its thumbnail: the entity's size, as
/// an unsigned 32-bit number.
pub open spec fn video_upload_size(video: VideoEntity, thumb: bool) -> u32 {
    if thumb {
        video.video_thumb_size as u32
    } else {
        video.video_size as u32
    }
}

/// The upload step for a video (to a group or to a friend), or for its
/// thumbnail, with the size that the entity gives it.
pub fn video_upload_step(
    video: &VideoEntity,
    group: bool,
    thumb: bool,
    reply: &UploadReply,
    chunk_size: u32,
) -> (r: Result<Option<HighwayUploadPlan>, UploadError>)
    ensures
        step_follows(
            video_kind(group, thumb),
            *reply,
            chunk_size,
            video_upload_size(*video, thumb),
            r,
        ),
{
    let kind = if group {
        if thumb {
            UploadKind::GroupVideoThumb
        } else {
            UploadKind::GroupVideo
        }
    } else {
        if thumb {
            UploadKind::C2CVideoThumb
        } else {
            UploadKind::C2CVideo
        }
    };
    let size: u32 = if thumb {
        video.video_thumb_size as u32
    } else {
        video.video_size as u32
    };
    upload_step(kind, reply, chunk_size, size)
}

/// Once a video and its thumbnail are uploaded, the video keeps the
/// answer's message information and video file; nothing else changes.
pub fn apply_video_upload_reply(video: &mut VideoEntity, reply: UploadReply, video_file: VideoFile)
    ensures
        final(video).msg_info == Some(reply.msg_info),
        final(video).compat == Some(video_file),
        *final(video) == (VideoEntity {
            msg_info: Some(reply.msg_info),
            compat: Some(video_file),
            ..*old(video)
        }),
{
    video.msg_info = Some(reply.msg_info);
    video.compat = Some(video_file);
}

/// The kind of a voice message upload: to a group or to a friend.
pub open spec fn record_kind(group: bool) -> UploadKind {
    if group {
        UploadKind::GroupRecord
    } else {
        UploadKind::C2CRecord
    }
}

/// The upload step for a voice message (to a group or to a friend) of the
/// given size (that of its encoded audio).
pub fn record_upload_step(group: bool, reply: &UploadReply, chunk_size: u32, size: u32) -> (r:
    Result<Option<HighwayUploadPlan>, UploadError>)
    ensures
        step_follows(
            record_kind(group),
            *reply,
            chunk_size,
            size,
            r,
        ),
{
    let kind = if group {
        UploadKind::GroupRecord
    } else {
        UploadKind::C2CRecord
    };
    upload_step(kind, reply, chunk_size, size)
}

/// Once a voice message is uploaded, it keeps the answer's message
/// information and rich text; nothing else changes.
pub fn apply_record_upload_reply(record: &mut RecordEntity, reply: UploadReply, rich_text: RichText)
    ensures
        final(record).msg_info == Some(reply.msg_info),
        final(record).compat == Some(rich_text),
        *final(record) == (RecordEntity {
            msg_info: Some(reply.msg_info),
            compat: Some(rich_text),
            ..*old(record)
        }),
{
    record.msg_info = Some(reply.msg_info);
    record.compat = Some(rich_text);
}

// ---------------------------------------------------------------------------
// Whole uploads
// ---------------------------------------------------------------------------

/// What a step and the upload it asks for give: the step's error; success
/// where nothing is to be uploaded; else the upload's result, its error
/// kept as the reason.
pub open spec fn upload_done<U: FnOnce(HighwayUploadPlan) -> Result<(), String>>(
    step: Result<Option<HighwayUploadPlan>, UploadError>,
    upload: U,
    r: Result<(), UploadError>,
) -> bool {
    match step {
        Err(e) => r == Err::<(), UploadError>(e),
        Ok(None) => r is Ok,
        Ok(Some(p)) => exists|u: Result<(), String>|
            #[trigger] call_ensures(upload, (p,), u) && match u {
                Err(x) => r == Err::<(), UploadError>(UploadError::Transfer(x)),
                Ok(_) => r is Ok,
            },
    }
}

/// The step for `kind` with this answer, block size and file size, and the
/// upload of its plan by `upload`, give `r`.
pub open spec fn upload_follows<U: FnOnce(HighwayUploadPlan) -> Result<(), String>>(
    kind: UploadKind,
    reply: UploadReply,
    chunk_size: u32,
    size: u32,
    upload: U,
    r: Result<(), UploadError>,
) -> bool {
    exists|m: Result<Option<HighwayUploadPlan>, UploadError>|
        #[trigger] step_follows(kind, reply, chunk_size, size, m) && upload_done(m, upload, r)
}

/// The step for `kind`, then, where it asks for one, the upload of its plan
/// by `upload`.
fn step_and_upload<U: FnOnce(HighwayUploadPlan) -> Result<(), String>>(
    kind: UploadKind,
    reply: &UploadReply,
    chunk_size: u32,
    size: u32,
    upload: U,
) -> (r: Result<(), UploadError>)
    requires
        forall|p: HighwayUploadPlan| call_requires(upload, (p,)),
    ensures
        upload_follows(kind, *reply, chunk_size, size, upload, r),
{
    let step = upload_step(kind, reply, chunk_size, size);
    let ghost m = step;
    match step {
        Err(e) => Err(e),
        Ok(None) => Ok(()),
        Ok(Some(p)) => {
            let ghost p0 = p;
            let u = upload(p);
            let ghost u0 = u;
            assert(call_ensures(upload, (p0,), u0));
            match u {
                Err(x) => Err(UploadError::Transfer(x)),
                Ok(_) => Ok(()),
            }
        },
    }
}

/// A whole video upload, with the server's answer `reply` and video file
/// `video_file`: the video is uploaded by `upload_video` where the answer
/// asks for it (with the video's size), then the thumbnail by
/// `upload_thumb` where the answer asks for it (with the thumbnail's
/// size); once both went through, the video keeps the answer's message
/// information and video file. On an error the video is unchanged.
fn upload_video<
    A: FnOnce(HighwayUploadPlan) -> Result<(), String>,
    B: FnOnce(HighwayUploadPlan) -> Result<(), String>,
>(
    video: &mut VideoEntity,
    group: bool,
    reply: UploadReply,
    video_file: VideoFile,
    chunk_size: u32,
    upload_main: A,
    upload_thumb: B,
) -> (r: Result<(), UploadError>)
    requires
        forall|p: HighwayUploadPlan| call_requires(upload_main, (p,)),
        forall|p: HighwayUploadPlan| call_requires(upload_thumb, (p,)),
    ensures
        video_upload_follows(
            *old(video),
            *final(video),
            group,
            reply,
            video_file,
            chunk_size,
            upload_main,
            upload_thumb,
            r,
        ),
{
    let main = step_and_upload(
        if group {
            UploadKind::GroupVideo
        } else {
            UploadKind::C2CVideo
        },
        &reply,
        chunk_size,
        video.video_size as u32,
        upload_main,
    );
    let ghost before = *video;
    assert(upload_follows(
        video_kind(group, false),
        reply,
        chunk_size,
        video_upload_size(before, false),
        upload_main,
        main,
    ));
    match main {
        Err(e) => {
            return Err(e);
        },
        Ok(_) => {},
    }
    let thumb = step_and_upload(
        if group {
            UploadKind::GroupVideoThumb
        } else {
            UploadKind::C2CVideoThumb
        },
        &reply,
        chunk_size,
        video.video_thumb_size as u32,
        upload_thumb,
    );
    assert(upload_follows(
        video_kind(group, true),
        reply,
        chunk_size,
        video_upload_size(before, true),
        upload_thumb,
        thumb,
    ));
    match thumb {
        Err(e) => {
            return Err(e);
        },
        Ok(_) => {},
    }
    apply_video_upload_reply(video, reply, video_file);
    Ok(())
}

/// What a whole video upload gives (see `upload_group_video`): `before`
/// and `after` are the video before and after it.
pub open spec fn video_upload_follows<
    A: FnOnce(HighwayUploadPlan) -> Result<(), String>,
    B: FnOnce(HighwayUploadPlan) -> Result<(), String>,
>(
    before: VideoEntity,
    after: VideoEntity,
    group: bool,
    reply: UploadReply,
    video_file: VideoFile,
    chunk_size: u32,
    upload_main: A,
    upload_thumb: B,
    r: Result<(), UploadError>,
) -> bool {
    exists|a: Result<(), UploadError>|
        #[trigger] upload_follows(
            video_kind(group, false),
            reply,
            chunk_size,
            video_upload_size(before, false),
            upload_main,
            a,
        ) && match a {
            Err(e) => r == Err::<(), UploadError>(e) && after == before,
            Ok(_) => exists|b: Result<(), UploadError>|
                #[trigger] upload_follows(
                    video_kind(group, true),
                    reply,
                    chunk_size,
                    video_upload_size(before, true),
                    upload_thumb,
                    b,
                ) && match b {
                    Err(e) => r == Err::<(), UploadError>(e) && after == before,
                    Ok(_) => r is Ok && after == (VideoEntity {
                        msg_info: Some(reply.msg_info),
                        compat: Some(video_file),
                        ..before
                    }),
                },
        }
}

/// Uploads a video sent to a group (see `video_upload_follows`): the video
/// under command 1005, its thumbnail under 1006.
pub fn upload_group_video<
    A: FnOnce(HighwayUploadPlan) -> Result<(), String>,
    B: FnOnce(HighwayUploadPlan) -> Result<(), String>,
>(
    video: &mut VideoEntity,
    reply: UploadReply,
    video_file: VideoFile,
    chunk_size: u32,
    upload_main: A,
    upload_thumb: B,
) -> (r: Result<(), UploadError>)
    requires
        forall|p: HighwayUploadPlan| call_requires(upload_main, (p,)),
        forall|p: HighwayUploadPlan| call_requires(upload_thumb, (p,)),
    ensures
        video_upload_follows(
            *old(video),
            *final(video),
            true,
            reply,
            video_file,
            chunk_size,
            upload_main,
            upload_thumb,
            r,
        ),
{
    upload_video(video, true, reply, video_file, chunk_size, upload_main, upload_thumb)
}

/// Uploads a video sent to a friend (see `video_upload_follows`): the video
/// under command 1001, its thumbnail under 1002.
pub fn upload_c2c_video<
    A: FnOnce(HighwayUploadPlan) -> Result<(), String>,
    B: FnOnce(HighwayUploadPlan) -> Result<(), String>,
>(
    video: &mut VideoEntity,
    reply: UploadReply,
    video_file: VideoFile,
    chunk_size: u32,
    upload_main: A,
    upload_thumb: B,
) -> (r: Result<(), UploadError>)
    requires
        forall|p: HighwayUploadPlan| call_requires(upload_main, (p,)),
        forall|p: HighwayUploadPlan| call_requires(upload_thumb, (p,)),
    ensures
        video_upload_follows(
            *old(video),
            *final(video),
            false,
            reply,
            video_file,
            chunk_size,
            upload_main,
            upload_thumb,
            r,
        ),
{
    upload_video(video, false, reply, video_file, chunk_size, upload_main, upload_thumb)
}

/// What a whole voice message upload gives: the step for the group (command
/// 1008) or friend (1007) kind with the encoded audio's `size`, and the
/// upload by `upload` where the answer asks for it; once it went through,
/// the message keeps the answer's message information and rich text. On an
/// error the message is unchanged.
pub open spec fn record_upload_follows<U: FnOnce(HighwayUploadPlan) -> Result<(), String>>(
    before: RecordEntity,
    after: RecordEntity,
    group: bool,
    reply: UploadReply,
    rich_text: RichText,
    chunk_size: u32,
    size: u32,
    upload: U,
    r: Result<(), UploadError>,
) -> bool {
    exists|a: Result<(), UploadError>|
        #[trigger] upload_follows(
            record_kind(group),
            reply,
            chunk_size,
            size,
            upload,
            a,
        ) && match a {
            Err(e) => r == Err::<(), UploadError>(e) && after == before,
            Ok(_) => r is Ok && after == (RecordEntity {
                msg_info: Some(reply.msg_info),
                compat: Some(rich_text),
                ..before
            }),
        }
}

/// Uploads a voice message (see `record_upload_follows`).
fn upload_record<U: FnOnce(HighwayUploadPlan) -> Result<(), String>>(
    record: &mut RecordEntity,
    group: bool,
    reply: UploadReply,
    rich_text: RichText,
    chunk_size: u32,
    size: u32,
    upload: U,
) -> (r: Result<(), UploadError>)
    requires
        forall|p: HighwayUploadPlan| call_requires(upload, (p,)),
    ensures
        record_upload_follows(
            *old(record),
            *final(record),
            group,
            reply,
            rich_text,
            chunk_size,
            size,
            upload,
            r,
        ),
{
    let done = step_and_upload(
        if group {
            UploadKind::GroupRecord
        } else {
            UploadKind::C2CRecord
        },
        &reply,
        chunk_size,
        size,
        upload,
    );
    match done {
        Err(e) => {
            return Err(e);
        },
        Ok(_) => {},
    }
    apply_record_upload_reply(record, reply, rich_text);
    Ok(())
}

/// Uploads a voice message sent to a group (see `record_upload_follows`):
/// under command 1008.
pub fn upload_group_record<U: FnOnce(HighwayUploadPlan) -> Result<(), String>>(
    record: &mut RecordEntity,
    reply: UploadReply,
    rich_text: RichText,
    chunk_size: u32,
    size: u32,
    upload: U,
) -> (r: Result<(), UploadError>)
    requires
        forall|p: HighwayUploadPlan| call_requires(upload, (p,)),
    ensures
        record_upload_follows(
            *old(record),
            *final(record),
            true,
            reply,
            rich_text,
            chunk_size,
            size,
            upload,
            r,
        ),
{
    upload_record(record, true, reply, rich_text, chunk_size, size, upload)
}

/// Uploads a voice message sent to a friend (see `record_upload_follows`):
/// under command 1007.
pub fn upload_c2c_record<U: FnOnce(HighwayUploadPlan) -> Result<(), String>>(
    record: &mut RecordEntity,
    reply: UploadReply,
    rich_text: RichText,
    chunk_size: u32,
    size: u32,
    upload: U,
) -> (r: Result<(), UploadError>)
    requires
        forall|p: HighwayUploadPlan| call_requires(upload, (p,)),
    ensures
        record_upload_follows(
            *old(record),
            *final(record),
            false,
            reply,
            rich_text,
            chunk_size,
            size,
            upload,
            r,
        ),
{
    upload_record(record, false, reply, rich_text, chunk_size, size, upload)
}

// ---------------------------------------------------------------------------
// The server's answers to upload requests
// ---------------------------------------------------------------------------

/// The upload part of the server's answer to a rich media request: the key
/// to upload under, the message information, the keys of the extra files,
/// and the encoded element to send in place of the file (`compat_q_msg`).
#[derive(Debug)]
pub struct UploadResp {
    pub u_key: Option<String>,
    pub msg_info: Option<MsgInfo>,
    pub sub_file_u_keys: Vec<String>,
    pub compat_q_msg: Vec<u8>,
}

/// The server's answer to a rich media request.
#[derive(Debug)]
pub struct Ntv2RichMediaResp {
    pub upload: Option<UploadResp>,
}

/// The reply that the upload steps read, and the encoded element, from the
/// answer: its upload part and message information must be there.
pub fn read_upload_resp(resp: Ntv2RichMediaResp) -> (r: Result<(UploadReply, Vec<u8>), EventError>)
    ensures
        match resp.upload {
            None => r matches Err(EventError::OtherError(m)) && m@ == "Missing UploadResp"@,
            Some(u) => match u.msg_info {
                None => r matches Err(EventError::OtherError(m)) && m@ == "Missing MsgInfo"@,
                Some(info) => match r {
                    Ok((reply, compat)) => reply.msg_info == info && reply.u_key == u.u_key
                        && reply.sub_file_u_keys == u.sub_file_u_keys && compat == u.compat_q_msg,
                    Err(_) => false,
                },
            },
        },
{
    let u = match resp.upload {
        Some(u) => u,
        None => {
            return Err(EventError::OtherError(String::from_str("Missing UploadResp")));
        },
    };
    let info = match u.msg_info {
        Some(i) => i,
        None => {
            return Err(EventError::OtherError(String::from_str("Missing MsgInfo")));
        },
    };
    Ok((UploadReply { u_key: u.u_key, msg_info: info, sub_file_u_keys: u.sub_file_u_keys }, u.compat_q_msg))
}

/// The answer to a video upload request to a friend.
#[derive(Debug)]
pub struct VideoC2CUploadRes {
    pub upload: UploadReply,
    pub video_file: VideoFile,
}

/// A video upload request to a friend and its answer.
#[derive(Debug)]
pub struct VideoC2CUploadEvent {
    pub req: VideoC2CUploadArgs,
    pub res: VideoC2CUploadRes,
}

impl VideoC2CUploadEvent {
    /// Reads the answer to `req` (see `read_upload_resp`); its encoded
    /// element is decoded by `decode_video_file`, whose error is the
    /// result's.
    pub fn parse<F: FnOnce(Vec<u8>) -> Result<VideoFile, EventError>>(
        req: VideoC2CUploadArgs,
        resp: Ntv2RichMediaResp,
        decode_video_file: F,
    ) -> (r: Result<Self, EventError>)
        requires
            forall|b: Vec<u8>| call_requires(decode_video_file, (b,)),
        ensures
            match resp.upload {
                None => r matches Err(EventError::OtherError(m)) && m@ == "Missing UploadResp"@,
                Some(u) => match u.msg_info {
                    None => r matches Err(EventError::OtherError(m)) && m@ == "Missing MsgInfo"@,
                    Some(info) => exists|d: Result<VideoFile, EventError>|
                        #[trigger] call_ensures(decode_video_file, (u.compat_q_msg,), d) && match d {
                            Err(e) => r == Err::<Self, EventError>(e),
                            Ok(f) => match r {
                                Ok(ev) => ev.req == req && ev.res.video_file == f
                                    && ev.res.upload.msg_info == info && ev.res.upload.u_key
                                    == u.u_key && ev.res.upload.sub_file_u_keys
                                    == u.sub_file_u_keys,
                                Err(_) => false,
                            },
                        },
                },
            },
    {
        let (upload, compat) = match read_upload_resp(resp) {
            Ok(p) => p,
            Err(e) => {
                return Err(e);
            },
        };
        let ghost c0 = compat;
        let d = decode_video_file(compat);
        let ghost d0 = d;
        assert(call_ensures(decode_video_file, (c0,), d0));
        match d {
            Err(e) => Err(e),
            Ok(video_file) => Ok(VideoC2CUploadEvent { req, res: VideoC2CUploadRes { upload, video_file } }),
        }
    }
}

/// The answer to a voice message upload request to a group.
#[derive(Debug)]
pub struct RecordGroupUploadRes {
    pub upload: UploadReply,
    pub rich_text: RichText,
}

/// A voice message upload request to a group and its answer.
#[derive(Debug)]
pub struct RecordGroupUploadEvent {
    pub req: RecordGroupUploadArgs,
    pub res: RecordGroupUploadRes,
}

impl RecordGroupUploadEvent {
    /// Reads the answer to `req` (see `read_upload_resp`); its encoded
    /// element is decoded by `decode_rich_text`, whose error is the
    /// result's.
    pub fn parse<F: FnOnce(Vec<u8>) -> Result<RichText, EventError>>(
        req: RecordGroupUploadArgs,
        resp: Ntv2RichMediaResp,
        decode_rich_text: F,
    ) -> (r: Result<Self, EventError>)
        requires
            forall|b: Vec<u8>| call_requires(decode_rich_text, (b,)),
        ensures
            match resp.upload {
                None => r matches Err(EventError::OtherError(m)) && m@ == "Missing UploadResp"@,
                Some(u) => match u.msg_info {
                    None => r matches Err(EventError::OtherError(m)) && m@ == "Missing MsgInfo"@,
                    Some(info) => exists|d: Result<RichText, EventError>|
                        #[trigger] call_ensures(decode_rich_text, (u.compat_q_msg,), d) && match d {
                            Err(e) => r == Err::<Self, EventError>(e),
                            Ok(t) => match r {
                                Ok(ev) => ev.req == req && ev.res.rich_text == t
                                    && ev.res.upload.msg_info == info && ev.res.upload.u_key
                                    == u.u_key && ev.res.upload.sub_file_u_keys
                                    == u.sub_file_u_keys,
                                Err(_) => false,
                            },
                        },
                },
            },
    {
        let (upload, compat) = match read_upload_resp(resp) {
            Ok(p) => p,
            Err(e) => {
                return Err(e);
            },
        };
        let ghost c0 = compat;
        let d = decode_rich_text(compat);
        let ghost d0 = d;
        assert(call_ensures(decode_rich_text, (c0,), d0));
        match d {
            Err(e) => Err(e),
            Ok(rich_text) => Ok(RecordGroupUploadEvent { req, res: RecordGroupUploadRes { upload, rich_text } }),
        }
    }
}

/// What a whole image upload gives: the step for the group (command 1004)
/// or friend (1003) kind with the image's `size`, and the upload by
/// `upload` where the answer asks for it; once it went through, the answer's
/// message information, which the image keeps.
pub open spec fn image_upload_follows<U: FnOnce(HighwayUploadPlan) -> Result<(), String>>(
    group: bool,
    reply: UploadReply,
    chunk_size: u32,
    size: u32,
    upload: U,
    r: Result<MsgInfo, UploadError>,
) -> bool {
    exists|a: Result<(), UploadError>|
        #[trigger] upload_follows(image_kind(group), reply, chunk_size, size, upload, a) && match a {
            Err(e) => r == Err::<MsgInfo, UploadError>(e),
            Ok(_) => r == Ok::<MsgInfo, UploadError>(reply.msg_info),
        }
}

/// The kind of an image upload: to a group or to a friend.
pub open spec fn image_kind(group: bool) -> UploadKind {
    if group {
        UploadKind::GroupImage
    } else {
        UploadKind::C2CImage
    }
}

/// Uploads an image (see `image_upload_follows`).
fn upload_image<U: FnOnce(HighwayUploadPlan) -> Result<(), String>>(
    group: bool,
    reply: UploadReply,
    chunk_size: u32,
    size: u32,
    upload: U,
) -> (r: Result<MsgInfo, UploadError>)
    requires
        forall|p: HighwayUploadPlan| call_requires(upload, (p,)),
    ensures
        image_upload_follows(group, reply, chunk_size, size, upload, r),
{
    let kind = if group {
        UploadKind::GroupImage
    } else {
        UploadKind::C2CImage
    };
    let done = step_and_upload(kind, &reply, chunk_size, size, upload);
    match done {
        Err(e) => Err(e),
        Ok(_) => Ok(reply.msg_info),
    }
}

/// Uploads an image sent to a group, of `size` bytes (see
/// `image_upload_follows`): under command 1004.
pub fn upload_group_image<U: FnOnce(HighwayUploadPlan) -> Result<(), String>>(
    reply: UploadReply,
    chunk_size: u32,
    size: u32,
    upload: U,
) -> (r: Result<MsgInfo, UploadError>)
    requires
        forall|p: HighwayUploadPlan| call_requires(upload, (p,)),
    ensures
        image_upload_follows(true, reply, chunk_size, size, upload, r),
{
    upload_image(true, reply, chunk_size, size, upload)
}

/// Uploads an image sent to a friend, of `size` bytes (see
/// `image_upload_follows`): under command 1003.
pub fn upload_c2c_image<U: FnOnce(HighwayUploadPlan) -> Result<(), String>>(
    reply: UploadReply,
    chunk_size: u32,
    size: u32,
    upload: U,
) -> (r: Result<MsgInfo, UploadError>)
    requires
        forall|p: HighwayUploadPlan| call_requires(upload, (p,)),
    ensures
        image_upload_follows(false, reply, chunk_size, size, upload, r),
{
    upload_image(false, reply, chunk_size, size, upload)
}

} // verus!





