//! Message elements.
use vstd::prelude::*;
use vstd::string::StringExecFns;
use crate::message::packer::{
    entities_from, lemma_readable_elems_len, market_face_complete, market_face_from, readable_elems,
};
use crate::packet::{be16_at, from_be16, PacketReader, PREFIX_LENGTH_ONLY, PREFIX_U16};
use crate::push_msg::{Elem, RichText};
use crate::text::{
    decimal, hex_encode, hex_lower, i32_to_string, signed_decimal, u32_to_string, u64_to_string,
};
use crate::upload::{hex_decode, hex_decoded, IndexInfo, IndexNode, MsgInfo, MsgInfoBody};

verus! {

/// What identifies a file sent in a group.
#[derive(Debug)]
pub struct FileGroupUnique {
    pub file_id: Option<String>,
}

/// What identifies a file sent to a friend.
#[derive(Debug)]
pub struct FileC2CUnique {
    pub file_uuid: Option<String>,
    pub file_hash: Option<String>,
}

/// Where a file was sent.
#[derive(Debug)]
pub enum FileUnique {
    Group(FileGroupUnique),
    C2C(FileC2CUnique),
}

/// A file element.
#[derive(Debug)]
pub struct FileEntity {
    pub file_size: u64,
    pub file_name: String,
    pub file_md5: Vec<u8>,
    pub file_url: Option<String>,
    pub file_sha1: Vec<u8>,
    pub extra: Option<FileUnique>,
}

/// A market face (sticker) element.
#[derive(Debug)]
pub struct MarketFaceEntity {
    pub emoji_id: String,
    pub emoji_package_id: u32,
    pub key: String,
    pub summary: String,
}

/// The market face part of a received message element.
#[derive(Clone, Debug)]
pub struct MarketFaceElem {
    pub face_id: Option<Vec<u8>>,
    pub tab_id: Option<u32>,
    pub key: Option<String>,
    pub face_name: Option<String>,
}

impl MarketFaceEntity {
    /// The market face of a received element: all four fields must be
    /// there; the emoji id is the face id in lowercase hexadecimal.
    pub fn unpack_element(elem: &MarketFaceElem) -> (r: Option<Self>)
        ensures
            elem.face_id is Some && elem.tab_id is Some && elem.key is Some && elem.face_name is Some
                <==> r is Some,
            r matches Some(e) ==> e.emoji_id@ == hex_lower(elem.face_id->0@) && e.emoji_package_id
                == elem.tab_id->0 && e.key@ == elem.key->0@ && e.summary@ == elem.face_name->0@,
    {
        let face_id = match &elem.face_id {
            Some(f) => f,
            None => {
                return None;
            },
        };
        let emoji_id = hex_encode(face_id.as_slice());
        let emoji_package_id = match elem.tab_id {
            Some(t) => t,
            None => {
                return None;
            },
        };
        let key = match &elem.key {
            Some(k) => k.clone(),
            None => {
                return None;
            },
        };
        let summary = match &elem.face_name {
            Some(n) => n.clone(),
            None => {
                return None;
            },
        };
        Some(MarketFaceEntity { emoji_id, emoji_package_id, key, summary })
    }
}

/// A voice message element.
#[derive(Debug)]
pub struct RecordEntity {
    pub audio_length: u32,
    pub audio_md5: Vec<u8>,
    pub audio_name: String,
    pub audio_url: String,
    pub file_path: Option<String>,
    pub file_size: u32,
    pub audio_uuid: Option<String>,
    pub file_sha1: Option<String>,
    pub msg_info: Option<MsgInfo>,
    pub compat: Option<RichText>,
}

/// The video file part of a message element, and what the server answers
/// a video upload with. A received video is read from its common element
/// (see `video_from_elem`), not from this part.
#[derive(Debug)]
pub struct VideoFile {
    pub file_uuid: String,
    pub file_md5: Vec<u8>,
    pub file_size: i32,
    pub file_width: i32,
    pub file_height: i32,
}

/// A video message element.
#[derive(Debug)]
pub struct VideoEntity {
    pub file_name: String,
    pub video_hash: String,
    pub height: i32,
    pub width: i32,
    pub video_size: i32,
    pub video_length: i32,
    pub video_thumb_size: i32,
    pub video_thumb_height: i32,
    pub video_thumb_width: i32,
    pub video_url: String,
    pub video_path: Option<String>,
    pub video_thumb_path: Option<String>,
    /// Where the server keeps the video, for downloading it.
    pub node: Option<IndexNode>,
    pub video_uuid: Option<String>,
    pub msg_info: Option<MsgInfo>,
    pub compat: Option<VideoFile>,
}

/// The common element part of a received message element: its service and
/// business types, and the file information that its payload holds, where
/// the payload decodes as such.
#[derive(Debug)]
pub struct CommonElem {
    pub service_type: u32,
    pub business_type: u32,
    pub msg_info: Option<MsgInfo>,
}

/// What the transport element of a group file says of the file; its MD5 is
/// in hexadecimal.
#[derive(Debug)]
pub struct GroupFileInfo {
    pub file_id: String,
    pub file_name: String,
    pub file_size: u64,
    pub file_md5: String,
}

/// The transport element part of a received message element: its type, its
/// payload, and the group file information that the payload's section (see
/// `group_file_extra`) holds, where it decodes as such.
#[derive(Debug)]
pub struct TransElem {
    pub elem_type: u32,
    pub elem_value: Vec<u8>,
    pub group_file: Option<GroupFileInfo>,
}

/// A message element.
#[derive(Debug)]
pub enum Entity {
    File(FileEntity),
    MarketFace(MarketFaceEntity),
    Record(RecordEntity),
    Video(VideoEntity),
}

// ---------------------------------------------------------------------------
// Reading received elements
// ---------------------------------------------------------------------------

/// The index of the first entry of `info`, where it is there with its
/// details.
pub open spec fn first_index(info: MsgInfo) -> Option<IndexNode> {
    if info.msg_info_body@.len() > 0 {
        match info.msg_info_body@[0].index {
            Some(n) => if n.info is Some {
                Some(n)
            } else {
                None
            },
            None => None,
        }
    } else {
        None
    }
}

/// A common element of these types with this information is a voice
/// message: business type 22 or 12, service type 48, a first index with its
/// details, and a hexadecimal file hash.
pub open spec fn record_readable(business_type: u32, service_type: u32, info: Option<MsgInfo>) -> bool {
    &&& business_type == 22 || business_type == 12
    &&& service_type == 48
    &&& info is Some
    &&& first_index(info->0) is Some
    &&& hex_decoded(first_index(info->0)->0.info->0.file_hash@) is Some
}

/// `r` is the voice message read from `info`: the first index's id, name,
/// duration and hash (as the MD5, decoded, and as the SHA-1 text), and the
/// information itself; nothing else set.
pub open spec fn record_from(r: RecordEntity, info: MsgInfo) -> bool {
    let node = first_index(info)->0;
    let i = node.info->0;
    &&& (r.audio_uuid matches Some(u) && u@ == node.file_uuid@)
    &&& r.audio_name@ == i.file_name@
    &&& r.audio_md5@ == hex_decoded(i.file_hash@)->0
    &&& r.audio_length == i.time
    &&& (r.file_sha1 matches Some(h) && h@ == i.file_hash@)
    &&& r.msg_info == Some(info)
    &&& r.audio_url@.len() == 0
    &&& r.file_path is None
    &&& r.file_size == 0
    &&& r.compat is None
}

/// The first index of `info` with its details: its id, name, hash and
/// duration.
fn first_index_parts(info: &Option<MsgInfo>) -> (r: Option<(String, String, String, u32)>)
    ensures
        match info {
            Some(m) => match first_index(*m) {
                Some(n) => r matches Some(p) && p.0@ == n.file_uuid@ && p.1@ == n.info->0.file_name@
                    && p.2@ == n.info->0.file_hash@ && p.3 == n.info->0.time,
                None => r is None,
            },
            None => r is None,
        },
{
    match info {
        Some(m) => {
            if m.msg_info_body.len() == 0 {
                return None;
            }
            match &m.msg_info_body[0].index {
                Some(n) => match &n.info {
                    Some(i) => Some(
                        (n.file_uuid.clone(), i.file_name.clone(), i.file_hash.clone(), i.time),
                    ),
                    None => None,
                },
                None => None,
            }
        },
        None => None,
    }
}

/// The voice message of a common element with these types and
/// information, or the information handed back where it is none.
pub fn record_from_elem(business_type: u32, service_type: u32, info: Option<MsgInfo>) -> (r: Result<
    RecordEntity,
    Option<MsgInfo>,
>)
    ensures
        r is Ok <==> record_readable(business_type, service_type, info),
        r matches Ok(e) ==> record_from(e, info->0),
        r matches Err(back) ==> back == info,
{
    if !((business_type == 22 || business_type == 12) && service_type == 48) {
        return Err(info);
    }
    let (uuid, name, hash, time) = match first_index_parts(&info) {
        Some(p) => p,
        None => {
            return Err(info);
        },
    };
    let md5 = match hex_decode(hash.as_str()) {
        Some(m) => m,
        None => {
            return Err(info);
        },
    };
    Ok(RecordEntity {
        audio_length: time,
        audio_md5: md5,
        audio_name: name,
        audio_url: String::new(),
        file_path: None,
        file_size: 0,
        audio_uuid: Some(uuid),
        file_sha1: Some(hash),
        msg_info: info,
        compat: None,
    })
}

/// A common element is a video where its service type is 48 and its
/// information has a first index with its details.
pub open spec fn video_readable(c: CommonElem) -> bool {
    c.service_type == 48 && c.msg_info is Some && first_index(c.msg_info->0) is Some
}

/// `v` is the video read from `info`: the first index's name, size in
/// pixels, size in bytes and duration (each as a 32-bit signed number), and
/// the index itself; nothing else set.
pub open spec fn video_from(v: VideoEntity, info: MsgInfo) -> bool {
    let node = first_index(info)->0;
    let i = node.info->0;
    &&& v.file_name@ == i.file_name@
    &&& v.height == i.height as i32
    &&& v.width == i.width as i32
    &&& v.video_size == i.file_size as i32
    &&& v.video_length == i.time as i32
    &&& v.node == Some(node)
    &&& v.video_hash@.len() == 0
    &&& v.video_thumb_size == 0
    &&& v.video_thumb_height == 0
    &&& v.video_thumb_width == 0
    &&& v.video_url@.len() == 0
    &&& v.video_path is None
    &&& v.video_thumb_path is None
    &&& v.video_uuid is None
    &&& v.msg_info is None
    &&& v.compat is None
}

/// The video of a common element, where it is one.
pub fn video_from_elem(common: CommonElem) -> (r: Option<VideoEntity>)
    ensures
        r is Some <==> video_readable(common),
        r matches Some(v) ==> video_from(v, common.msg_info->0),
{
    if common.service_type != 48 {
        return None;
    }
    let ghost whole = common.msg_info;
    let mut m = match common.msg_info {
        Some(m) => m,
        None => {
            return None;
        },
    };
    if m.msg_info_body.len() == 0 {
        return None;
    }
    let body = m.msg_info_body.remove(0);
    assert(body == whole->0.msg_info_body@[0]);
    let node = match body.index {
        Some(n) => n,
        None => {
            return None;
        },
    };
    let (file_name, height, width, size, time) = match &node.info {
        Some(i) => (i.file_name.clone(), i.height as i32, i.width as i32, i.file_size as i32, i.time as i32),
        None => {
            return None;
        },
    };
    Some(VideoEntity {
        file_name,
        video_hash: String::new(),
        height,
        width,
        video_size: size,
        video_length: time,
        video_thumb_size: 0,
        video_thumb_height: 0,
        video_thumb_width: 0,
        video_url: String::new(),
        video_path: None,
        video_thumb_path: None,
        node: Some(node),
        video_uuid: None,
        msg_info: None,
        compat: None,
    })
}

/// The section of a group file's transport element payload: for type 24, the
/// bytes after the first one that a 2-byte length (not counting itself)
/// gives, where the payload holds them.
pub open spec fn group_file_section(elem_type: u32, value: Seq<u8>) -> Option<Seq<u8>> {
    if elem_type == 24 && value.len() >= 3 && from_be16(value.skip(1)) as int <= value.len() - 3 {
        Some(value.subrange(3, 3 + from_be16(value.skip(1)) as int))
    } else {
        None
    }
}

/// A group file payload holds its first byte, the 2-byte length and as
/// many bytes as that length says.
pub open spec fn group_file_payload_complete(value: Seq<u8>) -> bool {
    value.len() >= 3 && from_be16(value.skip(1)) as int <= value.len() - 3
}

/// The group file information section of a transport element's payload:
/// one byte is skipped, then a section with a 2-byte length is read. Only
/// type 24 carries one.
pub fn group_file_extra(elem_type: u32, elem_value: &[u8]) -> (r: Option<Vec<u8>>)
    requires
        elem_type == 24 ==> group_file_payload_complete(elem_value@),
    ensures
        match group_file_section(elem_type, elem_value@) {
            Some(s) => r matches Some(v) && v@ == s,
            None => r is None,
        },
{
    if elem_type != 24 || elem_value.len() < 3 {
        return None;
    }
    let length = be16_at(elem_value, 1);
    if length as usize > elem_value.len() - 3 {
        return None;
    }
    let mut reader = PacketReader::new(vstd::slice::slice_to_vec(elem_value));
    reader.skip(1);
    let prefix = PREFIX_U16 | PREFIX_LENGTH_ONLY;
    assert(prefix == 2) by (bit_vector)
        requires
            prefix == 2u8 | 0u8,
    ;
    let ghost c = elem_value@;
    assert(c.skip(1).skip(2).take(length as int) =~= c.subrange(3, 3 + length));
    let mut section = reader.read_with_length(prefix);
    Some(section.bytes())
}

/// `f` is the file read from the group file information `g`: its size,
/// name, MD5 (decoded) and id; no link and no SHA-1.
pub open spec fn file_from(f: FileEntity, g: GroupFileInfo) -> bool {
    &&& f.file_size == g.file_size
    &&& f.file_name@ == g.file_name@
    &&& f.file_md5@ == hex_decoded(g.file_md5@)->0
    &&& f.file_url is None
    &&& f.file_sha1@.len() == 0
    &&& (f.extra matches Some(FileUnique::Group(u)) && u.file_id matches Some(id) && id@
        == g.file_id@)
}

/// A transport element is a group file where its payload has the section
/// and the information decoded from it has a hexadecimal MD5.
pub open spec fn file_readable(t: TransElem) -> bool {
    &&& group_file_section(t.elem_type, t.elem_value@) is Some
    &&& t.group_file is Some
    &&& hex_decoded(t.group_file->0.file_md5@) is Some
}

impl FileEntity {
    /// The file of a transport element, where it is a group file.
    pub fn unpack_element(elem: &TransElem) -> (r: Option<Self>)
        requires
            elem.elem_type == 24 ==> group_file_payload_complete(elem.elem_value@),
        ensures
            r is Some <==> file_readable(*elem),
            r matches Some(f) ==> file_from(f, elem.group_file->0),
    {
        match group_file_extra(elem.elem_type, elem.elem_value.as_slice()) {
            Some(_) => {},
            None => {
                return None;
            },
        }
        let g = match &elem.group_file {
            Some(g) => g,
            None => {
                return None;
            },
        };
        let md5 = match hex_decode(g.file_md5.as_str()) {
            Some(m) => m,
            None => {
                return None;
            },
        };
        Some(FileEntity {
            file_size: g.file_size,
            file_name: g.file_name.clone(),
            file_md5: md5,
            file_url: None,
            file_sha1: Vec::new(),
            extra: Some(FileUnique::Group(FileGroupUnique { file_id: Some(g.file_id.clone()) })),
        })
    }
}

/// The kinds are tried in order: market face, file, voice message, video.
/// An element gives an entity where one of them reads it.
pub open spec fn elem_readable(e: Elem) -> bool {
    ||| (e.market_face is Some && market_face_complete(e.market_face->0))
    ||| (e.trans_elem is Some && file_readable(e.trans_elem->0))
    ||| (e.common_elem is Some && record_readable(
        e.common_elem->0.business_type,
        e.common_elem->0.service_type,
        e.common_elem->0.msg_info,
    ))
    ||| (e.common_elem is Some && video_readable(e.common_elem->0))
}

/// Where no market face reads `e` and it carries a group file, the file's
/// payload is complete.
pub open spec fn elem_complete(e: Elem) -> bool {
    (!(e.market_face is Some && market_face_complete(e.market_face->0)) && e.trans_elem is Some
        && e.trans_elem->0.elem_type == 24) ==> group_file_payload_complete(
        e.trans_elem->0.elem_value@,
    )
}

/// Each of `elems` is complete (see `elem_complete`).
pub open spec fn elems_complete(elems: Seq<Elem>) -> bool {
    forall|i: int| 0 <= i < elems.len() ==> elem_complete(#[trigger] elems[i])
}

/// `x` is what the first kind that reads `e` makes of it.
pub open spec fn entity_from(x: Entity, e: Elem) -> bool {
    if e.market_face is Some && market_face_complete(e.market_face->0) {
        x matches Entity::MarketFace(m) && market_face_from(m, e.market_face->0)
    } else if e.trans_elem is Some && file_readable(e.trans_elem->0) {
        x matches Entity::File(f) && file_from(f, e.trans_elem->0.group_file->0)
    } else if e.common_elem is Some && record_readable(
        e.common_elem->0.business_type,
        e.common_elem->0.service_type,
        e.common_elem->0.msg_info,
    ) {
        x matches Entity::Record(r) && record_from(r, e.common_elem->0.msg_info->0)
    } else {
        x matches Entity::Video(v) && video_from(v, e.common_elem->0.msg_info->0)
    }
}

impl Entity {
    /// The entities of received elements, in order; the elements that no
    /// kind reads are left out.
    pub fn from_elems(elems: Vec<Elem>) -> (r: Vec<Entity>)
        requires
            elems_complete(elems@),
        ensures
            entities_from(r@, elems@),
            r@.len() <= elems@.len(),
    {
        proof {
            lemma_readable_elems_len(elems@);
        }
        let ghost all = elems@;
        let mut rest = elems;
        let mut out: Vec<Entity> = Vec::new();
        let mut i: usize = 0;
        let n: usize = rest.len();
        assert(all.take(0) =~= Seq::<Elem>::empty());
        while rest.len() > 0
            invariant
                all.len() == n,
                elems_complete(all),
                i <= all.len(),
                rest@ == all.skip(i as int),
                i + rest@.len() == all.len(),
                entities_from(out@, all.take(i as int)),
            decreases rest@.len(),
        {
            let ghost before = out@;
            let ghost next = all.take(i + 1);
            assert(next.drop_last() =~= all.take(i as int));
            let e = rest.remove(0);
            assert(e == all[i as int]);
            assert(next.last() == all[i as int]);
            assert(rest@ =~= all.skip(i + 1));
            match Entity::unpack_element(e) {
                Some(x) => {
                    out.push(x);
                    assert forall|j: int| 0 <= j < out@.len() implies entity_from(
                        #[trigger] out@[j],
                        readable_elems(next)[j],
                    ) by {
                        if j < before.len() {
                            assert(out@[j] == before[j]);
                        }
                    }
                },
                None => {},
            }
            i = i + 1;
        }
        assert(all.take(all.len() as int) =~= all);
        out
    }

    /// The entity of a received element: the first kind (market face,
    /// file, voice message, video) that reads it.
    pub fn unpack_element(elem: Elem) -> (r: Option<Entity>)
        requires
            elem_complete(elem),
        ensures
            r is Some <==> elem_readable(elem),
            r matches Some(x) ==> entity_from(x, elem),
    {
        let ghost e = elem;
        let Elem { market_face, common_elem, video_file: _, trans_elem } = elem;
        match &market_face {
            Some(m) => match MarketFaceEntity::unpack_element(m) {
                Some(f) => {
                    return Some(Entity::MarketFace(f));
                },
                None => {},
            },
            None => {},
        }
        match &trans_elem {
            Some(t) => match FileEntity::unpack_element(t) {
                Some(f) => {
                    return Some(Entity::File(f));
                },
                None => {},
            },
            None => {},
        }
        match common_elem {
            Some(c) => {
                let CommonElem { service_type, business_type, msg_info } = c;
                match record_from_elem(business_type, service_type, msg_info) {
                    Ok(r) => Some(Entity::Record(r)),
                    Err(back) => match video_from_elem(
                        CommonElem { service_type, business_type, msg_info: back },
                    ) {
                        Some(v) => Some(Entity::Video(v)),
                        None => None,
                    },
                }
            },
            None => None,
        }
    }
}

impl FileEntity {
    /// The debugging text: `[File]: `, the name, the size in parentheses and
    /// the link, or a note that it was not received.
    pub fn debug_string(&self) -> (r: String)
        ensures
            r@ == "[File]: "@ + self.file_name@ + " ("@ + decimal(self.file_size as nat) + "): "@
                + match self.file_url {
                Some(u) => u@,
                None => "failed to receive file url"@,
            },
    {
        let mut t = String::from_str("[File]: ");
        t.append(self.file_name.as_str());
        t.append(" (");
        let n = u64_to_string(self.file_size);
        t.append(n.as_str());
        t.append("): ");
        match &self.file_url {
            Some(u) => t.append(u.as_str()),
            None => t.append("failed to receive file url"),
        }
        t
    }

    /// The text shown in a message: `[文件] ` and the name.
    pub fn to_string(&self) -> (r: String)
        ensures
            r@ == "[文件] "@ + self.file_name@,
    {
        let mut t = String::from_str("[文件] ");
        t.append(self.file_name.as_str());
        t
    }
}

impl MarketFaceEntity {
    /// The debugging text: summary, face id, tab id and key.
    pub fn debug_string(&self) -> (r: String)
        ensures
            r@ == "[MarketFace]: "@ + self.summary@ + " FaceId: "@ + self.emoji_id@ + " TabId: "@
                + decimal(self.emoji_package_id as nat) + " Key: "@ + self.key@,
    {
        let mut t = String::from_str("[MarketFace]: ");
        t.append(self.summary.as_str());
        t.append(" FaceId: ");
        t.append(self.emoji_id.as_str());
        t.append(" TabId: ");
        let n = u32_to_string(self.emoji_package_id);
        t.append(n.as_str());
        t.append(" Key: ");
        t.append(self.key.as_str());
        t
    }

    /// The text shown in a message: the summary.
    pub fn to_string(&self) -> (r: String)
        ensures
            r@ == self.summary@,
    {
        self.summary.clone()
    }
}

impl RecordEntity {
    /// The debugging text: `[Record]: ` and the link.
    pub fn debug_string(&self) -> (r: String)
        ensures
            r@ == "[Record]: "@ + self.audio_url@,
    {
        let mut t = String::from_str("[Record]: ");
        t.append(self.audio_url.as_str());
        t
    }

    /// The text shown in a message.
    pub fn to_string(&self) -> (r: String)
        ensures
            r@ == "[语音]"@,
    {
        String::from_str("[语音]")
    }
}

impl VideoEntity {
    /// The debugging text: `[Video]: `, width `x` height, the size and the
    /// link.
    pub fn debug_string(&self) -> (r: String)
        ensures
            r@ == "[Video]: "@ + signed_decimal(self.width as int) + "x"@ + signed_decimal(
                self.height as int,
            ) + ": "@ + signed_decimal(self.video_size as int) + " "@ + self.video_url@,
    {
        let mut t = String::from_str("[Video]: ");
        let w = i32_to_string(self.width);
        t.append(w.as_str());
        t.append("x");
        let h = i32_to_string(self.height);
        t.append(h.as_str());
        t.append(": ");
        let n = i32_to_string(self.video_size);
        t.append(n.as_str());
        t.append(" ");
        t.append(self.video_url.as_str());
        t
    }

    /// The text shown in a message.
    pub fn to_string(&self) -> (r: String)
        ensures
            r@ == "[视频]"@,
    {
        String::from_str("[视频]")
    }
}

/// Whether an element is sent as message content rather than as rich text.
pub trait MessageContentImplChecker {
    fn need_pack(&self) -> bool;
}

impl MessageContentImplChecker for FileEntity {
    /// Files are sent as message content.
    fn need_pack(&self) -> (r: bool)
        ensures
            r,
    {
        true
    }
}

impl MessageContentImplChecker for MarketFaceEntity {
    /// Market faces report `true` too, though they are declared as not
    /// packed as content (see the voice message's note).
    fn need_pack(&self) -> (r: bool)
        ensures
            r,
    {
        true
    }
}

impl MessageContentImplChecker for RecordEntity {
    /// Voice messages report `true` too, though they are declared as not
    /// packed as content: `need_pack` answers `true` for every element
    /// kind, which looks like a slip in how it is generated, kept as it is.
    fn need_pack(&self) -> (r: bool)
        ensures
            r,
    {
        true
    }
}

impl MessageContentImplChecker for VideoEntity {
    /// Videos report `true` too, though they are declared as not packed as
    /// content (see the voice message's note).
    fn need_pack(&self) -> (r: bool)
        ensures
            r,
    {
        true
    }
}

impl Entity {
    /// Whether the element is sent as message content: what the element
    /// itself reports, which is `true` for every kind here.
    pub open spec fn spec_need_pack(&self) -> bool {
        true
    }

    pub fn need_pack(&self) -> (r: bool)
        ensures
            r == self.spec_need_pack(),
    {
        match self {
            Entity::File(f) => f.need_pack(),
            Entity::MarketFace(m) => m.need_pack(),
            Entity::Record(x) => x.need_pack(),
            Entity::Video(v) => v.need_pack(),
        }
    }

    /// The text shown in a message for the element.
    pub open spec fn display_text(&self) -> Seq<char> {
        match self {
            Entity::File(f) => "[文件] "@ + f.file_name@,
            Entity::MarketFace(m) => m.summary@,
            Entity::Record(_) => "[语音]"@,
            Entity::Video(_) => "[视频]"@,
        }
    }

    /// The debugging text of the element.
    pub open spec fn debug_text(&self) -> Seq<char> {
        match self {
            Entity::File(f) => "[File]: "@ + f.file_name@ + " ("@ + decimal(f.file_size as nat)
                + "): "@ + match f.file_url {
                Some(u) => u@,
                None => "failed to receive file url"@,
            },
            Entity::MarketFace(m) => "[MarketFace]: "@ + m.summary@ + " FaceId: "@ + m.emoji_id@
                + " TabId: "@ + decimal(m.emoji_package_id as nat) + " Key: "@ + m.key@,
            Entity::Record(x) => "[Record]: "@ + x.audio_url@,
            Entity::Video(v) => "[Video]: "@ + signed_decimal(v.width as int) + "x"@
                + signed_decimal(v.height as int) + ": "@ + signed_decimal(v.video_size as int)
                + " "@ + v.video_url@,
        }
    }

    /// The text shown in a message: that of the element.
    pub fn to_string(&self) -> (r: String)
        ensures
            r@ == self.display_text(),
    {
        match self {
            Entity::File(f) => f.to_string(),
            Entity::MarketFace(m) => m.to_string(),
            Entity::Record(x) => x.to_string(),
            Entity::Video(v) => v.to_string(),
        }
    }

    /// The debugging text: that of the element.
    pub fn debug_string(&self) -> (r: String)
        ensures
            r@ == self.debug_text(),
    {
        match self {
            Entity::File(f) => f.debug_string(),
            Entity::MarketFace(m) => m.debug_string(),
            Entity::Record(x) => x.debug_string(),
            Entity::Video(v) => v.debug_string(),
        }
    }

    /// Whether any of `elems` is sent as message content.
    pub fn need_pack_content(elems: &[Entity]) -> (r: bool)
        ensures
            r == exists|i: int| 0 <= i < elems@.len() && (#[trigger] elems@[i]).spec_need_pack(),
    {
        let mut i: usize = 0;
        while i < elems.len()
            invariant
                0 <= i <= elems@.len(),
                forall|j: int| 0 <= j < i ==> !(#[trigger] elems@[j]).spec_need_pack(),
            decreases elems@.len() - i,
        {
            if elems[i].need_pack() {
                return true;
            }
            i = i + 1;
        }
        false
    }
}

// ---------------------------------------------------------------------------
// Packing elements to send
// ---------------------------------------------------------------------------

/// What an entry of the message information says, as plain values: its
/// index, if any, with the file's hashes, name, duration, size in pixels and
/// size in bytes, if given, and the file's id.
pub open spec fn body_value(b: MsgInfoBody) -> Option<
    (Option<(Seq<char>, Seq<char>, Seq<char>, u32, u32, u32, u32)>, Seq<char>),
> {
    match b.index {
        Some(n) => Some(
            (
                match n.info {
                    Some(i) => Some(
                        (
                            i.file_sha1@,
                            i.file_hash@,
                            i.file_name@,
                            i.time,
                            i.height,
                            i.width,
                            i.file_size,
                        ),
                    ),
                    None => None,
                },
                n.file_uuid@,
            ),
        ),
        None => None,
    }
}

/// The entries of `m` as plain values.
pub open spec fn msg_info_value(m: MsgInfo) -> Seq<
    Option<(Option<(Seq<char>, Seq<char>, Seq<char>, u32, u32, u32, u32)>, Seq<char>)>,
> {
    m.msg_info_body@.map_values(|b: MsgInfoBody| body_value(b))
}

/// A copy of one entry of the message information.
fn copy_msg_info_body(b: &MsgInfoBody) -> (r: MsgInfoBody)
    ensures
        body_value(r) == body_value(*b),
{
    let index = match &b.index {
        Some(n) => Some(
            IndexNode {
                info: match &n.info {
                    Some(i) => Some(
                        IndexInfo {
                            file_sha1: i.file_sha1.clone(),
                            file_hash: i.file_hash.clone(),
                            file_name: i.file_name.clone(),
                            time: i.time,
                            height: i.height,
                            width: i.width,
                            file_size: i.file_size,
                        },
                    ),
                    None => None,
                },
                file_uuid: n.file_uuid.clone(),
            },
        ),
        None => None,
    };
    MsgInfoBody { index }
}

/// A copy of the message information `m`, or the empty information where
/// there is none.
fn copy_msg_info(m: &Option<MsgInfo>) -> (r: MsgInfo)
    ensures
        msg_info_value(r) == match m {
            Some(x) => msg_info_value(*x),
            None => Seq::empty(),
        },
{
    let mut out: Vec<MsgInfoBody> = Vec::new();
    match m {
        Some(x) => {
            let mut i: usize = 0;
            while i < x.msg_info_body.len()
                invariant
                    i <= x.msg_info_body@.len(),
                    out@.len() == i,
                    forall|j: int| 0 <= j < i ==> body_value(#[trigger] out@[j]) == body_value(
                        x.msg_info_body@[j],
                    ),
                decreases x.msg_info_body@.len() - i,
            {
                let b = copy_msg_info_body(&x.msg_info_body[i]);
                out.push(b);
                i = i + 1;
            }
            let r = MsgInfo { msg_info_body: out };
            assert(msg_info_value(r) =~= msg_info_value(*x));
            r
        },
        None => {
            let r = MsgInfo { msg_info_body: out };
            assert(msg_info_value(r) =~= Seq::empty());
            r
        },
    }
}

/// The element that sends a voice message or a video: a common element of
/// service type 48 and the given business type, holding a copy of the
/// entity's message information (empty where it has none).
pub open spec fn packs_common(
    elems: Seq<Elem>,
    business_type: u32,
    msg_info: Option<MsgInfo>,
) -> bool {
    &&& elems.len() == 1
    &&& elems[0].market_face is None
    &&& elems[0].video_file is None
    &&& elems[0].trans_elem is None
    &&& match elems[0].common_elem {
        Some(c) => c.service_type == 48 && c.business_type == business_type && match c.msg_info {
            Some(x) => msg_info_value(x) == match msg_info {
                Some(m) => msg_info_value(m),
                None => Seq::empty(),
            },
            None => false,
        },
        None => false,
    }
}

/// The elements that send `m`, of business type `business_type`.
fn pack_common(business_type: u32, msg_info: &Option<MsgInfo>) -> (r: Vec<Elem>)
    ensures
        packs_common(r@, business_type, *msg_info),
{
    let info = copy_msg_info(msg_info);
    let mut v: Vec<Elem> = Vec::new();
    v.push(
        Elem {
            market_face: None,
            common_elem: Some(CommonElem { service_type: 48, business_type, msg_info: Some(info) }),
            video_file: None,
            trans_elem: None,
        },
    );
    v
}

impl RecordEntity {
    /// The elements that send the voice message: business type 22.
    pub fn pack_element(&self) -> (r: Vec<Elem>)
        ensures
            packs_common(r@, 22, self.msg_info),
    {
        pack_common(22, &self.msg_info)
    }
}

impl VideoEntity {
    /// The elements that send the video: business type 21.
    pub fn pack_element(&self) -> (r: Vec<Elem>)
        ensures
            packs_common(r@, 21, self.msg_info),
    {
        pack_common(21, &self.msg_info)
    }
}

impl Entity {
    /// The elements that send the entity. Only voice messages and videos
    /// can be sent this way.
    pub fn to_elems(&self) -> (r: Vec<Elem>)
        requires
            self is Record || self is Video,
        ensures
            match self {
                Entity::Record(x) => packs_common(r@, 22, x.msg_info),
                Entity::Video(v) => packs_common(r@, 21, v.msg_info),
                _ => false,
            },
    {
        match self {
            Entity::Record(x) => x.pack_element(),
            Entity::Video(v) => v.pack_element(),
            _ => Vec::new(),
        }
    }
}

} // verus!

