//! Pushed messages and notices: their kinds and the fields read from them.
use vstd::prelude::*;
use vstd::string::{StringExecFns, StringSliceAdditionalSpecFns};
use crate::event::EventError;
use crate::packet::{from_be16, from_be32, PacketReader, PREFIX_LENGTH_ONLY, PREFIX_U16};
use crate::sso::encode_str;
use crate::text::{decimal, parse_u32, parse_u32_spec, u32_to_string};

verus! {

/// The kinds of pushed message.
#[derive(Clone, Copy, Debug, PartialEq, Eq, Structural)]
pub enum PkgType {
    /// 166
    PrivateMessage,
    /// 82
    GroupMessage,
    /// 141
    TempMessage,
    /// 0x210: friend related notices.
    Event0x210,
    /// 0x2DC: group related notices.
    Event0x2DC,
    /// 208
    PrivateRecordMessage,
    /// 529
    PrivateFileMessage,
    /// 525: a member invited someone to a group.
    GroupRequestInvitationNotice,
    /// 84: someone asked to join a group.
    GroupRequestJoinNotice,
    /// 87: the account is invited to a group.
    GroupInviteNotice,
    /// 44: an admin was set or unset.
    GroupAdminChangedNotice,
    /// 33
    GroupMemberIncreaseNotice,
    /// 34
    GroupMemberDecreaseNotice,
}

impl PkgType {
    pub open spec fn spec_code(self) -> u32 {
        match self {
            PkgType::PrivateMessage => 166,
            PkgType::GroupMessage => 82,
            PkgType::TempMessage => 141,
            PkgType::Event0x210 => 0x210,
            PkgType::Event0x2DC => 0x2DC,
            PkgType::PrivateRecordMessage => 208,
            PkgType::PrivateFileMessage => 529,
            PkgType::GroupRequestInvitationNotice => 525,
            PkgType::GroupRequestJoinNotice => 84,
            PkgType::GroupInviteNotice => 87,
            PkgType::GroupAdminChangedNotice => 44,
            PkgType::GroupMemberIncreaseNotice => 33,
            PkgType::GroupMemberDecreaseNotice => 34,
        }
    }

    /// The kind with code `v`, if any.
    pub fn try_from_u32(v: u32) -> (r: Option<PkgType>)
        ensures
            r matches Some(t) ==> t.spec_code() == v,
            r is None ==> forall|t: PkgType| t.spec_code() != v,
    {
        match v {
            166 => Some(PkgType::PrivateMessage),
            82 => Some(PkgType::GroupMessage),
            141 => Some(PkgType::TempMessage),
            0x210 => Some(PkgType::Event0x210),
            0x2DC => Some(PkgType::Event0x2DC),
            208 => Some(PkgType::PrivateRecordMessage),
            529 => Some(PkgType::PrivateFileMessage),
            525 => Some(PkgType::GroupRequestInvitationNotice),
            84 => Some(PkgType::GroupRequestJoinNotice),
            87 => Some(PkgType::GroupInviteNotice),
            44 => Some(PkgType::GroupAdminChangedNotice),
            33 => Some(PkgType::GroupMemberIncreaseNotice),
            34 => Some(PkgType::GroupMemberDecreaseNotice),
            _ => None,
        }
    }

    /// Whether the kind carries a message chain (rather than notices).
    pub open spec fn spec_is_chat(self) -> bool {
        self == PkgType::PrivateMessage || self == PkgType::GroupMessage || self
            == PkgType::TempMessage || self == PkgType::PrivateRecordMessage
    }

    pub fn is_chat(&self) -> (r: bool)
        ensures
            r == self.spec_is_chat(),
    {
        match self {
            PkgType::PrivateMessage | PkgType::GroupMessage | PkgType::TempMessage
            | PkgType::PrivateRecordMessage => true,
            _ => false,
        }
    }
}

/// The kind of a pushed message with type code `typ`; an unknown code is a
/// warning naming it.
pub fn classify_push(typ: u32) -> (r: Result<PkgType, EventError>)
    ensures
        r matches Ok(t) ==> t.spec_code() == typ,
        r is Err <==> forall|t: PkgType| t.spec_code() != typ,
        r matches Err(e) ==> e matches EventError::InternalWarning(m) && m@
            == "receive unknown olpush message type: "@ + decimal(typ as nat),
{
    match PkgType::try_from_u32(typ) {
        Some(t) => Ok(t),
        None => {
            let mut m = String::from_str("receive unknown olpush message type: ");
            let n = u32_to_string(typ);
            m.append(n.as_str());
            Err(EventError::InternalWarning(m))
        },
    }
}

/// The sub types of a group notice (0x2DC).
#[derive(Clone, Copy, Debug, PartialEq, Eq, Structural)]
pub enum Event0x2DCSubType {
    /// 12
    GroupMuteNotice,
    /// 16
    SubType16,
    /// 17
    GroupRecallNotice,
    /// 21
    GroupEssenceNotice,
    /// 20
    GroupGreyTipNotice,
}

impl Event0x2DCSubType {
    pub open spec fn spec_code(self) -> u32 {
        match self {
            Event0x2DCSubType::GroupMuteNotice => 12,
            Event0x2DCSubType::SubType16 => 16,
            Event0x2DCSubType::GroupRecallNotice => 17,
            Event0x2DCSubType::GroupEssenceNotice => 21,
            Event0x2DCSubType::GroupGreyTipNotice => 20,
        }
    }

    pub fn try_from_u32(v: u32) -> (r: Option<Self>)
        ensures
            r matches Some(t) ==> t.spec_code() == v,
            r is None ==> forall|t: Self| t.spec_code() != v,
    {
        match v {
            12 => Some(Event0x2DCSubType::GroupMuteNotice),
            16 => Some(Event0x2DCSubType::SubType16),
            17 => Some(Event0x2DCSubType::GroupRecallNotice),
            21 => Some(Event0x2DCSubType::GroupEssenceNotice),
            20 => Some(Event0x2DCSubType::GroupGreyTipNotice),
            _ => None,
        }
    }
}

/// The kinds of group notice of sub type 16, by its field 13.
#[derive(Clone, Copy, Debug, PartialEq, Eq, Structural)]
pub enum Event0x2DCSubType16Field13 {
    /// 6
    GroupMemberSpecialTitleNotice,
    /// 12
    GroupNameChangeNotice,
    /// 23
    GroupTodoNotice,
    /// 35
    GroupReactionNotice,
}

impl Event0x2DCSubType16Field13 {
    pub open spec fn spec_code(self) -> u32 {
        match self {
            Event0x2DCSubType16Field13::GroupMemberSpecialTitleNotice => 6,
            Event0x2DCSubType16Field13::GroupNameChangeNotice => 12,
            Event0x2DCSubType16Field13::GroupTodoNotice => 23,
            Event0x2DCSubType16Field13::GroupReactionNotice => 35,
        }
    }

    pub fn try_from_u32(v: u32) -> (r: Option<Self>)
        ensures
            r matches Some(t) ==> t.spec_code() == v,
            r is None ==> forall|t: Self| t.spec_code() != v,
    {
        match v {
            6 => Some(Event0x2DCSubType16Field13::GroupMemberSpecialTitleNotice),
            12 => Some(Event0x2DCSubType16Field13::GroupNameChangeNotice),
            23 => Some(Event0x2DCSubType16Field13::GroupTodoNotice),
            35 => Some(Event0x2DCSubType16Field13::GroupReactionNotice),
            _ => None,
        }
    }
}

/// The sub types of a friend notice (0x210).
#[derive(Clone, Copy, Debug, PartialEq, Eq, Structural)]
pub enum Event0x210SubType {
    /// 29
    SelfRenameNotice,
    /// 35
    FriendRequestNotice,
    /// 38
    GroupMemberEnterNotice,
    /// 39
    FriendDeleteOrPinChangedNotice,
    /// 138
    FriendRecallNotice,
    /// 179
    SubType179,
    /// 199
    ServicePinChanged,
    /// 226
    SubType226,
    /// 290
    FriendPokeNotice,
    /// 212
    GroupKickNotice,
}

impl Event0x210SubType {
    pub open spec fn spec_code(self) -> u32 {
        match self {
            Event0x210SubType::SelfRenameNotice => 29,
            Event0x210SubType::FriendRequestNotice => 35,
            Event0x210SubType::GroupMemberEnterNotice => 38,
            Event0x210SubType::FriendDeleteOrPinChangedNotice => 39,
            Event0x210SubType::FriendRecallNotice => 138,
            Event0x210SubType::SubType179 => 179,
            Event0x210SubType::ServicePinChanged => 199,
            Event0x210SubType::SubType226 => 226,
            Event0x210SubType::FriendPokeNotice => 290,
            Event0x210SubType::GroupKickNotice => 212,
        }
    }

    pub fn try_from_u32(v: u32) -> (r: Option<Self>)
        ensures
            r matches Some(t) ==> t.spec_code() == v,
            r is None ==> forall|t: Self| t.spec_code() != v,
    {
        match v {
            29 => Some(Event0x210SubType::SelfRenameNotice),
            35 => Some(Event0x210SubType::FriendRequestNotice),
            38 => Some(Event0x210SubType::GroupMemberEnterNotice),
            39 => Some(Event0x210SubType::FriendDeleteOrPinChangedNotice),
            138 => Some(Event0x210SubType::FriendRecallNotice),
            179 => Some(Event0x210SubType::SubType179),
            199 => Some(Event0x210SubType::ServicePinChanged),
            226 => Some(Event0x210SubType::SubType226),
            290 => Some(Event0x210SubType::FriendPokeNotice),
            212 => Some(Event0x210SubType::GroupKickNotice),
            _ => None,
        }
    }
}

/// Each code names one kind: no two kinds, sub types or field-13 kinds share
/// a code, so reading a kind's code gives that kind back.
pub proof fn law_push_codes_are_distinct()
    ensures
        forall|a: PkgType, b: PkgType| #[trigger] a.spec_code() == #[trigger] b.spec_code() ==> a == b,
        forall|a: Event0x2DCSubType, b: Event0x2DCSubType| #[trigger] a.spec_code()
            == #[trigger] b.spec_code() ==> a == b,
        forall|a: Event0x2DCSubType16Field13, b: Event0x2DCSubType16Field13| #[trigger] a.spec_code()
            == #[trigger] b.spec_code() ==> a == b,
        forall|a: Event0x210SubType, b: Event0x210SubType| #[trigger] a.spec_code()
            == #[trigger] b.spec_code() ==> a == b,
{
}

// ---------------------------------------------------------------------------
// The fields read from a pushed message
// ---------------------------------------------------------------------------

/// The head of a pushed message: its type and sub type, its id, when it
/// was sent, and its sequence numbers.
#[derive(Debug)]
pub struct ContentHead {
    pub typ: u32,
    pub sub_type: Option<u32>,
    pub msg_uid: Option<u64>,
    pub time_stamp: Option<u32>,
    pub sequence: Option<u32>,
    pub nt_msg_seq: Option<u32>,
}

/// One element of a message's rich text, as far as this library reads it.
#[derive(Debug)]
pub struct Elem {
    pub market_face: Option<crate::message::entity::MarketFaceElem>,
    pub common_elem: Option<crate::message::entity::CommonElem>,
    pub video_file: Option<crate::message::entity::VideoFile>,
    pub trans_elem: Option<crate::message::entity::TransElem>,
}

/// The rich text of a message: its elements in order.
#[derive(Debug)]
pub struct RichText {
    pub elems: Vec<Elem>,
}

/// The body of a pushed message.
#[derive(Debug)]
pub struct MessageBody {
    pub rich_text: Option<RichText>,
    pub msg_content: Option<Vec<u8>>,
}

/// The group a pushed message was sent in.
#[derive(Debug)]
pub struct ResponseGrp {
    pub group_code: Option<u64>,
    pub group_card: Option<String>,
}

/// Who sent a pushed message, to whom, and in which group.
#[derive(Debug)]
pub struct ResponseHead {
    pub from_uin: u32,
    pub from_uid: Option<String>,
    pub to_uin: u32,
    pub to_uid: Option<String>,
    pub grp: Option<ResponseGrp>,
}

/// A pushed message.
#[derive(Debug)]
pub struct PushMsgBody {
    pub response_head: Option<ResponseHead>,
    pub content_head: Option<ContentHead>,
    pub body: Option<MessageBody>,
}

/// What the server pushes.
#[derive(Debug)]
pub struct PushMsg {
    pub message: Option<PushMsgBody>,
}

/// The message content of `p`, if it is there.
pub open spec fn msg_content_of(p: PushMsg) -> Option<Seq<u8>> {
    match p.message {
        Some(m) => match m.body {
            Some(b) => match b.msg_content {
                Some(c) => Some(c@),
                None => None,
            },
            None => None,
        },
        None => None,
    }
}

/// `p` is `old_p` with its message content taken out, all else as it was
/// (so `old_p` itself where it has no body).
pub open spec fn content_taken(old_p: PushMsg, p: PushMsg) -> bool {
    match old_p.message {
        Some(a) => match a.body {
            Some(b) => p == (PushMsg {
                message: Some(PushMsgBody { body: Some(MessageBody { msg_content: None, ..b }), ..a }),
            }),
            None => p == old_p,
        },
        None => p == old_p,
    }
}

/// Takes the message content out of the pushed message.
pub fn extract_msg_body_content(packet: &mut PushMsg) -> (r: Option<Vec<u8>>)
    ensures
        match msg_content_of(*old(packet)) {
            Some(c) => r matches Some(v) && v@ == c,
            None => r is None,
        },
        content_taken(*old(packet), *final(packet)),
        msg_content_of(*old(packet)) is None ==> *final(packet) == *old(packet),
{
    match &mut packet.message {
        Some(m) => match &mut m.body {
            Some(b) => {
                let mut c: Option<Vec<u8>> = None;
                std::mem::swap(&mut c, &mut b.msg_content);
                c
            },
            None => None,
        },
        None => None,
    }
}

/// Takes the message content out; its absence is an error with `err_tip`.
pub fn extract_stable_msg_content(packet: &mut PushMsg, err_tip: &str) -> (r: Result<
    Vec<u8>,
    EventError,
>)
    ensures
        match msg_content_of(*old(packet)) {
            Some(c) => r matches Ok(v) && v@ == c,
            None => r matches Err(EventError::OtherError(m)) && m@ == err_tip@,
        },
        content_taken(*old(packet), *final(packet)),
        msg_content_of(*old(packet)) is None ==> *final(packet) == *old(packet),
{
    match extract_msg_body_content(packet) {
        Some(v) => Ok(v),
        None => Err(EventError::OtherError(String::from_str(err_tip))),
    }
}

/// Takes the message content out; its absence is a warning with `err_tip`.
pub fn extract_unstable_msg_content(packet: &mut PushMsg, err_tip: &str) -> (r: Result<
    Vec<u8>,
    EventError,
>)
    ensures
        match msg_content_of(*old(packet)) {
            Some(c) => r matches Ok(v) && v@ == c,
            None => r matches Err(EventError::InternalWarning(m)) && m@ == err_tip@,
        },
        content_taken(*old(packet), *final(packet)),
        msg_content_of(*old(packet)) is None ==> *final(packet) == *old(packet),
{
    match extract_msg_body_content(packet) {
        Some(v) => Ok(v),
        None => Err(EventError::InternalWarning(String::from_str(err_tip))),
    }
}

/// The sub type of `p`'s head, if it is there.
pub open spec fn sub_type_of(p: PushMsg) -> Option<u32> {
    match p.message {
        Some(m) => match m.content_head {
            Some(h) => h.sub_type,
            None => None,
        },
        None => None,
    }
}

/// The sub type of a notice.
pub fn extract_0x_sub_type(packet: &PushMsg) -> (r: Result<u32, EventError>)
    ensures
        match sub_type_of(*packet) {
            Some(t) => r == Ok::<u32, EventError>(t),
            None => r matches Err(EventError::OtherError(m)) && m@ == "Cannot get sub_type in PushMsg"@,
        },
{
    match &packet.message {
        Some(m) => match &m.content_head {
            Some(h) => match h.sub_type {
                Some(t) => {
                    return Ok(t);
                },
                None => {},
            },
            None => {},
        },
        None => {},
    }
    Err(EventError::OtherError(String::from_str("Cannot get sub_type in PushMsg")))
}

/// A group notice's content is all there: the group uin, a byte, and the
/// notice after its 2-byte length.
pub open spec fn group_notice_complete(c: Seq<u8>) -> bool {
    c.len() >= 7 && from_be16(c.skip(5)) <= c.len() - 7
}

/// Whether a group notice's content is all there.
pub fn is_group_notice_complete(c: &[u8]) -> (r: bool)
    ensures
        r == group_notice_complete(c@),
{
    c.len() >= 7 && (crate::packet::be16_at(c, 5) as usize) <= c.len() - 7
}

/// Splits a group notice's content into the group uin and the encoded
/// notice.
pub fn extract_0x2dc_head(msg_content: Vec<u8>) -> (r: (u32, Vec<u8>))
    requires
        group_notice_complete(msg_content@),
    ensures
        r.0 == from_be32(msg_content@),
        r.1@ == msg_content@.subrange(7, 7 + from_be16(msg_content@.skip(5))),
{
    let ghost c = msg_content@;
    let mut reader = PacketReader::new(msg_content);
    let group_uin = reader.u32();
    reader.u8();
    proof {
        assert(c.skip(4).skip(1) =~= c.skip(5));
    }
    let prefix = PREFIX_U16 | PREFIX_LENGTH_ONLY;
    assert(prefix == 2) by (bit_vector)
        requires
            prefix == 2u8 | 0u8,
    ;
    let mut proto = reader.read_with_length(prefix);
    let bytes = proto.bytes();
    proof {
        assert(c.skip(5).skip(2).take(from_be16(c.skip(5)) as int) =~= c.subrange(
            7,
            7 + from_be16(c.skip(5)),
        ));
    }
    (group_uin, bytes)
}

// ---------------------------------------------------------------------------
// Routing a pushed message
// ---------------------------------------------------------------------------

/// The type code of `p`'s head, if it is there.
pub open spec fn typ_of(p: PushMsg) -> Option<u32> {
    match p.message {
        Some(m) => match m.content_head {
            Some(h) => Some(h.typ),
            None => None,
        },
        None => None,
    }
}

/// The sender of `p`, if it is there.
pub open spec fn response_head_of(p: PushMsg) -> Option<ResponseHead> {
    match p.message {
        Some(m) => m.response_head,
        None => None,
    }
}

/// The notices whose content is taken out of the pushed message and decoded
/// on its own.
#[derive(Clone, Copy, Debug, PartialEq, Eq, Structural)]
pub enum NoticeKind {
    GroupRequestInvitation,
    GroupRequestJoin,
    GroupInvite,
    GroupAdminChanged,
    GroupMemberIncrease,
    GroupMemberDecrease,
    GroupMute,
    GroupSubType16,
    GroupRecall,
    GroupEssence,
    GroupGreyTip,
    SelfRename,
    GroupMemberEnter,
    FriendDeleteOrPinChanged,
    FriendPoke,
    NewFriend,
}

/// Where the handling of a pushed message goes on.
#[derive(Debug)]
pub enum PushRoute {
    /// A chat message of this kind: its body is a message chain.
    Chat(PkgType),
    /// A file sent by a friend.
    PrivateFile,
    /// A notice of this kind, with its content.
    Notice(NoticeKind, Vec<u8>),
    /// A friend request: its content and the sender's uin.
    FriendRequest { content: Vec<u8>, from_uin: u32 },
    /// A friend's recall: its content and the sender's uid (empty where it
    /// is missing).
    FriendRecall { content: Vec<u8>, from_uid: String },
}

/// How a pushed message is handled, as its type and sub type decide.
pub enum PushPlan {
    /// The head or its type is missing.
    NoType,
    /// The type is not one of the known kinds.
    UnknownType(u32),
    Chat(PkgType),
    PrivateFile,
    /// Take the content out for a notice of this kind; where it is missing
    /// the result is `tip`, as an error (`true`) or as a warning (`false`).
    Take(NoticeKind, bool, Seq<char>),
    /// Read the content and the sender in place: a friend request (`true`)
    /// or a friend's recall (`false`).
    InPlace(bool),
    /// The sub type of a notice is missing.
    NoSubType,
    /// The sub type is unknown: the warning starts with this text.
    UnknownSubType(Seq<char>, u32),
    /// A known sub type that is not handled: the warning's text.
    NotHandled(Seq<char>),
}

/// The plan for a group notice of sub type `sub`.
pub open spec fn plan_0x2dc(sub: u32) -> PushPlan {
    if sub == 12 {
        PushPlan::Take(NoticeKind::GroupMute, true, "0x2dc GroupMuteNotice missing msg_content"@)
    } else if sub == 16 {
        PushPlan::Take(NoticeKind::GroupSubType16, false, "0x2dc SubType16 missing msg_content"@)
    } else if sub == 17 {
        PushPlan::Take(
            NoticeKind::GroupRecall,
            true,
            "0x2dc GroupRecallNotice missing msg_content"@,
        )
    } else if sub == 21 {
        PushPlan::Take(
            NoticeKind::GroupEssence,
            true,
            "0x2dc GroupEssenceNotice missing msg_content"@,
        )
    } else if sub == 20 {
        PushPlan::Take(NoticeKind::GroupGreyTip, false, "0x2dc sub type 20 missing msg_content"@)
    } else {
        PushPlan::UnknownSubType("receive unknown olpush message 0x2dc sub type: "@, sub)
    }
}

/// The plan for a friend notice of sub type `sub`.
pub open spec fn plan_0x210(sub: u32) -> PushPlan {
    if sub == 29 {
        PushPlan::Take(NoticeKind::SelfRename, true, "0x210 SelfRenameNotice missing msg_content"@)
    } else if sub == 35 {
        PushPlan::InPlace(true)
    } else if sub == 38 {
        PushPlan::Take(
            NoticeKind::GroupMemberEnter,
            false,
            "0x210 GroupMemberEnterNotice missing msg_content"@,
        )
    } else if sub == 39 {
        PushPlan::Take(
            NoticeKind::FriendDeleteOrPinChanged,
            true,
            "0x210 FriendDeleteOrPinChangedNotice missing msg_content"@,
        )
    } else if sub == 138 {
        PushPlan::InPlace(false)
    } else if sub == 290 {
        PushPlan::Take(NoticeKind::FriendPoke, true, "0x210 FriendPokeNotice missing msg_content"@)
    } else if sub == 179 || sub == 226 {
        PushPlan::Take(NoticeKind::NewFriend, false, "0x210 SubType179 missing msg_content"@)
    } else if sub == 199 {
        PushPlan::NotHandled("TODO: handle 0x210 sub type ServicePinChanged"@)
    } else if sub == 212 {
        PushPlan::NotHandled("TODO: handle 0x210 sub type GroupKickNotice"@)
    } else {
        PushPlan::UnknownSubType("receive unknown olpush message 0x210 sub type: "@, sub)
    }
}

/// The plan for a notice whose sub type decides, by `by_sub`.
pub open spec fn plan_by_sub(p: PushMsg, group: bool) -> PushPlan {
    match sub_type_of(p) {
        None => PushPlan::NoSubType,
        Some(s) => if group {
            plan_0x2dc(s)
        } else {
            plan_0x210(s)
        },
    }
}

/// The plan for the pushed message `p`.
pub open spec fn push_plan(p: PushMsg) -> PushPlan {
    match typ_of(p) {
        None => PushPlan::NoType,
        Some(t) => if t == 166 {
            PushPlan::Chat(PkgType::PrivateMessage)
        } else if t == 82 {
            PushPlan::Chat(PkgType::GroupMessage)
        } else if t == 141 {
            PushPlan::Chat(PkgType::TempMessage)
        } else if t == 208 {
            PushPlan::Chat(PkgType::PrivateRecordMessage)
        } else if t == 529 {
            PushPlan::PrivateFile
        } else if t == 525 {
            PushPlan::Take(
                NoticeKind::GroupRequestInvitation,
                true,
                "GroupRequestInvitationNotice missing msg_content"@,
            )
        } else if t == 84 {
            PushPlan::Take(
                NoticeKind::GroupRequestJoin,
                true,
                "GroupRequestJoinNotice missing msg_content"@,
            )
        } else if t == 87 {
            PushPlan::Take(NoticeKind::GroupInvite, true, "GroupInviteNotice missing msg_content"@)
        } else if t == 44 {
            PushPlan::Take(
                NoticeKind::GroupAdminChanged,
                true,
                "GroupAdminChangedNotice missing msg_content"@,
            )
        } else if t == 33 {
            PushPlan::Take(
                NoticeKind::GroupMemberIncrease,
                true,
                "GroupMemberIncreaseNotice missing msg_content"@,
            )
        } else if t == 34 {
            PushPlan::Take(
                NoticeKind::GroupMemberDecrease,
                true,
                "GroupMemberDecreaseNotice missing msg_content"@,
            )
        } else if t == 0x2DC {
            plan_by_sub(p, true)
        } else if t == 0x210 {
            plan_by_sub(p, false)
        } else {
            PushPlan::UnknownType(t)
        },
    }
}

/// `r` is what following `plan` on the pushed message `old_p` gives, and
/// `new_p` is the message afterwards.
pub open spec fn route_follows(
    plan: PushPlan,
    old_p: PushMsg,
    new_p: PushMsg,
    r: Result<PushRoute, EventError>,
) -> bool {
    match plan {
        PushPlan::NoType => new_p == old_p && (r matches Err(EventError::OtherError(m)) && m@
            == "Cannot get typ in PushMsg"@),
        PushPlan::UnknownType(t) => new_p == old_p && (r matches Err(EventError::InternalWarning(m))
            && m@ == "receive unknown olpush message type: "@ + decimal(t as nat)),
        PushPlan::Chat(t) => new_p == old_p && (r matches Ok(PushRoute::Chat(u)) && u == t),
        PushPlan::PrivateFile => new_p == old_p && r matches Ok(PushRoute::PrivateFile),
        PushPlan::Take(kind, stable, tip) => content_taken(old_p, new_p) && match msg_content_of(
            old_p,
        ) {
            Some(c) => r matches Ok(PushRoute::Notice(k, v)) && k == kind && v@ == c,
            None => if stable {
                r matches Err(EventError::OtherError(m)) && m@ == tip
            } else {
                r matches Err(EventError::InternalWarning(m)) && m@ == tip
            },
        },
        PushPlan::InPlace(request) => new_p == old_p && match msg_content_of(old_p) {
            None => r matches Err(EventError::OtherError(m)) && m@
                == "Missing msg_content in Event0x210SubType::FriendRecallNotice"@,
            Some(c) => match response_head_of(old_p) {
                None => r matches Err(EventError::OtherError(m)) && m@
                    == "Missing response_head in Event0x210SubType::FriendRecallNotice"@,
                Some(h) => if request {
                    r matches Ok(PushRoute::FriendRequest { content, from_uin }) && content@ == c
                        && from_uin == h.from_uin
                } else {
                    r matches Ok(PushRoute::FriendRecall { content, from_uid }) && content@ == c
                        && from_uid@ == match h.from_uid {
                        Some(u) => u@,
                        None => Seq::<char>::empty(),
                    }
                },
            },
        },
        PushPlan::NoSubType => new_p == old_p && (r matches Err(EventError::OtherError(m)) && m@
            == "Cannot get sub_type in PushMsg"@),
        PushPlan::UnknownSubType(prefix, code) => new_p == old_p && (r matches Err(
            EventError::InternalWarning(m),
        ) && m@ == prefix + "TryFromPrimitiveError { number: "@ + decimal(code as nat) + " }"@),
        PushPlan::NotHandled(text) => new_p == old_p && (r matches Err(
            EventError::InternalWarning(m),
        ) && m@ == text),
    }
}

/// The type code of a pushed message.
fn push_typ(packet: &PushMsg) -> (r: Option<u32>)
    ensures
        r == typ_of(*packet),
{
    match &packet.message {
        Some(m) => match &m.content_head {
            Some(h) => Some(h.typ),
            None => None,
        },
        None => None,
    }
}

/// Takes the content out for a notice of `kind`.
fn take_notice(packet: &mut PushMsg, kind: NoticeKind, stable: bool, tip: &str) -> (r: Result<
    PushRoute,
    EventError,
>)
    ensures
        route_follows(PushPlan::Take(kind, stable, tip@), *old(packet), *final(packet), r),
{
    let c = if stable {
        extract_stable_msg_content(packet, tip)
    } else {
        extract_unstable_msg_content(packet, tip)
    };
    match c {
        Ok(v) => Ok(PushRoute::Notice(kind, v)),
        Err(e) => Err(e),
    }
}

/// Reads a friend request or a friend's recall in place.
fn read_in_place(packet: &PushMsg, request: bool) -> (r: Result<PushRoute, EventError>)
    ensures
        route_follows(PushPlan::InPlace(request), *packet, *packet, r),
{
    let content = match &packet.message {
        Some(m) => match &m.body {
            Some(b) => match &b.msg_content {
                Some(c) => Some(c.clone()),
                None => None,
            },
            None => None,
        },
        None => None,
    };
    let content = match content {
        Some(c) => c,
        None => {
            return Err(
                EventError::OtherError(
                    String::from_str("Missing msg_content in Event0x210SubType::FriendRecallNotice"),
                ),
            );
        },
    };
    let head = match &packet.message {
        Some(m) => match &m.response_head {
            Some(h) => h,
            None => {
                return Err(
                    EventError::OtherError(
                        String::from_str(
                            "Missing response_head in Event0x210SubType::FriendRecallNotice",
                        ),
                    ),
                );
            },
        },
        None => {
            return Err(
                EventError::OtherError(
                    String::from_str("Missing response_head in Event0x210SubType::FriendRecallNotice"),
                ),
            );
        },
    };
    if request {
        Ok(PushRoute::FriendRequest { content, from_uin: head.from_uin })
    } else {
        let from_uid = match &head.from_uid {
            Some(u) => u.clone(),
            None => String::new(),
        };
        Ok(PushRoute::FriendRecall { content, from_uid })
    }
}

/// The warning for an unknown sub type, after `prefix`.
fn unknown_sub_type(prefix: &str, code: u32) -> (r: EventError)
    ensures
        r matches EventError::InternalWarning(m) && m@ == prefix@
            + "TryFromPrimitiveError { number: "@ + decimal(code as nat) + " }"@,
{
    let mut m = String::from_str(prefix);
    m.append("TryFromPrimitiveError { number: ");
    let n = u32_to_string(code);
    m.append(n.as_str());
    m.append(" }");
    EventError::InternalWarning(m)
}

/// Routes a group notice (0x2DC) by its sub type.
pub fn route_event_0x2dc(packet: &mut PushMsg) -> (r: Result<PushRoute, EventError>)
    ensures
        route_follows(plan_by_sub(*old(packet), true), *old(packet), *final(packet), r),
{
    let sub = match extract_0x_sub_type(packet) {
        Ok(s) => s,
        Err(e) => {
            return Err(e);
        },
    };
    let kind = Event0x2DCSubType::try_from_u32(sub);
    proof {
        if kind is None {
            assert(Event0x2DCSubType::GroupMuteNotice.spec_code() != sub);
            assert(Event0x2DCSubType::SubType16.spec_code() != sub);
            assert(Event0x2DCSubType::GroupRecallNotice.spec_code() != sub);
            assert(Event0x2DCSubType::GroupEssenceNotice.spec_code() != sub);
            assert(Event0x2DCSubType::GroupGreyTipNotice.spec_code() != sub);
        }
    }
    match kind {
        None => Err(unknown_sub_type("receive unknown olpush message 0x2dc sub type: ", sub)),
        Some(Event0x2DCSubType::GroupMuteNotice) => take_notice(
            packet,
            NoticeKind::GroupMute,
            true,
            "0x2dc GroupMuteNotice missing msg_content",
        ),
        Some(Event0x2DCSubType::SubType16) => take_notice(
            packet,
            NoticeKind::GroupSubType16,
            false,
            "0x2dc SubType16 missing msg_content",
        ),
        Some(Event0x2DCSubType::GroupRecallNotice) => take_notice(
            packet,
            NoticeKind::GroupRecall,
            true,
            "0x2dc GroupRecallNotice missing msg_content",
        ),
        Some(Event0x2DCSubType::GroupEssenceNotice) => take_notice(
            packet,
            NoticeKind::GroupEssence,
            true,
            "0x2dc GroupEssenceNotice missing msg_content",
        ),
        Some(Event0x2DCSubType::GroupGreyTipNotice) => take_notice(
            packet,
            NoticeKind::GroupGreyTip,
            false,
            "0x2dc sub type 20 missing msg_content",
        ),
    }
}

/// Routes a friend notice (0x210) by its sub type.
pub fn route_event_0x210(packet: &mut PushMsg) -> (r: Result<PushRoute, EventError>)
    ensures
        route_follows(plan_by_sub(*old(packet), false), *old(packet), *final(packet), r),
{
    let sub = match extract_0x_sub_type(packet) {
        Ok(s) => s,
        Err(e) => {
            return Err(e);
        },
    };
    let kind = Event0x210SubType::try_from_u32(sub);
    proof {
        if kind is None {
            assert(Event0x210SubType::SelfRenameNotice.spec_code() != sub);
            assert(Event0x210SubType::FriendRequestNotice.spec_code() != sub);
            assert(Event0x210SubType::GroupMemberEnterNotice.spec_code() != sub);
            assert(Event0x210SubType::FriendDeleteOrPinChangedNotice.spec_code() != sub);
            assert(Event0x210SubType::FriendRecallNotice.spec_code() != sub);
            assert(Event0x210SubType::SubType179.spec_code() != sub);
            assert(Event0x210SubType::ServicePinChanged.spec_code() != sub);
            assert(Event0x210SubType::SubType226.spec_code() != sub);
            assert(Event0x210SubType::FriendPokeNotice.spec_code() != sub);
            assert(Event0x210SubType::GroupKickNotice.spec_code() != sub);
        }
    }
    match kind {
        None => Err(unknown_sub_type("receive unknown olpush message 0x210 sub type: ", sub)),
        Some(Event0x210SubType::SelfRenameNotice) => take_notice(
            packet,
            NoticeKind::SelfRename,
            true,
            "0x210 SelfRenameNotice missing msg_content",
        ),
        Some(Event0x210SubType::FriendRequestNotice) => read_in_place(packet, true),
        Some(Event0x210SubType::GroupMemberEnterNotice) => take_notice(
            packet,
            NoticeKind::GroupMemberEnter,
            false,
            "0x210 GroupMemberEnterNotice missing msg_content",
        ),
        Some(Event0x210SubType::FriendDeleteOrPinChangedNotice) => take_notice(
            packet,
            NoticeKind::FriendDeleteOrPinChanged,
            true,
            "0x210 FriendDeleteOrPinChangedNotice missing msg_content",
        ),
        Some(Event0x210SubType::FriendRecallNotice) => read_in_place(packet, false),
        Some(Event0x210SubType::FriendPokeNotice) => take_notice(
            packet,
            NoticeKind::FriendPoke,
            true,
            "0x210 FriendPokeNotice missing msg_content",
        ),
        Some(Event0x210SubType::SubType179) | Some(Event0x210SubType::SubType226) => take_notice(
            packet,
            NoticeKind::NewFriend,
            false,
            "0x210 SubType179 missing msg_content",
        ),
        Some(Event0x210SubType::ServicePinChanged) => Err(
            EventError::InternalWarning(
                String::from_str("TODO: handle 0x210 sub type ServicePinChanged"),
            ),
        ),
        Some(Event0x210SubType::GroupKickNotice) => Err(
            EventError::InternalWarning(String::from_str("TODO: handle 0x210 sub type GroupKickNotice")),
        ),
    }
}

/// Routes a pushed message: by its type to a message chain, a private file
/// or a notice, and by its sub type within group and friend notices; a
/// notice's content is taken out of the message (read in place for friend
/// requests and recalls). Each missing part and each unknown code gives the
/// error or warning that names it.
pub fn route_push(packet: &mut PushMsg) -> (r: Result<PushRoute, EventError>)
    ensures
        route_follows(push_plan(*old(packet)), *old(packet), *final(packet), r),
{
    let typ = match push_typ(packet) {
        Some(t) => t,
        None => {
            return Err(EventError::OtherError(String::from_str("Cannot get typ in PushMsg")));
        },
    };
    let kind = match classify_push(typ) {
        Ok(k) => k,
        Err(e) => {
            proof {
                assert(PkgType::PrivateMessage.spec_code() != typ);
                assert(PkgType::GroupMessage.spec_code() != typ);
                assert(PkgType::TempMessage.spec_code() != typ);
                assert(PkgType::Event0x210.spec_code() != typ);
                assert(PkgType::Event0x2DC.spec_code() != typ);
                assert(PkgType::PrivateRecordMessage.spec_code() != typ);
                assert(PkgType::PrivateFileMessage.spec_code() != typ);
                assert(PkgType::GroupRequestInvitationNotice.spec_code() != typ);
                assert(PkgType::GroupRequestJoinNotice.spec_code() != typ);
                assert(PkgType::GroupInviteNotice.spec_code() != typ);
                assert(PkgType::GroupAdminChangedNotice.spec_code() != typ);
                assert(PkgType::GroupMemberIncreaseNotice.spec_code() != typ);
                assert(PkgType::GroupMemberDecreaseNotice.spec_code() != typ);
            }
            return Err(e);
        },
    };
    match kind {
        PkgType::PrivateMessage | PkgType::GroupMessage | PkgType::TempMessage
        | PkgType::PrivateRecordMessage => Ok(PushRoute::Chat(kind)),
        PkgType::PrivateFileMessage => Ok(PushRoute::PrivateFile),
        PkgType::GroupRequestInvitationNotice => take_notice(
            packet,
            NoticeKind::GroupRequestInvitation,
            true,
            "GroupRequestInvitationNotice missing msg_content",
        ),
        PkgType::GroupRequestJoinNotice => take_notice(
            packet,
            NoticeKind::GroupRequestJoin,
            true,
            "GroupRequestJoinNotice missing msg_content",
        ),
        PkgType::GroupInviteNotice => take_notice(
            packet,
            NoticeKind::GroupInvite,
            true,
            "GroupInviteNotice missing msg_content",
        ),
        PkgType::GroupAdminChangedNotice => take_notice(
            packet,
            NoticeKind::GroupAdminChanged,
            true,
            "GroupAdminChangedNotice missing msg_content",
        ),
        PkgType::GroupMemberIncreaseNotice => take_notice(
            packet,
            NoticeKind::GroupMemberIncrease,
            true,
            "GroupMemberIncreaseNotice missing msg_content",
        ),
        PkgType::GroupMemberDecreaseNotice => take_notice(
            packet,
            NoticeKind::GroupMemberDecrease,
            true,
            "GroupMemberDecreaseNotice missing msg_content",
        ),
        PkgType::Event0x2DC => route_event_0x2dc(packet),
        PkgType::Event0x210 => route_event_0x210(packet),
    }
}

/// The kind of a group notice of sub type 16, from its field 13 (0 where it
/// is missing); an unknown value is a warning naming it.
pub fn classify_0x2dc_sub16(field13: Option<u32>) -> (r: Result<
    Event0x2DCSubType16Field13,
    EventError,
>)
    ensures
        ({
            let v = match field13 {
                Some(v) => v,
                None => 0,
            };
            &&& r matches Ok(t) ==> t.spec_code() == v
            &&& r is Err <==> forall|t: Event0x2DCSubType16Field13| t.spec_code() != v
            &&& r matches Err(e) ==> (e matches EventError::InternalWarning(m) && m@
                == "Failed to parse 0x2dc sub type 16 field 13: No discriminant in enum `Event0x2DCSubType16Field13` matches the value `"@
                + decimal(v as nat) + "`"@)
        }),
{
    let v = match field13 {
        Some(v) => v,
        None => 0,
    };
    match Event0x2DCSubType16Field13::try_from_u32(v) {
        Some(t) => Ok(t),
        None => {
            let mut m = String::from_str(
                "Failed to parse 0x2dc sub type 16 field 13: No discriminant in enum `Event0x2DCSubType16Field13` matches the value `",
            );
            let n = u32_to_string(v);
            m.append(n.as_str());
            m.append("`");
            Err(EventError::InternalWarning(m))
        },
    }
}

// ---------------------------------------------------------------------------
// Pokes
// ---------------------------------------------------------------------------

/// What a poke notice says.
#[derive(Debug)]
pub struct PokeArgs {
    pub action: String,
    pub operator_uin: u32,
    pub target_uin: u32,
    pub suffix: String,
    pub action_img_url: String,
}

/// The value of the last template parameter named `key`.
pub open spec fn template_value(params: Seq<(String, String)>, key: Seq<char>) -> Option<Seq<char>>
    decreases params.len(),
{
    if params.len() == 0 {
        None
    } else if params.last().0@ == key {
        Some(params.last().1@)
    } else {
        template_value(params.drop_last(), key)
    }
}

/// The value of the parameter `key`, or the empty text.
pub open spec fn template_text(params: Seq<(String, String)>, key: Seq<char>) -> Seq<char> {
    match template_value(params, key) {
        Some(v) => v,
        None => Seq::empty(),
    }
}

/// The parameter `key` as a `u32`, or 0.
pub open spec fn template_uin(params: Seq<(String, String)>, key: Seq<char>) -> u32 {
    match parse_u32_spec(encode_str(template_text(params, key))) {
        Ok(v) => v,
        Err(_) => 0,
    }
}

fn find_template(params: &Vec<(String, String)>, key: &str) -> (r: Option<usize>)
    ensures
        match template_value(params@, key@) {
            Some(v) => r matches Some(i) && i < params@.len() && params@[i as int].1@ == v,
            None => r is None,
        },
{
    let key_string = String::from_str(key);
    let mut i = params.len();
    proof {
        assert(params@.take(i as int) =~= params@);
    }
    while i > 0
        invariant
            0 <= i <= params@.len(),
            key_string@ == key@,
            template_value(params@, key@) == template_value(params@.take(i as int), key@),
        decreases i,
    {
        proof {
            assert(params@.take(i as int).drop_last() =~= params@.take(i - 1));
            assert(params@.take(i as int).last() == params@[i - 1]);
        }
        if params[i - 1].0 == key_string {
            return Some(i - 1);
        }
        i = i - 1;
    }
    None
}

fn template_string(params: &Vec<(String, String)>, key: &str) -> (r: String)
    ensures
        r@ == template_text(params@, key@),
{
    match find_template(params, key) {
        Some(i) => params[i].1.clone(),
        None => String::new(),
    }
}

/// Reads a poke notice from its template parameters (a later parameter
/// with the same name replacing an earlier one): the action is
/// `action_str`, else `alt_str1`; the operator and target are `uin_str1`
/// and `uin_str2` as numbers (0 when missing or not a number); then
/// `suffix` and `action_img_url`. Missing texts are empty.
pub fn extract_poke_info(params: Vec<(String, String)>) -> (r: PokeArgs)
    ensures
        r.action@ == match template_value(params@, "action_str"@) {
            Some(v) => v,
            None => template_text(params@, "alt_str1"@),
        },
        r.operator_uin == template_uin(params@, "uin_str1"@),
        r.target_uin == template_uin(params@, "uin_str2"@),
        r.suffix@ == template_text(params@, "suffix"@),
        r.action_img_url@ == template_text(params@, "action_img_url"@),
{
    let action = match find_template(&params, "action_str") {
        Some(i) => params[i].1.clone(),
        None => template_string(&params, "alt_str1"),
    };
    let op = template_string(&params, "uin_str1");
    let operator_uin = match parse_u32(op.as_str()) {
        Ok(v) => v,
        Err(_) => 0,
    };
    let tg = template_string(&params, "uin_str2");
    let target_uin = match parse_u32(tg.as_str()) {
        Ok(v) => v,
        Err(_) => 0,
    };
    let suffix = template_string(&params, "suffix");
    let action_img_url = template_string(&params, "action_img_url");
    PokeArgs { action, operator_uin, target_uin, suffix, action_img_url }
}

/// `r` takes the content `c` out for a notice of kind `kind`.
pub open spec fn routed_as(r: Result<PushRoute, EventError>, kind: NoticeKind, c: Seq<u8>) -> bool {
    r matches Ok(PushRoute::Notice(k, v)) && k == kind && v@ == c
}

/// A pushed message is routed by its type: 166, 82, 141 and 208 are the
/// private, group, temporary and private voice chat messages, 529 a
/// friend's file; with content `c`, 525 is a group invitation request, 84 a
/// join request, 87 an invitation, 44 an admin change, 33 and 34 a member
/// coming and going. The content is taken out of the message.
pub proof fn law_push_routes_by_type(p: PushMsg, q: PushMsg, r: Result<PushRoute, EventError>)
    requires
        route_follows(push_plan(p), p, q, r),
    ensures
        typ_of(p) == Some(166u32) ==> r matches Ok(PushRoute::Chat(PkgType::PrivateMessage)),
        typ_of(p) == Some(82u32) ==> r matches Ok(PushRoute::Chat(PkgType::GroupMessage)),
        typ_of(p) == Some(141u32) ==> r matches Ok(PushRoute::Chat(PkgType::TempMessage)),
        typ_of(p) == Some(208u32) ==> r matches Ok(PushRoute::Chat(PkgType::PrivateRecordMessage)),
        typ_of(p) == Some(529u32) ==> r matches Ok(PushRoute::PrivateFile),
        msg_content_of(p) matches Some(c) ==> {
            &&& typ_of(p) == Some(525u32) ==> routed_as(r, NoticeKind::GroupRequestInvitation, c)
            &&& typ_of(p) == Some(84u32) ==> routed_as(r, NoticeKind::GroupRequestJoin, c)
            &&& typ_of(p) == Some(87u32) ==> routed_as(r, NoticeKind::GroupInvite, c)
            &&& typ_of(p) == Some(44u32) ==> routed_as(r, NoticeKind::GroupAdminChanged, c)
            &&& typ_of(p) == Some(33u32) ==> routed_as(r, NoticeKind::GroupMemberIncrease, c)
            &&& typ_of(p) == Some(34u32) ==> routed_as(r, NoticeKind::GroupMemberDecrease, c)
        },
{
}

/// A group notice (type 0x2DC) with content `c` is routed by its sub type
/// to the notice that the sub type names: 12 a mute, 16 the kinds of sub
/// type 16, 17 a recall, 20 a grey tip, 21 an essence message. The content
/// is taken out of the message, and nothing else of it changes.
pub proof fn law_group_notice_routes_by_sub_type(
    p: PushMsg,
    q: PushMsg,
    r: Result<PushRoute, EventError>,
)
    requires
        typ_of(p) == Some(0x2DCu32),
        route_follows(push_plan(p), p, q, r),
    ensures
        msg_content_of(p) matches Some(c) ==> {
            &&& sub_type_of(p) == Some(12u32) ==> routed_as(r, NoticeKind::GroupMute, c)
            &&& sub_type_of(p) == Some(16u32) ==> routed_as(r, NoticeKind::GroupSubType16, c)
            &&& sub_type_of(p) == Some(17u32) ==> routed_as(r, NoticeKind::GroupRecall, c)
            &&& sub_type_of(p) == Some(20u32) ==> routed_as(r, NoticeKind::GroupGreyTip, c)
            &&& sub_type_of(p) == Some(21u32) ==> routed_as(r, NoticeKind::GroupEssence, c)
        },
        forall|t: Event0x2DCSubType|
            sub_type_of(p) == Some(#[trigger] t.spec_code()) ==> content_taken(p, q),
        sub_type_of(p) is None ==> (r matches Err(EventError::OtherError(m)) && m@
            == "Cannot get sub_type in PushMsg"@),
{
}

/// A friend notice (type 0x210) with content `c` is routed by its sub type
/// to the notice that the sub type names: 29 the account's own rename, 38 a
/// member entering, 39 a friend deleted or a pin changed, 290 a poke, 179
/// and 226 a new friend; 35 (a friend request) and 138 (a friend's recall)
/// are read in place, with the sender from the message's head.
pub proof fn law_friend_notice_routes_by_sub_type(
    p: PushMsg,
    q: PushMsg,
    r: Result<PushRoute, EventError>,
)
    requires
        typ_of(p) == Some(0x210u32),
        route_follows(push_plan(p), p, q, r),
    ensures
        msg_content_of(p) matches Some(c) ==> {
            &&& sub_type_of(p) == Some(29u32) ==> routed_as(r, NoticeKind::SelfRename, c)
            &&& sub_type_of(p) == Some(38u32) ==> routed_as(r, NoticeKind::GroupMemberEnter, c)
            &&& sub_type_of(p) == Some(39u32) ==> routed_as(
                r,
                NoticeKind::FriendDeleteOrPinChanged,
                c,
            )
            &&& sub_type_of(p) == Some(290u32) ==> routed_as(r, NoticeKind::FriendPoke, c)
            &&& sub_type_of(p) == Some(179u32) ==> routed_as(r, NoticeKind::NewFriend, c)
            &&& sub_type_of(p) == Some(226u32) ==> routed_as(r, NoticeKind::NewFriend, c)
            &&& (sub_type_of(p) == Some(35u32) && response_head_of(p) is Some) ==> (
            r matches Ok(PushRoute::FriendRequest { content, from_uin }) && content@ == c
                && from_uin == response_head_of(p)->0.from_uin)
            &&& (sub_type_of(p) == Some(138u32) && response_head_of(p) is Some) ==> (
            r matches Ok(PushRoute::FriendRecall { content, .. }) && content@ == c)
        },
        sub_type_of(p) is None ==> (r matches Err(EventError::OtherError(m)) && m@
            == "Cannot get sub_type in PushMsg"@),
{
}

/// The codes that name the notice sub types: for group notices 12 a mute,
/// 16 the kinds of sub type 16, 17 a recall, 20 a grey tip, 21 an essence
/// message; for sub type 16, 6 a special title, 12 a name change, 23 a
/// to-do, 35 a reaction; for friend notices 29 the account's rename, 35 a
/// friend request, 38 a member entering, 39 a friend deleted or a pin
/// changed, 138 a recall, 179 and 226 a new friend, 199 a service pin, 212
/// a kick, 290 a poke.
pub proof fn law_notice_sub_type_codes(t: Event0x2DCSubType, f: Event0x2DCSubType16Field13, u: Event0x210SubType)
    ensures
        t.spec_code() == 12 <==> t is GroupMuteNotice,
        t.spec_code() == 16 <==> t is SubType16,
        t.spec_code() == 17 <==> t is GroupRecallNotice,
        t.spec_code() == 20 <==> t is GroupGreyTipNotice,
        t.spec_code() == 21 <==> t is GroupEssenceNotice,
        f.spec_code() == 6 <==> f is GroupMemberSpecialTitleNotice,
        f.spec_code() == 12 <==> f is GroupNameChangeNotice,
        f.spec_code() == 23 <==> f is GroupTodoNotice,
        f.spec_code() == 35 <==> f is GroupReactionNotice,
        u.spec_code() == 29 <==> u is SelfRenameNotice,
        u.spec_code() == 35 <==> u is FriendRequestNotice,
        u.spec_code() == 38 <==> u is GroupMemberEnterNotice,
        u.spec_code() == 39 <==> u is FriendDeleteOrPinChangedNotice,
        u.spec_code() == 138 <==> u is FriendRecallNotice,
        u.spec_code() == 179 <==> u is SubType179,
        u.spec_code() == 199 <==> u is ServicePinChanged,
        u.spec_code() == 226 <==> u is SubType226,
        u.spec_code() == 212 <==> u is GroupKickNotice,
        u.spec_code() == 290 <==> u is FriendPokeNotice,
{
}

} // verus!


