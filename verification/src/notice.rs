//! The events that group and friend notices give: joins, invitations, admin
//! changes, members coming and going, friend requests, pokes, recalls,
//! special titles, name changes, to-dos, reactions, essence messages,
//! renames, entrances, pin changes and new friends. Each notice is read from
//! its decoded fields.
use vstd::prelude::*;
use vstd::string::StringExecFns;
use crate::event::EventError;
use crate::push_msg::{
    classify_0x2dc_sub16, extract_poke_info, template_text, template_uin, template_value,
    Event0x2DCSubType16Field13,
};
use crate::text::decimal;

verus! {

// ---------------------------------------------------------------------------
// The decoded notices
// ---------------------------------------------------------------------------

/// Someone asked to join a group.
#[derive(Debug)]
pub struct GroupJoin {
    pub target_uid: String,
    pub group_uin: u32,
}

/// The account was invited to a group.
#[derive(Debug)]
pub struct GroupInvite {
    pub group_uin: u32,
    pub invitor_uid: String,
}

/// Who invited whom to which group.
#[derive(Debug)]
pub struct GroupInvitationInner {
    pub group_uin: u32,
    pub target_uid: String,
    pub invitor_uid: String,
}

#[derive(Debug)]
pub struct GroupInvitationInfo {
    pub inner: Option<GroupInvitationInner>,
}

/// A member invited someone to a group.
#[derive(Debug)]
pub struct GroupInvitation {
    pub cmd: u32,
    pub info: Option<GroupInvitationInfo>,
}

/// The admin whose role changed.
#[derive(Debug)]
pub struct GroupAdminExtra {
    pub admin_uid: String,
}

#[derive(Debug)]
pub struct GroupAdminBody {
    pub extra_enable: Option<GroupAdminExtra>,
    pub extra_disable: Option<GroupAdminExtra>,
}

/// An admin was set or unset.
#[derive(Debug)]
pub struct GroupAdmin {
    pub group_uin: u32,
    pub body: Option<GroupAdminBody>,
}

/// A member came or went.
#[derive(Debug)]
pub struct GroupChange {
    pub group_uin: u32,
    pub member_uid: String,
    pub operator: Option<Vec<u8>>,
    pub decrease_type: u32,
}

/// What a friend request says.
#[derive(Debug)]
pub struct FriendRequestInfo {
    pub source_uid: String,
    pub message: String,
    pub source: String,
}

/// A friend request.
#[derive(Debug)]
pub struct FriendRequest {
    pub info: Option<FriendRequestInfo>,
}

/// The tip shown for a recall.
#[derive(Debug)]
pub struct RecallTipInfo {
    pub tip: String,
}

/// A recalled group message.
#[derive(Debug)]
pub struct RecallMessage {
    pub author_uid: String,
    pub sequence: u64,
    pub time: u32,
    pub random: u32,
}

/// A recall in a group.
#[derive(Debug)]
pub struct GroupRecall {
    pub operator_uid: String,
    pub tip_info: Option<RecallTipInfo>,
    pub recall_messages: Vec<RecallMessage>,
}

/// The tip shown for a friend's recall.
#[derive(Debug)]
pub struct FriendRecallTipInfo {
    pub tip: Option<String>,
}

/// The recalled friend message.
#[derive(Debug)]
pub struct FriendRecallInfo {
    pub sequence: u32,
    pub time: u32,
    pub random: u32,
    pub tip_info: Option<FriendRecallTipInfo>,
}

/// A friend's recall.
#[derive(Debug)]
pub struct FriendRecall {
    pub info: Option<FriendRecallInfo>,
}

/// The state of a group mute: whose (nobody's for the whole group) and for
/// how long.
#[derive(Debug)]
pub struct GroupMuteState {
    pub target_uid: Option<String>,
    pub duration: u32,
}

#[derive(Debug)]
pub struct GroupMuteData {
    pub state: Option<GroupMuteState>,
}

/// A mute in a group.
#[derive(Debug)]
pub struct GroupMute {
    pub group_uin: u32,
    pub operator_uid: String,
    pub data: Option<GroupMuteData>,
}

/// A grey tip: a poke when its business type is 12.
#[derive(Debug)]
pub struct GeneralGrayTipInfo {
    pub busi_type: u32,
    pub msg_templ_param: Vec<(String, String)>,
}

// ---------------------------------------------------------------------------
// The events
// ---------------------------------------------------------------------------

/// Where a reaction points: the sequence of the message reacted to.
#[derive(Debug)]
pub struct ReactionTarget {
    pub sequence: u32,
}

/// Who reacted how: the reaction's code, its kind (1 adds it), the count
/// after it, and the operator.
#[derive(Debug)]
pub struct ReactionDetail {
    pub code: String,
    pub reaction_type: u32,
    pub count: u32,
    pub operator_uid: String,
}

/// The reaction's target and detail.
#[derive(Debug)]
pub struct ReactionInner {
    pub target: Option<ReactionTarget>,
    pub data: Option<ReactionDetail>,
}

/// A reaction in a group notice.
#[derive(Debug)]
pub struct GroupReactionData {
    pub data: Option<ReactionInner>,
}

/// The reaction part of a group notice.
#[derive(Debug)]
pub struct GroupReaction {
    pub data: Option<GroupReactionData>,
}

/// A message set as (or removed from) the group's essence.
#[derive(Debug)]
pub struct EssenceMessage {
    pub msg_sequence: u32,
    pub random: u32,
    pub set_flag: u32,
    pub author_uin: u32,
    pub operator_uin: u32,
}

/// The body of a group notice (after its group head), as far as reactions,
/// to-dos, essence messages and the other kinds of sub type 16 read it: the
/// kind (field 13) and the encoded parameter of the latter.
#[derive(Debug)]
pub struct NotifyMessageBody {
    pub field13: Option<u32>,
    pub event_param: Vec<u8>,
    pub operator_uid: String,
    pub reaction: Option<GroupReaction>,
    pub essence_message: Option<EssenceMessage>,
}

/// A group's new name.
#[derive(Debug)]
pub struct GroupNameChange {
    pub name: String,
}

/// A new nickname.
#[derive(Debug)]
pub struct RenameData {
    pub nick_name: String,
}

/// The body of the account's own rename notice.
#[derive(Debug)]
pub struct SelfRenameBody {
    pub rename_data: Option<RenameData>,
}

/// The account's own rename notice.
#[derive(Debug)]
pub struct SelfRenameNotify {
    pub body: Option<SelfRenameBody>,
}

/// How a member's entrance is shown.
#[derive(Debug)]
pub struct MemberEnterStyle {
    pub style_id: u32,
}

/// Who entered which group, and how it is shown.
#[derive(Debug)]
pub struct MemberEnterDetail {
    pub group_id: u32,
    pub group_member_uin: u32,
    pub style: Option<MemberEnterStyle>,
}

/// The information of a member's entrance.
#[derive(Debug)]
pub struct MemberEnterInfo {
    pub detail: Option<MemberEnterDetail>,
}

/// The body of a member's entrance notice.
#[derive(Debug)]
pub struct MemberEnterBody {
    pub info: Option<MemberEnterInfo>,
}

/// A member's entrance notice.
#[derive(Debug)]
pub struct GroupMemberEnterNotify {
    pub body: Option<MemberEnterBody>,
}

/// When a chat was pinned; empty where it was unpinned.
#[derive(Debug)]
pub struct PinChangedInfo {
    pub timestamp: Vec<u8>,
}

/// Which chat was pinned or unpinned: a friend's (by uid) or a group's.
#[derive(Debug)]
pub struct PinChangedBody {
    pub uid: String,
    pub group_uin: u32,
    pub info: Option<PinChangedInfo>,
}

/// A pin change.
#[derive(Debug)]
pub struct PinChanged {
    pub body: Option<PinChangedBody>,
}

/// A friend's rename: the friend's uid and the new name.
#[derive(Debug)]
pub struct FriendRenameData {
    pub uid: String,
    pub rename_data: Option<RenameData>,
}

/// The body of a pin change or friend rename notice: its kind (7 a pin
/// change, 20 a friend's rename) and the part of each kind.
#[derive(Debug)]
pub struct Sub39Body {
    pub body_type: u32,
    pub pin_changed: Option<PinChanged>,
    pub data: Option<FriendRenameData>,
}

/// A pin change or friend rename notice.
#[derive(Debug)]
pub struct Sub39Notify {
    pub body: Option<Sub39Body>,
}

/// Who became a friend.
#[derive(Debug)]
pub struct NewFriendInfo {
    pub uid: String,
    pub nick_name: String,
    pub message: String,
}

/// A new friend notice.
#[derive(Debug)]
pub struct NewFriend {
    pub info: Option<NewFriendInfo>,
}

#[derive(Debug)]
pub struct GroupSysRequestJoinEvent {
    pub target_uid: String,
    pub group_uin: u32,
}

#[derive(Debug)]
pub struct GroupSysInviteEvent {
    pub group_uin: u32,
    pub invitor_uid: String,
}

#[derive(Debug)]
pub struct GroupSysRequestInvitationEvent {
    pub group_uin: u32,
    pub target_uid: String,
    pub invitor_uid: String,
}

#[derive(Debug)]
pub struct GroupSysAdminEvent {
    pub group_uin: u32,
    pub uid: String,
    pub is_promoted: bool,
}

/// A member joined; `event_type` is the notice's change type code.
#[derive(Debug)]
pub struct GroupSysIncreaseEvent {
    pub group_uin: u32,
    pub member_uid: String,
    pub invitor_uid: Option<String>,
    pub event_type: u32,
}

/// A member left or was removed; `event_type` is the notice's change type
/// code (3: the account itself was removed).
#[derive(Debug)]
pub struct GroupSysDecreaseEvent {
    pub group_uin: u32,
    pub member_uid: String,
    pub operator_uid: Option<String>,
    pub event_type: u32,
}

#[derive(Debug)]
pub struct FriendSysRequestEvent {
    pub source_uin: u32,
    pub source_uid: String,
    pub message: String,
    pub source: String,
}

#[derive(Debug)]
pub struct FriendSysPokeEvent {
    pub operator_uin: u32,
    pub target_uin: u32,
    pub action: String,
    pub suffix: String,
    pub action_img_url: String,
}

#[derive(Debug)]
pub struct GroupSysPokeEvent {
    pub group_uin: u32,
    pub operator_uin: u32,
    pub target_uin: u32,
    pub action: String,
    pub suffix: String,
    pub action_img_url: String,
}

#[derive(Debug)]
pub struct GroupSysRecallEvent {
    pub group_uin: u32,
    pub author_uid: String,
    pub operator_uid: String,
    pub sequence: u32,
    pub time: u32,
    pub random: u32,
    pub tip: String,
}

#[derive(Debug)]
pub struct GroupSysMuteEvent {
    pub group_uin: u32,
    pub operator_uid: String,
    pub is_muted: bool,
}

#[derive(Debug)]
pub struct GroupSysMemberMuteEvent {
    pub group_uin: u32,
    pub operator_uid: String,
    pub target_uid: String,
    pub duration: u32,
}

/// What a mute notice gives: a whole group muted or unmuted, or one member
/// muted.
#[derive(Debug)]
pub enum GroupMuteNotice {
    Group(GroupSysMuteEvent),
    Member(GroupSysMemberMuteEvent),
}

#[derive(Debug)]
pub struct FriendSysRecallEvent {
    pub from_uid: String,
    pub client_sequence: u32,
    pub time: u32,
    pub random: u32,
    pub tip: String,
}

#[derive(Debug)]
pub struct GroupSysReactionEvent {
    pub target_group_uin: u32,
    pub target_sequence: u32,
    pub operator_uid: String,
    pub is_add: bool,
    pub code: String,
    pub count: u32,
}

#[derive(Debug)]
pub struct GroupSysNameChangeEvent {
    pub group_uin: u32,
    pub name: String,
}

#[derive(Debug)]
pub struct GroupSysTodoEvent {
    pub group_uin: u32,
    pub operator_uid: String,
}

/// A message set as or removed from the group's essence; `set_flag` is the
/// notice's code for which of the two.
#[derive(Debug)]
pub struct GroupSysEssenceEvent {
    pub group_uin: u32,
    pub sequence: u32,
    pub random: u32,
    pub set_flag: u32,
    pub from_uin: u32,
    pub operator_uin: u32,
}

/// The account's own nickname changed.
#[derive(Debug)]
pub struct BotSysRenameEvent {
    pub nickname: String,
}

#[derive(Debug)]
pub struct GroupSysMemberEnterEvent {
    pub group_uin: u32,
    pub group_member_uin: u32,
    pub style_id: u32,
}

#[derive(Debug)]
pub struct GroupSysPinChangeEvent {
    pub uid: String,
    pub group_uin: u32,
    pub is_pin: bool,
}

#[derive(Debug)]
pub struct FriendSysRenameEvent {
    pub uid: String,
    pub nickname: String,
}

#[derive(Debug)]
pub struct FriendSysNewEvent {
    pub from_uid: String,
    pub from_nickname: String,
    pub msg: String,
}

#[derive(Debug)]
pub struct GroupSysSpecialTitleEvent {
    pub target_uin: u32,
    pub target_nickname: String,
    pub special_title: String,
    pub special_title_detail_url: String,
    pub group_uin: u32,
}

/// The member part of a special title notice (a JSON object).
#[derive(Debug)]
pub struct SpecialTitleUserInfo {
    pub data: String,
    pub text: String,
}

/// The title part of a special title notice (a JSON object).
#[derive(Debug)]
pub struct SpecialTitleMedalInfo {
    pub data: String,
    pub text: String,
    pub url: String,
}

/// An event that a notice gives.
#[derive(Debug)]
pub enum NoticeEvent {
    GroupSysRequestJoin(GroupSysRequestJoinEvent),
    GroupSysInvite(GroupSysInviteEvent),
    GroupSysRequestInvitation(GroupSysRequestInvitationEvent),
    GroupSysAdmin(GroupSysAdminEvent),
    GroupSysIncrease(GroupSysIncreaseEvent),
    GroupSysDecrease(GroupSysDecreaseEvent),
    FriendSysRequest(FriendSysRequestEvent),
    FriendSysPoke(FriendSysPokeEvent),
    GroupSysPoke(GroupSysPokeEvent),
    GroupSysRecall(GroupSysRecallEvent),
    GroupSysMute(GroupSysMuteEvent),
    GroupSysMemberMute(GroupSysMemberMuteEvent),
    FriendSysRecall(FriendSysRecallEvent),
    GroupSysSpecialTitle(GroupSysSpecialTitleEvent),
    GroupSysReaction(GroupSysReactionEvent),
    GroupSysNameChange(GroupSysNameChangeEvent),
    GroupSysTodo(GroupSysTodoEvent),
    GroupSysEssence(GroupSysEssenceEvent),
    BotSysRename(BotSysRenameEvent),
    GroupSysMemberEnter(GroupSysMemberEnterEvent),
    GroupSysPinChange(GroupSysPinChangeEvent),
    FriendSysRename(FriendSysRenameEvent),
    FriendSysNew(FriendSysNewEvent),
}

// ---------------------------------------------------------------------------
// Reading the notices
// ---------------------------------------------------------------------------

/// What `String::from_utf8` reports of bytes that are not UTF-8, as its
/// error displays.
pub uninterp spec fn utf8_error_text(bytes: Seq<u8>) -> Seq<char>;

/// Calls `String::from_utf8`: the text the bytes spell where they are
/// valid UTF-8; else the error's displayed text (named `utf8_error_text`).
#[verifier::external_body]
fn string_from_utf8(bytes: Vec<u8>) -> (r: Result<String, String>)
    ensures
        r is Ok <==> vstd::utf8::valid_utf8(bytes@),
        r matches Ok(s) ==> s@ == vstd::utf8::decode_utf8(bytes@),
        r matches Err(e) ==> e@ == utf8_error_text(bytes@),
{
    String::from_utf8(bytes).map_err(|e| e.to_string())
}

/// Someone asked to join a group.
pub fn group_request_join(join: GroupJoin) -> (r: GroupSysRequestJoinEvent)
    ensures
        r.target_uid == join.target_uid,
        r.group_uin == join.group_uin,
{
    GroupSysRequestJoinEvent { target_uid: join.target_uid, group_uin: join.group_uin }
}

/// The account was invited to a group.
pub fn group_invite(invite: GroupInvite) -> (r: GroupSysInviteEvent)
    ensures
        r.group_uin == invite.group_uin,
        r.invitor_uid == invite.invitor_uid,
{
    GroupSysInviteEvent { group_uin: invite.group_uin, invitor_uid: invite.invitor_uid }
}

/// A member invited someone: only command 87 is read, and its data and
/// inner part must be there.
pub fn group_request_invitation(invite: GroupInvitation) -> (r: Result<
    GroupSysRequestInvitationEvent,
    EventError,
>)
    ensures
        invite.cmd != 87 ==> (r matches Err(EventError::InternalWarning(m)) && m@
            == "GroupRequestInvitationNotice unknown cmd"@),
        invite.cmd == 87 && invite.info is None ==> (r matches Err(EventError::OtherError(m))
            && m@ == "GroupInvitation missing data"@),
        invite.cmd == 87 && invite.info is Some && invite.info->0.inner is None ==> (r matches Err(
            EventError::OtherError(m),
        ) && m@ == "GroupInvitation missing inner"@),
        invite.cmd == 87 && invite.info is Some && invite.info->0.inner is Some ==> (r matches Ok(e)
            && e.group_uin == invite.info->0.inner->0.group_uin && e.target_uid
            == invite.info->0.inner->0.target_uid && e.invitor_uid
            == invite.info->0.inner->0.invitor_uid),
{
    if invite.cmd != 87 {
        return Err(
            EventError::InternalWarning(String::from_str("GroupRequestInvitationNotice unknown cmd")),
        );
    }
    let info = match invite.info {
        Some(i) => i,
        None => {
            return Err(EventError::OtherError(String::from_str("GroupInvitation missing data")));
        },
    };
    match info.inner {
        Some(inner) => Ok(
            GroupSysRequestInvitationEvent {
                group_uin: inner.group_uin,
                target_uid: inner.target_uid,
                invitor_uid: inner.invitor_uid,
            },
        ),
        None => Err(EventError::OtherError(String::from_str("GroupInvitation missing inner"))),
    }
}

/// An admin was set (the enabling part, read first) or unset (the
/// disabling part).
pub fn group_admin_changed(change: GroupAdmin) -> (r: Result<GroupSysAdminEvent, EventError>)
    ensures
        change.body is None ==> (r matches Err(EventError::OtherError(m)) && m@
            == "GroupAdmin missing body"@),
        change.body matches Some(b) ==> match (b.extra_enable, b.extra_disable) {
            (Some(x), _) => r matches Ok(e) && e.group_uin == change.group_uin && e.uid
                == x.admin_uid && e.is_promoted,
            (None, Some(x)) => r matches Ok(e) && e.group_uin == change.group_uin && e.uid
                == x.admin_uid && !e.is_promoted,
            (None, None) => r matches Err(EventError::OtherError(m)) && m@
                == "GroupAdmin missing extra"@,
        },
{
    let body = match change.body {
        Some(b) => b,
        None => {
            return Err(EventError::OtherError(String::from_str("GroupAdmin missing body")));
        },
    };
    match body.extra_enable {
        Some(x) => Ok(
            GroupSysAdminEvent { group_uin: change.group_uin, uid: x.admin_uid, is_promoted: true },
        ),
        None => match body.extra_disable {
            Some(x) => Ok(
                GroupSysAdminEvent {
                    group_uin: change.group_uin,
                    uid: x.admin_uid,
                    is_promoted: false,
                },
            ),
            None => Err(EventError::OtherError(String::from_str("GroupAdmin missing extra"))),
        },
    }
}

/// A member joined: the operator bytes, where there are any, are the
/// invitor's uid and must be UTF-8.
pub fn group_member_increase(change: GroupChange) -> (r: Result<GroupSysIncreaseEvent, EventError>)
    ensures
        match change.operator {
            None => r matches Ok(e) && e.group_uin == change.group_uin && e.member_uid
                == change.member_uid && e.invitor_uid is None && e.event_type
                == change.decrease_type,
            Some(op) => if vstd::utf8::valid_utf8(op@) {
                r matches Ok(e) && e.group_uin == change.group_uin && e.member_uid
                    == change.member_uid && e.invitor_uid is Some
                    && e.invitor_uid->0@ == vstd::utf8::decode_utf8(op@) && e.event_type
                    == change.decrease_type
            } else {
                r matches Err(EventError::OtherError(m)) && m@
                    == "Failed to parse invitor_uid in GroupChange: "@ + utf8_error_text(op@)
            },
        },
{
    let invitor_uid = match change.operator {
        None => None,
        Some(op) => match string_from_utf8(op) {
            Ok(u) => Some(u),
            Err(e) => {
                let mut m = String::from_str("Failed to parse invitor_uid in GroupChange: ");
                m.append(e.as_str());
                return Err(EventError::OtherError(m));
            },
        },
    };
    Ok(
        GroupSysIncreaseEvent {
            group_uin: change.group_uin,
            member_uid: change.member_uid,
            invitor_uid,
            event_type: change.decrease_type,
        },
    )
}

/// A member left or was removed. When the account itself was removed
/// (type 3) the operator bytes must be there and are decoded by
/// `decode_operator` into the operator's uid, if any; otherwise they are
/// the operator's uid when they are UTF-8.
pub fn group_member_decrease<F: FnOnce(Vec<u8>) -> Result<Option<String>, EventError>>(
    change: GroupChange,
    decode_operator: F,
) -> (r: Result<GroupSysDecreaseEvent, EventError>)
    requires
        forall|b: Vec<u8>| call_requires(decode_operator, (b,)),
    ensures
        change.decrease_type == 3 && change.operator is None ==> (r matches Err(
            EventError::OtherError(m),
        ) && m@ == "Cannot get operator in GroupChange"@),
        change.decrease_type == 3 && change.operator is Some ==> exists|
            d: Result<Option<String>, EventError>,
        |
            call_ensures(decode_operator, (change.operator->0,), d) && match d {
                Err(x) => r == Err::<GroupSysDecreaseEvent, EventError>(x),
                Ok(uid) => r matches Ok(e) && e.group_uin == change.group_uin && e.member_uid
                    == change.member_uid && e.operator_uid == uid && e.event_type == 3,
            },
        change.decrease_type != 3 ==> (r matches Ok(e) && e.group_uin == change.group_uin
            && e.member_uid == change.member_uid && e.event_type == change.decrease_type && match change.operator {
            Some(op) => if vstd::utf8::valid_utf8(op@) {
                e.operator_uid matches Some(u) && u@ == vstd::utf8::decode_utf8(op@)
            } else {
                e.operator_uid is None
            },
            None => e.operator_uid is None,
        }),
{
    if change.decrease_type == 3 {
        let op = match change.operator {
            Some(op) => op,
            None => {
                return Err(
                    EventError::OtherError(String::from_str("Cannot get operator in GroupChange")),
                );
            },
        };
        let decoded = decode_operator(op);
        match decoded {
            Err(x) => Err(x),
            Ok(uid) => Ok(
                GroupSysDecreaseEvent {
                    group_uin: change.group_uin,
                    member_uid: change.member_uid,
                    operator_uid: uid,
                    event_type: 3,
                },
            ),
        }
    } else {
        let operator_uid = match change.operator {
            None => None,
            Some(op) => match string_from_utf8(op) {
                Ok(u) => Some(u),
                Err(_) => None,
            },
        };
        Ok(
            GroupSysDecreaseEvent {
                group_uin: change.group_uin,
                member_uid: change.member_uid,
                operator_uid,
                event_type: change.decrease_type,
            },
        )
    }
}

/// A friend request, from the uin in the message's head.
pub fn friend_request(request: FriendRequest, from_uin: u32) -> (r: Result<
    FriendSysRequestEvent,
    EventError,
>)
    ensures
        request.info is None ==> (r matches Err(EventError::OtherError(m)) && m@
            == "Missing friend request info in 0x210 sub type 35"@),
        request.info matches Some(i) ==> (r matches Ok(e) && e.source_uin == from_uin
            && e.source_uid == i.source_uid && e.message == i.message && e.source == i.source),
{
    match request.info {
        Some(i) => Ok(
            FriendSysRequestEvent {
                source_uin: from_uin,
                source_uid: i.source_uid,
                message: i.message,
                source: i.source,
            },
        ),
        None => Err(
            EventError::OtherError(
                String::from_str("Missing friend request info in 0x210 sub type 35"),
            ),
        ),
    }
}

/// A friend's poke: a grey tip of business type 12 (other grey tips give
/// no event), with the action, the two uins, the suffix and the image link
/// read from its template parameters.
pub fn friend_poke(tip: GeneralGrayTipInfo) -> (r: Option<FriendSysPokeEvent>)
    ensures
        tip.busi_type != 12 ==> r is None,
        tip.busi_type == 12 ==> (r matches Some(e) && e.action@ == match template_value(
            tip.msg_templ_param@,
            "action_str"@,
        ) {
            Some(v) => v,
            None => template_text(tip.msg_templ_param@, "alt_str1"@),
        } && e.operator_uin == template_uin(tip.msg_templ_param@, "uin_str1"@) && e.target_uin
            == template_uin(tip.msg_templ_param@, "uin_str2"@) && e.suffix@ == template_text(
            tip.msg_templ_param@,
            "suffix"@,
        ) && e.action_img_url@ == template_text(tip.msg_templ_param@, "action_img_url"@)),
{
    if tip.busi_type != 12 {
        return None;
    }
    let p = extract_poke_info(tip.msg_templ_param);
    Some(
        FriendSysPokeEvent {
            operator_uin: p.operator_uin,
            target_uin: p.target_uin,
            action: p.action,
            suffix: p.suffix,
            action_img_url: p.action_img_url,
        },
    )
}

/// A poke in the group `group_uin`: a grey tip of business type 12 (other
/// grey tips give no event), read as for a friend's poke.
pub fn group_poke(group_uin: u32, tip: GeneralGrayTipInfo) -> (r: Option<GroupSysPokeEvent>)
    ensures
        tip.busi_type != 12 ==> r is None,
        tip.busi_type == 12 ==> (r matches Some(e) && e.group_uin == group_uin && e.action@
            == match template_value(tip.msg_templ_param@, "action_str"@) {
            Some(v) => v,
            None => template_text(tip.msg_templ_param@, "alt_str1"@),
        } && e.operator_uin == template_uin(tip.msg_templ_param@, "uin_str1"@) && e.target_uin
            == template_uin(tip.msg_templ_param@, "uin_str2"@) && e.suffix@ == template_text(
            tip.msg_templ_param@,
            "suffix"@,
        ) && e.action_img_url@ == template_text(tip.msg_templ_param@, "action_img_url"@)),
{
    if tip.busi_type != 12 {
        return None;
    }
    let p = extract_poke_info(tip.msg_templ_param);
    Some(
        GroupSysPokeEvent {
            group_uin,
            operator_uin: p.operator_uin,
            target_uin: p.target_uin,
            action: p.action,
            suffix: p.suffix,
            action_img_url: p.action_img_url,
        },
    )
}

/// A mute in a group: the data and state must be there; without a target
/// the whole group is muted (a nonzero duration) or unmuted, else that
/// member is muted for the duration.
pub fn group_mute(mute: GroupMute) -> (r: Result<GroupMuteNotice, EventError>)
    ensures
        mute.data is None ==> (r matches Err(EventError::OtherError(m)) && m@
            == "GroupMute missing data"@),
        mute.data is Some && mute.data->0.state is None ==> (r matches Err(
            EventError::OtherError(m),
        ) && m@ == "GroupMute missing state"@),
        mute.data is Some && mute.data->0.state is Some ==> ({
            let st = mute.data->0.state->0;
            match st.target_uid {
                None => r matches Ok(GroupMuteNotice::Group(e)) && e.group_uin == mute.group_uin
                    && e.operator_uid == mute.operator_uid && e.is_muted == (st.duration != 0),
                Some(t) => r matches Ok(GroupMuteNotice::Member(e)) && e.group_uin
                    == mute.group_uin && e.operator_uid == mute.operator_uid && e.target_uid == t
                    && e.duration == st.duration,
            }
        }),
{
    let data = match mute.data {
        Some(d) => d,
        None => {
            return Err(EventError::OtherError(String::from_str("GroupMute missing data")));
        },
    };
    let state = match data.state {
        Some(s) => s,
        None => {
            return Err(EventError::OtherError(String::from_str("GroupMute missing state")));
        },
    };
    match state.target_uid {
        None => Ok(
            GroupMuteNotice::Group(
                GroupSysMuteEvent {
                    group_uin: mute.group_uin,
                    operator_uid: mute.operator_uid,
                    is_muted: state.duration != 0,
                },
            ),
        ),
        Some(t) => Ok(
            GroupMuteNotice::Member(
                GroupSysMemberMuteEvent {
                    group_uin: mute.group_uin,
                    operator_uid: mute.operator_uid,
                    target_uid: t,
                    duration: state.duration,
                },
            ),
        ),
    }
}

/// A recall in the group `group_uin`: the recall must be there with at
/// least one message, whose author, sequence (its lower 32 bits), time and
/// random id are taken; the tip is empty where none is given.
pub fn group_recall(group_uin: u32, recall: Option<GroupRecall>) -> (r: Result<
    GroupSysRecallEvent,
    EventError,
>)
    ensures
        recall is None ==> (r matches Err(EventError::OtherError(m)) && m@
            == "Missing recall meta in 0x2dc sub type 17"@),
        recall is Some && recall->0.recall_messages@.len() == 0 ==> (r matches Err(
            EventError::OtherError(m),
        ) && m@ == "Missing recall message in 0x2dc sub type 17"@),
        recall is Some && recall->0.recall_messages@.len() > 0 ==> ({
            let rc = recall->0;
            let meta = rc.recall_messages@[0];
            r matches Ok(e) && e.group_uin == group_uin && e.author_uid@ == meta.author_uid@
                && e.operator_uid == rc.operator_uid && e.sequence == meta.sequence as u32
                && e.time == meta.time && e.random == meta.random && e.tip@ == match rc.tip_info {
                Some(t) => t.tip@,
                None => Seq::<char>::empty(),
            }
        }),
{
    let rc = match recall {
        Some(r) => r,
        None => {
            return Err(
                EventError::OtherError(String::from_str("Missing recall meta in 0x2dc sub type 17")),
            );
        },
    };
    if rc.recall_messages.len() == 0 {
        return Err(
            EventError::OtherError(String::from_str("Missing recall message in 0x2dc sub type 17")),
        );
    }
    let meta = &rc.recall_messages[0];
    let tip = match rc.tip_info {
        Some(t) => t.tip,
        None => String::new(),
    };
    Ok(
        GroupSysRecallEvent {
            group_uin,
            author_uid: meta.author_uid.clone(),
            operator_uid: rc.operator_uid,
            sequence: (#[verifier::truncate] (meta.sequence as u32)),
            time: meta.time,
            random: meta.random,
            tip,
        },
    )
}

/// A friend's recall, from the uid in the message's head (empty where it is
/// missing): its info must be there; the tip is empty where none is given.
pub fn friend_recall(recall: FriendRecall, from_uid: Option<String>) -> (r: Result<
    FriendSysRecallEvent,
    EventError,
>)
    ensures
        recall.info is None ==> (r matches Err(EventError::OtherError(m)) && m@
            == "Missing friend request info in 0x210 sub type 138"@),
        recall.info is Some ==> ({
            let i = recall.info->0;
            r matches Ok(e) && e.from_uid@ == match from_uid {
                Some(u) => u@,
                None => Seq::<char>::empty(),
            } && e.client_sequence == i.sequence && e.time == i.time && e.random == i.random
                && e.tip@ == match i.tip_info {
                Some(t) => match t.tip {
                    Some(x) => x@,
                    None => Seq::<char>::empty(),
                },
                None => Seq::<char>::empty(),
            }
        }),
{
    let i = match recall.info {
        Some(i) => i,
        None => {
            return Err(
                EventError::OtherError(
                    String::from_str("Missing friend request info in 0x210 sub type 138"),
                ),
            );
        },
    };
    let tip = match i.tip_info {
        Some(t) => match t.tip {
            Some(x) => x,
            None => String::new(),
        },
        None => String::new(),
    };
    Ok(
        FriendSysRecallEvent {
            from_uid: match from_uid {
                Some(u) => u,
                None => String::new(),
            },
            client_sequence: i.sequence,
            time: i.time,
            random: i.random,
            tip,
        },
    )
}

/// What a reaction notice in the group `group_uin` gives (see
/// `group_reaction`).
pub open spec fn reaction_follows(
    group_uin: u32,
    body: NotifyMessageBody,
    r: Result<GroupSysReactionEvent, EventError>,
) -> bool {
    let inner = match body.reaction {
        Some(g) => match g.data {
            Some(d) => d.data,
            None => None,
        },
        None => None,
    };
    match inner {
        None => r matches Err(EventError::OtherError(m)) && m@
            == "Missing reaction data_2 in 0x2dc sub type 16 field 13"@,
        Some(i) => match i.data {
            None => r matches Err(EventError::OtherError(m)) && m@
                == "Missing reaction data_3 in 0x2dc sub type 16 field 13"@,
            Some(d) => match i.target {
                None => r matches Err(EventError::OtherError(m)) && m@
                    == "Missing target_sequence in reaction in 0x2dc sub type 16 field 13"@,
                Some(t) => r matches Ok(e) && e.target_group_uin == group_uin
                    && e.target_sequence == t.sequence && e.operator_uid == d.operator_uid
                    && e.is_add == (d.reaction_type == 1) && e.code == d.code && e.count
                    == d.count,
            },
        },
    }
}

/// A reaction in the group `group_uin`: the reaction's inner part, its
/// detail and its target must be there, in that order, each missing one an
/// error naming it; kind 1 adds the reaction, any other removes it.
pub fn group_reaction(group_uin: u32, body: NotifyMessageBody) -> (r: Result<
    GroupSysReactionEvent,
    EventError,
>)
    ensures
        reaction_follows(group_uin, body, r),
{
    let inner = match body.reaction {
        Some(g) => match g.data {
            Some(d) => d.data,
            None => None,
        },
        None => None,
    };
    let inner = match inner {
        Some(i) => i,
        None => {
            return Err(
                EventError::OtherError(
                    String::from_str("Missing reaction data_2 in 0x2dc sub type 16 field 13"),
                ),
            );
        },
    };
    let detail = match inner.data {
        Some(d) => d,
        None => {
            return Err(
                EventError::OtherError(
                    String::from_str("Missing reaction data_3 in 0x2dc sub type 16 field 13"),
                ),
            );
        },
    };
    let target = match inner.target {
        Some(t) => t,
        None => {
            return Err(
                EventError::OtherError(
                    String::from_str(
                        "Missing target_sequence in reaction in 0x2dc sub type 16 field 13",
                    ),
                ),
            );
        },
    };
    Ok(
        GroupSysReactionEvent {
            target_group_uin: group_uin,
            target_sequence: target.sequence,
            operator_uid: detail.operator_uid,
            is_add: detail.reaction_type == 1,
            code: detail.code,
            count: detail.count,
        },
    )
}

/// The group `group_uin` took the name that the change gives.
pub fn group_name_change(group_uin: u32, change: GroupNameChange) -> (r: GroupSysNameChangeEvent)
    ensures
        r.group_uin == group_uin,
        r.name == change.name,
{
    GroupSysNameChangeEvent { group_uin, name: change.name }
}

/// A to-do was set in the group `group_uin` by the notice's operator.
pub fn group_todo(group_uin: u32, body: NotifyMessageBody) -> (r: GroupSysTodoEvent)
    ensures
        r.group_uin == group_uin,
        r.operator_uid == body.operator_uid,
{
    GroupSysTodoEvent { group_uin, operator_uid: body.operator_uid }
}

/// An essence message change in the group `group_uin`: the essence
/// message must be there; its sequence, random id, flag, author and
/// operator are taken.
pub fn group_essence(group_uin: u32, body: NotifyMessageBody) -> (r: Result<
    GroupSysEssenceEvent,
    EventError,
>)
    ensures
        match body.essence_message {
            None => r matches Err(EventError::OtherError(m)) && m@
                == "Missing essence_message in 0x2dc sub type 21"@,
            Some(x) => r matches Ok(e) && e.group_uin == group_uin && e.sequence == x.msg_sequence
                && e.random == x.random && e.set_flag == x.set_flag && e.from_uin == x.author_uin
                && e.operator_uin == x.operator_uin,
        },
{
    match body.essence_message {
        None => Err(
            EventError::OtherError(String::from_str("Missing essence_message in 0x2dc sub type 21")),
        ),
        Some(x) => Ok(
            GroupSysEssenceEvent {
                group_uin,
                sequence: x.msg_sequence,
                random: x.random,
                set_flag: x.set_flag,
                from_uin: x.author_uin,
                operator_uin: x.operator_uin,
            },
        ),
    }
}

/// The account's own rename: the body and its rename data must be there.
/// The new nickname is the one the session stores as the account's name.
pub fn self_rename(notify: SelfRenameNotify) -> (r: Result<BotSysRenameEvent, EventError>)
    ensures
        match notify.body {
            None => r matches Err(EventError::OtherError(m)) && m@
                == "Missing body in 0x210 sub type 29"@,
            Some(b) => match b.rename_data {
                None => r matches Err(EventError::OtherError(m)) && m@
                    == "Missing rename_data in 0x210 sub type 29"@,
                Some(d) => r matches Ok(e) && e.nickname == d.nick_name,
            },
        },
{
    let body = match notify.body {
        Some(b) => b,
        None => {
            return Err(EventError::OtherError(String::from_str("Missing body in 0x210 sub type 29")));
        },
    };
    match body.rename_data {
        Some(d) => Ok(BotSysRenameEvent { nickname: d.nick_name }),
        None => Err(
            EventError::OtherError(String::from_str("Missing rename_data in 0x210 sub type 29")),
        ),
    }
}

/// A member entered a group: the body, its info, the detail and the style
/// must be there, each missing one a warning naming it.
pub fn group_member_enter(notify: GroupMemberEnterNotify) -> (r: Result<
    GroupSysMemberEnterEvent,
    EventError,
>)
    ensures
        match notify.body {
            None => r matches Err(EventError::InternalWarning(m)) && m@
                == "Missing body in 0x210 sub type 38"@,
            Some(b) => match b.info {
                None => r matches Err(EventError::InternalWarning(m)) && m@
                    == "Missing info in 0x210 sub type 38"@,
                Some(i) => match i.detail {
                    None => r matches Err(EventError::InternalWarning(m)) && m@
                        == "Missing detail in 0x210 sub type 38"@,
                    Some(d) => match d.style {
                        None => r matches Err(EventError::InternalWarning(m)) && m@
                            == "Missing style in 0x210 sub type 38"@,
                        Some(st) => r matches Ok(e) && e.group_uin == d.group_id
                            && e.group_member_uin == d.group_member_uin && e.style_id
                            == st.style_id,
                    },
                },
            },
        },
{
    let body = match notify.body {
        Some(b) => b,
        None => {
            return Err(
                EventError::InternalWarning(String::from_str("Missing body in 0x210 sub type 38")),
            );
        },
    };
    let info = match body.info {
        Some(i) => i,
        None => {
            return Err(
                EventError::InternalWarning(String::from_str("Missing info in 0x210 sub type 38")),
            );
        },
    };
    let detail = match info.detail {
        Some(d) => d,
        None => {
            return Err(
                EventError::InternalWarning(String::from_str("Missing detail in 0x210 sub type 38")),
            );
        },
    };
    match detail.style {
        Some(st) => Ok(
            GroupSysMemberEnterEvent {
                group_uin: detail.group_id,
                group_member_uin: detail.group_member_uin,
                style_id: st.style_id,
            },
        ),
        None => Err(
            EventError::InternalWarning(String::from_str("Missing style in 0x210 sub type 38")),
        ),
    }
}

/// A pin change (kind 7) or a friend's rename (kind 20): the body must be
/// there; a pin change needs its part and that part's body, and pins where
/// it gives a non-empty time; a rename needs its data and the new name;
/// any other kind is an error.
pub fn pin_change_or_friend_rename(notify: Sub39Notify) -> (r: Result<NoticeEvent, EventError>)
    ensures
        match notify.body {
            None => r matches Err(EventError::OtherError(m)) && m@
                == "Missing body in 0x210 sub type 39"@,
            Some(b) => if b.body_type == 7 {
                match b.pin_changed {
                    None => r matches Err(EventError::OtherError(m)) && m@
                        == "Missing pin_changed in 0x210 sub type 39 type 7"@,
                    Some(pc) => match pc.body {
                        None => r matches Err(EventError::OtherError(m)) && m@
                            == "Missing pin_changed body"@,
                        Some(pb) => r matches Ok(NoticeEvent::GroupSysPinChange(e)) && e.uid
                            == pb.uid && e.group_uin == pb.group_uin && e.is_pin == (pb.info is Some
                            && pb.info->0.timestamp@.len() > 0),
                    },
                }
            } else if b.body_type == 20 {
                match b.data {
                    None => r matches Err(EventError::OtherError(m)) && m@
                        == "Missing data in 0x210 sub type 39 type 20"@,
                    Some(d) => match d.rename_data {
                        None => r matches Err(EventError::OtherError(m)) && m@
                            == "Missing data.rename_data"@,
                        Some(n) => r matches Ok(NoticeEvent::FriendSysRename(e)) && e.uid == d.uid
                            && e.nickname == n.nick_name,
                    },
                }
            } else {
                r matches Err(EventError::OtherError(m)) && m@ == "Unknown 0x210 sub type 39 type"@
            },
        },
{
    let body = match notify.body {
        Some(b) => b,
        None => {
            return Err(EventError::OtherError(String::from_str("Missing body in 0x210 sub type 39")));
        },
    };
    if body.body_type == 7 {
        let pc = match body.pin_changed {
            Some(pc) => pc,
            None => {
                return Err(
                    EventError::OtherError(
                        String::from_str("Missing pin_changed in 0x210 sub type 39 type 7"),
                    ),
                );
            },
        };
        let pb = match pc.body {
            Some(pb) => pb,
            None => {
                return Err(EventError::OtherError(String::from_str("Missing pin_changed body")));
            },
        };
        let is_pin = match &pb.info {
            Some(i) => i.timestamp.len() > 0,
            None => false,
        };
        Ok(NoticeEvent::GroupSysPinChange(GroupSysPinChangeEvent { uid: pb.uid, group_uin: pb.group_uin, is_pin }))
    } else if body.body_type == 20 {
        let d = match body.data {
            Some(d) => d,
            None => {
                return Err(
                    EventError::OtherError(String::from_str("Missing data in 0x210 sub type 39 type 20")),
                );
            },
        };
        match d.rename_data {
            Some(n) => Ok(NoticeEvent::FriendSysRename(FriendSysRenameEvent { uid: d.uid, nickname: n.nick_name })),
            None => Err(EventError::OtherError(String::from_str("Missing data.rename_data"))),
        }
    } else {
        Err(EventError::OtherError(String::from_str("Unknown 0x210 sub type 39 type")))
    }
}

/// A new friend: the info must be there; its uid, nickname and message are
/// taken.
pub fn new_friend(notice: NewFriend) -> (r: Result<FriendSysNewEvent, EventError>)
    ensures
        match notice.info {
            None => r matches Err(EventError::OtherError(m)) && m@
                == "Missing info in 0x210 sub type 179"@,
            Some(i) => r matches Ok(e) && e.from_uid == i.uid && e.from_nickname == i.nick_name
                && e.msg == i.message,
        },
{
    match notice.info {
        Some(i) => Ok(FriendSysNewEvent { from_uid: i.uid, from_nickname: i.nick_name, msg: i.message }),
        None => Err(EventError::OtherError(String::from_str("Missing info in 0x210 sub type 179"))),
    }
}

/// The first `>` at or after `k` in `s` with no line break before it.
pub open spec fn closing_bracket(s: Seq<char>, k: int) -> Option<int>
    decreases s.len() - k,
{
    if k < 0 || k >= s.len() {
        None
    } else if s[k] == '>' {
        Some(k)
    } else if s[k] == '\n' {
        None
    } else {
        closing_bracket(s, k + 1)
    }
}

/// What the pattern `<(.*?)>` captures in `s` from `p` on, in order: at the
/// first `<` that a `>` closes on the same line, the text up to the nearest
/// such `>`; the search goes on after it.
pub open spec fn bracket_captures(s: Seq<char>, p: int) -> Seq<Seq<char>>
    decreases s.len() - p,
    via bracket_captures_decreases
{
    if p < 0 || p >= s.len() {
        Seq::empty()
    } else if s[p] == '<' && closing_bracket(s, p + 1) is Some {
        let j = closing_bracket(s, p + 1)->0;
        seq![s.subrange(p + 1, j)] + bracket_captures(s, j + 1)
    } else {
        bracket_captures(s, p + 1)
    }
}

/// A closing bracket found from `k` on stands at `k` or after it.
proof fn lemma_closing_bracket_after(s: Seq<char>, k: int)
    ensures
        closing_bracket(s, k) matches Some(j) ==> k <= j < s.len(),
    decreases s.len() - k,
{
    if 0 <= k < s.len() && s[k] != '>' && s[k] != '\n' {
        lemma_closing_bracket_after(s, k + 1);
    }
}

#[via_fn]
proof fn bracket_captures_decreases(s: Seq<char>, p: int) {
    lemma_closing_bracket_after(s, p + 1);
}

/// Compiles `pattern` with `regex::Regex::new` and collects the first group
/// of each match that `captures_iter` finds in `text`. The pattern
/// `<(.*?)>` is valid and far under the size limit, so it compiles, and its
/// captures are `bracket_captures`.
#[verifier::external_body]
fn regex_captures(pattern: &str, text: &str) -> (r: Option<Vec<String>>)
    requires
        pattern@ == "<(.*?)>"@,
    ensures
        r is Some,
        r matches Some(v) ==> v@.len() == bracket_captures(text@, 0).len(),
        r matches Some(v) ==> forall|i: int|
            0 <= i < v@.len() ==> #[trigger] v@[i]@ == bracket_captures(text@, 0)[i],
{
    match regex::Regex::new(pattern) {
        Ok(re) => Some(re.captures_iter(text).map(|c| c[1].to_string()).collect()),
        Err(_) => None,
    }
}

/// The two JSON texts of a special title notice: the member's and the
/// title's, the two texts in angle brackets. Any other number of them is an
/// error.
pub fn special_title_texts(notify_inner: &str) -> (r: Result<(String, String), EventError>)
    ensures
        r matches Ok((user, medal)) ==> bracket_captures(notify_inner@, 0).len() == 2 && user@
            == bracket_captures(notify_inner@, 0)[0] && medal@ == bracket_captures(
            notify_inner@,
            0,
        )[1],
        r matches Err(e) ==> (e matches EventError::OtherError(m) && m@
            == "Failed to parse special title"@),
        r is Ok <==> bracket_captures(notify_inner@, 0).len() == 2,
{
    proof {
        reveal_strlit("<(.*?)>");
    }
    let captures = match regex_captures("<(.*?)>", notify_inner) {
        Some(c) => c,
        None => {
            return Err(EventError::OtherError(String::from_str("Failed to compile regex")));
        },
    };
    if captures.len() != 2 {
        return Err(EventError::OtherError(String::from_str("Failed to parse special title")));
    }
    let user = captures[0].clone();
    let medal = captures[1].clone();
    Ok((user, medal))
}

/// A member of the group `group_uin` got a special title: the member's
/// nickname is the member part's text, the title and its link the title
/// part's.
pub fn group_special_title(
    group_uin: u32,
    target_uin: u32,
    user: SpecialTitleUserInfo,
    medal: SpecialTitleMedalInfo,
) -> (r: GroupSysSpecialTitleEvent)
    ensures
        r.group_uin == group_uin,
        r.target_uin == target_uin,
        r.target_nickname == user.text,
        r.special_title == medal.text,
        r.special_title_detail_url == medal.url,
{
    GroupSysSpecialTitleEvent {
        target_uin,
        target_nickname: user.text,
        special_title: medal.text,
        special_title_detail_url: medal.url,
        group_uin,
    }
}

/// A group notice of sub type 16 in the group `group_uin`, by the kind that
/// its field 13 names (see `classify_0x2dc_sub16`): a special title, which
/// `read_special_title` reads from the parameter; a name change, whose
/// parameter `decode_name_change` decodes; a to-do; or a reaction. The
/// error of a function handed in is the result's.
pub fn group_sub16_event<
    S: FnOnce(u32, Vec<u8>) -> Result<GroupSysSpecialTitleEvent, EventError>,
    N: FnOnce(Vec<u8>) -> Result<GroupNameChange, EventError>,
>(group_uin: u32, body: NotifyMessageBody, read_special_title: S, decode_name_change: N) -> (r:
    Result<NoticeEvent, EventError>)
    requires
        forall|g: u32, b: Vec<u8>| call_requires(read_special_title, (g, b)),
        forall|b: Vec<u8>| call_requires(decode_name_change, (b,)),
    ensures
        ({
            let v = match body.field13 {
                Some(v) => v,
                None => 0,
            };
            if v == 6 {
                exists|x: Result<GroupSysSpecialTitleEvent, EventError>|
                    #[trigger] call_ensures(read_special_title, (group_uin, body.event_param), x)
                        && match x {
                        Ok(e) => r == Ok::<NoticeEvent, EventError>(NoticeEvent::GroupSysSpecialTitle(e)),
                        Err(e) => r == Err::<NoticeEvent, EventError>(e),
                    }
            } else if v == 12 {
                exists|x: Result<GroupNameChange, EventError>|
                    #[trigger] call_ensures(decode_name_change, (body.event_param,), x) && match x {
                        Ok(c) => match r {
                            Ok(NoticeEvent::GroupSysNameChange(e)) => e.group_uin == group_uin
                                && e.name == c.name,
                            _ => false,
                        },
                        Err(e) => r == Err::<NoticeEvent, EventError>(e),
                    }
            } else if v == 23 {
                match r {
                    Ok(NoticeEvent::GroupSysTodo(e)) => e.group_uin == group_uin && e.operator_uid
                        == body.operator_uid,
                    _ => false,
                }
            } else if v == 35 {
                exists|x: Result<GroupSysReactionEvent, EventError>|
                    #[trigger] reaction_follows(group_uin, body, x) && match x {
                        Ok(e) => r == Ok::<NoticeEvent, EventError>(NoticeEvent::GroupSysReaction(e)),
                        Err(e) => r == Err::<NoticeEvent, EventError>(e),
                    }
            } else {
                r matches Err(EventError::InternalWarning(m)) && m@
                    == "Failed to parse 0x2dc sub type 16 field 13: No discriminant in enum `Event0x2DCSubType16Field13` matches the value `"@
                    + decimal(v as nat) + "`"@
            }
        }),
{
    let ghost b0 = body;
    let kind = match classify_0x2dc_sub16(body.field13) {
        Ok(k) => k,
        Err(e) => {
            proof {
                let v = match body.field13 {
                    Some(v) => v,
                    None => 0,
                };
                assert(Event0x2DCSubType16Field13::GroupMemberSpecialTitleNotice.spec_code() != v);
                assert(Event0x2DCSubType16Field13::GroupNameChangeNotice.spec_code() != v);
                assert(Event0x2DCSubType16Field13::GroupTodoNotice.spec_code() != v);
                assert(Event0x2DCSubType16Field13::GroupReactionNotice.spec_code() != v);
            }
            return Err(e);
        },
    };
    match kind {
        Event0x2DCSubType16Field13::GroupMemberSpecialTitleNotice => {
            let x = read_special_title(group_uin, body.event_param);
            let ghost x0 = x;
            assert(call_ensures(read_special_title, (group_uin, b0.event_param), x0));
            match x {
                Ok(e) => Ok(NoticeEvent::GroupSysSpecialTitle(e)),
                Err(e) => Err(e),
            }
        },
        Event0x2DCSubType16Field13::GroupNameChangeNotice => {
            let x = decode_name_change(body.event_param);
            let ghost x0 = x;
            assert(call_ensures(decode_name_change, (b0.event_param,), x0));
            match x {
                Ok(c) => Ok(NoticeEvent::GroupSysNameChange(group_name_change(group_uin, c))),
                Err(e) => Err(e),
            }
        },
        Event0x2DCSubType16Field13::GroupTodoNotice => Ok(
            NoticeEvent::GroupSysTodo(group_todo(group_uin, body)),
        ),
        Event0x2DCSubType16Field13::GroupReactionNotice => {
            let x = group_reaction(group_uin, body);
            assert(reaction_follows(group_uin, b0, x));
            match x {
                Ok(e) => Ok(NoticeEvent::GroupSysReaction(e)),
                Err(e) => Err(e),
            }
        },
    }
}

} // verus!



