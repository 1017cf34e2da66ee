use mania::event::EventError;
use mania::notice::{
    friend_poke, friend_recall, friend_request, group_admin_changed, group_invite,
    group_member_decrease, group_member_increase, group_mute, group_poke, group_recall,
    group_request_invitation, group_request_join, FriendRecall, FriendRecallInfo,
    FriendRecallTipInfo, FriendRequest, FriendRequestInfo, GeneralGrayTipInfo, GroupAdmin,
    GroupAdminBody, GroupAdminExtra, GroupChange, GroupInvitation, GroupInvitationInfo,
    GroupInvitationInner, GroupInvite, GroupJoin, GroupMute, GroupMuteData, GroupMuteNotice,
    GroupMuteState, GroupRecall, RecallMessage, RecallTipInfo,
};

fn other(r: Result<impl std::fmt::Debug, EventError>) -> String {
    match r {
        Err(EventError::OtherError(m)) => m,
        other => panic!("{other:?}"),
    }
}

#[test]
fn joins_invites_and_admins() {
    let j = group_request_join(GroupJoin { target_uid: "t".into(), group_uin: 5 });
    assert_eq!((j.target_uid.as_str(), j.group_uin), ("t", 5));
    let i = group_invite(GroupInvite { group_uin: 6, invitor_uid: "i".into() });
    assert_eq!((i.group_uin, i.invitor_uid.as_str()), (6, "i"));
    let inner = || Some(GroupInvitationInfo {
        inner: Some(GroupInvitationInner { group_uin: 7, target_uid: "t".into(), invitor_uid: "i".into() }),
    });
    let e = group_request_invitation(GroupInvitation { cmd: 87, info: inner() }).unwrap();
    assert_eq!((e.group_uin, e.target_uid.as_str(), e.invitor_uid.as_str()), (7, "t", "i"));
    match group_request_invitation(GroupInvitation { cmd: 1, info: inner() }) {
        Err(EventError::InternalWarning(m)) => assert_eq!(m, "GroupRequestInvitationNotice unknown cmd"),
        other => panic!("{other:?}"),
    }
    assert_eq!(other(group_request_invitation(GroupInvitation { cmd: 87, info: None })), "GroupInvitation missing data");
    let extra = |u: &str| Some(GroupAdminExtra { admin_uid: u.into() });
    let up = group_admin_changed(GroupAdmin { group_uin: 1, body: Some(GroupAdminBody { extra_enable: extra("a"), extra_disable: extra("b") }) }).unwrap();
    assert_eq!((up.uid.as_str(), up.is_promoted), ("a", true));
    let down = group_admin_changed(GroupAdmin { group_uin: 1, body: Some(GroupAdminBody { extra_enable: None, extra_disable: extra("b") }) }).unwrap();
    assert_eq!((down.uid.as_str(), down.is_promoted), ("b", false));
    assert_eq!(other(group_admin_changed(GroupAdmin { group_uin: 1, body: Some(GroupAdminBody { extra_enable: None, extra_disable: None }) })), "GroupAdmin missing extra");
    assert_eq!(other(group_admin_changed(GroupAdmin { group_uin: 1, body: None })), "GroupAdmin missing body");
}

#[test]
fn members_coming_and_going() {
    let change = |op: Option<Vec<u8>>, t: u32| GroupChange { group_uin: 9, member_uid: "m".into(), operator: op, decrease_type: t };
    let inc = group_member_increase(change(Some(b"inv".to_vec()), 130)).unwrap();
    assert_eq!((inc.invitor_uid.as_deref(), inc.event_type), (Some("inv"), 130));
    assert!(group_member_increase(change(None, 1)).unwrap().invitor_uid.is_none());
    let bad = other(group_member_increase(change(Some(vec![0xff]), 1)));
    assert!(bad.starts_with("Failed to parse invitor_uid in GroupChange: "));
    let dec = group_member_decrease(change(Some(b"op".to_vec()), 131), |_| Ok(None)).unwrap();
    assert_eq!(dec.operator_uid.as_deref(), Some("op"));
    let dec = group_member_decrease(change(Some(vec![0xff]), 131), |_| Ok(None)).unwrap();
    assert!(dec.operator_uid.is_none());
    let kicked = group_member_decrease(change(Some(vec![1]), 3), |b| Ok(Some(format!("{b:?}")))).unwrap();
    assert_eq!((kicked.operator_uid.as_deref(), kicked.event_type), (Some("[1]"), 3));
    assert_eq!(other(group_member_decrease(change(None, 3), |_| Ok(None))), "Cannot get operator in GroupChange");
}

#[test]
fn requests_pokes_mutes_and_recalls() {
    let r = friend_request(FriendRequest { info: Some(FriendRequestInfo { source_uid: "s".into(), message: "hi".into(), source: "qr".into() }) }, 10001).unwrap();
    assert_eq!((r.source_uin, r.message.as_str()), (10001, "hi"));
    assert_eq!(other(friend_request(FriendRequest { info: None }, 1)), "Missing friend request info in 0x210 sub type 35");
    let params = vec![("alt_str1".to_string(), "poked".to_string()), ("uin_str1".to_string(), "11".to_string()), ("uin_str2".to_string(), "22".to_string())];
    let p = friend_poke(GeneralGrayTipInfo { busi_type: 12, msg_templ_param: params.clone() }).unwrap();
    assert_eq!((p.action.as_str(), p.operator_uin, p.target_uin), ("poked", 11, 22));
    assert!(friend_poke(GeneralGrayTipInfo { busi_type: 13, msg_templ_param: params.clone() }).is_none());
    let g = group_poke(5, GeneralGrayTipInfo { busi_type: 12, msg_templ_param: params }).unwrap();
    assert_eq!((g.group_uin, g.target_uin), (5, 22));
    let state = |t: Option<&str>, d: u32| Some(GroupMuteData { state: Some(GroupMuteState { target_uid: t.map(String::from), duration: d }) });
    match group_mute(GroupMute { group_uin: 1, operator_uid: "o".into(), data: state(None, 0) }).unwrap() {
        GroupMuteNotice::Group(e) => assert!(!e.is_muted),
        other => panic!("{other:?}"),
    }
    match group_mute(GroupMute { group_uin: 1, operator_uid: "o".into(), data: state(Some("m"), 60) }).unwrap() {
        GroupMuteNotice::Member(e) => assert_eq!((e.target_uid.as_str(), e.duration), ("m", 60)),
        other => panic!("{other:?}"),
    }
    assert_eq!(other(group_mute(GroupMute { group_uin: 1, operator_uid: "o".into(), data: Some(GroupMuteData { state: None }) })), "GroupMute missing state");
    let recall = GroupRecall {
        operator_uid: "op".into(),
        tip_info: Some(RecallTipInfo { tip: "t".into() }),
        recall_messages: vec![RecallMessage { author_uid: "a".into(), sequence: 0x1_0000_0005, time: 7, random: 8 }],
    };
    let e = group_recall(3, Some(recall)).unwrap();
    assert_eq!((e.sequence, e.author_uid.as_str(), e.tip.as_str()), (5, "a", "t"));
    assert_eq!(other(group_recall(3, None)), "Missing recall meta in 0x2dc sub type 17");
    assert_eq!(other(group_recall(3, Some(GroupRecall { operator_uid: "o".into(), tip_info: None, recall_messages: vec![] }))), "Missing recall message in 0x2dc sub type 17");
    let f = friend_recall(FriendRecall { info: Some(FriendRecallInfo { sequence: 1, time: 2, random: 3, tip_info: Some(FriendRecallTipInfo { tip: None }) }) }, None).unwrap();
    assert_eq!((f.from_uid.as_str(), f.client_sequence, f.tip.as_str()), ("", 1, ""));
}

fn notify(reaction: Option<mania::notice::GroupReaction>, essence: Option<mania::notice::EssenceMessage>) -> mania::notice::NotifyMessageBody {
    mania::notice::NotifyMessageBody {
        field13: None,
        event_param: vec![],
        operator_uid: "op".into(),
        reaction,
        essence_message: essence,
    }
}

fn reaction(target: bool, detail: bool, reaction_type: u32) -> mania::notice::GroupReaction {
    mania::notice::GroupReaction {
        data: Some(mania::notice::GroupReactionData {
            data: Some(mania::notice::ReactionInner {
                target: if target { Some(mania::notice::ReactionTarget { sequence: 321 }) } else { None },
                data: if detail {
                    Some(mania::notice::ReactionDetail {
                        code: "76".into(),
                        reaction_type,
                        count: 3,
                        operator_uid: "u_op".into(),
                    })
                } else {
                    None
                },
            }),
        }),
    }
}

fn other_error<T: std::fmt::Debug>(r: Result<T, EventError>) -> String {
    match r {
        Err(EventError::OtherError(m)) => m,
        other => panic!("{other:?}"),
    }
}

fn warning_text<T: std::fmt::Debug>(r: Result<T, EventError>) -> String {
    match r {
        Err(EventError::InternalWarning(m)) => m,
        other => panic!("{other:?}"),
    }
}

#[test]
fn group_reactions() {
    let e = mania::notice::group_reaction(9, notify(Some(reaction(true, true, 1)), None)).unwrap();
    assert_eq!((e.target_group_uin, e.target_sequence, e.count), (9, 321, 3));
    assert_eq!((e.operator_uid.as_str(), e.code.as_str(), e.is_add), ("u_op", "76", true));
    let removed = mania::notice::group_reaction(9, notify(Some(reaction(true, true, 2)), None)).unwrap();
    assert!(!removed.is_add);
    assert_eq!(
        other_error(mania::notice::group_reaction(9, notify(None, None))),
        "Missing reaction data_2 in 0x2dc sub type 16 field 13"
    );
    let empty = mania::notice::GroupReaction { data: Some(mania::notice::GroupReactionData { data: None }) };
    assert_eq!(
        other_error(mania::notice::group_reaction(9, notify(Some(empty), None))),
        "Missing reaction data_2 in 0x2dc sub type 16 field 13"
    );
    assert_eq!(
        other_error(mania::notice::group_reaction(9, notify(Some(reaction(false, false, 1)), None))),
        "Missing reaction data_3 in 0x2dc sub type 16 field 13"
    );
    assert_eq!(
        other_error(mania::notice::group_reaction(9, notify(Some(reaction(false, true, 1)), None))),
        "Missing target_sequence in reaction in 0x2dc sub type 16 field 13"
    );
}

#[test]
fn group_name_todo_and_essence() {
    let n = mania::notice::group_name_change(4, mania::notice::GroupNameChange { name: "new".into() });
    assert_eq!((n.group_uin, n.name.as_str()), (4, "new"));
    let t = mania::notice::group_todo(4, notify(None, None));
    assert_eq!((t.group_uin, t.operator_uid.as_str()), (4, "op"));
    let x = mania::notice::EssenceMessage { msg_sequence: 10, random: 11, set_flag: 2, author_uin: 12, operator_uin: 13 };
    let e = mania::notice::group_essence(4, notify(None, Some(x))).unwrap();
    assert_eq!((e.group_uin, e.sequence, e.random, e.set_flag, e.from_uin, e.operator_uin), (4, 10, 11, 2, 12, 13));
    assert_eq!(other_error(mania::notice::group_essence(4, notify(None, None))), "Missing essence_message in 0x2dc sub type 21");
}

#[test]
fn self_rename_and_member_enter() {
    self_rename_cases();
    let detail = |style: bool| mania::notice::GroupMemberEnterNotify {
        body: Some(mania::notice::MemberEnterBody {
            info: Some(mania::notice::MemberEnterInfo {
                detail: Some(mania::notice::MemberEnterDetail {
                    group_id: 1,
                    group_member_uin: 2,
                    style: if style { Some(mania::notice::MemberEnterStyle { style_id: 3 }) } else { None },
                }),
            }),
        }),
    };
    let e = mania::notice::group_member_enter(detail(true)).unwrap();
    assert_eq!((e.group_uin, e.group_member_uin, e.style_id), (1, 2, 3));
    assert_eq!(warning_text(mania::notice::group_member_enter(detail(false))), "Missing style in 0x210 sub type 38");
    assert_eq!(
        warning_text(mania::notice::group_member_enter(mania::notice::GroupMemberEnterNotify { body: None })),
        "Missing body in 0x210 sub type 38"
    );
    let no_info = mania::notice::GroupMemberEnterNotify { body: Some(mania::notice::MemberEnterBody { info: None }) };
    assert_eq!(warning_text(mania::notice::group_member_enter(no_info)), "Missing info in 0x210 sub type 38");
    let no_detail = mania::notice::GroupMemberEnterNotify {
        body: Some(mania::notice::MemberEnterBody { info: Some(mania::notice::MemberEnterInfo { detail: None }) }),
    };
    assert_eq!(warning_text(mania::notice::group_member_enter(no_detail)), "Missing detail in 0x210 sub type 38");
}

fn self_rename_cases() {
    let ok = mania::notice::SelfRenameNotify {
        body: Some(mania::notice::SelfRenameBody { rename_data: Some(mania::notice::RenameData { nick_name: "me".into() }) }),
    };
    assert_eq!(mania::notice::self_rename(ok).unwrap().nickname, "me");
    assert_eq!(
        other_error(mania::notice::self_rename(mania::notice::SelfRenameNotify { body: None })),
        "Missing body in 0x210 sub type 29"
    );
    let no_data = mania::notice::SelfRenameNotify { body: Some(mania::notice::SelfRenameBody { rename_data: None }) };
    assert_eq!(other_error(mania::notice::self_rename(no_data)), "Missing rename_data in 0x210 sub type 29");
}

fn sub39(body_type: u32, pin: Option<Option<Vec<u8>>>, rename: Option<Option<&str>>) -> mania::notice::Sub39Notify {
    mania::notice::Sub39Notify {
        body: Some(mania::notice::Sub39Body {
            body_type,
            pin_changed: pin.map(|info| mania::notice::PinChanged {
                body: Some(mania::notice::PinChangedBody {
                    uid: "u_pin".into(),
                    group_uin: 8,
                    info: info.map(|timestamp| mania::notice::PinChangedInfo { timestamp }),
                }),
            }),
            data: rename.map(|n| mania::notice::FriendRenameData {
                uid: "u_friend".into(),
                rename_data: n.map(|s| mania::notice::RenameData { nick_name: s.into() }),
            }),
        }),
    }
}

#[test]
fn pin_changes_and_friend_renames() {
    match mania::notice::pin_change_or_friend_rename(sub39(7, Some(Some(vec![1])), None)).unwrap() {
        mania::notice::NoticeEvent::GroupSysPinChange(e) => assert_eq!((e.uid.as_str(), e.group_uin, e.is_pin), ("u_pin", 8, true)),
        other => panic!("{other:?}"),
    }
    match mania::notice::pin_change_or_friend_rename(sub39(7, Some(Some(vec![])), None)).unwrap() {
        mania::notice::NoticeEvent::GroupSysPinChange(e) => assert!(!e.is_pin),
        other => panic!("{other:?}"),
    }
    match mania::notice::pin_change_or_friend_rename(sub39(7, Some(None), None)).unwrap() {
        mania::notice::NoticeEvent::GroupSysPinChange(e) => assert!(!e.is_pin),
        other => panic!("{other:?}"),
    }
    assert_eq!(
        other_error(mania::notice::pin_change_or_friend_rename(sub39(7, None, None))),
        "Missing pin_changed in 0x210 sub type 39 type 7"
    );
    let no_pin_body = mania::notice::Sub39Notify {
        body: Some(mania::notice::Sub39Body {
            body_type: 7,
            pin_changed: Some(mania::notice::PinChanged { body: None }),
            data: None,
        }),
    };
    assert_eq!(other_error(mania::notice::pin_change_or_friend_rename(no_pin_body)), "Missing pin_changed body");
    match mania::notice::pin_change_or_friend_rename(sub39(20, None, Some(Some("nick")))).unwrap() {
        mania::notice::NoticeEvent::FriendSysRename(e) => assert_eq!((e.uid.as_str(), e.nickname.as_str()), ("u_friend", "nick")),
        other => panic!("{other:?}"),
    }
    assert_eq!(other_error(mania::notice::pin_change_or_friend_rename(sub39(20, None, Some(None)))), "Missing data.rename_data");
    assert_eq!(
        other_error(mania::notice::pin_change_or_friend_rename(sub39(20, None, None))),
        "Missing data in 0x210 sub type 39 type 20"
    );
    assert_eq!(other_error(mania::notice::pin_change_or_friend_rename(sub39(3, None, None))), "Unknown 0x210 sub type 39 type");
    assert_eq!(
        other_error(mania::notice::pin_change_or_friend_rename(mania::notice::Sub39Notify { body: None })),
        "Missing body in 0x210 sub type 39"
    );
}

#[test]
fn new_friends() {
    let info = mania::notice::NewFriendInfo { uid: "u".into(), nick_name: "n".into(), message: "hi".into() };
    let e = mania::notice::new_friend(mania::notice::NewFriend { info: Some(info) }).unwrap();
    assert_eq!((e.from_uid.as_str(), e.from_nickname.as_str(), e.msg.as_str()), ("u", "n", "hi"));
    assert_eq!(other_error(mania::notice::new_friend(mania::notice::NewFriend { info: None })), "Missing info in 0x210 sub type 179");
}

#[test]
fn special_titles() {
    let inner = r#"<{"cmd":1,"data":"10","text":"nick"}> got <{"cmd":3,"data":"x","text":"Boss","url":"https://t"}> title"#;
    let (user, medal) = mania::notice::special_title_texts(inner).unwrap();
    assert_eq!(user, r#"{"cmd":1,"data":"10","text":"nick"}"#);
    assert_eq!(medal, r#"{"cmd":3,"data":"x","text":"Boss","url":"https://t"}"#);
    assert_eq!(other_error(mania::notice::special_title_texts("<one> only")), "Failed to parse special title");
    assert_eq!(other_error(mania::notice::special_title_texts("<a> <b> <c>")), "Failed to parse special title");
    // A line break inside the brackets ends the search at that `<`.
    assert_eq!(other_error(mania::notice::special_title_texts("<a\nb> <c>")), "Failed to parse special title");
    let (a, b) = mania::notice::special_title_texts("<<x>y<z>").unwrap();
    assert_eq!((a.as_str(), b.as_str()), ("<x", "z"));
    let e = mania::notice::group_special_title(
        5,
        6,
        mania::notice::SpecialTitleUserInfo { data: "10".into(), text: "nick".into() },
        mania::notice::SpecialTitleMedalInfo { data: "x".into(), text: "Boss".into(), url: "https://t".into() },
    );
    assert_eq!((e.group_uin, e.target_uin), (5, 6));
    assert_eq!((e.target_nickname.as_str(), e.special_title.as_str(), e.special_title_detail_url.as_str()), ("nick", "Boss", "https://t"));
}

fn no_title(_: u32, _: Vec<u8>) -> Result<mania::notice::GroupSysSpecialTitleEvent, EventError> {
    Err(EventError::OtherError("no title".into()))
}

fn no_name(_: Vec<u8>) -> Result<mania::notice::GroupNameChange, EventError> {
    Err(EventError::OtherError("no name".into()))
}

fn sub16(field13: Option<u32>) -> mania::notice::NotifyMessageBody {
    let mut b = notify(Some(reaction(true, true, 1)), None);
    b.field13 = field13;
    b.event_param = vec![5, 6];
    b
}

#[test]
fn group_sub16_kinds() {
    match mania::notice::group_sub16_event(3, sub16(Some(23)), no_title, no_name).unwrap() {
        mania::notice::NoticeEvent::GroupSysTodo(e) => assert_eq!((e.group_uin, e.operator_uid.as_str()), (3, "op")),
        other => panic!("{other:?}"),
    }
    match mania::notice::group_sub16_event(3, sub16(Some(35)), no_title, no_name).unwrap() {
        mania::notice::NoticeEvent::GroupSysReaction(e) => assert_eq!((e.target_group_uin, e.target_sequence, e.is_add), (3, 321, true)),
        other => panic!("{other:?}"),
    }
    let name = |b: Vec<u8>| -> Result<mania::notice::GroupNameChange, EventError> {
        assert_eq!(b, vec![5, 6]);
        Ok(mania::notice::GroupNameChange { name: "renamed".into() })
    };
    match mania::notice::group_sub16_event(3, sub16(Some(12)), no_title, name).unwrap() {
        mania::notice::NoticeEvent::GroupSysNameChange(e) => assert_eq!((e.group_uin, e.name.as_str()), (3, "renamed")),
        other => panic!("{other:?}"),
    }
    assert_eq!(other_error(mania::notice::group_sub16_event(3, sub16(Some(12)), no_title, no_name)), "no name");
    assert_eq!(other_error(mania::notice::group_sub16_event(3, sub16(Some(6)), no_title, no_name)), "no title");
    let title = |g: u32, b: Vec<u8>| -> Result<mania::notice::GroupSysSpecialTitleEvent, EventError> {
        assert_eq!((g, b), (3, vec![5, 6]));
        Ok(mania::notice::group_special_title(
            g,
            4,
            mania::notice::SpecialTitleUserInfo { data: String::new(), text: "n".into() },
            mania::notice::SpecialTitleMedalInfo { data: String::new(), text: "t".into(), url: "u".into() },
        ))
    };
    match mania::notice::group_sub16_event(3, sub16(Some(6)), title, no_name).unwrap() {
        mania::notice::NoticeEvent::GroupSysSpecialTitle(e) => assert_eq!((e.target_uin, e.special_title.as_str()), (4, "t")),
        other => panic!("{other:?}"),
    }
    assert_eq!(
        warning_text(mania::notice::group_sub16_event(3, sub16(None), no_title, no_name)),
        "Failed to parse 0x2dc sub type 16 field 13: No discriminant in enum `Event0x2DCSubType16Field13` matches the value `0`"
    );
}
