//! Friends of the logged-in account.
use vstd::prelude::*;
use vstd::string::StringExecFns;
use crate::text::{decimal, u32_to_string};

verus! {

/// A group of friends.
#[derive(Debug)]
pub struct BotFriendGroup {
    pub group_id: u32,
    pub group_name: String,
}

/// A friend.
#[derive(Debug)]
pub struct BotFriend {
    pub uin: u32,
    pub uid: String,
    pub nickname: String,
    pub remarks: String,
    pub personal_sign: String,
    pub qid: String,
    pub group: Option<BotFriendGroup>,
    pub avatar: String,
}

/// The avatar URL of the account `uin`.
pub open spec fn avatar_url(uin: u32) -> Seq<char> {
    "https://q1.qlogo.cn/g?b=qq&nk="@ + decimal(uin as nat) + "&s=640"@
}

impl BotFriend {
    /// A friend with the given details; the avatar is the URL for its uin.
    pub fn new(
        uin: u32,
        uid: String,
        nickname: String,
        remarks: String,
        personal_sign: String,
        qid: String,
        group: Option<BotFriendGroup>,
    ) -> (r: Self)
        ensures
            r.uin == uin,
            r.uid == uid,
            r.nickname == nickname,
            r.remarks == remarks,
            r.personal_sign == personal_sign,
            r.qid == qid,
            r.group == group,
            r.avatar@ == avatar_url(uin),
    {
        let mut avatar = String::from_str("https://q1.qlogo.cn/g?b=qq&nk=");
        let n = u32_to_string(uin);
        avatar.append(n.as_str());
        avatar.append("&s=640");
        BotFriend { uin, uid, nickname, remarks, personal_sign, qid, group, avatar }
    }
}

} // verus!
