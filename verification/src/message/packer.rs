//! Reading a pushed chat message into a message chain.
use vstd::prelude::*;
use crate::message::chain::{
    ClientSequence, FriendMessageUniqueElem, GroupMessageUniqueElem, MessageChain, MessageId,
    MessageType,
};
use vstd::string::StringExecFns;
use crate::message::entity::{
    elem_readable, elems_complete, entity_from, Entity, FileC2CUnique, FileEntity, FileUnique, MarketFaceElem,
    MarketFaceEntity,
};
use crate::push_msg::{Elem, PushMsgBody};
use crate::text::hex_lower;

verus! {

/// The value in `o`, or 0.
pub open spec fn or_zero_u32(o: Option<u32>) -> u32 {
    match o {
        Some(v) => v,
        None => 0,
    }
}

/// The value in `o`, or 0.
pub open spec fn or_zero_u64(o: Option<u64>) -> u64 {
    match o {
        Some(v) => v,
        None => 0,
    }
}

/// The text in `o`, or the empty text.
pub open spec fn or_empty(o: Option<String>) -> Seq<char> {
    match o {
        Some(s) => s@,
        None => Seq::empty(),
    }
}

/// A market face element has all four of its fields.
pub open spec fn market_face_complete(e: MarketFaceElem) -> bool {
    e.face_id is Some && e.tab_id is Some && e.key is Some && e.face_name is Some
}

/// `m` is the market face read from the element `e`.
pub open spec fn market_face_from(m: MarketFaceEntity, e: MarketFaceElem) -> bool {
    &&& m.emoji_id@ == hex_lower(e.face_id->0@)
    &&& m.emoji_package_id == e.tab_id->0
    &&& m.key@ == e.key->0@
    &&& m.summary@ == e.face_name->0@
}

/// The elements among `elems` that give an entity, in order.
pub open spec fn readable_elems(elems: Seq<Elem>) -> Seq<Elem>
    decreases elems.len(),
{
    if elems.len() == 0 {
        Seq::empty()
    } else {
        let rest = readable_elems(elems.drop_last());
        if elem_readable(elems.last()) {
            rest.push(elems.last())
        } else {
            rest
        }
    }
}

/// `es` are the entities read from `elems`, in order: one for each element
/// that gives one.
pub open spec fn entities_from(es: Seq<Entity>, elems: Seq<Elem>) -> bool {
    &&& es.len() == readable_elems(elems).len()
    &&& forall|i: int| 0 <= i < es.len() ==> entity_from(#[trigger] es[i], readable_elems(elems)[i])
}

/// No more elements give an entity than there are.
pub proof fn lemma_readable_elems_len(a: Seq<Elem>)
    ensures
        readable_elems(a).len() <= a.len(),
    decreases a.len(),
{
    if a.len() > 0 {
        lemma_readable_elems_len(a.drop_last());
    }
}

/// The elements that give an entity, of a concatenation, are those of each
/// part, in order.
pub proof fn lemma_readable_elems_concat(a: Seq<Elem>, b: Seq<Elem>)
    ensures
        readable_elems(a + b) == readable_elems(a) + readable_elems(b),
    decreases b.len(),
{
    if b.len() == 0 {
        assert(a + b =~= a);
        assert(readable_elems(a) + readable_elems(b) =~= readable_elems(a));
    } else {
        lemma_readable_elems_concat(a, b.drop_last());
        assert((a + b).drop_last() =~= a + b.drop_last());
        assert((a + b).last() == b.last());
        if elem_readable(b.last()) {
            assert(readable_elems(a) + readable_elems(b.drop_last()).push(b.last()) =~= (
            readable_elems(a) + readable_elems(b.drop_last())).push(b.last()));
        }
    }
}

/// Reading elements part by part gives what reading them at once gives:
/// the entities read from `a` followed by those read from `b` are the
/// entities read from `a + b`. No element gives nothing, and one element
/// gives its entity where a kind reads it, else nothing.
pub proof fn law_entities_from_concat(x: Seq<Entity>, a: Seq<Elem>, y: Seq<Entity>, b: Seq<Elem>)
    requires
        entities_from(x, a),
        entities_from(y, b),
    ensures
        entities_from(x + y, a + b),
        entities_from(Seq::empty(), Seq::empty()),
        forall|e: Elem, z: Seq<Entity>|
            entities_from(z, seq![e]) <==> if elem_readable(e) {
                z.len() == 1 && entity_from(z[0], e)
            } else {
                z.len() == 0
            },
{
    lemma_readable_elems_concat(a, b);
    let r = readable_elems(a + b);
    assert forall|i: int| 0 <= i < (x + y).len() implies entity_from(#[trigger] (x + y)[i], r[i]) by {
        if i < x.len() {
            assert(entity_from(x[i], readable_elems(a)[i]));
        } else {
            assert(entity_from(y[i - x.len()], readable_elems(b)[i - x.len()]));
        }
    }
    assert forall|e: Elem, z: Seq<Entity>|
        entities_from(z, seq![e]) <==> if elem_readable(e) {
            z.len() == 1 && entity_from(z[0], e)
        } else {
            z.len() == 0
        } by {
        let s = seq![e];
        reveal_with_fuel(readable_elems, 2);
        assert(s.drop_last() =~= Seq::<Elem>::empty());
        assert(s.last() == e);
        if elem_readable(e) {
            assert(readable_elems(s) =~= seq![e]);
        } else {
            assert(readable_elems(s) =~= Seq::<Elem>::empty());
        }
    }
}

/// The rich text elements of a pushed message, none where it has no rich
/// text.
pub open spec fn elems_of(body: PushMsgBody) -> Seq<Elem> {
    match body.body {
        Some(b) => match b.rich_text {
            Some(t) => t.elems@,
            None => Seq::empty(),
        },
        None => Seq::empty(),
    }
}

/// `c` holds what the heads of the pushed message `body` say (both heads
/// there): a group message in the head's group, or else a temporary message
/// (type 141) or a friend message with the sender and receiver uids and the
/// receiver's uin; the sender's uin, the message id, the time; the
/// sequence, from the content head for a group message and its NT sequence
/// otherwise.
pub open spec fn chain_head_from(c: MessageChain, body: PushMsgBody) -> bool {
    let h = body.response_head->0;
    let ch = body.content_head->0;
    &&& (c.typ is Group <==> h.grp is Some)
    &&& c.friend_uin == h.from_uin
    &&& c.message_id == MessageId(or_zero_u64(ch.msg_uid))
    &&& c.time == or_zero_u32(ch.time_stamp)
    &&& h.grp is Some ==> {
        &&& c.typ == MessageType::Group(
            GroupMessageUniqueElem { group_uin: or_zero_u64(h.grp->0.group_code) as u32 },
        )
        &&& c.uid@.len() == 0
        &&& c.self_uid@.len() == 0
        &&& c.target_uin == 0
        &&& c.sequence == or_zero_u32(ch.sequence)
    }
    &&& h.grp is None ==> {
        &&& ch.typ == 141 ==> c.typ is Temp
        &&& ch.typ != 141 ==> (c.typ matches MessageType::Friend(f) && f.friend_info is None
            && f.client_sequence == ClientSequence(or_zero_u32(ch.sequence)))
        &&& c.uid@ == or_empty(h.from_uid)
        &&& c.self_uid@ == or_empty(h.to_uid)
        &&& c.target_uin == h.to_uin
        &&& c.sequence == or_zero_u32(ch.nt_msg_seq)
    }
}

/// The file part of a private file message.
#[derive(Debug)]
pub struct FileExtraFile {
    pub file_size: Option<u32>,
    pub file_name: Option<String>,
    pub file_md5: Option<Vec<u8>>,
    pub file_uuid: Option<String>,
    pub file_hash: Option<String>,
}

/// The decoded content of a private file message.
#[derive(Debug)]
pub struct FileExtra {
    pub file: Option<FileExtraFile>,
}

/// The message content of a pushed message body, if it is there.
pub open spec fn body_content(body: PushMsgBody) -> Option<Seq<u8>> {
    match body.body {
        Some(b) => match b.msg_content {
            Some(c) => Some(c@),
            None => None,
        },
        None => None,
    }
}

/// A file part with all of its fields.
pub open spec fn file_complete(f: FileExtraFile) -> bool {
    f.file_size is Some && f.file_name is Some && f.file_md5 is Some && f.file_uuid is Some
        && f.file_hash is Some
}

/// `e` is the file element read from the complete file part `f`.
pub open spec fn file_entity_from(e: Entity, f: FileExtraFile) -> bool {
    match e {
        Entity::File(x) => {
            &&& x.file_size == f.file_size->0
            &&& x.file_name == f.file_name->0
            &&& x.file_md5@ == f.file_md5->0@
            &&& x.file_url is None
            &&& x.file_sha1@.len() == 0
            &&& x.extra == Some(
                FileUnique::C2C(FileC2CUnique { file_uuid: f.file_uuid, file_hash: f.file_hash }),
            )
        },
        _ => false,
    }
}

/// What reading the friend's file `body` gives, with `decode` decoding its
/// content: each missing part an error naming it; a decoding error or an
/// incomplete file an error; else the chat message with the file appended.
pub open spec fn private_file_follows<F: FnOnce(Vec<u8>) -> Result<FileExtra, String>>(
    body: PushMsgBody,
    decode_file_extra: F,
    r: Result<MessageChain, String>,
) -> bool {
    &&& (body_content(body) is None ==> (r matches Err(m) && m@ == "missing msg_content"@))
    &&& (body_content(body) is Some && body.response_head is None ==> (r matches Err(m) && m@
        == "missing ResponseHead"@))
    &&& (body_content(body) is Some && body.response_head is Some && body.content_head is None
        ==> (r matches Err(m) && m@ == "missing ContentHead"@))
    &&& (body_content(body) is Some && body.response_head is Some && body.content_head is Some
        ==> exists|b: Vec<u8>, d: Result<FileExtra, String>|
        b@ == body_content(body)->0 && call_ensures(decode_file_extra, (b,), d) && match d {
            Err(e) => r matches Err(m) && m@ == "failed to decode FileExtra: "@ + e@,
            Ok(x) => match x.file {
                None => r matches Err(m) && m@ == "missing file"@,
                Some(f) => if file_complete(f) {
                    r matches Ok(c) && chain_head_from(c, body) && c.entities@.len() > 0
                        && entities_from(c.entities@.drop_last(), elems_of(body))
                        && file_entity_from(c.entities@.last(), f)
                } else {
                    r matches Err(m) && m@ == "missing file fields"@
                },
            },
        })
}

/// Reads chat messages.
pub struct MessagePacker;

impl MessagePacker {
    /// Reads a pushed chat message. The sender's head and the content head
    /// must be there. A message with a group in its head is a group message
    /// in that group; else a temporary message (type 141) or a friend
    /// message, with the sender and receiver uids and the receiver's uin.
    /// Both carry the sender's uin, the message id, the time and the
    /// elements read from the rich text (whose group file payloads must be
    /// complete); the sequence is the content head's sequence for a group
    /// message and its NT sequence otherwise.
    pub fn parse_chain(push_msg_body: PushMsgBody) -> (r: Result<MessageChain, String>)
        requires
            elems_complete(elems_of(push_msg_body)),
        ensures
            push_msg_body.response_head is None ==> (r matches Err(m) && m@
                == "missing ResponseHead"@),
            push_msg_body.response_head is Some && push_msg_body.content_head is None ==> (
            r matches Err(m) && m@ == "missing ContentHead"@),
            push_msg_body.response_head is Some && push_msg_body.content_head is Some ==> (
            r matches Ok(c) && chain_head_from(c, push_msg_body) && entities_from(
                c.entities@,
                elems_of(push_msg_body),
            )),
    {
        let ghost elems = elems_of(push_msg_body);
        let PushMsgBody { response_head, content_head, body } = push_msg_body;
        let h = match response_head {
            Some(h) => h,
            None => {
                return Err(String::from_str("missing ResponseHead"));
            },
        };
        let ch = match content_head {
            Some(c) => c,
            None => {
                return Err(String::from_str("missing ContentHead"));
            },
        };
        let entities = match body {
            Some(b) => match b.rich_text {
                Some(t) => Entity::from_elems(t.elems),
                None => {
                    assert(elems =~= Seq::<Elem>::empty());
                    Vec::new()
                },
            },
            None => {
                assert(elems =~= Seq::<Elem>::empty());
                Vec::new()
            },
        };
        let message_id = MessageId(
            match ch.msg_uid {
                Some(v) => v,
                None => 0,
            },
        );
        let time: i64 = match ch.time_stamp {
            Some(t) => t as i64,
            None => 0,
        };
        match h.grp {
            Some(g) => {
                let code: u64 = match g.group_code {
                    Some(c) => c,
                    None => 0,
                };
                let group_uin = (#[verifier::truncate] (code as u32));
                Ok(
                    MessageChain {
                        typ: MessageType::Group(GroupMessageUniqueElem { group_uin }),
                        uid: String::new(),
                        self_uid: String::new(),
                        target_uin: 0,
                        friend_uin: h.from_uin,
                        message_id,
                        time,
                        sequence: match ch.sequence {
                            Some(s) => s,
                            None => 0,
                        },
                        entities,
                    },
                )
            },
            None => {
                let typ = if ch.typ == 141 {
                    MessageType::Temp
                } else {
                    MessageType::Friend(
                        FriendMessageUniqueElem {
                            friend_info: None,
                            client_sequence: ClientSequence(
                                match ch.sequence {
                                    Some(s) => s,
                                    None => 0,
                                },
                            ),
                        },
                    )
                };
                Ok(
                    MessageChain {
                        typ,
                        uid: match h.from_uid {
                            Some(u) => u,
                            None => String::new(),
                        },
                        self_uid: match h.to_uid {
                            Some(u) => u,
                            None => String::new(),
                        },
                        target_uin: h.to_uin,
                        friend_uin: h.from_uin,
                        message_id,
                        time,
                        sequence: match ch.nt_msg_seq {
                            Some(s) => s,
                            None => 0,
                        },
                        entities,
                    },
                )
            },
        }
    }

    /// Reads a file sent by a friend: the message content must be there; the
    /// message is read as a chat message, its content is decoded by
    /// `decode_file_extra`, and the file, which must be there with all of its
    /// fields, is added after the other elements.
    pub fn parse_private_file<F: FnOnce(Vec<u8>) -> Result<FileExtra, String>>(
        body: PushMsgBody,
        decode_file_extra: F,
    ) -> (r: Result<MessageChain, String>)
        requires
            elems_complete(elems_of(body)),
            forall|b: Vec<u8>| call_requires(decode_file_extra, (b,)),
        ensures
            private_file_follows(body, decode_file_extra, r),
    {
        let content = match &body.body {
            Some(b) => match &b.msg_content {
                Some(c) => c.clone(),
                None => {
                    return Err(String::from_str("missing msg_content"));
                },
            },
            None => {
                return Err(String::from_str("missing msg_content"));
            },
        };
        let ghost b0 = body;
        let mut chain = match MessagePacker::parse_chain(body) {
            Ok(c) => c,
            Err(e) => {
                return Err(e);
            },
        };
        let decoded = decode_file_extra(content);
        let extra = match decoded {
            Ok(x) => x,
            Err(e) => {
                let mut m = String::from_str("failed to decode FileExtra: ");
                m.append(e.as_str());
                return Err(m);
            },
        };
        let file = match extra.file {
            Some(f) => f,
            None => {
                return Err(String::from_str("missing file"));
            },
        };
        let ghost fg = file;
        match (file.file_size, file.file_name, file.file_md5, file.file_uuid, file.file_hash) {
            (Some(size), Some(name), Some(md5), Some(uuid), Some(hash)) => {
                let ghost before = chain.entities@;
                chain.entities.push(
                    Entity::File(
                        FileEntity {
                            file_size: size as u64,
                            file_name: name,
                            file_md5: md5,
                            file_url: None,
                            file_sha1: Vec::new(),
                            extra: Some(
                                FileUnique::C2C(
                                    FileC2CUnique { file_uuid: Some(uuid), file_hash: Some(hash) },
                                ),
                            ),
                        },
                    ),
                );
                assert(chain.entities@.drop_last() =~= before);
                Ok(chain)
            },
            _ => Err(String::from_str("missing file fields")),
        }
    }
}

} // verus!
