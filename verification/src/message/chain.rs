//! Messages: their identity, their kind and their elements.
use vstd::prelude::*;
use vstd::string::StringExecFns;
use crate::entity::bot_friend::BotFriend;
use crate::message::entity::Entity;
use crate::text::{decimal, u32_to_string};

verus! {

/// The id of a message.
#[derive(Clone, Copy, Debug, PartialEq, Eq, Structural)]
pub struct MessageId(pub u64);

/// The client-side sequence number of a message.
#[derive(Clone, Copy, Debug, PartialEq, Eq, Structural)]
pub struct ClientSequence(pub u32);

/// The id of a message sent with the client sequence `seq`: 0x01000000 in
/// the upper 32 bits, the sequence in the lower.
pub open spec fn message_id_of(seq: ClientSequence) -> MessageId {
    MessageId((0x01000000 * 0x1_0000_0000 + seq.0) as u64)
}

/// The random field of a sent message: the lower 32 bits of its id.
pub open spec fn random_of(id: MessageId) -> u32 {
    (id.0 % 0x1_0000_0000) as u32
}

impl MessageId {
    pub fn from_client_sequence(seq: ClientSequence) -> (r: MessageId)
        ensures
            r == message_id_of(seq),
    {
        MessageId(0x01000000u64 * 0x1_0000_0000 + seq.0 as u64)
    }

    pub fn random(&self) -> (r: u32)
        ensures
            r == random_of(*self),
    {
        (self.0 % 0x1_0000_0000) as u32
    }
}

/// What a group message carries beside its content.
#[derive(Debug)]
pub struct GroupMessageUniqueElem {
    pub group_uin: u32,
}

/// What a friend message carries beside its content.
#[derive(Debug)]
pub struct FriendMessageUniqueElem {
    pub friend_info: Option<BotFriend>,
    pub client_sequence: ClientSequence,
}

/// Whom a message is exchanged with.
#[derive(Debug)]
pub enum MessageType {
    Friend(FriendMessageUniqueElem),
    Group(GroupMessageUniqueElem),
    Temp,
    /// Not known yet.
    Unset,
}

impl Default for MessageType {
    /// A message of no kind yet.
    fn default() -> (r: Self)
        ensures
            r is Unset,
    {
        MessageType::Unset
    }
}

/// The random field of the id made from a client sequence is that
/// sequence.
pub proof fn law_message_id_random_is_sequence(seq: ClientSequence)
    ensures
        random_of(message_id_of(seq)) == seq.0,
{
}

/// Calls `rand::rng().random_range(min..=u32::MAX)`: a random number from
/// `min` up.
#[verifier::external_body]
fn random_u32_from(min: u32) -> (r: u32)
    ensures
        min <= r,
{
    rand::Rng::random_range(&mut rand::rng(), min..=u32::MAX)
}

impl Default for ClientSequence {
    /// A random sequence of at least 100000000.
    fn default() -> (r: Self)
        ensures
            100000000 <= r.0,
    {
        ClientSequence(random_u32_from(100000000))
    }
}

impl Default for MessageId {
    /// The id of a message sent with a random client sequence.
    fn default() -> (r: Self)
        ensures
            exists|seq: ClientSequence| 100000000 <= seq.0 && r == message_id_of(seq),
    {
        let seq = ClientSequence::default();
        MessageId::from_client_sequence(seq)
    }
}

impl Default for FriendMessageUniqueElem {
    /// No friend details yet, and a random client sequence.
    fn default() -> (r: Self)
        ensures
            r.friend_info is None,
            100000000 <= r.client_sequence.0,
    {
        FriendMessageUniqueElem { friend_info: None, client_sequence: ClientSequence::default() }
    }
}

/// A message: whom it is exchanged with, its ids and its elements.
#[derive(Debug)]
pub struct MessageChain {
    pub typ: MessageType,
    pub uid: String,
    pub self_uid: String,
    pub target_uin: u32,
    pub friend_uin: u32,
    pub message_id: MessageId,
    /// When it was sent, in seconds since the Unix epoch.
    pub time: i64,
    pub sequence: u32,
    pub entities: Vec<Entity>,
}

/// Texts joined with `sep` between each two.
pub open spec fn joined(parts: Seq<Seq<char>>, sep: Seq<char>) -> Seq<char>
    decreases parts.len(),
{
    if parts.len() == 0 {
        Seq::empty()
    } else if parts.len() == 1 {
        parts[0]
    } else {
        joined(parts.drop_last(), sep) + sep + parts.last()
    }
}

/// The opening of a message's debugging text: the friend and, for a group
/// message, the group; or that it is empty.
pub open spec fn chain_header(typ: MessageType, friend_uin: u32) -> Seq<char> {
    match typ {
        MessageType::Group(g) => "[MessageChain("@ + decimal(friend_uin as nat) + " -> "@ + decimal(
            g.group_uin as nat,
        ) + ")] "@,
        MessageType::Unset => "[MessageChain(Empty)] "@,
        _ => "[MessageChain("@ + decimal(friend_uin as nat) + ")] "@,
    }
}

/// The debugging texts of the elements.
pub open spec fn debug_texts(es: Seq<Entity>) -> Seq<Seq<char>> {
    es.map_values(|e: Entity| e.debug_text())
}

/// The shown texts of the elements.
pub open spec fn display_texts(es: Seq<Entity>) -> Seq<Seq<char>> {
    es.map_values(|e: Entity| e.display_text())
}

impl MessageChain {
    /// A message of no kind yet, with nothing in it and a random id.
    pub fn empty() -> (r: Self)
        ensures
            r.typ is Unset,
            r.uid@.len() == 0,
            r.self_uid@.len() == 0,
            r.target_uin == 0,
            r.friend_uin == 0,
            exists|seq: ClientSequence| 100000000 <= seq.0 && r.message_id == message_id_of(seq),
            r.time == 0,
            r.sequence == 0,
            r.entities@.len() == 0,
    {
        MessageChain {
            typ: MessageType::Unset,
            uid: String::new(),
            self_uid: String::new(),
            target_uin: 0,
            friend_uin: 0,
            message_id: MessageId::default(),
            time: 0,
            sequence: 0,
            entities: Vec::new(),
        }
    }

    /// Whether the message is a group message.
    pub fn is_group(&self) -> (r: bool)
        ensures
            r == self.typ is Group,
    {
        match self.typ {
            MessageType::Group(_) => true,
            _ => false,
        }
    }

    /// A message to or from a friend; the rest as in `empty`.
    pub fn friend(friend_uin: u32, friend_uid: &str, self_uid: &str) -> (r: Self)
        ensures
            r.typ matches MessageType::Friend(f) && f.friend_info is None && 100000000
                <= f.client_sequence.0,
            r.uid@ == friend_uid@,
            r.self_uid@ == self_uid@,
            r.friend_uin == friend_uin,
            r.target_uin == 0,
            exists|seq: ClientSequence| 100000000 <= seq.0 && r.message_id == message_id_of(seq),
            r.time == 0,
            r.sequence == 0,
            r.entities@.len() == 0,
    {
        let mut r = MessageChain::empty();
        r.typ = MessageType::Friend(FriendMessageUniqueElem::default());
        r.self_uid = String::from_str(self_uid);
        r.uid = String::from_str(friend_uid);
        r.friend_uin = friend_uin;
        r
    }

    /// A message in the group `group_uin`; the rest as in `empty`.
    pub fn group(group_uin: u32) -> (r: Self)
        ensures
            r.typ == MessageType::Group(GroupMessageUniqueElem { group_uin }),
            r.uid@.len() == 0,
            r.self_uid@.len() == 0,
            r.friend_uin == 0,
            r.target_uin == 0,
            exists|seq: ClientSequence| 100000000 <= seq.0 && r.message_id == message_id_of(seq),
            r.time == 0,
            r.sequence == 0,
            r.entities@.len() == 0,
    {
        let mut r = MessageChain::empty();
        r.typ = MessageType::Group(GroupMessageUniqueElem { group_uin });
        r
    }

    /// The debugging text: the header, then the elements' debugging texts
    /// separated by ` | `.
    pub fn debug_string(&self) -> (r: String)
        ensures
            r@ == chain_header(self.typ, self.friend_uin) + joined(
                debug_texts(self.entities@),
                " | "@,
            ),
    {
        let mut out = match &self.typ {
            MessageType::Group(g) => {
                let mut h = String::from_str("[MessageChain(");
                let f = u32_to_string(self.friend_uin);
                h.append(f.as_str());
                h.append(" -> ");
                let n = u32_to_string(g.group_uin);
                h.append(n.as_str());
                h.append(")] ");
                h
            },
            MessageType::Unset => String::from_str("[MessageChain(Empty)] "),
            _ => {
                let mut h = String::from_str("[MessageChain(");
                let f = u32_to_string(self.friend_uin);
                h.append(f.as_str());
                h.append(")] ");
                h
            },
        };
        let ghost header = out@;
        let ghost texts = debug_texts(self.entities@);
        let mut i: usize = 0;
        assert(texts.take(0) =~= Seq::<Seq<char>>::empty());
        assert(header + Seq::<char>::empty() =~= header);
        while i < self.entities.len()
            invariant
                i <= self.entities@.len(),
                texts == debug_texts(self.entities@),
                texts.len() == self.entities@.len(),
                out@ == header + joined(texts.take(i as int), " | "@),
            decreases self.entities@.len() - i,
        {
            let ghost before = out@;
            if i > 0 {
                out.append(" | ");
            }
            let t = self.entities[i].debug_string();
            out.append(t.as_str());
            proof {
                let next = texts.take(i + 1);
                assert(next.drop_last() =~= texts.take(i as int));
                assert(next.last() == t@);
                if i == 0 {
                    assert(joined(next, " | "@) == next[0]);
                }
                assert(out@ =~= header + joined(next, " | "@));
            }
            i = i + 1;
        }
        assert(texts.take(self.entities@.len() as int) =~= texts);
        out
    }

    /// The text shown for the message: the elements' texts one after the
    /// other.
    pub fn to_string(&self) -> (r: String)
        ensures
            r@ == joined(display_texts(self.entities@), Seq::empty()),
    {
        let mut out = String::new();
        let ghost texts = display_texts(self.entities@);
        let mut i: usize = 0;
        assert(texts.take(0) =~= Seq::<Seq<char>>::empty());
        while i < self.entities.len()
            invariant
                i <= self.entities@.len(),
                texts == display_texts(self.entities@),
                texts.len() == self.entities@.len(),
                out@ == joined(texts.take(i as int), Seq::empty()),
            decreases self.entities@.len() - i,
        {
            let t = self.entities[i].to_string();
            out.append(t.as_str());
            proof {
                let next = texts.take(i + 1);
                assert(next.drop_last() =~= texts.take(i as int));
                assert(next.last() == t@);
                assert(out@ =~= joined(next, Seq::empty()));
            }
            i = i + 1;
        }
        assert(texts.take(self.entities@.len() as int) =~= texts);
        out
    }
}

} // verus!
