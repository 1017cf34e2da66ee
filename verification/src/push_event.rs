//! What a pushed message gives: the message chain it carries, the events of
//! the notices it carries, or an error.
use vstd::prelude::*;
use vstd::string::StringExecFns;
use crate::event::EventError;
use crate::message::chain::MessageChain;
use crate::message::entity::elems_complete;
use crate::message::packer::{
    chain_head_from, elems_of, entities_from, private_file_follows, FileExtra, MessagePacker,
};
use crate::notice::NoticeEvent;
use crate::push_msg::{push_plan, route_follows, route_push, PushMsg, PushMsgBody, PushPlan, PushRoute};

verus! {

/// A pushed message's own result: the message chain it carries, if any.
#[derive(Debug)]
pub struct PushMessageEvent {
    pub chain: Option<MessageChain>,
}

/// What a pushed message gives: its own result and, except for chat
/// messages, the events of its notices.
pub type PushParse = Result<(PushMessageEvent, Option<Vec<NoticeEvent>>), EventError>;

/// A chat message gives the chain read from its body and no event list; a
/// chain that cannot be read is an error that says why.
pub open spec fn chat_parsed(body: PushMsgBody, r: PushParse) -> bool {
    if body.response_head is None {
        r matches Err(EventError::OtherError(m)) && m@ == "parse_chain failed: "@ + "missing ResponseHead"@
    } else if body.content_head is None {
        r matches Err(EventError::OtherError(m)) && m@ == "parse_chain failed: "@ + "missing ContentHead"@
    } else {
        match r {
            Ok((ev, extra)) => extra is None && match ev.chain {
                Some(c) => chain_head_from(c, body) && entities_from(c.entities@, elems_of(body)),
                None => false,
            },
            Err(_) => false,
        }
    }
}

/// A friend's file gives the chain read from it (see `private_file_follows`)
/// and an empty event list; a file that cannot be read is an error that says
/// why.
pub open spec fn file_parsed<F: FnOnce(Vec<u8>) -> Result<FileExtra, String>>(
    body: PushMsgBody,
    decode_file_extra: F,
    r: PushParse,
) -> bool {
    exists|c: Result<MessageChain, String>|
        #[trigger] private_file_follows(body, decode_file_extra, c) && match c {
            Ok(ch) => match r {
                Ok((ev, extra)) => ev.chain == Some(ch) && match extra {
                    Some(v) => v@.len() == 0,
                    None => false,
                },
                Err(_) => false,
            },
            Err(m) => r matches Err(EventError::OtherError(t)) && t@ == "parse_file_chain failed: "@
                + m@,
        }
}

/// A notice gives no chain and the event that `notice` makes of its route,
/// if any; an error of `notice` is the result.
pub open spec fn notice_parsed<G: FnOnce(PushRoute) -> Result<Option<NoticeEvent>, EventError>>(
    route: PushRoute,
    notice: G,
    r: PushParse,
) -> bool {
    exists|n: Result<Option<NoticeEvent>, EventError>|
        #[trigger] call_ensures(notice, (route,), n) && match n {
            Err(e) => r == PushParse::Err(e),
            Ok(x) => match r {
                Ok((ev, extra)) => ev.chain is None && match extra {
                    Some(v) => v@ == match x {
                        Some(y) => seq![y],
                        None => Seq::<NoticeEvent>::empty(),
                    },
                    None => false,
                },
                Err(_) => false,
            },
        }
}

impl PushMessageEvent {
    /// Reads a pushed message. It is routed by `route_push`; a routing error
    /// is the result. A chat message (types 166, 82, 141 and 208) gives its
    /// chain and no event list; a friend's file (type 529) gives its chain,
    /// read with `decode_file_extra`, and an empty event list; a notice
    /// gives no chain and the event list that `notice` makes of its route.
    /// The group file payloads of a chat message or a friend's file must be
    /// complete.
    pub fn parse<
        F: FnOnce(Vec<u8>) -> Result<FileExtra, String>,
        G: FnOnce(PushRoute) -> Result<Option<NoticeEvent>, EventError>,
    >(packet: PushMsg, decode_file_extra: F, notice: G) -> (r: PushParse)
        requires
            forall|b: Vec<u8>| call_requires(decode_file_extra, (b,)),
            forall|rt: PushRoute| call_requires(notice, (rt,)),
            (push_plan(packet) is Chat || push_plan(packet) is PrivateFile) ==> elems_complete(
                elems_of(packet.message->0),
            ),
        ensures
            match push_plan(packet) {
                PushPlan::Chat(_) => chat_parsed(packet.message->0, r),
                PushPlan::PrivateFile => file_parsed(packet.message->0, decode_file_extra, r),
                _ => exists|q: PushMsg, rt: Result<PushRoute, EventError>|
                    #[trigger] route_follows(push_plan(packet), packet, q, rt) && match rt {
                        Err(e) => r == PushParse::Err(e),
                        Ok(route) => notice_parsed(route, notice, r),
                    },
            },
    {
        let ghost p0 = packet;
        let mut packet = packet;
        let routed = route_push(&mut packet);
        let ghost rt0 = routed;
        let route = match routed {
            Ok(rt) => rt,
            Err(e) => {
                assert(route_follows(push_plan(p0), p0, packet, rt0));
                return Err(e);
            },
        };
        match route {
            PushRoute::Chat(_) => {
                let body = match packet.message {
                    Some(b) => b,
                    None => {
                        return Err(EventError::OtherError(String::from_str("PushMsgBody is None")));
                    },
                };
                match MessagePacker::parse_chain(body) {
                    Ok(c) => Ok((PushMessageEvent { chain: Some(c) }, None)),
                    Err(e) => {
                        let mut m = String::from_str("parse_chain failed: ");
                        m.append(e.as_str());
                        Err(EventError::OtherError(m))
                    },
                }
            },
            PushRoute::PrivateFile => {
                let body = match packet.message {
                    Some(b) => b,
                    None => {
                        return Err(EventError::OtherError(String::from_str("PushMsgBody is None")));
                    },
                };
                let parsed = MessagePacker::parse_private_file(body, decode_file_extra);
                let ghost c = parsed;
                match parsed {
                    Ok(ch) => {
                        let r = Ok((PushMessageEvent { chain: Some(ch) }, Some(Vec::new())));
                        assert(private_file_follows(p0.message->0, decode_file_extra, c));
                        r
                    },
                    Err(e) => {
                        let mut m = String::from_str("parse_file_chain failed: ");
                        m.append(e.as_str());
                        assert(private_file_follows(p0.message->0, decode_file_extra, c));
                        Err(EventError::OtherError(m))
                    },
                }
            },
            other => {
                let ghost route0 = other;
                assert(route_follows(push_plan(p0), p0, packet, rt0));
                let n = notice(other);
                let ghost n0 = n;
                assert(call_ensures(notice, (route0,), n0));
                match n {
                    Err(e) => Err(e),
                    Ok(x) => {
                        let mut v: Vec<NoticeEvent> = Vec::new();
                        match x {
                            Some(y) => v.push(y),
                            None => {},
                        }
                        Ok((PushMessageEvent { chain: None }, Some(v)))
                    },
                }
            },
        }
    }
}

} // verus!
