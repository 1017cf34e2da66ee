//! OIDB service packets: a command, a sub command and a body, with a result
//! code on the way back.
use vstd::prelude::*;
use vstd::string::StringExecFns;
use crate::sso::PacketError;
use crate::text::{decimal, format_lower_hex_u32, lower_hex, u32_to_string};

verus! {

/// The marker that asks for the "later" handling of an OIDB request.
#[derive(Debug)]
pub struct OidbLafter;

/// The fields of an OIDB packet on the wire.
#[derive(Debug)]
pub struct OidbSvcTrpcTcpBase {
    pub command: u32,
    pub sub_command: u32,
    pub error_code: u32,
    pub body: Vec<u8>,
    pub error_msg: String,
    pub lafter: Option<OidbLafter>,
    pub reserved: i32,
}

/// An OIDB request or answer.
#[derive(Debug)]
pub struct OidbPacket {
    commend: u32,
    sub_commend: u32,
    body: Vec<u8>,
    is_lafter: bool,
    is_uid: bool,
}

/// The name of an OIDB command in an error: `0x`, the command in lowercase
/// hexadecimal, `_` and the sub command in decimal.
pub open spec fn oidb_command_name(command: u32, sub_command: u32) -> Seq<char> {
    "0x"@ + lower_hex(command as nat) + "_"@ + decimal(sub_command as nat)
}

/// `b` holds the wire fields of the request `p`.
pub open spec fn is_request_base(p: OidbPacket, b: OidbSvcTrpcTcpBase) -> bool {
    &&& b.command == p.spec_command()
    &&& b.sub_command == p.spec_sub_command()
    &&& b.error_code == 0
    &&& b.body@ == p.spec_body()
    &&& b.error_msg@.len() == 0
    &&& (b.lafter is Some <==> p.spec_is_lafter())
    &&& b.reserved == (if p.spec_is_uid() { 1i32 } else { 0i32 })
}

/// `p` is what the answer `b` reads as.
pub open spec fn reads_as(b: OidbSvcTrpcTcpBase, p: OidbPacket) -> bool {
    &&& p.spec_command() == b.command
    &&& p.spec_sub_command() == b.sub_command
    &&& p.spec_body() == b.body@
    &&& p.spec_is_lafter() == b.lafter is Some
    &&& p.spec_is_uid() == (b.reserved != 0)
}

impl OidbPacket {
    pub closed spec fn spec_command(&self) -> u32 {
        self.commend
    }

    pub closed spec fn spec_sub_command(&self) -> u32 {
        self.sub_commend
    }

    pub closed spec fn spec_body(&self) -> Seq<u8> {
        self.body@
    }

    pub closed spec fn spec_is_lafter(&self) -> bool {
        self.is_lafter
    }

    pub closed spec fn spec_is_uid(&self) -> bool {
        self.is_uid
    }

    pub fn new(commend: u32, sub_commend: u32, body: Vec<u8>, is_lafter: bool, is_uid: bool) -> (r:
        Self)
        ensures
            r.spec_command() == commend,
            r.spec_sub_command() == sub_commend,
            r.spec_body() == body@,
            r.spec_is_lafter() == is_lafter,
            r.spec_is_uid() == is_uid,
    {
        OidbPacket { commend, sub_commend, body, is_lafter, is_uid }
    }

    /// The wire fields of a request: no error, the "later" marker where
    /// asked for, and `reserved` 1 for uid requests, else 0.
    pub fn to_base(&self) -> (r: OidbSvcTrpcTcpBase)
        ensures
            is_request_base(*self, r),
    {
        OidbSvcTrpcTcpBase {
            command: self.commend,
            sub_command: self.sub_commend,
            error_code: 0,
            body: self.body.clone(),
            error_msg: String::new(),
            lafter: if self.is_lafter { Some(OidbLafter) } else { None },
            reserved: if self.is_uid { 1 } else { 0 },
        }
    }

    /// Reads an answer: error code 0 gives the packet (a nonzero `reserved`
    /// marks a uid answer); any other code is the error naming the command,
    /// the code and the server's wording.
    pub fn parse(base: OidbSvcTrpcTcpBase) -> (r: Result<OidbPacket, PacketError>)
        ensures
            base.error_code == 0 ==> (r matches Ok(p) && reads_as(base, p)),
            base.error_code != 0 ==> (r matches Err(
                PacketError::OidbPacketRetFailed { command, ret_code, client_wording },
            ) && command@ == oidb_command_name(base.command, base.sub_command) && ret_code
                == base.error_code && client_wording == base.error_msg),
    {
        if base.error_code == 0 {
            Ok(
                OidbPacket {
                    commend: base.command,
                    sub_commend: base.sub_command,
                    body: base.body,
                    is_lafter: base.lafter.is_some(),
                    is_uid: base.reserved != 0,
                },
            )
        } else {
            let mut command = String::from_str("0x");
            let h = format_lower_hex_u32(base.command);
            command.append(h.as_str());
            command.append("_");
            let d = u32_to_string(base.sub_command);
            command.append(d.as_str());
            Err(
                PacketError::OidbPacketRetFailed {
                    command,
                    ret_code: base.error_code,
                    client_wording: base.error_msg,
                },
            )
        }
    }

    /// The packet's body, to be decoded as the command's message.
    pub fn into_body(self) -> (r: Vec<u8>)
        ensures
            r@ == self.spec_body(),
    {
        self.body
    }
}

/// What `to_base` writes, `parse` reads back: the wire fields of a request
/// carry no error, and they read as a packet with the request's command, sub
/// command, body and flags.
pub proof fn law_oidb_round_trip(p: OidbPacket, b: OidbSvcTrpcTcpBase, q: OidbPacket)
    requires
        is_request_base(p, b),
        reads_as(b, q),
    ensures
        b.error_code == 0,
        q.spec_command() == p.spec_command(),
        q.spec_sub_command() == p.spec_sub_command(),
        q.spec_body() == p.spec_body(),
        q.spec_is_lafter() == p.spec_is_lafter(),
        q.spec_is_uid() == p.spec_is_uid(),
{
}

} // verus!
