//! Packet signatures: which commands are signed, and what a signer gives.
use vstd::prelude::*;
use vstd::string::StringExecFns;
use crate::text::{hex_encode, hex_lower};

verus! {

/// The commands whose packets carry a signature.
pub open spec fn is_signed_command(cmd: Seq<char>) -> bool {
    ||| cmd == "trpc.o3.ecdh_access.EcdhAccess.SsoEstablishShareKey"@
    ||| cmd == "trpc.o3.ecdh_access.EcdhAccess.SsoSecureAccess"@
    ||| cmd == "trpc.o3.report.Report.SsoReport"@
    ||| cmd == "MessageSvc.PbSendMsg"@
    ||| cmd == "wtlogin.trans_emp"@
    ||| cmd == "wtlogin.login"@
    ||| cmd == "trpc.login.ecdh.EcdhService.SsoKeyExchange"@
    ||| cmd == "trpc.login.ecdh.EcdhService.SsoNTLoginPasswordLogin"@
    ||| cmd == "trpc.login.ecdh.EcdhService.SsoNTLoginEasyLogin"@
    ||| cmd == "trpc.login.ecdh.EcdhService.SsoNTLoginPasswordLoginNewDevice"@
    ||| cmd == "trpc.login.ecdh.EcdhService.SsoNTLoginEasyLoginUnusualDevice"@
    ||| cmd == "trpc.login.ecdh.EcdhService.SsoNTLoginPasswordLoginUnusualDevice"@
    ||| cmd == "OidbSvcTrpcTcp.0x11ec_1"@
    ||| cmd == "OidbSvcTrpcTcp.0x758_1"@
    ||| cmd == "OidbSvcTrpcTcp.0x7c1_1"@
    ||| cmd == "OidbSvcTrpcTcp.0x7c2_5"@
    ||| cmd == "OidbSvcTrpcTcp.0x10db_1"@
    ||| cmd == "OidbSvcTrpcTcp.0x8a1_7"@
    ||| cmd == "OidbSvcTrpcTcp.0x89a_0"@
    ||| cmd == "OidbSvcTrpcTcp.0x89a_15"@
    ||| cmd == "OidbSvcTrpcTcp.0x88d_0"@
    ||| cmd == "OidbSvcTrpcTcp.0x88d_14"@
    ||| cmd == "OidbSvcTrpcTcp.0x112a_1"@
    ||| cmd == "OidbSvcTrpcTcp.0x587_74"@
    ||| cmd == "OidbSvcTrpcTcp.0x1100_1"@
    ||| cmd == "OidbSvcTrpcTcp.0x1102_1"@
    ||| cmd == "OidbSvcTrpcTcp.0x1103_1"@
    ||| cmd == "OidbSvcTrpcTcp.0x1107_1"@
    ||| cmd == "OidbSvcTrpcTcp.0x1105_1"@
    ||| cmd == "OidbSvcTrpcTcp.0xf88_1"@
    ||| cmd == "OidbSvcTrpcTcp.0xf89_1"@
    ||| cmd == "OidbSvcTrpcTcp.0xf57_1"@
    ||| cmd == "OidbSvcTrpcTcp.0xf57_106"@
    ||| cmd == "OidbSvcTrpcTcp.0xf57_9"@
    ||| cmd == "OidbSvcTrpcTcp.0xf55_1"@
    ||| cmd == "OidbSvcTrpcTcp.0xf67_1"@
    ||| cmd == "OidbSvcTrpcTcp.0xf67_5"@
    ||| cmd == "OidbSvcTrpcTcp.0x6d9_4"@
}

/// Whether two texts are equal.
fn same_text(a: &str, b: &str) -> (r: bool)
    ensures
        r == (a@ == b@),
{
    let x = a.to_owned();
    let y = b.to_owned();
    x == y
}

/// Whether packets of `cmd` carry a signature.
pub fn is_signed(cmd: &str) -> (r: bool)
    ensures
        r == is_signed_command(cmd@),
{
    same_text(cmd, "trpc.o3.ecdh_access.EcdhAccess.SsoEstablishShareKey")
        || same_text(cmd, "trpc.o3.ecdh_access.EcdhAccess.SsoSecureAccess")
        || same_text(cmd, "trpc.o3.report.Report.SsoReport")
        || same_text(cmd, "MessageSvc.PbSendMsg")
        || same_text(cmd, "wtlogin.trans_emp")
        || same_text(cmd, "wtlogin.login")
        || same_text(cmd, "trpc.login.ecdh.EcdhService.SsoKeyExchange")
        || same_text(cmd, "trpc.login.ecdh.EcdhService.SsoNTLoginPasswordLogin")
        || same_text(cmd, "trpc.login.ecdh.EcdhService.SsoNTLoginEasyLogin")
        || same_text(cmd, "trpc.login.ecdh.EcdhService.SsoNTLoginPasswordLoginNewDevice")
        || same_text(cmd, "trpc.login.ecdh.EcdhService.SsoNTLoginEasyLoginUnusualDevice")
        || same_text(cmd, "trpc.login.ecdh.EcdhService.SsoNTLoginPasswordLoginUnusualDevice")
        || same_text(cmd, "OidbSvcTrpcTcp.0x11ec_1")
        || same_text(cmd, "OidbSvcTrpcTcp.0x758_1")
        || same_text(cmd, "OidbSvcTrpcTcp.0x7c1_1")
        || same_text(cmd, "OidbSvcTrpcTcp.0x7c2_5")
        || same_text(cmd, "OidbSvcTrpcTcp.0x10db_1")
        || same_text(cmd, "OidbSvcTrpcTcp.0x8a1_7")
        || same_text(cmd, "OidbSvcTrpcTcp.0x89a_0")
        || same_text(cmd, "OidbSvcTrpcTcp.0x89a_15")
        || same_text(cmd, "OidbSvcTrpcTcp.0x88d_0")
        || same_text(cmd, "OidbSvcTrpcTcp.0x88d_14")
        || same_text(cmd, "OidbSvcTrpcTcp.0x112a_1")
        || same_text(cmd, "OidbSvcTrpcTcp.0x587_74")
        || same_text(cmd, "OidbSvcTrpcTcp.0x1100_1")
        || same_text(cmd, "OidbSvcTrpcTcp.0x1102_1")
        || same_text(cmd, "OidbSvcTrpcTcp.0x1103_1")
        || same_text(cmd, "OidbSvcTrpcTcp.0x1107_1")
        || same_text(cmd, "OidbSvcTrpcTcp.0x1105_1")
        || same_text(cmd, "OidbSvcTrpcTcp.0xf88_1")
        || same_text(cmd, "OidbSvcTrpcTcp.0xf89_1")
        || same_text(cmd, "OidbSvcTrpcTcp.0xf57_1")
        || same_text(cmd, "OidbSvcTrpcTcp.0xf57_106")
        || same_text(cmd, "OidbSvcTrpcTcp.0xf57_9")
        || same_text(cmd, "OidbSvcTrpcTcp.0xf55_1")
        || same_text(cmd, "OidbSvcTrpcTcp.0xf67_1")
        || same_text(cmd, "OidbSvcTrpcTcp.0xf67_5")
        || same_text(cmd, "OidbSvcTrpcTcp.0x6d9_4")
}

/// What a signer gives for a packet.
#[derive(Debug)]
pub struct SignResult {
    pub sign: Vec<u8>,
    pub extra: Vec<u8>,
    pub token: String,
}

impl SignResult {
    /// The placeholder signature: twenty zero bytes, no extra data, no token.
    pub fn dummy() -> (r: SignResult)
        ensures
            r.sign@ == Seq::new(20, |_i: int| 0u8),
            r.extra@ == Seq::<u8>::empty(),
            r.token@ == Seq::<char>::empty(),
    {
        let mut sign: Vec<u8> = Vec::new();
        while sign.len() < 20
            invariant
                sign@.len() <= 20,
                forall|i: int| 0 <= i < sign@.len() ==> sign@[i] == 0u8,
            decreases 20 - sign@.len(),
        {
            sign.push(0u8);
        }
        assert(sign@ =~= Seq::new(20, |_i: int| 0u8));
        SignResult { sign, extra: Vec::new(), token: String::new() }
    }
}

/// Something that signs packets.
pub trait SignProvider {
    /// Signs a packet of `cmd` with sequence `seq` and payload `body`.
    fn sign_impl(&self, cmd: &str, seq: u32, body: &[u8]) -> Option<SignResult>;

    /// Signs the packet if its command is one of the signed ones, with what
    /// `sign_impl` gives for the same command, sequence and payload; packets
    /// of other commands get no signature.
    fn sign(&self, cmd: &str, seq: u32, body: &[u8]) -> (r: Option<SignResult>)
        ensures
            !is_signed_command(cmd@) ==> r is None,
            is_signed_command(cmd@) ==> call_ensures(Self::sign_impl, (self, cmd, seq, body), r),
    {
        if is_signed(cmd) {
            self.sign_impl(cmd, seq, body)
        } else {
            None
        }
    }
}

/// What is sent to a sign server: the command, the sequence and the payload
/// in hexadecimal.
#[derive(Debug)]
pub struct SignServerReq {
    pub cmd: String,
    pub seq: u32,
    pub src: String,
}

/// Signs through a sign server at `url`; without one, every packet gets the
/// placeholder signature.
#[derive(Debug)]
pub struct LinuxSignProvider {
    pub url: Option<String>,
}

impl LinuxSignProvider {
    /// The request for the sign server, or `None` where no server is set.
    pub fn request(&self, cmd: &str, seq: u32, body: &[u8]) -> (r: Option<SignServerReq>)
        ensures
            self.url is None ==> r is None,
            self.url is Some ==> r is Some && r->0.cmd@ == cmd@ && r->0.seq == seq
                && r->0.src@ == hex_lower(body@),
    {
        match &self.url {
            None => None,
            Some(_) => Some(SignServerReq { cmd: cmd.to_owned(), seq, src: hex_encode(body) }),
        }
    }

    /// The signature given for a packet, from the server's reply: the
    /// server's signature where it answered, else the placeholder.
    pub fn outcome(reply: Option<SignResult>) -> (r: SignResult)
        ensures
            reply is Some ==> r == reply->0,
            reply is None ==> r.sign@ == Seq::new(20, |_i: int| 0u8) && r.extra@ == Seq::<
                u8,
            >::empty() && r.token@ == Seq::<char>::empty(),
    {
        match reply {
            Some(r) => r,
            None => SignResult::dummy(),
        }
    }
}

/// The commands sent signed are exactly these 38: the ECDH access and
/// report services, sending messages, the two login commands, the six NT
/// login services and the listed OIDB services (group and friend details,
/// members, requests, media and profile services).
pub proof fn law_signed_commands(cmd: Seq<char>)
    ensures
        is_signed_command("trpc.o3.ecdh_access.EcdhAccess.SsoEstablishShareKey"@),
        is_signed_command("trpc.o3.ecdh_access.EcdhAccess.SsoSecureAccess"@),
        is_signed_command("trpc.o3.report.Report.SsoReport"@),
        is_signed_command("MessageSvc.PbSendMsg"@),
        is_signed_command("wtlogin.trans_emp"@),
        is_signed_command("wtlogin.login"@),
        is_signed_command("trpc.login.ecdh.EcdhService.SsoKeyExchange"@),
        is_signed_command("trpc.login.ecdh.EcdhService.SsoNTLoginPasswordLogin"@),
        is_signed_command("trpc.login.ecdh.EcdhService.SsoNTLoginEasyLogin"@),
        is_signed_command("trpc.login.ecdh.EcdhService.SsoNTLoginPasswordLoginNewDevice"@),
        is_signed_command("trpc.login.ecdh.EcdhService.SsoNTLoginEasyLoginUnusualDevice"@),
        is_signed_command("trpc.login.ecdh.EcdhService.SsoNTLoginPasswordLoginUnusualDevice"@),
        is_signed_command("OidbSvcTrpcTcp.0x11ec_1"@),
        is_signed_command("OidbSvcTrpcTcp.0x758_1"@),
        is_signed_command("OidbSvcTrpcTcp.0x7c1_1"@),
        is_signed_command("OidbSvcTrpcTcp.0x7c2_5"@),
        is_signed_command("OidbSvcTrpcTcp.0x10db_1"@),
        is_signed_command("OidbSvcTrpcTcp.0x8a1_7"@),
        is_signed_command("OidbSvcTrpcTcp.0x89a_0"@),
        is_signed_command("OidbSvcTrpcTcp.0x89a_15"@),
        is_signed_command("OidbSvcTrpcTcp.0x88d_0"@),
        is_signed_command("OidbSvcTrpcTcp.0x88d_14"@),
        is_signed_command("OidbSvcTrpcTcp.0x112a_1"@),
        is_signed_command("OidbSvcTrpcTcp.0x587_74"@),
        is_signed_command("OidbSvcTrpcTcp.0x1100_1"@),
        is_signed_command("OidbSvcTrpcTcp.0x1102_1"@),
        is_signed_command("OidbSvcTrpcTcp.0x1103_1"@),
        is_signed_command("OidbSvcTrpcTcp.0x1107_1"@),
        is_signed_command("OidbSvcTrpcTcp.0x1105_1"@),
        is_signed_command("OidbSvcTrpcTcp.0xf88_1"@),
        is_signed_command("OidbSvcTrpcTcp.0xf89_1"@),
        is_signed_command("OidbSvcTrpcTcp.0xf57_1"@),
        is_signed_command("OidbSvcTrpcTcp.0xf57_106"@),
        is_signed_command("OidbSvcTrpcTcp.0xf57_9"@),
        is_signed_command("OidbSvcTrpcTcp.0xf55_1"@),
        is_signed_command("OidbSvcTrpcTcp.0xf67_1"@),
        is_signed_command("OidbSvcTrpcTcp.0xf67_5"@),
        is_signed_command("OidbSvcTrpcTcp.0x6d9_4"@),
        is_signed_command(cmd) <==> (cmd == "trpc.o3.ecdh_access.EcdhAccess.SsoEstablishShareKey"@
            || cmd == "trpc.o3.ecdh_access.EcdhAccess.SsoSecureAccess"@
            || cmd == "trpc.o3.report.Report.SsoReport"@
            || cmd == "MessageSvc.PbSendMsg"@
            || cmd == "wtlogin.trans_emp"@
            || cmd == "wtlogin.login"@
            || cmd == "trpc.login.ecdh.EcdhService.SsoKeyExchange"@
            || cmd == "trpc.login.ecdh.EcdhService.SsoNTLoginPasswordLogin"@
            || cmd == "trpc.login.ecdh.EcdhService.SsoNTLoginEasyLogin"@
            || cmd == "trpc.login.ecdh.EcdhService.SsoNTLoginPasswordLoginNewDevice"@
            || cmd == "trpc.login.ecdh.EcdhService.SsoNTLoginEasyLoginUnusualDevice"@
            || cmd == "trpc.login.ecdh.EcdhService.SsoNTLoginPasswordLoginUnusualDevice"@
            || cmd == "OidbSvcTrpcTcp.0x11ec_1"@
            || cmd == "OidbSvcTrpcTcp.0x758_1"@
            || cmd == "OidbSvcTrpcTcp.0x7c1_1"@
            || cmd == "OidbSvcTrpcTcp.0x7c2_5"@
            || cmd == "OidbSvcTrpcTcp.0x10db_1"@
            || cmd == "OidbSvcTrpcTcp.0x8a1_7"@
            || cmd == "OidbSvcTrpcTcp.0x89a_0"@
            || cmd == "OidbSvcTrpcTcp.0x89a_15"@
            || cmd == "OidbSvcTrpcTcp.0x88d_0"@
            || cmd == "OidbSvcTrpcTcp.0x88d_14"@
            || cmd == "OidbSvcTrpcTcp.0x112a_1"@
            || cmd == "OidbSvcTrpcTcp.0x587_74"@
            || cmd == "OidbSvcTrpcTcp.0x1100_1"@
            || cmd == "OidbSvcTrpcTcp.0x1102_1"@
            || cmd == "OidbSvcTrpcTcp.0x1103_1"@
            || cmd == "OidbSvcTrpcTcp.0x1107_1"@
            || cmd == "OidbSvcTrpcTcp.0x1105_1"@
            || cmd == "OidbSvcTrpcTcp.0xf88_1"@
            || cmd == "OidbSvcTrpcTcp.0xf89_1"@
            || cmd == "OidbSvcTrpcTcp.0xf57_1"@
            || cmd == "OidbSvcTrpcTcp.0xf57_106"@
            || cmd == "OidbSvcTrpcTcp.0xf57_9"@
            || cmd == "OidbSvcTrpcTcp.0xf55_1"@
            || cmd == "OidbSvcTrpcTcp.0xf67_1"@
            || cmd == "OidbSvcTrpcTcp.0xf67_5"@
            || cmd == "OidbSvcTrpcTcp.0x6d9_4"@),
{
}

} // verus!

