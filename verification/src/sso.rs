//! SSO service packets: their framing on the wire.
use vstd::prelude::*;
use vstd::string::{StringExecFns, StringSliceAdditionalSpecFns};
use crate::packet::{
    be32, be32_at, from_be32, from_be16, section_16_bytes, section_bytes, BinaryPacket, PacketBuilder,
    PacketReader,
};
use crate::text::{
    decimal, hex_char, parse_u32, parse_u32_spec, push_hex_byte, utf8_lossy, IntErrorKind,
};

verus! {

/// The two service packet protocols.
#[derive(Clone, Copy, Debug, PartialEq, Eq, Structural)]
pub enum PacketType {
    T12,
    T13,
}

impl PacketType {
    /// The protocol number on the wire.
    pub open spec fn spec_value(self) -> u32 {
        match self {
            PacketType::T12 => 12,
            PacketType::T13 => 13,
        }
    }

    /// The protocol with the number `value`; other numbers are handed back.
    pub fn try_from_u32(value: u32) -> (r: Result<PacketType, u32>)
        ensures
            value == 12 ==> r == Ok::<PacketType, u32>(PacketType::T12),
            value == 13 ==> r == Ok::<PacketType, u32>(PacketType::T13),
            value != 12 && value != 13 ==> r == Err::<PacketType, u32>(value),
    {
        match value {
            12 => Ok(PacketType::T12),
            13 => Ok(PacketType::T13),
            _ => Err(value),
        }
    }
}

/// An SSO packet: a command, its sequence number and its payload.
#[derive(Debug)]
pub struct SsoPacket {
    packet_type: PacketType,
    command: String,
    sequence: u32,
    payload: BinaryPacket,
}

impl SsoPacket {
    pub closed spec fn spec_packet_type(&self) -> PacketType {
        self.packet_type
    }

    pub closed spec fn spec_command(&self) -> Seq<char> {
        self.command@
    }

    pub closed spec fn spec_sequence(&self) -> u32 {
        self.sequence
    }

    pub closed spec fn spec_payload(&self) -> Seq<u8> {
        self.payload.0@
    }

    pub fn with_sequence(
        packet_type: PacketType,
        command: String,
        sequence: u32,
        payload: BinaryPacket,
    ) -> (r: Self)
        ensures
            r.spec_packet_type() == packet_type,
            r.spec_command() == command@,
            r.spec_sequence() == sequence,
            r.spec_payload() == payload.0@,
    {
        SsoPacket { packet_type, command, sequence, payload }
    }

    pub fn packet_type(&self) -> (r: PacketType)
        ensures
            r == self.spec_packet_type(),
    {
        self.packet_type
    }

    pub fn command(&self) -> (r: &str)
        ensures
            r@ == self.spec_command(),
    {
        self.command.as_str()
    }

    pub fn sequence(&self) -> (r: u32)
        ensures
            r == self.spec_sequence(),
    {
        self.sequence
    }

    /// A copy of the payload.
    pub fn payload(&self) -> (r: Vec<u8>)
        ensures
            r@ == self.spec_payload(),
    {
        vstd::slice::slice_to_vec(self.payload.0.as_slice())
    }

    /// Frames the packet in protocol 13. `uid` is the already encoded uid
    /// message of the logged-in account, empty when there is none.
    pub fn build_protocol13(&self, uid: &[u8]) -> (r: Vec<u8>)
        requires
            self.spec_command().len() * 4 + uid@.len() + self.spec_payload().len() <= 0x7000_0000,
        ensures
            r@ == protocol13_bytes(
                self.spec_sequence(),
                encode_str(self.spec_command()),
                uid@,
                self.spec_payload(),
            ),
    {
        let command = self.command.as_str();
        let payload = self.payload.0.as_slice();
        let cmd = command.as_bytes();
        proof {
            lemma_encode_str_len(command@);
        }
        let empty: [u8; 0] = [];
        let zero: [u8; 1] = [0x30];
        let h = PacketBuilder::new().section_of(cmd);
        let h = h.section_of(&empty);
        let h = h.section_of(uid);
        let head = h.build();
        assert(head@.len() == cmd@.len() + uid@.len() + 12);
        let b = PacketBuilder::new().u32(13).u8(0).u32(self.sequence).u8(0);
        let b = b.section_of(&zero);
        let b = b.section_of(head.as_slice());
        let b = b.section_of(payload);
        let inner = b.build();
        assert(inner@.len() == head@.len() + payload@.len() + 10 + 5 + 8);
        let r = PacketBuilder::new().section_of(inner.as_slice()).build();
        proof {
            assert(zero@ =~= seq![0x30u8]);
            assert(empty@ =~= Seq::<u8>::empty());
            assert(r@ =~= protocol13_bytes(self.sequence, cmd@, uid@, payload@));
        }
        r
    }
}

impl SsoPacket {
    /// The body of a protocol 12 frame, before it is encrypted: a section
    /// holding the header (sequence, app id, locale 2052, a fixed 12-byte
    /// field, then sections holding the TGT, the command, nothing, the
    /// device uuid in hex, nothing, a 2-byte section holding the version, and
    /// a section holding the encoded device signature), then a section
    /// holding the payload.
    pub fn build_protocol12_body(
        &self,
        app_id: u32,
        tgt: &[u8],
        uuid_hex: &str,
        version: &str,
        device_sign: &[u8],
    ) -> (r: Vec<u8>)
        requires
            self.spec_command().len() * 4 + uuid_hex@.len() * 4 + tgt@.len() + device_sign@.len()
                + self.spec_payload().len() <= 0x7000_0000,
            version@.len() * 4 + 2 <= u16::MAX,
        ensures
            r@ == protocol12_body_bytes(
                self.spec_sequence(),
                app_id,
                tgt@,
                encode_str(self.spec_command()),
                encode_str(uuid_hex@),
                encode_str(version@),
                device_sign@,
                self.spec_payload(),
            ),
    {
        let command = self.command.as_str();
        let cmd = command.as_bytes();
        let uuid = uuid_hex.as_bytes();
        let ver = version.as_bytes();
        let payload = self.payload.0.as_slice();
        proof {
            lemma_encode_str_len(command@);
            lemma_encode_str_len(uuid_hex@);
            lemma_encode_str_len(version@);
        }
        let empty: [u8; 0] = [];
        let fixed: [u8; 12] = [2, 0, 0, 0, 0, 0, 0, 0, 0, 0, 0, 0];
        let h = PacketBuilder::new().u32(self.sequence).u32(app_id).u32(2052).bytes(&fixed);
        let h = h.section_of(tgt);
        let h = h.section_of(cmd);
        let h = h.section_of(&empty);
        let h = h.section_of(uuid);
        let h = h.section_of(&empty);
        let h = h.section_16_of(ver);
        let h = h.section_of(device_sign);
        let head = h.build();
        assert(head@.len() == 24 + tgt@.len() + cmd@.len() + uuid@.len() + ver@.len()
            + device_sign@.len() + 26);
        let r = PacketBuilder::new().section_of(head.as_slice()).section_of(payload).build();
        proof {
            assert(empty@ =~= Seq::<u8>::empty());
            assert(fixed@ =~= protocol12_fixed());
            assert(r@ =~= protocol12_body_bytes(
                self.sequence,
                app_id,
                tgt@,
                cmd@,
                uuid@,
                ver@,
                device_sign@,
                payload@,
            ));
        }
        r
    }

    /// A protocol 12 frame around an encrypted body: a section holding the
    /// protocol number, the flag (2 without a D2 ticket, else 1), a section
    /// holding the D2 ticket, a zero byte, a section holding the uin in
    /// decimal, then the encrypted body.
    pub fn wrap_protocol12(d2: &[u8], uin: u32, encrypted_body: &[u8]) -> (r: Vec<u8>)
        requires
            d2@.len() + encrypted_body@.len() <= 0x7000_0000,
        ensures
            r@ == protocol12_frame_bytes(d2@, uin, encrypted_body@),
    {
        let uin_text = crate::text::u32_to_string(uin);
        let uin_bytes = uin_text.as_str().as_bytes();
        proof {
            lemma_encode_str_len(uin_text@);
            crate::text::lemma_decimal_len(uin as nat);
        }
        let flag: u8 = if d2.len() == 0 { 2 } else { 1 };
        let b = PacketBuilder::new().u32(12).u8(flag).section_of(d2).u8(0).section_of(uin_bytes);
        let b = b.bytes(encrypted_body);
        let inner = b.build();
        let r = PacketBuilder::new().section_of(inner.as_slice()).build();
        proof {
            assert(r@ =~= protocol12_frame_bytes(d2@, uin, encrypted_body@));
        }
        r
    }
}

pub open spec fn protocol12_fixed() -> Seq<u8> {
    seq![2u8, 0, 0, 0, 0, 0, 0, 0, 0, 0, 0, 0]
}

/// The protocol 12 body before encryption.
pub open spec fn protocol12_body_bytes(
    sequence: u32,
    app_id: u32,
    tgt: Seq<u8>,
    command: Seq<u8>,
    uuid_hex: Seq<u8>,
    version: Seq<u8>,
    device_sign: Seq<u8>,
    payload: Seq<u8>,
) -> Seq<u8> {
    section_bytes(
        be32(sequence) + be32(app_id) + be32(2052) + protocol12_fixed() + section_bytes(tgt)
            + section_bytes(command) + section_bytes(Seq::empty()) + section_bytes(uuid_hex)
            + section_bytes(Seq::empty()) + section_16_bytes(version) + section_bytes(
            device_sign,
        ),
    ) + section_bytes(payload)
}

/// The protocol 12 frame around an encrypted body.
pub open spec fn protocol12_frame_bytes(d2: Seq<u8>, uin: u32, encrypted_body: Seq<u8>) -> Seq<u8> {
    section_bytes(
        be32(12) + seq![if d2.len() == 0 { 2u8 } else { 1u8 }] + section_bytes(d2) + seq![0u8]
            + section_bytes(encode_str(decimal(uin as nat))) + encrypted_body,
    )
}

/// The UTF-8 encoding of a text.
pub open spec fn encode_str(s: Seq<char>) -> Seq<u8> {
    vstd::utf8::encode_utf8(s)
}

/// A text's UTF-8 encoding is at most four bytes per character.
pub proof fn lemma_encode_str_len(s: Seq<char>)
    ensures
        encode_str(s).len() <= 4 * s.len(),
    decreases s.len(),
{
    if s.len() > 0 {
        lemma_encode_str_len(s.drop_first());
    }
}

/// A protocol 13 frame: a section holding the protocol number, a zero flag,
/// the sequence, a zero byte, a section holding "0", a section holding the
/// command, an empty and the uid section, then a section holding the payload.
pub open spec fn protocol13_bytes(sequence: u32, command: Seq<u8>, uid: Seq<u8>, payload: Seq<u8>) -> Seq<u8> {
    section_bytes(
        be32(13) + seq![0u8] + be32(sequence) + seq![0u8] + section_bytes(seq![0x30u8])
            + section_bytes(section_bytes(command) + section_bytes(Seq::empty()) + section_bytes(uid))
            + section_bytes(payload),
    )
}

// ---------------------------------------------------------------------------
// Parsing
// ---------------------------------------------------------------------------

#[verifier::external_type_specification]
#[verifier::external_body]
pub struct ExIoError(std::io::Error);

/// What `flate2`'s zlib decoder makes of `data`: the inflated bytes, or
/// nothing when it fails.
pub uninterp spec fn zlib_inflated(data: Seq<u8>) -> Option<Seq<u8>>;

/// Inflates zlib data with `flate2::read::ZlibDecoder`, copying all of it
/// with `std::io::copy`. The outcome is named `zlib_inflated`.
#[verifier::external_body]
fn zlib_inflate(data: &[u8]) -> (r: Result<Vec<u8>, std::io::Error>)
    ensures
        r is Ok <==> zlib_inflated(data@) is Some,
        r matches Ok(v) ==> zlib_inflated(data@) == Some(v@),
{
    let mut reader = flate2::read::ZlibDecoder::new(data);
    let mut out: Vec<u8> = Vec::new();
    std::io::copy(&mut reader, &mut out)?;
    Ok(out)
}

/// Errors of packet parsing.
#[derive(Debug)]
#[allow(inconsistent_fields)]
pub enum PacketError {
    UnknownSsoPacketType(u32),
    UnknownAuthFlag(u8),
    InvalidUin(String),
    /// The expected uin, then the one found.
    UinMismatch(u32, u32),
    InflateFailed(std::io::Error),
    SsoPacketRetFailed { command: String, sequence: u32, ret_code: i32, extra: String },
    OidbPacketRetFailed { command: String, ret_code: u32, client_wording: String },
    OtherError(String),
}

/// How the body of a service packet is to be decrypted.
#[derive(Clone, Copy, Debug, PartialEq, Eq, Structural)]
pub enum BodyKey {
    /// Auth flag 0: the body is plain.
    Plain,
    /// Auth flag 1: with the session's D2 key.
    SessionKey,
    /// Auth flag 2: with the all-zero key.
    ZeroKey,
}

/// The outer layer of a received service packet.
#[derive(Debug)]
pub struct ServiceFrame {
    pub protocol: PacketType,
    pub key: BodyKey,
    pub uin: u32,
    /// The body, still encrypted as `key` says.
    pub body: Vec<u8>,
}

/// The end of the 4-byte-prefixed section (counting its field) at `p`.
pub open spec fn section_end(s: Seq<u8>, p: int) -> int {
    p + from_be32(s.skip(p))
}

/// Whether a whole section (counting its field) stands at `p`.
pub open spec fn section_at(s: Seq<u8>, p: int) -> bool {
    &&& 0 <= p
    &&& p + 4 <= s.len()
    &&& 4 <= from_be32(s.skip(p))
    &&& section_end(s, p) <= s.len()
}

/// The content of the section at `p`.
pub open spec fn section_content(s: Seq<u8>, p: int) -> Seq<u8> {
    s.subrange(p + 4, section_end(s, p))
}

/// The header of a service packet is all there: length, protocol, auth
/// flag, flag and the uin section.
pub open spec fn service_header_complete(s: Seq<u8>) -> bool {
    s.len() >= 10 && section_at(s, 10)
}

/// Whether a whole section stands at `p` in `s` (see `section_at`).
pub fn has_section_at(s: &[u8], p: usize) -> (r: bool)
    ensures
        r == section_at(s@, p as int),
{
    if p > s.len() || s.len() - p < 4 {
        return false;
    }
    let n = be32_at(s, p) as usize;
    4 <= n && n <= s.len() - p
}

/// Whether the header of the service packet `s` is all there.
pub fn is_service_header_complete(s: &[u8]) -> (r: bool)
    ensures
        r == service_header_complete(s@),
{
    s.len() >= 10 && has_section_at(s, 10)
}

/// The uin bytes of a service packet.
pub open spec fn service_uin_text(s: Seq<u8>) -> Seq<char> {
    utf8_lossy(section_content(s, 10))
}

/// The outcome of reading the outer layer of a service packet.
pub enum ServiceOutcome {
    Frame { protocol: PacketType, key: BodyKey, uin: u32, body: Seq<u8> },
    UnknownType(u32),
    InvalidUin(Seq<char>),
    UinMismatch(u32, u32),
    UnknownAuthFlag(u8),
}

/// The outer layer of the service packet `s` for the account `self_uin`:
/// the protocol (at 4) must be 12 or 13; the uin section (at 10) must hold
/// a decimal number, equal to `self_uin` under protocol 12; the auth flag (at
/// 8) must be 0, 1 or 2; the body is what follows the uin section.
pub open spec fn service_outcome(s: Seq<u8>, self_uin: u32) -> ServiceOutcome {
    let t = from_be32(s.skip(4));
    let text = service_uin_text(s);
    let flag = s[8];
    if t != 12 && t != 13 {
        ServiceOutcome::UnknownType(t)
    } else {
        match parse_u32_spec(encode_str(text)) {
            Err(_) => ServiceOutcome::InvalidUin(text),
            Ok(uin) => if uin != self_uin && t == 12 {
                ServiceOutcome::UinMismatch(self_uin, uin)
            } else if flag > 2 {
                ServiceOutcome::UnknownAuthFlag(flag)
            } else {
                ServiceOutcome::Frame {
                    protocol: if t == 12 { PacketType::T12 } else { PacketType::T13 },
                    key: if flag == 0 {
                        BodyKey::Plain
                    } else if flag == 1 {
                        BodyKey::SessionKey
                    } else {
                        BodyKey::ZeroKey
                    },
                    uin,
                    body: s.skip(section_end(s, 10)),
                }
            },
        }
    }
}

/// `r` is the outcome `o`.
pub open spec fn service_result_is(r: Result<ServiceFrame, PacketError>, o: ServiceOutcome) -> bool {
    match o {
        ServiceOutcome::Frame { protocol, key, uin, body } => r matches Ok(f) && f.protocol
            == protocol && f.key == key && f.uin == uin && f.body@ == body,
        ServiceOutcome::UnknownType(t) => r matches Err(PacketError::UnknownSsoPacketType(x))
            && x == t,
        ServiceOutcome::InvalidUin(text) => r matches Err(PacketError::InvalidUin(x)) && x@
            == text,
        ServiceOutcome::UinMismatch(a, b) => r matches Err(PacketError::UinMismatch(x, y)) && x
            == a && y == b,
        ServiceOutcome::UnknownAuthFlag(f) => r matches Err(PacketError::UnknownAuthFlag(x)) && x
            == f,
    }
}

impl SsoPacket {
    /// Reads the outer layer of a received service packet: the protocol
    /// must be 12 or 13, the uin a decimal number equal to `self_uin` when
    /// the protocol is 12, and the auth flag 0, 1 or 2.
    pub fn parse_service(packet: Vec<u8>, self_uin: u32) -> (r: Result<ServiceFrame, PacketError>)
        requires
            service_header_complete(packet@),
        ensures
            service_result_is(r, service_outcome(packet@, self_uin)),
    {
        let ghost s = packet@;
        let mut reader = PacketReader::new(packet);
        let _length = reader.u32();
        let raw_protocol = reader.u32();
        let auth_flag = reader.u8();
        let _flag = reader.u8();
        proof {
            assert(s.skip(4).skip(4) =~= s.skip(8));
            assert(s.skip(8)[0] == s[8]);
            assert(s.skip(8).skip(1).skip(1) =~= s.skip(10));
        }
        let protocol = match PacketType::try_from_u32(raw_protocol) {
            Ok(p) => p,
            Err(t) => {
                return Err(PacketError::UnknownSsoPacketType(t));
            },
        };
        let mut uin_reader = reader.section();
        let uin_text = uin_reader.string();
        proof {
            assert(s.skip(10).subrange(4, from_be32(s.skip(10)) as int) =~= section_content(s, 10));
            assert(s.skip(10).skip(from_be32(s.skip(10)) as int) =~= s.skip(section_end(s, 10)));
        }
        let uin = match parse_u32(uin_text.as_str()) {
            Ok(u) => u,
            Err(_) => {
                return Err(PacketError::InvalidUin(uin_text));
            },
        };
        if uin != self_uin && protocol == PacketType::T12 {
            return Err(PacketError::UinMismatch(self_uin, uin));
        }
        let body = reader.bytes();
        let key = match auth_flag {
            0 => BodyKey::Plain,
            1 => BodyKey::SessionKey,
            2 => BodyKey::ZeroKey,
            _ => {
                return Err(PacketError::UnknownAuthFlag(auth_flag));
            },
        };
        Ok(ServiceFrame { protocol, key, uin, body })
    }
}

/// Where the sections of an SSO body end: the extra text, the command, an
/// unknown section, then the compression flag and a length-only prefixed
/// header stand before the payload.
pub open spec fn sso_extra_end(s: Seq<u8>) -> int {
    section_end(s, 12)
}

pub open spec fn sso_command_end(s: Seq<u8>) -> int {
    section_end(s, sso_extra_end(s))
}

pub open spec fn sso_unknown_end(s: Seq<u8>) -> int {
    section_end(s, sso_command_end(s))
}

pub open spec fn sso_compressed(s: Seq<u8>) -> bool {
    from_be32(s.skip(sso_unknown_end(s))) != 0
}

/// Where the payload starts: after the flag and the length-only prefixed
/// header.
pub open spec fn sso_payload_start(s: Seq<u8>) -> int {
    sso_unknown_end(s) + 8 + from_be32(s.skip(sso_unknown_end(s) + 4))
}

/// All fields of an SSO body are there.
pub open spec fn sso_body_complete(s: Seq<u8>) -> bool {
    &&& s.len() >= 12
    &&& section_at(s, 12)
    &&& section_at(s, sso_extra_end(s))
    &&& section_at(s, sso_command_end(s))
    &&& sso_unknown_end(s) + 8 <= s.len()
    &&& sso_payload_start(s) <= s.len()
    &&& sso_compressed(s) ==> section_at(s, sso_payload_start(s))
}

/// Whether all fields of the SSO body `s` are there.
pub fn is_sso_body_complete(s: &[u8]) -> (r: bool)
    ensures
        r == sso_body_complete(s@),
{
    if s.len() < 12 || !has_section_at(s, 12) {
        return false;
    }
    let e1 = 12 + be32_at(s, 12) as usize;
    if !has_section_at(s, e1) {
        return false;
    }
    let e2 = e1 + be32_at(s, e1) as usize;
    if !has_section_at(s, e2) {
        return false;
    }
    let e3 = e2 + be32_at(s, e2) as usize;
    if s.len() - e3 < 8 {
        return false;
    }
    let h = be32_at(s, e3 + 4) as usize;
    if h > s.len() - (e3 + 8) {
        return false;
    }
    let start = e3 + 8 + h;
    if be32_at(s, e3) != 0 {
        has_section_at(s, start)
    } else {
        true
    }
}

/// The outcome of reading an SSO body.
pub enum SsoOutcome {
    Packet { command: Seq<char>, sequence: u32, payload: Seq<u8> },
    InflateFailed,
    RetFailed { command: Seq<char>, sequence: u32, ret_code: i32, extra: Seq<char> },
}

/// The SSO body `s`: sequence at 4, return code at 8, then the sections.
/// A compressed payload is a section holding zlib data, which is inflated
/// and given a 4-byte length field counting itself. A return code other
/// than 0 fails the packet, after the payload was read.
pub open spec fn sso_outcome(s: Seq<u8>) -> SsoOutcome {
    let sequence = from_be32(s.skip(4));
    let ret_code = from_be32(s.skip(8)) as i32;
    let extra = utf8_lossy(section_content(s, 12));
    let command = utf8_lossy(section_content(s, sso_extra_end(s)));
    let payload: Option<Seq<u8>> = if sso_compressed(s) {
        match zlib_inflated(section_content(s, sso_payload_start(s))) {
            Some(v) => Some(be32((v.len() + 4) as u32) + v),
            None => None,
        }
    } else {
        Some(s.skip(sso_payload_start(s)))
    };
    match payload {
        None => SsoOutcome::InflateFailed,
        Some(payload) => if ret_code == 0 {
            SsoOutcome::Packet { command, sequence, payload }
        } else {
            SsoOutcome::RetFailed { command, sequence, ret_code, extra }
        },
    }
}

/// `r` is the outcome `o`; a packet read from an SSO body is of protocol 12.
pub open spec fn sso_result_is(r: Result<SsoPacket, PacketError>, o: SsoOutcome) -> bool {
    match o {
        SsoOutcome::Packet { command, sequence, payload } => r matches Ok(p)
            && p.spec_packet_type() == PacketType::T12 && p.spec_command() == command
            && p.spec_sequence() == sequence && p.spec_payload() == payload,
        SsoOutcome::InflateFailed => r matches Err(PacketError::InflateFailed(_)),
        SsoOutcome::RetFailed { command, sequence, ret_code, extra } => r matches Err(
            PacketError::SsoPacketRetFailed { command: c, sequence: q, ret_code: x, extra: e },
        ) && c@ == command && q == sequence && x == ret_code && e@ == extra,
    }
}

impl SsoPacket {
    /// Reads a decrypted SSO body.
    pub fn parse_sso(body: Vec<u8>) -> (r: Result<SsoPacket, PacketError>)
        requires
            sso_body_complete(body@),
        ensures
            sso_result_is(r, sso_outcome(body@)),
    {
        let ghost s = body@;
        let mut reader = PacketReader::new(body);
        let _length = reader.u32();
        let sequence = reader.u32();
        let ret_code = reader.i32();
        proof {
            assert(s.skip(4).skip(4) =~= s.skip(8));
            assert(s.skip(8).skip(4) =~= s.skip(12));
        }
        let mut extra_reader = reader.section();
        let extra = extra_reader.string();
        proof {
            assert(s.skip(12).subrange(4, from_be32(s.skip(12)) as int) =~= section_content(s, 12));
            assert(s.skip(12).skip(from_be32(s.skip(12)) as int) =~= s.skip(sso_extra_end(s)));
        }
        let mut command_reader = reader.section();
        let command = command_reader.string();
        proof {
            let p = sso_extra_end(s);
            assert(s.skip(p).subrange(4, from_be32(s.skip(p)) as int) =~= section_content(s, p));
            assert(s.skip(p).skip(from_be32(s.skip(p)) as int) =~= s.skip(sso_command_end(s)));
        }
        let _unknown = reader.section();
        proof {
            let p = sso_command_end(s);
            assert(s.skip(p).skip(from_be32(s.skip(p)) as int) =~= s.skip(sso_unknown_end(s)));
        }
        let is_compressed = reader.u32() != 0;
        proof {
            let p = sso_unknown_end(s);
            assert(s.skip(p).skip(4) =~= s.skip(p + 4));
        }
        let header_prefix = crate::packet::PREFIX_U32 | crate::packet::PREFIX_LENGTH_ONLY;
        assert(header_prefix == 4) by (bit_vector)
            requires
                header_prefix == 4u8 | 0u8,
        ;
        let _header = reader.read_with_length(header_prefix);
        proof {
            let p = sso_unknown_end(s) + 4;
            assert(s.skip(p).skip(4 + from_be32(s.skip(p))) =~= s.skip(sso_payload_start(s)));
        }
        let payload = if is_compressed {
            let mut zipped = reader.section();
            let zipped = zipped.bytes();
            proof {
                let p = sso_payload_start(s);
                assert(s.skip(p).subrange(4, from_be32(s.skip(p)) as int) =~= section_content(s, p));
            }
            match zlib_inflate(zipped.as_slice()) {
                Ok(v) => {
                    let len = (#[verifier::truncate] (((v.len() as u128) + 4) as u32));
                    let out = PacketBuilder::new().u32(len).bytes(v.as_slice()).build();
                    out
                },
                Err(e) => {
                    return Err(PacketError::InflateFailed(e));
                },
            }
        } else {
            reader.bytes()
        };
        if ret_code == 0 {
            Ok(SsoPacket::with_sequence(PacketType::T12, command, sequence, BinaryPacket(payload)))
        } else {
            Err(PacketError::SsoPacketRetFailed { command, sequence, ret_code, extra })
        }
    }
}


// ---------------------------------------------------------------------------
// Trace ids
// ---------------------------------------------------------------------------

/// The two lowercase hexadecimal digits of each byte in turn.
pub open spec fn hex_run(bytes: Seq<u8>) -> Seq<char>
    decreases bytes.len(),
{
    if bytes.len() == 0 {
        Seq::empty()
    } else {
        hex_run(bytes.drop_last()) + seq![
            hex_char((bytes.last() / 16) as int),
            hex_char((bytes.last() % 16) as int),
        ]
    }
}

/// The trace id made from 24 bytes: `00-`, the first 16 bytes (32 digits),
/// `-`, the other 8 (16 digits), and `-01`.
pub open spec fn trace_text(bytes: Seq<u8>) -> Seq<char> {
    "00-"@ + hex_run(bytes.subrange(0, 16)) + "-"@ + hex_run(bytes.subrange(16, 24)) + "-01"@
}

/// Appends `hex_run(bytes[from..to])` to `s`.
fn push_hex_run(s: &mut String, bytes: &[u8], from: usize, to: usize)
    requires
        from <= to <= bytes@.len(),
    ensures
        final(s)@ == old(s)@ + hex_run(bytes@.subrange(from as int, to as int)),
{
    let ghost start = s@;
    let mut i: usize = from;
    assert(bytes@.subrange(from as int, from as int) =~= Seq::<u8>::empty());
    assert(start + Seq::<char>::empty() =~= start);
    while i < to
        invariant
            from <= i <= to <= bytes@.len(),
            s@ == start + hex_run(bytes@.subrange(from as int, i as int)),
        decreases to - i,
    {
        let ghost before = s@;
        push_hex_byte(s, bytes[i]);
        proof {
            let next = bytes@.subrange(from as int, i + 1);
            assert(next.drop_last() =~= bytes@.subrange(from as int, i as int));
            assert(next.last() == bytes@[i as int]);
            assert(s@ =~= start + hex_run(next));
        }
        i = i + 1;
    }
}

/// The trace id made from `bytes` (see `trace_text`).
pub fn trace_from_bytes(bytes: &[u8]) -> (r: String)
    requires
        bytes@.len() == 24,
    ensures
        r@ == trace_text(bytes@),
{
    let mut s = String::from_str("00-");
    push_hex_run(&mut s, bytes, 0, 16);
    s.append("-");
    push_hex_run(&mut s, bytes, 16, 24);
    s.append("-01");
    s
}

/// Calls `rand::rng().random::<u8>()`: any byte.
#[verifier::external_body]
fn random_u8() -> u8 {
    rand::Rng::random::<u8>(&mut rand::rng())
}

/// A fresh trace id: the id of 24 random bytes.
pub fn random_trace() -> (r: String)
    ensures
        exists|b: Seq<u8>| b.len() == 24 && r@ == trace_text(b),
{
    let mut bytes: Vec<u8> = Vec::new();
    while bytes.len() < 24
        invariant
            bytes@.len() <= 24,
        decreases 24 - bytes@.len(),
    {
        bytes.push(random_u8());
    }
    trace_from_bytes(bytes.as_slice())
}

} // verus!
