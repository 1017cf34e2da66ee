//! The QR code login exchange (`wtlogin.trans_emp`) and the wtlogin frame.
use vstd::prelude::*;
use vstd::string::StringExecFns;
use crate::packet::{
    be16, be32, be64, be_prefix, from_be16, lemma_write_with_length_appends, prefix_counts_itself,
    prefix_len, PacketBuilder, PacketReader, PREFIX_U16, PREFIX_WITH,
};
use crate::sso::PacketError;
use crate::text::{decimal, lower_hex, u32_to_string, format_alt_hex_u16};
use crate::tlv::{is_tlv_set_complete, tlv_items, tlv_map, tlv_set_complete, TlvError, TlvSet};

verus! {

/// The request that asks the QR code server who scanned a code.
#[derive(Debug)]
pub struct NTLoginHttpRequest {
    pub appid: u64,
    pub face_update_time: u64,
    pub qrsig: String,
}

/// The QR code server's answer.
#[derive(Debug)]
pub struct NTLoginHttpResponse {
    pub ret_code: i32,
    pub err_msg: String,
    pub qr_sig: String,
    pub uin: u32,
    pub face_url: String,
    pub face_update_time: i64,
}

/// Which exchange a `TransEmp` event is.
#[derive(Clone, Copy, Debug, PartialEq, Eq, Structural)]
pub enum TransEmpStatus {
    /// Command 0x12: ask whether the code was scanned and confirmed.
    QueryResult,
    /// Command 0x31: fetch a QR code.
    FetchQrCode,
}

impl TransEmpStatus {
    pub open spec fn spec_command(self) -> u16 {
        match self {
            TransEmpStatus::QueryResult => 0x12,
            TransEmpStatus::FetchQrCode => 0x31,
        }
    }

    /// The exchange's command number.
    pub fn command(&self) -> (r: u16)
        ensures
            r == self.spec_command(),
    {
        match self {
            TransEmpStatus::QueryResult => 0x12,
            TransEmpStatus::FetchQrCode => 0x31,
        }
    }
}

/// The keys handed over once the login is confirmed.
#[derive(Debug)]
pub struct TransEmp12ConfirmedData {
    pub tgtgt_key: Vec<u8>,
    pub temp_password: Vec<u8>,
    pub no_pic_sig: Vec<u8>,
}

/// The state of a QR code login.
#[derive(Debug)]
pub enum TransEmp12Res {
    /// State 0.
    Confirmed(TransEmp12ConfirmedData),
    /// State 17.
    CodeExpired,
    /// State 48.
    WaitingForScan,
    /// State 53.
    WaitingForConfirm,
    /// State 54.
    Canceled,
}

/// A fetched QR code.
#[derive(Debug)]
pub struct TransEmp31Res {
    pub qr_code: Vec<u8>,
    pub expiration: u32,
    pub url: String,
    pub qr_sig: String,
    pub signature: Vec<u8>,
}

/// The answer to a `TransEmp` exchange.
#[derive(Debug)]
pub enum TransEmpResult {
    Emp12(TransEmp12Res),
    Emp31(TransEmp31Res),
}

/// A QR code login exchange and, once answered, its result.
#[derive(Debug)]
pub struct TransEmp {
    pub status: TransEmpStatus,
    pub result: Option<TransEmpResult>,
}

impl TransEmp {
    pub fn new_fetch_qr_code() -> (r: Self)
        ensures
            r.status == TransEmpStatus::FetchQrCode,
            r.result is None,
    {
        TransEmp { status: TransEmpStatus::FetchQrCode, result: None }
    }

    pub fn new_query_result() -> (r: Self)
        ensures
            r.status == TransEmpStatus::QueryResult,
            r.result is None,
    {
        TransEmp { status: TransEmpStatus::QueryResult, result: None }
    }
}

impl crate::event::CECommandMarker for TransEmp {
    fn command(&self) -> (r: &'static str)
        ensures
            r@ == "wtlogin.trans_emp"@,
    {
        "wtlogin.trans_emp"
    }
}

// ---------------------------------------------------------------------------
// Building
// ---------------------------------------------------------------------------

/// The body of a status query: a zero, the app id, the QR signature after
/// its 2-byte length, eight zero bytes, a zero byte, an empty 2-byte-length
/// field and a zero.
pub open spec fn query_result_data(app_id: u32, qr_sign: Seq<u8>) -> Seq<u8> {
    be16(0) + be32(app_id) + be16(qr_sign.len() as u16) + qr_sign + be64(0) + seq![0u8] + be16(0)
        + be16(0)
}

/// The body of a status query for the QR code with signature `qr_sign`.
pub fn query_result_data_bytes(app_id: u32, qr_sign: &[u8]) -> (r: Vec<u8>)
    requires
        qr_sign@.len() <= 0x7000_0000,
    ensures
        r@ == query_result_data(app_id, qr_sign@),
{
    let prefix: u8 = PREFIX_U16;
    let f = |p: PacketBuilder| -> (q: PacketBuilder)
        ensures
            q@ == p@ + qr_sign@,
        { p.bytes(qr_sign) };
    let g = |p: PacketBuilder| -> (q: PacketBuilder)
        ensures
            q@ == p@ + Seq::<u8>::empty(),
        {
            assert(p@ + Seq::<u8>::empty() =~= p@);
            p
        };
    let b0 = PacketBuilder::new().u16(0).u32(app_id);
    assert(be_prefix(2, 0) =~= be16(0));
    let b1 = b0.write_with_length(prefix, 0, f);
    proof {
        lemma_write_with_length_appends(f, b0@, qr_sign@, prefix, 0, b1@);
    }
    let b2 = b1.u64(0).u8(0);
    let b3 = b2.write_with_length(prefix, 0, g);
    proof {
        lemma_write_with_length_appends(g, b2@, Seq::empty(), prefix, 0, b3@);
    }
    let r = b3.u16(0).build();
    proof {
        assert(r@ =~= query_result_data(app_id, qr_sign@));
    }
    r
}

/// The trans_emp body around the exchange data `tlvs`, sent at `timestamp`:
/// a zero, the request's length, the app id, 0x72, an empty 2-byte and an
/// empty 1-byte length field, then the request (the timestamp, then the
/// inner packet: 2, its length 44 plus the data's, the command, 21 zero
/// bytes, 3, zeros and 0x32, the data, and 3).
pub open spec fn trans_emp_body(app_id: u32, qr_cmd: u16, tlvs: Seq<u8>, timestamp: u32) -> Seq<u8> {
    let inner = seq![2u8] + be16((43 + tlvs.len() + 1) as u16) + be16(qr_cmd) + Seq::new(
        21,
        |i: int| 0u8,
    ) + seq![3u8] + be16(0) + be16(0x32) + be32(0) + be64(0) + tlvs + seq![3u8];
    let request = be32(timestamp) + inner;
    seq![0u8] + be16(request.len() as u16) + be32(app_id) + be32(0x72) + be16(0) + seq![0u8]
        + request
}

/// Builds the trans_emp body of the exchange `qr_cmd` with data `tlvs`.
pub fn build_trans_emp_body(app_id: u32, qr_cmd: u16, tlvs: &[u8], timestamp: u32) -> (r: Vec<u8>)
    requires
        tlvs@.len() <= 0x7000_0000,
    ensures
        r@ == trans_emp_body(app_id, qr_cmd, tlvs@, timestamp),
{
    let zeros: [u8; 21] = [0; 21];
    let inner_len = (#[verifier::truncate] ((43 + tlvs.len() as u64 + 1) as u16));
    let new_packet = PacketBuilder::new().u8(2).u16(inner_len).u16(qr_cmd).bytes(&zeros).u8(
        0x03,
    ).u16(0x00).u16(0x32).u32(0).u64(0).bytes(tlvs).u8(3).build();
    let request_body = PacketBuilder::new().u32(timestamp).bytes(new_packet.as_slice()).build();
    let req_len = (#[verifier::truncate] (request_body.len() as u16));
    let r = PacketBuilder::new().u8(0x00).u16(req_len).u32(app_id).u32(0x72).u16(0).u8(0).bytes(
        request_body.as_slice(),
    ).build();
    proof {
        assert(zeros@ =~= Seq::new(21, |i: int| 0u8));
        assert(r@ =~= trans_emp_body(app_id, qr_cmd, tlvs@, timestamp));
    }
    r
}

/// The fixed fields and key material of a wtlogin frame, before the
/// encrypted body.
pub open spec fn wtlogin_content(
    cmd: u16,
    sequence: u16,
    uin: u32,
    app_client_version: u16,
    random_key: Seq<u8>,
    public_key: Seq<u8>,
    encrypted_body: Seq<u8>,
) -> Seq<u8> {
    be16(8001) + be16(cmd) + be16(sequence) + be32(uin) + seq![3u8, 135u8] + be32(0) + seq![19u8]
        + be16(0) + be16(app_client_version) + be32(0) + seq![2u8, 1u8] + random_key + be16(0x0131)
        + be16(0x0001) + be16(public_key.len() as u16) + public_key + encrypted_body + seq![3u8]
}

/// A wtlogin frame: 2, a 2-byte length counting itself plus one, then the
/// content.
pub open spec fn wtlogin_frame(content: Seq<u8>) -> Seq<u8> {
    seq![2u8] + be16((content.len() + 3) as u16) + content
}

/// Frames a wtlogin body: version 8001, the command (2066 for trans_emp,
/// 2064 for login), the wtlogin sequence, the uin, fixed fields, the client
/// type, the curve (prime256v1), the random key, the public key, and the
/// body encrypted by `tea_encrypt` (TEA under the login key).
pub fn build_wtlogin_packet<F: FnOnce(Vec<u8>) -> Vec<u8>>(
    cmd: u16,
    sequence: u16,
    uin: u32,
    app_client_version: u16,
    random_key: &[u8],
    public_key: &[u8],
    body: &[u8],
    tea_encrypt: F,
) -> (r: Vec<u8>)
    requires
        forall|b: Vec<u8>| call_requires(tea_encrypt, (b,)),
        forall|b: Vec<u8>, e: Vec<u8>|
            call_ensures(tea_encrypt, (b,), e) ==> random_key@.len() + public_key@.len()
                + e@.len() <= 0x7000_0000,
    ensures
        exists|b: Vec<u8>, e: Vec<u8>|
            b@ == body@ && call_ensures(tea_encrypt, (b,), e) && r@ == wtlogin_frame(
                wtlogin_content(
                    cmd,
                    sequence,
                    uin,
                    app_client_version,
                    random_key@,
                    public_key@,
                    e@,
                ),
            ),
{
    let plain = vstd::slice::slice_to_vec(body);
    let encrypted = tea_encrypt(plain);
    let encrypted_body = encrypted.as_slice();
    let key_len = (#[verifier::truncate] (public_key.len() as u16));
    let content = PacketBuilder::new().u16(8001).u16(cmd).u16(sequence).u32(uin).u8(3).u8(135).u32(
        0,
    ).u8(19).u16(0).u16(app_client_version).u32(0).u8(2).u8(1).bytes(random_key).u16(0x0131).u16(
        0x0001,
    ).u16(key_len).bytes(public_key).bytes(encrypted_body).u8(3).build();
    let prefix = PREFIX_U16 | PREFIX_WITH;
    assert(prefix == 10) by (bit_vector)
        requires
            prefix == 2u8 | 8u8,
    ;
    let f = |p: PacketBuilder| -> (q: PacketBuilder)
        ensures
            q@ == p@ + content@,
        { p.bytes(content.as_slice()) };
    let b0 = PacketBuilder::new().u8(2);
    assert(be_prefix(2, 0) =~= be16(0));
    let b1 = b0.write_with_length(prefix, 1, f);
    proof {
        lemma_write_with_length_appends(f, b0@, content@, prefix, 1, b1@);
    }
    let r = b1.build();
    proof {
        assert(content@ =~= wtlogin_content(
            cmd,
            sequence,
            uin,
            app_client_version,
            random_key@,
            public_key@,
            encrypted_body@,
        ));
        assert(r@ =~= wtlogin_frame(content@));
    }
    r
}

/// Takes a wtlogin frame apart: it must open with 2 and close with 3; the
/// body between the 16-byte header and the closing byte is decrypted with
/// `tea_decrypt` (TEA under the login key) and returned.
pub fn parse_wtlogin_packet<F: FnOnce(Vec<u8>) -> Vec<u8>>(packet: Vec<u8>, tea_decrypt: F) -> (r:
    Result<Vec<u8>, PacketError>)
    requires
        packet@.len() >= 1,
        packet@[0] == 2 ==> packet@.len() >= 17,
        forall|b: Vec<u8>| call_requires(tea_decrypt, (b,)),
    ensures
        packet@[0] != 2 ==> (r matches Err(PacketError::OtherError(m)) && m@
            == "invalid packet header when parse_wtlogin_packet"@),
        packet@[0] == 2 && packet@.last() != 3 ==> (r matches Err(PacketError::OtherError(m))
            && m@ == "invalid packet end when parse_wtlogin_packet"@),
        packet@[0] == 2 && packet@.last() == 3 ==> (r matches Ok(d) && exists|b: Vec<u8>|
            b@ == packet@.subrange(16, packet@.len() - 1) && call_ensures(tea_decrypt, (b,), d)),
{
    let ghost s = packet@;
    let mut reader = PacketReader::new(packet);
    let header = reader.u8();
    if header != 2 {
        return Err(
            PacketError::OtherError(String::from_str("invalid packet header when parse_wtlogin_packet")),
        );
    }
    reader.u16();
    reader.u16();
    reader.u16();
    reader.u16();
    reader.u32();
    reader.u8();
    reader.u16();
    proof {
        assert(s.skip(1).skip(2).skip(2).skip(2).skip(2).skip(4).skip(1).skip(2) =~= s.skip(16));
    }
    let rest = reader.remaining();
    let mut encrypted = reader.read_with_length_exact(rest - 1);
    let tail = reader.u8();
    let body = encrypted.bytes();
    proof {
        assert(s.skip(16).take(rest - 1) =~= s.subrange(16, s.len() - 1));
        assert(s.skip(16).skip(rest - 1)[0] == s.last());
    }
    if tail != 3 {
        return Err(
            PacketError::OtherError(String::from_str("invalid packet end when parse_wtlogin_packet")),
        );
    }
    let decrypted = tea_decrypt(body);
    Ok(decrypted)
}

// ---------------------------------------------------------------------------
// Parsing
// ---------------------------------------------------------------------------

/// What a decrypted trans_emp answer holds.
#[derive(Debug)]
pub enum TransEmpParsed {
    /// The answer to fetching a QR code: its signature and the records that
    /// describe the code (0x017 the image, 0x01c the expiry, 0x0d1 the url
    /// and QR signature), all three there.
    QrCode { signature: Vec<u8>, records: TlvSet },
    /// The answer to a status query.
    Query(TransEmp12Res),
}

/// The command of a decrypted trans_emp answer.
pub open spec fn trans_emp_command(s: Seq<u8>) -> u16 {
    from_be16(s.skip(8))
}

/// What follows the 54-byte header of a decrypted trans_emp answer.
pub open spec fn trans_emp_rest(s: Seq<u8>) -> Seq<u8> {
    s.skip(54)
}

/// The QR signature length of a QR code answer.
pub open spec fn qr_signature_len(rest: Seq<u8>) -> int {
    from_be16(rest.skip(1)) as int
}

/// A decrypted trans_emp answer is all there.
pub open spec fn trans_emp_complete(s: Seq<u8>) -> bool {
    let rest = trans_emp_rest(s);
    &&& s.len() >= 54
    &&& trans_emp_command(s) == 0x31 ==> rest.len() >= 3 && qr_signature_len(rest) <= rest.len()
        - 3 && tlv_set_complete(rest.skip(3 + qr_signature_len(rest)))
    &&& trans_emp_command(s) == 0x12 ==> rest.len() >= 1 && (rest[0] == 0 ==> rest.len() >= 13
        && tlv_set_complete(rest.skip(13)))
}

/// Whether the decrypted trans_emp answer `s` is all there.
pub fn is_trans_emp_complete(s: &[u8]) -> (r: bool)
    ensures
        r == trans_emp_complete(s@),
{
    if s.len() < 54 {
        return false;
    }
    let ghost rest = trans_emp_rest(s@);
    let cmd = crate::packet::be16_at(s, 8);
    if cmd == 0x31 {
        if s.len() - 54 < 3 {
            return false;
        }
        let n = crate::packet::be16_at(s, 55) as usize;
        assert(rest.skip(1) =~= s@.skip(55));
        if n > s.len() - 57 {
            return false;
        }
        let tail = vstd::slice::slice_subrange(s, 57 + n, s.len());
        assert(tail@ =~= rest.skip(3 + n));
        is_tlv_set_complete(tail)
    } else if cmd == 0x12 {
        if s.len() - 54 < 1 {
            return false;
        }
        if s[54] != 0 {
            return true;
        }
        if s.len() - 54 < 13 {
            return false;
        }
        let tail = vstd::slice::slice_subrange(s, 67, s.len());
        assert(tail@ =~= rest.skip(13));
        is_tlv_set_complete(tail)
    } else {
        true
    }
}

/// The records of a QR code answer.
pub open spec fn qr_code_records(s: Seq<u8>) -> Map<u16, Seq<u8>> {
    let t = trans_emp_rest(s).skip(3 + qr_signature_len(trans_emp_rest(s)));
    tlv_map(tlv_items(t.skip(2), from_be16(t) as nat)->0, true)
}

/// The records of a confirmed status answer.
pub open spec fn confirmed_records(s: Seq<u8>) -> Map<u16, Seq<u8>> {
    let t = trans_emp_rest(s).skip(13);
    tlv_map(tlv_items(t.skip(2), from_be16(t) as nat)->0, true)
}

/// Reads a decrypted trans_emp answer: after the 54-byte header, a QR code
/// answer (0x31) holds a byte, the signature after its 2-byte length and
/// the records; a status answer (0x12) holds the state, and when it is 0
/// (confirmed) 12 more bytes and the records, of which 0x01e, 0x018 and
/// 0x019 hold the handed-over keys.
pub fn parse_trans_emp(body: Vec<u8>) -> (r: Result<TransEmpParsed, crate::event::EventError>)
    requires
        trans_emp_complete(body@),
    ensures
        trans_emp_command(body@) == 0x31 ==> ({
            let m = qr_code_records(body@);
            if !m.contains_key(0x017) {
                r matches Err(crate::event::EventError::MissingTlv(TlvError::MissingTlv(t))) && t == 0x017
            } else if !m.contains_key(0x01c) {
                r matches Err(crate::event::EventError::MissingTlv(TlvError::MissingTlv(t))) && t == 0x01c
            } else if !m.contains_key(0x0d1) {
                r matches Err(crate::event::EventError::MissingTlv(TlvError::MissingTlv(t))) && t == 0x0d1
            } else {
                r matches Ok(TransEmpParsed::QrCode { signature, records }) && signature@
                    == trans_emp_rest(body@).subrange(3, 3 + qr_signature_len(trans_emp_rest(body@)))
                    && records@ == m
            }
        }),
        trans_emp_command(body@) == 0x12 ==> match trans_emp_rest(body@)[0] {
            0 => {
                let m = confirmed_records(body@);
                if !m.contains_key(0x01e) {
                    r matches Err(crate::event::EventError::MissingTlv(TlvError::MissingTlv(t))) && t == 0x01e
                } else if !m.contains_key(0x018) {
                    r matches Err(crate::event::EventError::MissingTlv(TlvError::MissingTlv(t))) && t == 0x018
                } else if !m.contains_key(0x019) {
                    r matches Err(crate::event::EventError::MissingTlv(TlvError::MissingTlv(t))) && t == 0x019
                } else {
                    r matches Ok(TransEmpParsed::Query(TransEmp12Res::Confirmed(d))) && d.tgtgt_key@
                        == m[0x01e] && d.temp_password@ == m[0x018] && d.no_pic_sig@ == m[0x019]
                }
            },
            17 => r matches Ok(TransEmpParsed::Query(TransEmp12Res::CodeExpired)),
            48 => r matches Ok(TransEmpParsed::Query(TransEmp12Res::WaitingForScan)),
            53 => r matches Ok(TransEmpParsed::Query(TransEmp12Res::WaitingForConfirm)),
            54 => r matches Ok(TransEmpParsed::Query(TransEmp12Res::Canceled)),
            state => r matches Err(crate::event::EventError::OtherError(m)) && m@
                == "unknown trans_emp ret code: "@ + decimal(state as nat),
        },
        trans_emp_command(body@) != 0x31 && trans_emp_command(body@) != 0x12 ==> (r matches Err(
            crate::event::EventError::OtherError(m),
        ) && m@ == "unsupported trans_emp command: "@ + "0x"@ + lower_hex(
            trans_emp_command(body@) as nat,
        )),
{
    let ghost s = body@;
    let mut reader = PacketReader::new(body);
    let _packet_length = reader.u32();
    let _unknown = reader.u32();
    let command = reader.u16();
    reader.skip(40);
    let _app_id = reader.u32();
    proof {
        assert(s.skip(4).skip(4) =~= s.skip(8));
        assert(s.skip(8).skip(2).skip(40).skip(4) =~= s.skip(54));
    }
    let rest = reader.bytes();
    if command == 0x31 {
        let ghost t = rest@;
        let mut r2 = PacketReader::new(rest);
        let _ = r2.u8();
        let mut sig = r2.section_16_with_addition(0);
        let signature = sig.bytes();
        let tail = r2.bytes();
        proof {
            assert(t.skip(1).subrange(2, 2 + qr_signature_len(t)) =~= t.subrange(3, 3 + qr_signature_len(t)));
            assert(t.skip(1).skip(2 + qr_signature_len(t)) =~= t.skip(3 + qr_signature_len(t)));
        }
        let records = TlvSet::deserialize_qrcode(tail);
        if let Err(tag) = records.get(0x017) {
            return Err(crate::event::EventError::MissingTlv(TlvError::MissingTlv(tag)));
        }
        if let Err(tag) = records.get(0x01c) {
            return Err(crate::event::EventError::MissingTlv(TlvError::MissingTlv(tag)));
        }
        if let Err(tag) = records.get(0x0d1) {
            return Err(crate::event::EventError::MissingTlv(TlvError::MissingTlv(tag)));
        }
        Ok(TransEmpParsed::QrCode { signature, records })
    } else if command == 0x12 {
        let ghost t = rest@;
        let mut r2 = PacketReader::new(rest);
        let state = r2.u8();
        if state == 0 {
            r2.skip(12);
            let tail = r2.bytes();
            proof {
                assert(t.skip(1).skip(12) =~= t.skip(13));
            }
            let records = TlvSet::deserialize_qrcode(tail);
            let tgtgt_key = match records.get(0x01e) {
                Ok(v) => vstd::slice::slice_to_vec(v.as_slice()),
                Err(tag) => {
                    return Err(crate::event::EventError::MissingTlv(TlvError::MissingTlv(tag)));
                },
            };
            let temp_password = match records.get(0x018) {
                Ok(v) => vstd::slice::slice_to_vec(v.as_slice()),
                Err(tag) => {
                    return Err(crate::event::EventError::MissingTlv(TlvError::MissingTlv(tag)));
                },
            };
            let no_pic_sig = match records.get(0x019) {
                Ok(v) => vstd::slice::slice_to_vec(v.as_slice()),
                Err(tag) => {
                    return Err(crate::event::EventError::MissingTlv(TlvError::MissingTlv(tag)));
                },
            };
            Ok(
                TransEmpParsed::Query(
                    TransEmp12Res::Confirmed(
                        TransEmp12ConfirmedData { tgtgt_key, temp_password, no_pic_sig },
                    ),
                ),
            )
        } else if state == 17 {
            Ok(TransEmpParsed::Query(TransEmp12Res::CodeExpired))
        } else if state == 48 {
            Ok(TransEmpParsed::Query(TransEmp12Res::WaitingForScan))
        } else if state == 53 {
            Ok(TransEmpParsed::Query(TransEmp12Res::WaitingForConfirm))
        } else if state == 54 {
            Ok(TransEmpParsed::Query(TransEmp12Res::Canceled))
        } else {
            let mut m = String::from_str("unknown trans_emp ret code: ");
            let n = u32_to_string(state as u32);
            m.append(n.as_str());
            Err(crate::event::EventError::OtherError(m))
        }
    } else {
        let mut m = String::from_str("unsupported trans_emp command: ");
        let h = format_alt_hex_u16(command);
        m.append(h.as_str());
        proof {
            assert(m@ =~= "unsupported trans_emp command: "@ + "0x"@ + lower_hex(command as nat));
        }
        Err(crate::event::EventError::OtherError(m))
    }
}


// ---------------------------------------------------------------------------
// Logging in by QR code
// ---------------------------------------------------------------------------

/// What a QR code login does after learning the code's state.
#[derive(Debug)]
pub enum QrLoginStep {
    /// Nobody has scanned or confirmed yet: ask again later.
    KeepWaiting,
    /// The code was confirmed: store these keys and log in.
    LogIn(TransEmp12ConfirmedData),
    /// The login ends with this error.
    Fail(String),
}

/// The next step of a QR code login, given the code's state: wait while it
/// is not scanned or not confirmed, log in once it is confirmed, and fail
/// when it expired or the user canceled.
pub fn qr_login_step(state: TransEmp12Res) -> (r: QrLoginStep)
    ensures
        (state is WaitingForScan || state is WaitingForConfirm) ==> r is KeepWaiting,
        state matches TransEmp12Res::Confirmed(d) ==> r == QrLoginStep::LogIn(d),
        state is CodeExpired ==> (r matches QrLoginStep::Fail(m) && m@ == "QR code expired"@),
        state is Canceled ==> (r matches QrLoginStep::Fail(m) && m@
            == "QR code login canceled by user"@),
{
    match state {
        TransEmp12Res::WaitingForScan => QrLoginStep::KeepWaiting,
        TransEmp12Res::WaitingForConfirm => QrLoginStep::KeepWaiting,
        TransEmp12Res::Confirmed(d) => QrLoginStep::LogIn(d),
        TransEmp12Res::CodeExpired => QrLoginStep::Fail(String::from_str("QR code expired")),
        TransEmp12Res::Canceled => QrLoginStep::Fail(
            String::from_str("QR code login canceled by user"),
        ),
    }
}

/// How long a QR code login waits between two questions, in milliseconds.
pub const QR_POLL_INTERVAL_MS: u64 = 2000;

/// How long a QR code login waits in all, in milliseconds.
pub const QR_LOGIN_TIMEOUT_MS: u64 = 120000;

/// The step of a QR code login `elapsed_ms` milliseconds after it started,
/// given the code's state: past the time limit the login fails as timed
/// out; before it, the step is `qr_login_step`'s.
pub fn qr_login_next(elapsed_ms: u64, state: TransEmp12Res) -> (r: QrLoginStep)
    ensures
        elapsed_ms >= QR_LOGIN_TIMEOUT_MS ==> (r matches QrLoginStep::Fail(m) && m@
            == "QR code scan timed out after 120s!"@),
        elapsed_ms < QR_LOGIN_TIMEOUT_MS ==> {
            &&& (state is WaitingForScan || state is WaitingForConfirm) ==> r is KeepWaiting
            &&& state matches TransEmp12Res::Confirmed(d) ==> r == QrLoginStep::LogIn(d)
            &&& state is CodeExpired ==> (r matches QrLoginStep::Fail(m) && m@ == "QR code expired"@)
            &&& state is Canceled ==> (r matches QrLoginStep::Fail(m) && m@
                == "QR code login canceled by user"@)
        },
{
    if elapsed_ms >= QR_LOGIN_TIMEOUT_MS {
        return QrLoginStep::Fail(String::from_str("QR code scan timed out after 120s!"));
    }
    qr_login_step(state)
}

/// The keys of a login session that a confirmed QR code gives.
#[derive(Debug)]
pub struct SessionKeys {
    pub tgtgt_key: Vec<u8>,
    pub temp_password: Option<Vec<u8>>,
    pub no_pic_sig: Option<Vec<u8>>,
}

/// Stores the keys of a confirmed QR code: the TGTGT key, the temporary
/// password and the signature without picture.
pub fn store_confirmed_keys(keys: &mut SessionKeys, data: TransEmp12ConfirmedData)
    ensures
        final(keys).tgtgt_key == data.tgtgt_key,
        final(keys).temp_password == Some(data.temp_password),
        final(keys).no_pic_sig == Some(data.no_pic_sig),
{
    keys.tgtgt_key = data.tgtgt_key;
    keys.temp_password = Some(data.temp_password);
    keys.no_pic_sig = Some(data.no_pic_sig);
}

} // verus!

