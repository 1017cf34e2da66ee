//! Tag-length-value records of the login protocol.
use vstd::prelude::*;
use vstd::string::StringSliceAdditionalSpecFns;
use std::collections::HashMap;
use crate::packet::{be16, be16_at, from_be16, PacketBuilder, PacketReader};

verus! {

broadcast use vstd::std_specs::hash::group_hash_axioms;

/// Errors of TLV handling.
#[derive(Debug)]
pub enum TlvError {
    /// A record with a tag that is not read.
    UnsupportedTag(u16),
    /// A record that was expected is missing.
    MissingTlv(u16),
}

/// The tags of the records read from login responses.
pub open spec fn is_tlv_de_tag(tag: u16) -> bool {
    tag == 0x106 || tag == 0x10A || tag == 0x119 || tag == 0x143 || tag == 0x146 || tag == 0x305
        || tag == 0x543 || tag == 0x11A
}

/// The tags of the records read from QR code login responses.
pub open spec fn is_qrcode_tlv_de_tag(tag: u16) -> bool {
    tag == 0x017 || tag == 0x018 || tag == 0x019 || tag == 0x01c || tag == 0x01e || tag == 0x0d1
}

/// The tags of the records written in login requests.
pub open spec fn is_tlv_ser_tag(tag: u16) -> bool {
    tag == 0x106 || tag == 0x144 || tag == 0x116 || tag == 0x142 || tag == 0x145 || tag == 0x018
        || tag == 0x141 || tag == 0x177 || tag == 0x191 || tag == 0x100 || tag == 0x107 || tag
        == 0x318 || tag == 0x16a || tag == 0x166 || tag == 0x521 || tag == 0x16E || tag == 0x147
        || tag == 0x128 || tag == 0x124
}

/// The tags of the records written in QR code login requests.
pub open spec fn is_qrcode_tlv_ser_tag(tag: u16) -> bool {
    tag == 0x011 || tag == 0x016 || tag == 0x01b || tag == 0x01d || tag == 0x033 || tag == 0x035
        || tag == 0x066 || tag == 0x0d1
}

/// Whether a login request can hold a record with `tag`.
pub fn is_writable_tag(tag: u16) -> (r: bool)
    ensures
        r == is_tlv_ser_tag(tag),
{
    tag == 0x106 || tag == 0x144 || tag == 0x116 || tag == 0x142 || tag == 0x145 || tag == 0x018
        || tag == 0x141 || tag == 0x177 || tag == 0x191 || tag == 0x100 || tag == 0x107 || tag
        == 0x318 || tag == 0x16a || tag == 0x166 || tag == 0x521 || tag == 0x16E || tag == 0x147
        || tag == 0x128 || tag == 0x124
}

/// Whether a QR code login request can hold a record with `tag`.
pub fn is_writable_qrcode_tag(tag: u16) -> (r: bool)
    ensures
        r == is_qrcode_tlv_ser_tag(tag),
{
    tag == 0x011 || tag == 0x016 || tag == 0x01b || tag == 0x01d || tag == 0x033 || tag == 0x035
        || tag == 0x066 || tag == 0x0d1
}

/// The tags read in the given kind of response.
pub open spec fn is_read_tag(tag: u16, qrcode: bool) -> bool {
    if qrcode {
        is_qrcode_tlv_de_tag(tag)
    } else {
        is_tlv_de_tag(tag)
    }
}

fn read_tag(tag: u16, qrcode: bool) -> (r: bool)
    ensures
        r == is_read_tag(tag, qrcode),
{
    if qrcode {
        tag == 0x017 || tag == 0x018 || tag == 0x019 || tag == 0x01c || tag == 0x01e || tag
            == 0x0d1
    } else {
        tag == 0x106 || tag == 0x10A || tag == 0x119 || tag == 0x143 || tag == 0x146 || tag
            == 0x305 || tag == 0x543 || tag == 0x11A
    }
}

/// The length of the value of the record at the front of `s`.
pub open spec fn tlv_value_len(s: Seq<u8>) -> int {
    from_be16(s.skip(2)) as int
}

/// A whole record stands at the front of `s`: tag, length and value.
pub open spec fn tlv_at_front(s: Seq<u8>) -> bool {
    s.len() >= 4 && s.len() >= 4 + tlv_value_len(s)
}

/// The `n` records at the front of `s`, each as its tag and value, when they
/// are all there.
pub open spec fn tlv_items(s: Seq<u8>, n: nat) -> Option<Seq<(u16, Seq<u8>)>>
    decreases n,
{
    if n == 0 {
        Some(Seq::empty())
    } else if !tlv_at_front(s) {
        None
    } else {
        match tlv_items(s.skip(4 + tlv_value_len(s)), (n - 1) as nat) {
            Some(rest) => Some(
                seq![(from_be16(s), s.subrange(4, 4 + tlv_value_len(s)))] + rest,
            ),
            None => None,
        }
    }
}

/// The records kept of `items`: those with a read tag, a later record
/// replacing an earlier one with the same tag.
pub open spec fn tlv_map(items: Seq<(u16, Seq<u8>)>, qrcode: bool) -> Map<u16, Seq<u8>>
    decreases items.len(),
{
    if items.len() == 0 {
        Map::empty()
    } else {
        let m = tlv_map(items.drop_last(), qrcode);
        let (tag, value) = items.last();
        if is_read_tag(tag, qrcode) {
            m.insert(tag, value)
        } else {
            m
        }
    }
}

/// A set of records is all there: a 2-byte count, then that many records.
pub open spec fn tlv_set_complete(s: Seq<u8>) -> bool {
    s.len() >= 2 && tlv_items(s.skip(2), from_be16(s) as nat) is Some
}

/// Whether `s` holds a whole set of records (see `tlv_set_complete`).
pub fn is_tlv_set_complete(s: &[u8]) -> (r: bool)
    ensures
        r == tlv_set_complete(s@),
{
    if s.len() < 2 {
        return false;
    }
    let count = be16_at(s, 0);
    assert(s@.skip(0) =~= s@);
    let mut pos: usize = 2;
    let mut i: u16 = 0;
    while i < count
        invariant
            2 <= pos <= s@.len(),
            i <= count,
            count == from_be16(s@),
            (tlv_items(s@.skip(2), count as nat) is Some) == (tlv_items(
                s@.skip(pos as int),
                (count - i) as nat,
            ) is Some),
        decreases count - i,
    {
        let ghost t = s@.skip(pos as int);
        let rest = s.len() - pos;
        if rest < 4 {
            return false;
        }
        let len = be16_at(s, pos + 2) as usize;
        assert(t.skip(2) =~= s@.skip(pos + 2));
        if rest - 4 < len {
            return false;
        }
        assert(t.skip(4 + len) =~= s@.skip(pos + 4 + len));
        pos = pos + 4 + len;
        i = i + 1;
    }
    true
}

/// One record read from a packet.
#[derive(Debug)]
pub struct RawTlv {
    pub tag: u16,
    pub value: Vec<u8>,
}

fn deserialize_any_tlv(reader: &mut PacketReader, qrcode: bool) -> (r: Result<RawTlv, TlvError>)
    requires
        tlv_at_front(old(reader)@),
    ensures
        final(reader)@ == old(reader)@.skip(4 + tlv_value_len(old(reader)@)),
        is_read_tag(from_be16(old(reader)@), qrcode) ==> (r matches Ok(t) && t.tag == from_be16(
            old(reader)@,
        ) && t.value@ == old(reader)@.subrange(4, 4 + tlv_value_len(old(reader)@))),
        !is_read_tag(from_be16(old(reader)@), qrcode) ==> (r matches Err(TlvError::UnsupportedTag(t))
            && t == from_be16(old(reader)@)),
{
    let ghost s = reader@;
    let tag = reader.u16();
    proof {
        assert(s.skip(2).skip(2) =~= s.skip(4));
    }
    let mut value_reader = reader.section_16_with_addition(0);
    let value = value_reader.bytes();
    proof {
        assert(s.skip(2).subrange(2, 2 + tlv_value_len(s)) =~= s.subrange(4, 4 + tlv_value_len(s)));
        assert(s.skip(2).skip(2 + tlv_value_len(s)) =~= s.skip(4 + tlv_value_len(s)));
    }
    if read_tag(tag, qrcode) {
        Ok(RawTlv { tag, value })
    } else {
        Err(TlvError::UnsupportedTag(tag))
    }
}

/// Reads one record of a login response. A record with a tag that is not
/// read is skipped and reported as unsupported.
pub fn deserialize_tlv(reader: &mut PacketReader) -> (r: Result<RawTlv, TlvError>)
    requires
        tlv_at_front(old(reader)@),
    ensures
        final(reader)@ == old(reader)@.skip(4 + tlv_value_len(old(reader)@)),
        is_tlv_de_tag(from_be16(old(reader)@)) ==> (r matches Ok(t) && t.tag == from_be16(
            old(reader)@,
        ) && t.value@ == old(reader)@.subrange(4, 4 + tlv_value_len(old(reader)@))),
        !is_tlv_de_tag(from_be16(old(reader)@)) ==> (r matches Err(TlvError::UnsupportedTag(t))
            && t == from_be16(old(reader)@)),
{
    deserialize_any_tlv(reader, false)
}

/// Reads one record of a QR code login response. A record with a tag that
/// is not read is skipped and reported as unsupported.
pub fn deserialize_qrcode_tlv(reader: &mut PacketReader) -> (r: Result<RawTlv, TlvError>)
    requires
        tlv_at_front(old(reader)@),
    ensures
        final(reader)@ == old(reader)@.skip(4 + tlv_value_len(old(reader)@)),
        is_qrcode_tlv_de_tag(from_be16(old(reader)@)) ==> (r matches Ok(t) && t.tag == from_be16(
            old(reader)@,
        ) && t.value@ == old(reader)@.subrange(4, 4 + tlv_value_len(old(reader)@))),
        !is_qrcode_tlv_de_tag(from_be16(old(reader)@)) ==> (r matches Err(
            TlvError::UnsupportedTag(t),
        ) && t == from_be16(old(reader)@)),
{
    deserialize_any_tlv(reader, true)
}

/// The records of a response, by tag.
#[derive(Debug)]
pub struct TlvSet(HashMap<u16, Vec<u8>>);

impl View for TlvSet {
    type V = Map<u16, Seq<u8>>;

    closed spec fn view(&self) -> Map<u16, Seq<u8>> {
        self.0@.map_values(|v: Vec<u8>| v@)
    }
}

impl TlvSet {
    fn deserialize_any(packet: Vec<u8>, qrcode: bool) -> (r: Self)
        requires
            tlv_set_complete(packet@),
        ensures
            r@ == tlv_map(tlv_items(packet@.skip(2), from_be16(packet@) as nat)->0, qrcode),
    {
        let ghost s = packet@;
        let mut result: HashMap<u16, Vec<u8>> = HashMap::new();
        let mut reader = PacketReader::new(packet);
        let count = reader.u16();
        let ghost items = tlv_items(s.skip(2), count as nat)->0;
        let mut i: u16 = 0;
        proof {
            lemma_tlv_items_len(s.skip(2), count as nat);
            assert(items.skip(0) =~= items);
            assert(items.take(0) =~= Seq::<(u16, Seq<u8>)>::empty());
            assert(result@.map_values(|v: Vec<u8>| v@) =~= Map::<u16, Seq<u8>>::empty());
        }
        while i < count
            invariant
                0 <= i <= count,
                items.len() == count,
                tlv_items(reader@, (count - i) as nat) == Some(items.skip(i as int)),
                result@.map_values(|v: Vec<u8>| v@) == tlv_map(items.take(i as int), qrcode),
            decreases count - i,
        {
            let ghost before = reader@;
            let ghost m0 = result@;
            proof {
                lemma_tlv_items_len(reader@, (count - i) as nat);
            }
            match deserialize_any_tlv(&mut reader, qrcode) {
                Ok(tlv) => {
                    let RawTlv { tag, value } = tlv;
                    result.insert(tag, value);
                },
                Err(_) => {},
            }
            proof {
                assert(items.skip(i as int).drop_first() =~= items.skip(i + 1));
                assert(items.take(i + 1).drop_last() =~= items.take(i as int));
                assert(items.take(i + 1).last() == items[i as int]);
                assert(items[i as int] == items.skip(i as int)[0]);
                assert(result@.map_values(|v: Vec<u8>| v@) =~= tlv_map(items.take(i + 1), qrcode));
            }
            i = i + 1;
        }
        proof {
            assert(items.take(count as int) =~= items);
        }
        TlvSet(result)
    }

    /// Reads the records of a login response: a 2-byte count, then that
    /// many records. Records with tags that are not read are skipped.
    pub fn deserialize(packet: Vec<u8>) -> (r: Self)
        requires
            tlv_set_complete(packet@),
        ensures
            r@ == tlv_map(tlv_items(packet@.skip(2), from_be16(packet@) as nat)->0, false),
    {
        Self::deserialize_any(packet, false)
    }

    /// Reads the records of a QR code login response.
    pub fn deserialize_qrcode(packet: Vec<u8>) -> (r: Self)
        requires
            tlv_set_complete(packet@),
        ensures
            r@ == tlv_map(tlv_items(packet@.skip(2), from_be16(packet@) as nat)->0, true),
    {
        Self::deserialize_any(packet, true)
    }

    /// The value of the record with `tag`; the tag itself when there is none.
    pub fn get(&self, tag: u16) -> (r: Result<&Vec<u8>, u16>)
        ensures
            self@.contains_key(tag) ==> (r matches Ok(v) && v@ == self@[tag]),
            !self@.contains_key(tag) ==> r == Err::<&Vec<u8>, u16>(tag),
    {
        match self.0.get(&tag) {
            Some(v) => Ok(v),
            None => Err(tag),
        }
    }
}

proof fn lemma_tlv_items_len(s: Seq<u8>, n: nat)
    ensures
        tlv_items(s, n) matches Some(items) ==> items.len() == n,
    decreases n,
{
    if n > 0 && tlv_at_front(s) {
        lemma_tlv_items_len(s.skip(4 + tlv_value_len(s)), (n - 1) as nat);
    }
}

// ---------------------------------------------------------------------------
// Writing records
// ---------------------------------------------------------------------------

/// The bytes of a record: tag, 2-byte value length, value.
pub open spec fn tlv_bytes(tag: u16, value: Seq<u8>) -> Seq<u8> {
    be16(tag) + be16(value.len() as u16) + value
}

/// The bytes of the records `items`, one after the other.
pub open spec fn tlvs_bytes(items: Seq<(u16, Seq<u8>)>) -> Seq<u8>
    decreases items.len(),
{
    if items.len() == 0 {
        Seq::empty()
    } else {
        tlv_bytes(items[0].0, items[0].1) + tlvs_bytes(items.drop_first())
    }
}

impl PacketBuilder {
    /// Appends `bytes` after a 2-byte field holding their length.
    pub fn bytes_with_length(self, bytes: &[u8]) -> (r: Self)
        requires
            bytes@.len() <= u16::MAX,
        ensures
            r@ == self@ + be16(bytes@.len() as u16) + bytes@,
    {
        self.u16(bytes.len() as u16).bytes(bytes)
    }

    /// Appends the UTF-8 encoding of `s` after a 2-byte field holding its
    /// length.
    pub fn string_with_length(self, s: &str) -> (r: Self)
        requires
            s.spec_bytes().len() <= u16::MAX,
        ensures
            r@ == self@ + be16(s.spec_bytes().len() as u16) + s.spec_bytes(),
    {
        self.bytes_with_length(s.as_bytes())
    }

    /// Appends a record: `tag`, then what `f` appends after a 2-byte field
    /// holding its length.
    pub fn tlv(self, tag: u16, f: impl FnOnce(Self) -> Self) -> (r: Self)
        requires
            crate::packet::f_accepts(f, self@ + be16(tag) + be16(0)),
            crate::packet::f_keeps_prefix_room(f, self@ + be16(tag) + be16(0), 0, 0),
            crate::packet::f_fits_u16(f, self@ + be16(tag) + be16(0), 0),
        ensures
            exists|b: PacketBuilder, c: PacketBuilder|
                b@ == self@ + be16(tag) + be16(0) && #[trigger] f.ensures((b,), c) && r@
                    == crate::packet::patch(
                    c@,
                    self@.len() + 2int,
                    be16((c@.len() - b@.len()) as u16),
                ),
    {
        self.u16(tag).section_16_with_addition(0, f)
    }
}

/// Appends the count of `tlvs`, as 2 bytes, then the already serialized
/// records themselves.
pub fn serialize_tlv_set(tlvs: &Vec<Vec<u8>>, packet: PacketBuilder) -> (r: PacketBuilder)
    ensures
        r@ == packet@ + be16(tlvs@.len() as u16) + tlvs@.map_values(|t: Vec<u8>| t@).flatten(),
{
    let mut p = packet.u16(tlvs.len() as u16);
    let ghost start = p@;
    let mut i: usize = 0;
    let ghost views = tlvs@.map_values(|t: Vec<u8>| t@);
    proof {
        assert(views.take(0) =~= Seq::<Seq<u8>>::empty());
    }
    while i < tlvs.len()
        invariant
            0 <= i <= tlvs@.len(),
            views == tlvs@.map_values(|t: Vec<u8>| t@),
            p@ == start + views.take(i as int).flatten(),
        decreases tlvs@.len() - i,
    {
        p = p.bytes(tlvs[i].as_slice());
        proof {
            assert(views.take(i + 1) =~= views.take(i as int).push(views[i as int]));
            views.take(i as int).lemma_flatten_push(views[i as int]);
        }
        i = i + 1;
    }
    proof {
        assert(views.take(tlvs@.len() as int) =~= views);
    }
    p
}

/// What `serialize_tlv_set` writes of records read back by
/// `TlvSet::deserialize`: the records, in order, each with its tag and value.
#[verifier::spinoff_prover]
#[verifier::rlimit(50)]
pub proof fn law_tlv_records_read_back(items: Seq<(u16, Seq<u8>)>, rest: Seq<u8>)
    requires
        forall|i: int| 0 <= i < items.len() ==> (#[trigger] items[i]).1.len() <= u16::MAX,
    ensures
        tlv_items(tlvs_bytes(items) + rest, items.len()) == Some(items),
    decreases items.len(),
{
    if items.len() > 0 {
        let (tag, value) = items[0];
        let tail = items.drop_first();
        assert forall|i: int| 0 <= i < tail.len() implies (#[trigger] tail[i]).1.len() <= u16::MAX by {
            assert(tail[i] == items[i + 1]);
        }
        law_tlv_records_read_back(tail, rest);
        let s = tlvs_bytes(items) + rest;
        crate::packet::law_u16_read_back(tag, s.skip(2));
        crate::packet::law_u16_read_back(value.len() as u16, s.skip(4));
        assert(s =~= be16(tag) + (be16(value.len() as u16) + (value + (tlvs_bytes(tail) + rest))));
        assert(s.skip(2) =~= be16(value.len() as u16) + (value + (tlvs_bytes(tail) + rest)));
        assert(s.skip(4 + value.len() as int) =~= tlvs_bytes(tail) + rest);
        assert(s.subrange(4, 4 + value.len() as int) =~= value);
        assert(seq![(tag, value)] + tail =~= items);
    }
}

// ---------------------------------------------------------------------------
// Record 0x106
// ---------------------------------------------------------------------------

/// Serialization of a login record.
pub trait TlvSer {
    /// The record's bytes.
    spec fn spec_serialized(&self) -> Seq<u8>;

    /// The record can be written (its value fits its length field).
    spec fn spec_serializable(&self) -> bool;

    /// Appends the record.
    fn serialize(&self, p: PacketBuilder) -> (r: PacketBuilder)
        requires
            self.spec_serializable(),
        ensures
            r@ == p@ + self.spec_serialized(),
    ;

    /// The record's bytes on their own.
    fn serialize_to_bytes(&self) -> (r: Vec<u8>)
        requires
            self.spec_serializable(),
        ensures
            r@ == self.spec_serialized(),
    {
        let r = self.serialize(PacketBuilder::new()).build();
        assert(r@ =~= self.spec_serialized());
        r
    }
}

/// Record 0x106: the temporary password of an account, as the QR code
/// login hands it over.
#[derive(Debug)]
pub struct T106 {
    pub app_id: i32,
    pub app_client_version: i32,
    pub uin: i32,
    pub password_md5: Vec<u8>,
    pub guid: String,
    pub tgtgt_key: Vec<u8>,
    pub ip: [u8; 4],
    pub save_password: bool,
    pub temp: Vec<u8>,
}

impl TlvSer for T106 {
    open spec fn spec_serialized(&self) -> Seq<u8> {
        tlv_bytes(0x106, self.temp@)
    }

    open spec fn spec_serializable(&self) -> bool {
        self.temp@.len() <= u16::MAX
    }

    fn serialize(&self, p: PacketBuilder) -> (r: PacketBuilder) {
        let r = p.u16(0x106).bytes_with_length(self.temp.as_slice());
        assert(r@ =~= p@ + self.spec_serialized());
        r
    }
}

impl T106 {
    /// The record's tag.
    pub fn tag(&self) -> (r: u16)
        ensures
            r == 0x106,
    {
        0x106
    }

    /// The record's tag.
    pub fn tag_static() -> (r: u16)
        ensures
            r == 0x106,
    {
        0x106
    }

    /// Reads the record's length and value (its tag already read): the value
    /// is the temporary password, the other fields are left empty.
    pub fn deserialize(p: &mut PacketReader) -> (r: Result<T106, TlvError>)
        requires
            old(p)@.len() >= 2,
            from_be16(old(p)@) <= old(p)@.len() - 2,
        ensures
            r matches Ok(t) && t.temp@ == old(p)@.subrange(2, 2 + from_be16(old(p)@)) && t.app_id
                == 0 && t.uin == 0 && t.password_md5@.len() == 0 && t.guid@.len() == 0
                && t.tgtgt_key@.len() == 0 && t.ip@ == seq![0u8, 0, 0, 0] && !t.save_password,
            final(p)@ == old(p)@.skip(2 + from_be16(old(p)@)),
    {
        let mut value = p.section_16_with_addition(0);
        let temp = value.bytes();
        let r = T106 {
            app_id: 0,
            app_client_version: 0,
            uin: 0,
            password_md5: Vec::new(),
            guid: String::new(),
            tgtgt_key: Vec::new(),
            ip: [0; 4],
            save_password: false,
            temp,
        };
        assert(r.ip@ =~= seq![0u8, 0, 0, 0]);
        Ok(r)
    }
}

/// What the login records are made from.
#[derive(Debug)]
pub struct TlvPreload {
    unusual_sign: Option<Vec<u8>>,
    no_pic_sig: Option<Vec<u8>>,
    uin: u32,
    tgtgt_key: [u8; 16],
    temp_password: Option<Vec<u8>>,
}

impl TlvPreload {
    pub closed spec fn spec_unusual_sign(&self) -> Option<Vec<u8>> {
        self.unusual_sign
    }

    pub closed spec fn spec_no_pic_sig(&self) -> Option<Vec<u8>> {
        self.no_pic_sig
    }

    pub closed spec fn spec_uin(&self) -> u32 {
        self.uin
    }

    pub closed spec fn spec_tgtgt_key(&self) -> [u8; 16] {
        self.tgtgt_key
    }

    pub closed spec fn spec_temp_password(&self) -> Option<Vec<u8>> {
        self.temp_password
    }

    pub fn new(
        unusual_sign: Option<Vec<u8>>,
        no_pic_sig: Option<Vec<u8>>,
        uin: u32,
        tgtgt_key: [u8; 16],
        temp_password: Option<Vec<u8>>,
    ) -> (r: Self)
        ensures
            r.spec_unusual_sign() == unusual_sign,
            r.spec_no_pic_sig() == no_pic_sig,
            r.spec_uin() == uin,
            r.spec_tgtgt_key() == tgtgt_key,
            r.spec_temp_password() == temp_password,
    {
        TlvPreload { unusual_sign, no_pic_sig, uin, tgtgt_key, temp_password }
    }
}

/// The tags that login responses are read for are 0x106, 0x10A, 0x119,
/// 0x11A, 0x143, 0x146, 0x305 and 0x543; those of QR code login responses
/// 0x017, 0x018, 0x019, 0x01c, 0x01e and 0x0d1. A record with such a tag,
/// after any records, is what the read set holds for the tag; a record
/// with another tag leaves the set as the records before it made it.
pub proof fn law_read_tags(items: Seq<(u16, Seq<u8>)>, tag: u16, value: Seq<u8>)
    ensures
        (tag == 0x106 || tag == 0x10A || tag == 0x119 || tag == 0x11A || tag == 0x143 || tag
            == 0x146 || tag == 0x305 || tag == 0x543) ==> tlv_map(items.push((tag, value)), false)
            == tlv_map(items, false).insert(tag, value),
        !(tag == 0x106 || tag == 0x10A || tag == 0x119 || tag == 0x11A || tag == 0x143 || tag
            == 0x146 || tag == 0x305 || tag == 0x543) ==> tlv_map(items.push((tag, value)), false)
            == tlv_map(items, false),
        (tag == 0x017 || tag == 0x018 || tag == 0x019 || tag == 0x01c || tag == 0x01e || tag
            == 0x0d1) ==> tlv_map(items.push((tag, value)), true) == tlv_map(items, true).insert(
            tag,
            value,
        ),
        !(tag == 0x017 || tag == 0x018 || tag == 0x019 || tag == 0x01c || tag == 0x01e || tag
            == 0x0d1) ==> tlv_map(items.push((tag, value)), true) == tlv_map(items, true),
{
    let next = items.push((tag, value));
    assert(next.drop_last() =~= items);
    assert(next.last() == (tag, value));
}

/// The tags that login requests can hold are these 19 (in order of value):
/// 0x018, 0x100, 0x106, 0x107, 0x116, 0x124, 0x128, 0x141, 0x142, 0x144,
/// 0x145, 0x147, 0x166, 0x16a, 0x16e, 0x177, 0x191, 0x318 and 0x521; those
/// of QR code login requests 0x011, 0x016, 0x01b, 0x01d, 0x033, 0x035,
/// 0x066 and 0x0d1.
pub proof fn law_writable_tags(tag: u16)
    ensures
        is_tlv_ser_tag(tag) <==> (tag == 0x018 || tag == 0x100 || tag == 0x106 || tag == 0x107 || tag == 0x116 || tag == 0x124 || tag == 0x128 || tag == 0x141 || tag == 0x142 || tag == 0x144 || tag == 0x145 || tag == 0x147 || tag == 0x166 || tag == 0x16a || tag == 0x16e || tag == 0x177 || tag == 0x191 || tag == 0x318 || tag == 0x521),
        is_qrcode_tlv_ser_tag(tag) <==> (tag == 0x011 || tag == 0x016 || tag == 0x01b || tag == 0x01d || tag == 0x033 || tag == 0x035 || tag == 0x066 || tag == 0x0d1),
{
}

} // verus!


