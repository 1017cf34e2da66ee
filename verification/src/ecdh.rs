//! The P-256 key exchange that derives the login encryption key.
use vstd::prelude::*;

verus! {

/// The server key for the login exchange (uncompressed SEC1).
pub const ECDH_256_PEER_LOGIN_KEY: [u8; 65] = [
    0x04, 0xEB, 0xCA, 0x94, 0xD7, 0x33, 0xE3, 0x99, 0xB2, 0xDB, 0x96, 0xEA, 0xCD, 0xD3, 0xF6, 0x9A,
    0x8B, 0xB0, 0xF7, 0x42, 0x24, 0xE2, 0xB4, 0x4E, 0x33, 0x57, 0x81, 0x22, 0x11, 0xD2, 0xE6, 0x2E,
    0xFB, 0xC9, 0x1B, 0xB5, 0x53, 0x09, 0x8E, 0x25, 0xE3, 0x3A, 0x79, 0x9A, 0xDC, 0x7F, 0x76, 0xFE,
    0xB2, 0x08, 0xDA, 0x7C, 0x65, 0x22, 0xCD, 0xB0, 0x71, 0x9A, 0x30, 0x51, 0x80, 0xCC, 0x54, 0xA8,
    0x2E,
];

/// The server key for the key exchange service (uncompressed SEC1).
pub const ECDH_256_PEER_EXCHANGE_KEY: [u8; 65] = [
    0x04, 0x9D, 0x14, 0x23, 0x33, 0x27, 0x35, 0x98, 0x0E, 0xDA, 0xBE, 0x7E, 0x9E, 0xA4, 0x51, 0xB3,
    0x39, 0x5B, 0x6F, 0x35, 0x25, 0x0D, 0xB8, 0xFC, 0x56, 0xF2, 0x58, 0x89, 0xF6, 0x28, 0xCB, 0xAE,
    0x3E, 0x8E, 0x73, 0x07, 0x79, 0x14, 0x07, 0x1E, 0xEE, 0xBC, 0x10, 0x8F, 0x4E, 0x01, 0x70, 0x05,
    0x77, 0x92, 0xBB, 0x17, 0xAA, 0x30, 0x3A, 0xF6, 0x52, 0x31, 0x3D, 0x17, 0xC1, 0xAC, 0x81, 0x5E,
    0x79,
];

/// The server key of the older P-192 exchange (uncompressed SEC1).
pub const ECDH_192_PEER_KEY: [u8; 49] = [
    0x04, 0x92, 0x8D, 0x88, 0x50, 0x67, 0x30, 0x88, 0xB3, 0x43, 0x26, 0x4E, 0x0C, 0x6B, 0xAC, 0xB8,
    0x49, 0x6D, 0x69, 0x77, 0x99, 0xF3, 0x72, 0x11, 0xDE, 0xB2, 0x5B, 0xB7, 0x39, 0x06, 0xCB, 0x08,
    0x9F, 0xEA, 0x96, 0x39, 0xB4, 0xE0, 0x26, 0x04, 0x98, 0xB5, 0x1A, 0x99, 0x2D, 0x50, 0x81, 0x3D,
    0xA8,
];

/// Whether `p256::PublicKey::from_sec1_bytes` accepts `key`.
pub uninterp spec fn p256_point_valid(key: Seq<u8>) -> bool;

/// The uncompressed SEC1 encoding of the public key that belongs to the
/// P-256 secret scalar `secret` (`EphemeralSecret::public_key`, then
/// `EncodedPoint::from`).
pub uninterp spec fn p256_public_of(secret: Seq<u8>) -> Seq<u8>;

/// The raw bytes of the Diffie-Hellman secret that the P-256 secret scalar
/// `secret` shares with the peer key `peer`
/// (`EphemeralSecret::diffie_hellman`, then `raw_secret_bytes`).
pub uninterp spec fn p256_dh(secret: Seq<u8>, peer: Seq<u8>) -> Seq<u8>;

/// The MD5 digest of `data`.
pub uninterp spec fn md5_digest(data: Seq<u8>) -> Seq<u8>;

/// Calls `p256::PublicKey::from_sec1_bytes` and tells whether it accepts
/// `key`; that is named `p256_point_valid`.
#[verifier::external_body]
fn p256_accepts(key: &[u8]) -> (r: bool)
    ensures
        r == p256_point_valid(key@),
{
    p256::PublicKey::from_sec1_bytes(key).is_ok()
}

/// With a fresh random `p256::ecdh::EphemeralSecret` (from the operating
/// system's generator), computes the Diffie-Hellman exchange with the peer
/// key `server_public_key`: the uncompressed SEC1 encoding of the secret's
/// public key (65 bytes) and the 32 raw bytes of the shared secret. The
/// secret never leaves the `p256` types, so parsing the key, drawing the
/// secret and the exchange stand in this one item. Both outputs belong to
/// one secret scalar, named by `p256_public_of` and `p256_dh`; which scalar
/// is drawn is left open, being random. A key that `p256` does not accept
/// gives nothing.
#[verifier::external_body]
fn p256_ephemeral_exchange(server_public_key: &[u8]) -> (r: Option<(Vec<u8>, Vec<u8>)>)
    ensures
        r is Some <==> p256_point_valid(server_public_key@),
        r matches Some((public, secret)) ==> public@.len() == 65 && secret@.len() == 32,
        r matches Some((public, shared)) ==> exists|e: Seq<u8>|
            public@ == p256_public_of(e) && shared@ == p256_dh(e, server_public_key@),
{
    let peer = p256::PublicKey::from_sec1_bytes(server_public_key).ok()?;
    let secret = p256::ecdh::EphemeralSecret::random(&mut rand_core::OsRng);
    let public = p256::EncodedPoint::from(secret.public_key()).as_bytes().to_vec();
    let shared = secret.diffie_hellman(&peer).raw_secret_bytes().to_vec();
    Some((public, shared))
}

/// Calls `md5::Md5::digest` (`Digest::digest`).
#[verifier::external_body]
fn md5(data: &[u8]) -> (r: [u8; 16])
    ensures
        r@ == md5_digest(data@),
{
    <md5::Md5 as md5::Digest>::digest(data).into()
}

/// The login key derived from a raw shared secret: the MD5 digest of its
/// first 16 bytes.
pub fn shared_key_from_secret(raw_secret: &[u8]) -> (r: [u8; 16])
    requires
        raw_secret@.len() >= 16,
    ensures
        r@ == md5_digest(raw_secret@.take(16)),
{
    let head = vstd::slice::slice_subrange(raw_secret, 0, 16);
    assert(head@ =~= raw_secret@.take(16));
    md5(head)
}

/// The client side of the P-256 exchange: its public key to send, and the
/// derived login key.
pub struct P256 {
    public: Vec<u8>,
    shared: [u8; 16],
}

impl P256 {
    pub closed spec fn spec_public(&self) -> Seq<u8> {
        self.public@
    }

    pub closed spec fn spec_shared(&self) -> Seq<u8> {
        self.shared@
    }

    /// Exchanges keys with the server key `server_public_key`, which `p256`
    /// must accept.
    pub fn new(server_public_key: [u8; 65]) -> (r: Self)
        requires
            p256_point_valid(server_public_key@),
        ensures
            r.spec_public().len() == 65,
            exists|e: Seq<u8>|
                r.spec_public() == p256_public_of(e) && r.spec_shared() == md5_digest(
                    p256_dh(e, server_public_key@).take(16),
                ),
    {
        match p256_ephemeral_exchange(&server_public_key) {
            Some((public, secret)) => {
                let shared = shared_key_from_secret(secret.as_slice());
                P256 { public, shared }
            },
            None => {
                proof {
                    assert(false);
                }
                P256 { public: Vec::new(), shared: [0; 16] }
            },
        }
    }

    /// Exchanges keys with `server_public_key`; nothing when `p256` does
    /// not accept it.
    pub fn try_new(server_public_key: [u8; 65]) -> (r: Option<Self>)
        ensures
            r is Some <==> p256_point_valid(server_public_key@),
            r matches Some(p) ==> p.spec_public().len() == 65 && exists|e: Seq<u8>|
                p.spec_public() == p256_public_of(e) && p.spec_shared() == md5_digest(
                    p256_dh(e, server_public_key@).take(16),
                ),
    {
        if p256_accepts(&server_public_key) {
            Some(P256::new(server_public_key))
        } else {
            None
        }
    }

    pub fn public_key(&self) -> (r: &[u8])
        ensures
            r@ == self.spec_public(),
    {
        self.public.as_slice()
    }

    pub fn shared_key(&self) -> (r: &[u8])
        ensures
            r@ == self.spec_shared(),
    {
        &self.shared
    }
}

} // verus!
