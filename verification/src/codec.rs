//! Credential codec: derives the per-handshake keys from a shared secret,
//! verifies the integrity of an encrypted payload, decrypts it with a
//! counter-mode stream cipher under an all-zero initial counter, and parses
//! the plaintext into a credential record. A record is only constructed
//! after the checksum verification succeeds: a failed verification stops
//! decoding before any plaintext is produced.
//!
//! Payload layout: `ciphertext ‖ tag`, where the tag is the 20-byte keyed
//! hash of the ciphertext under the checksum key. Plaintext layout:
//! `auth_type (1 byte) ‖ username_len (1 byte) ‖ username ‖ auth_data`.

use vstd::prelude::*;

use crate::bytes::{append_bytes, copy_range, ct_eq, lemma_xor_involution, xor_bytes, xor_seq};
use crate::crypto::{
    aes128_ctr_keystream, aes128_ctr_keystream_of, checksum_key_of, derive_keys,
    encryption_key_of, hmac_sha1, hmac_sha1_of,
};
use crate::types::{AuthenticationType, CredentialRecord, CredentialView, DiscoveryError};

verus! {

/// Byte length of the checksum tag that ends every payload.
pub const TAG_LEN: usize = 20;

/// The ciphertext part of a payload: everything before the trailing tag.
pub open spec fn payload_ciphertext(p: Seq<u8>) -> Seq<u8> {
    p.subrange(0, p.len() - TAG_LEN)
}

/// The trailing checksum tag of a payload.
pub open spec fn payload_tag(p: Seq<u8>) -> Seq<u8> {
    p.subrange(p.len() - TAG_LEN, p.len() as int)
}

/// The all-zero initial counter block fixed by the protocol.
pub open spec fn zero_iv() -> Seq<u8> {
    Seq::new(16, |i: int| 0u8)
}

/// A payload passes integrity checking when it is long enough to carry a
/// tag and the tag equals the keyed hash of the ciphertext under the
/// checksum key derived from the shared secret.
pub open spec fn checksum_ok(secret: Seq<u8>, p: Seq<u8>) -> bool {
    &&& p.len() >= TAG_LEN
    &&& payload_tag(p) == hmac_sha1_of(checksum_key_of(secret), payload_ciphertext(p))
}

/// The plaintext a payload decrypts to under the encryption key derived
/// from the shared secret.
pub open spec fn plaintext_of(secret: Seq<u8>, p: Seq<u8>) -> Seq<u8> {
    xor_seq(
        payload_ciphertext(p),
        aes128_ctr_keystream_of(encryption_key_of(secret), zero_iv(), (p.len() - TAG_LEN) as nat),
    )
}

/// The structured record a plaintext parses to, if it is well formed.
pub open spec fn parse_plaintext(p: Seq<u8>) -> Option<CredentialView> {
    if p.len() < 2 {
        None
    } else {
        match AuthenticationType::spec_from_code(p[0]) {
            None => None,
            Some(t) => {
                let ulen = p[1] as int;
                if p.len() < 2 + ulen {
                    None
                } else {
                    Some(
                        CredentialView {
                            username: p.subrange(2, 2 + ulen),
                            auth_data: p.subrange(2 + ulen, p.len() as int),
                            auth_type: t,
                        },
                    )
                }
            },
        }
    }
}

/// The plaintext bytes a record serializes to.
pub open spec fn serialize_plaintext(v: CredentialView) -> Seq<u8> {
    seq![v.auth_type.spec_code(), v.username.len() as u8] + v.username + v.auth_data
}

/// A record that the plaintext layout can carry: the username length fits
/// its one-byte field and the whole payload length fits the machine.
pub open spec fn valid_record(v: CredentialView) -> bool {
    &&& v.username.len() <= 255
    &&& 2 + v.username.len() + v.auth_data.len() + TAG_LEN as nat <= usize::MAX as nat
}

/// The full decoding pipeline, as a value: checksum verification first
/// (fail-closed), then decryption and structural parsing.
pub open spec fn decode_spec(secret: Seq<u8>, p: Seq<u8>) -> Result<CredentialView, DiscoveryError> {
    if !checksum_ok(secret, p) {
        Err(DiscoveryError::ChecksumMismatch)
    } else {
        match parse_plaintext(plaintext_of(secret, p)) {
            Some(v) => Ok(v),
            None => Err(DiscoveryError::MalformedCredential),
        }
    }
}

/// The payload that encrypts a record under a shared secret: the serialized
/// plaintext XOR-ed with the keystream, followed by its checksum tag.
pub open spec fn encode_spec(secret: Seq<u8>, v: CredentialView) -> Seq<u8> {
    let pt = serialize_plaintext(v);
    let c = xor_seq(
        pt,
        aes128_ctr_keystream_of(encryption_key_of(secret), zero_iv(), pt.len()),
    );
    c + hmac_sha1_of(checksum_key_of(secret), c)
}

fn zero_iv_block() -> (v: Vec<u8>)
    ensures
        v@ == zero_iv(),
{
    let v: Vec<u8> = vec![0u8, 0u8, 0u8, 0u8, 0u8, 0u8, 0u8, 0u8, 0u8, 0u8, 0u8, 0u8, 0u8, 0u8, 0u8, 0u8];
    proof {
        assert(v@ =~= zero_iv());
    }
    v
}

/// Parses a decrypted plaintext into a credential record.
pub fn parse_credential(p: &[u8]) -> (r: Option<CredentialRecord>)
    ensures
        match r {
            Some(c) => parse_plaintext(p@) == Some(c@),
            None => parse_plaintext(p@) is None,
        },
{
    if p.len() < 2 {
        return None;
    }
    match AuthenticationType::from_code(p[0]) {
        None => None,
        Some(auth_type) => {
            let ulen = p[1] as usize;
            if p.len() < 2 + ulen {
                return None;
            }
            let username = copy_range(p, 2, 2 + ulen);
            let auth_data = copy_range(p, 2 + ulen, p.len());
            let c = CredentialRecord { username, auth_data, auth_type };
            proof {
                assert(parse_plaintext(p@) == Some(c@));
            }
            Some(c)
        },
    }
}

/// Decodes a client-submitted payload under a shared secret.
///
/// The result is a function of the two inputs alone, which makes decoding
/// deterministic; `Ok` is returned exactly when the checksum verifies and
/// the plaintext parses, `ChecksumMismatch` exactly when the payload is too
/// short for a tag or the tag does not match, and `MalformedCredential`
/// exactly when the checksum verifies but the plaintext is ill-formed.
pub fn decode(secret: &[u8], payload: &[u8]) -> (r: Result<CredentialRecord, DiscoveryError>)
    ensures
        match r {
            Ok(c) => decode_spec(secret@, payload@) == Ok::<CredentialView, DiscoveryError>(c@),
            Err(e) => decode_spec(secret@, payload@) == Err::<CredentialView, DiscoveryError>(e),
        },
{
    if payload.len() < TAG_LEN {
        return Err(DiscoveryError::ChecksumMismatch);
    }
    let keys = derive_keys(secret);
    let clen = payload.len() - TAG_LEN;
    let ciphertext = copy_range(payload, 0, clen);
    let tag = copy_range(payload, clen, payload.len());
    proof {
        assert(ciphertext@ == payload_ciphertext(payload@));
        assert(tag@ == payload_tag(payload@));
    }
    let expected = hmac_sha1(keys.checksum_key.as_slice(), ciphertext.as_slice());
    if !ct_eq(tag.as_slice(), expected.as_slice()) {
        return Err(DiscoveryError::ChecksumMismatch);
    }
    let iv = zero_iv_block();
    let keystream = aes128_ctr_keystream(keys.encryption_key.as_slice(), iv.as_slice(), clen);
    let plaintext = xor_bytes(ciphertext.as_slice(), keystream.as_slice());
    proof {
        assert(plaintext@ == plaintext_of(secret@, payload@));
    }
    match parse_credential(plaintext.as_slice()) {
        Some(c) => Ok(c),
        None => Err(DiscoveryError::MalformedCredential),
    }
}

/// Encrypts a credential record under a shared secret, producing a payload
/// that `decode` accepts.
///
/// The final `ensures` clause is the round-trip law: for every shared
/// secret and every record the plaintext layout can carry, decoding the
/// encoded payload under the same secret yields the original record.
pub fn encode(secret: &[u8], record: &CredentialRecord) -> (r: Vec<u8>)
    requires
        valid_record(record@),
    ensures
        r@ == encode_spec(secret@, record@),
        decode_spec(secret@, r@) == Ok::<CredentialView, DiscoveryError>(record@),
{
    let keys = derive_keys(secret);
    let mut pt: Vec<u8> = Vec::new();
    pt.push(record.auth_type.code());
    pt.push(record.username.len() as u8);
    append_bytes(&mut pt, record.username.as_slice());
    append_bytes(&mut pt, record.auth_data.as_slice());
    proof {
        assert(pt@ =~= serialize_plaintext(record@));
    }
    let iv = zero_iv_block();
    let keystream = aes128_ctr_keystream(keys.encryption_key.as_slice(), iv.as_slice(), pt.len());
    let ciphertext = xor_bytes(pt.as_slice(), keystream.as_slice());
    let tag = hmac_sha1(keys.checksum_key.as_slice(), ciphertext.as_slice());
    let mut out = ciphertext;
    let ghost cipher_view = out@;
    append_bytes(&mut out, tag.as_slice());
    proof {
        assert(out@ =~= encode_spec(secret@, record@));
        assert(payload_ciphertext(out@) =~= cipher_view);
        assert(payload_tag(out@) =~= tag@);
        assert(checksum_ok(secret@, out@));
        lemma_xor_involution(pt@, keystream@);
        assert(plaintext_of(secret@, out@) =~= pt@);
        lemma_parse_serialize(record@);
    }
    out
}

/// Parsing inverts serialization for every record the layout can carry.
pub proof fn lemma_parse_serialize(v: CredentialView)
    requires
        valid_record(v),
    ensures
        parse_plaintext(serialize_plaintext(v)) == Some(v),
{
    let p = serialize_plaintext(v);
    assert(p.len() == 2 + v.username.len() + v.auth_data.len());
    assert(p[0] == v.auth_type.spec_code());
    assert(p[1] == v.username.len() as u8);
    assert(p[1] as int == v.username.len());
    crate::types::lemma_auth_type_code_round_trip(v.auth_type);
    assert(p.subrange(2, 2 + v.username.len() as int) =~= v.username);
    assert(p.subrange(2 + v.username.len() as int, p.len() as int) =~= v.auth_data);
    assert(parse_plaintext(p) matches Some(w) && w =~= v);
}

/// Tampering with the tag of a payload that verified is always caught as a
/// checksum mismatch: any payload with the same ciphertext, the same
/// length, and a different tag (a single flipped bit included) is rejected
/// with `ChecksumMismatch`, never with `MalformedCredential`.
pub proof fn lemma_tag_tamper_rejected(secret: Seq<u8>, p: Seq<u8>, q: Seq<u8>)
    requires
        checksum_ok(secret, p),
        q.len() == p.len(),
        payload_ciphertext(q) == payload_ciphertext(p),
        payload_tag(q) != payload_tag(p),
    ensures
        decode_spec(secret, q) == Err::<CredentialView, DiscoveryError>(
            DiscoveryError::ChecksumMismatch,
        ),
{
}

/// Decoding is deterministic: equal shared secrets and equal payloads give
/// equal outcomes, successes and errors alike.
pub proof fn lemma_decode_deterministic(s1: Seq<u8>, p1: Seq<u8>, s2: Seq<u8>, p2: Seq<u8>)
    requires
        s1 == s2,
        p1 == p2,
    ensures
        decode_spec(s1, p1) == decode_spec(s2, p2),
{
}

} // verus!
