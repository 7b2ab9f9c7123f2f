//! Symmetric primitives for the credential exchange: SHA-1, HMAC-SHA-1 and
//! the AES-128-CTR keystream are supplied by outside crates behind trusted
//! wrappers; the derivation of the per-handshake checksum and encryption
//! keys from a shared secret is verified on top of them.

use vstd::prelude::*;

use crate::bytes::copy_range;
use ctr::cipher::{KeyIvInit, StreamCipher};
use hmac::Mac;
use sha1::Digest;

verus! {

/// The SHA-1 digest of `data`: a function of the input alone.
pub uninterp spec fn sha1_of(data: Seq<u8>) -> Seq<u8>;

/// The HMAC-SHA-1 tag of `data` under `key`: a function of the two inputs alone.
pub uninterp spec fn hmac_sha1_of(key: Seq<u8>, data: Seq<u8>) -> Seq<u8>;

/// The first `len` bytes of the AES-128-CTR keystream for `key` and the
/// initial counter block `iv`: a function of the three inputs alone.
pub uninterp spec fn aes128_ctr_keystream_of(key: Seq<u8>, iv: Seq<u8>, len: nat) -> Seq<u8>;

/// Relies on `sha1::Sha1` through the `Digest` trait: the digest is 20 bytes
/// and depends on the input bytes alone.
#[verifier::external_body]
pub(crate) fn sha1_digest(data: &[u8]) -> (r: Vec<u8>)
    ensures
        r@ == sha1_of(data@),
        r@.len() == 20,
{
    sha1::Sha1::digest(data).to_vec()
}

/// Relies on `hmac::Hmac<sha1::Sha1>`: the tag is 20 bytes and depends on the
/// key and message alone; `new_from_slice` accepts a key of any length.
#[verifier::external_body]
pub(crate) fn hmac_sha1(key: &[u8], data: &[u8]) -> (r: Vec<u8>)
    ensures
        r@ == hmac_sha1_of(key@, data@),
        r@.len() == 20,
{
    let mut mac = hmac::Hmac::<sha1::Sha1>::new_from_slice(key).expect("HMAC accepts any key length");
    mac.update(data);
    mac.finalize().into_bytes().to_vec()
}

/// Relies on `ctr::Ctr128BE<aes::Aes128>`: applying the cipher to a buffer of
/// zero bytes yields the raw keystream, which depends on the key, the initial
/// counter block and the length alone.
#[verifier::external_body]
pub(crate) fn aes128_ctr_keystream(key: &[u8], iv: &[u8], len: usize) -> (r: Vec<u8>)
    requires
        key@.len() == 16,
        iv@.len() == 16,
    ensures
        r@ == aes128_ctr_keystream_of(key@, iv@, len as nat),
        r@.len() == len,
{
    let mut cipher = ctr::Ctr128BE::<aes::Aes128>::new_from_slices(key, iv)
        .expect("key and iv are 16 bytes");
    let mut buf = vec![0u8; len];
    cipher.apply_keystream(&mut buf);
    buf
}

/// The two symmetric keys expanded from one shared secret; they live for a
/// single handshake attempt and are dropped with it.
pub struct DerivedKeys {
    /// Key under which the payload checksum tag is computed (20 bytes).
    pub checksum_key: Vec<u8>,
    /// Key for the counter-mode stream cipher (16 bytes).
    pub encryption_key: Vec<u8>,
}

/// Label fed to the keyed hash when expanding the checksum key ("checksum").
pub open spec fn checksum_label_spec() -> Seq<u8> {
    seq![99u8, 104u8, 101u8, 99u8, 107u8, 115u8, 117u8, 109u8]
}

/// Label fed to the keyed hash when expanding the encryption key ("encryption").
pub open spec fn encryption_label_spec() -> Seq<u8> {
    seq![101u8, 110u8, 99u8, 114u8, 121u8, 112u8, 116u8, 105u8, 111u8, 110u8]
}

/// The 16-byte base key: the truncated digest of the shared secret.
pub open spec fn base_key_of(secret: Seq<u8>) -> Seq<u8> {
    sha1_of(secret).subrange(0, 16)
}

/// The checksum key derived from a shared secret.
pub open spec fn checksum_key_of(secret: Seq<u8>) -> Seq<u8> {
    hmac_sha1_of(base_key_of(secret), checksum_label_spec())
}

/// The encryption key derived from a shared secret.
pub open spec fn encryption_key_of(secret: Seq<u8>) -> Seq<u8> {
    hmac_sha1_of(base_key_of(secret), encryption_label_spec()).subrange(0, 16)
}

fn checksum_label() -> (v: Vec<u8>)
    ensures
        v@ == checksum_label_spec(),
{
    let v: Vec<u8> = vec![99u8, 104u8, 101u8, 99u8, 107u8, 115u8, 117u8, 109u8];
    proof {
        assert(v@ =~= checksum_label_spec());
    }
    v
}

fn encryption_label() -> (v: Vec<u8>)
    ensures
        v@ == encryption_label_spec(),
{
    let v: Vec<u8> = vec![101u8, 110u8, 99u8, 114u8, 121u8, 112u8, 116u8, 105u8, 111u8, 110u8];
    proof {
        assert(v@ =~= encryption_label_spec());
    }
    v
}

/// Expands a shared secret into the per-handshake checksum and encryption
/// keys by iterated keyed hashing.
pub fn derive_keys(secret: &[u8]) -> (k: DerivedKeys)
    ensures
        k.checksum_key@ == checksum_key_of(secret@),
        k.checksum_key@.len() == 20,
        k.encryption_key@ == encryption_key_of(secret@),
        k.encryption_key@.len() == 16,
{
    let digest = sha1_digest(secret);
    let base = copy_range(digest.as_slice(), 0, 16);
    let label_c = checksum_label();
    let checksum_key = hmac_sha1(base.as_slice(), label_c.as_slice());
    let label_e = encryption_label();
    let enc_full = hmac_sha1(base.as_slice(), label_e.as_slice());
    let encryption_key = copy_range(enc_full.as_slice(), 0, 16);
    DerivedKeys { checksum_key, encryption_key }
}

} // verus!
