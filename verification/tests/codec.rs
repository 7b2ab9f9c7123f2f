//! Tests of the credential codec: round trip, integrity failures,
//! malformed plaintexts and determinism.

use discovery::codec::{decode, encode, TAG_LEN};
use discovery::types::{AuthenticationType, CredentialRecord, DiscoveryError};

use aes::Aes128;
use ctr::cipher::{KeyIvInit, StreamCipher};
use ctr::Ctr128BE;
use hmac::{Hmac, Mac};
use sha1::{Digest, Sha1};

/// Re-derives the two symmetric keys with the crypto crates directly, so
/// the tests can build payloads independently of the library.
fn derive_keys_reference(secret: &[u8]) -> (Vec<u8>, Vec<u8>) {
    let base = Sha1::digest(secret);
    let base = &base[..16];
    let mut mac = Hmac::<Sha1>::new_from_slice(base).unwrap();
    mac.update(b"checksum");
    let checksum_key = mac.finalize().into_bytes().to_vec();
    let mut mac = Hmac::<Sha1>::new_from_slice(base).unwrap();
    mac.update(b"encryption");
    let encryption_key = mac.finalize().into_bytes()[..16].to_vec();
    (checksum_key, encryption_key)
}

/// Encrypts an arbitrary plaintext into a payload the codec should accept
/// at the checksum stage, using the crypto crates directly.
fn seal_reference(secret: &[u8], plaintext: &[u8]) -> Vec<u8> {
    let (checksum_key, encryption_key) = derive_keys_reference(secret);
    let mut data = plaintext.to_vec();
    let iv = [0u8; 16];
    let mut cipher = Ctr128BE::<Aes128>::new_from_slices(&encryption_key, &iv).unwrap();
    cipher.apply_keystream(&mut data);
    let mut mac = Hmac::<Sha1>::new_from_slice(&checksum_key).unwrap();
    mac.update(&data);
    let tag = mac.finalize().into_bytes();
    data.extend_from_slice(&tag);
    data
}

fn sample_record() -> CredentialRecord {
    CredentialRecord {
        username: b"alice".to_vec(),
        auth_data: vec![0x01, 0x02, 0x03],
        auth_type: AuthenticationType::UserPass,
    }
}

#[test]
fn round_trip_known_record() {
    let secret = vec![7u8, 11, 13, 17, 19];
    let payload = encode(&secret, &sample_record());
    let decoded = decode(&secret, &payload).expect("round trip must decode");
    assert_eq!(decoded.username, b"alice".to_vec());
    assert_eq!(decoded.auth_data, vec![0x01, 0x02, 0x03]);
    assert_eq!(decoded.auth_type, AuthenticationType::UserPass);
}

#[test]
fn round_trip_empty_auth_data() {
    let secret = vec![0u8; 32];
    let record = CredentialRecord {
        username: Vec::new(),
        auth_data: Vec::new(),
        auth_type: AuthenticationType::AccessToken,
    };
    let payload = encode(&secret, &record);
    let decoded = decode(&secret, &payload).unwrap();
    assert_eq!(decoded.username, Vec::<u8>::new());
    assert_eq!(decoded.auth_data, Vec::<u8>::new());
    assert_eq!(decoded.auth_type, AuthenticationType::AccessToken);
}

#[test]
fn encode_matches_reference_pipeline() {
    // The library's sealed payload equals one built with the crypto crates
    // directly: the trusted wrappers really call what they claim to call.
    let secret = vec![42u8, 1, 2, 3, 4, 5];
    let payload = encode(&secret, &sample_record());
    let mut plaintext = vec![0u8, 5];
    plaintext.extend_from_slice(b"alice");
    plaintext.extend_from_slice(&[0x01, 0x02, 0x03]);
    let reference = seal_reference(&secret, &plaintext);
    assert_eq!(payload, reference);
}

#[test]
fn ciphertext_differs_from_plaintext() {
    let secret = vec![9u8, 9, 9];
    let payload = encode(&secret, &sample_record());
    let mut plaintext = vec![0u8, 5];
    plaintext.extend_from_slice(b"alice");
    plaintext.extend_from_slice(&[0x01, 0x02, 0x03]);
    let ciphertext = &payload[..payload.len() - TAG_LEN];
    assert_eq!(ciphertext.len(), plaintext.len());
    assert_ne!(ciphertext, plaintext.as_slice());
}

#[test]
fn tampered_tag_is_checksum_mismatch() {
    let secret = vec![1u8, 2, 3];
    let payload = encode(&secret, &sample_record());
    // Flip each bit of the final tag byte in turn: every flip must be
    // caught as a checksum mismatch, never as a malformed credential.
    for bit in 0..8 {
        let mut tampered = payload.clone();
        let last = tampered.len() - 1;
        tampered[last] ^= 1 << bit;
        assert_eq!(decode(&secret, &tampered), Err(DiscoveryError::ChecksumMismatch));
    }
}

#[test]
fn tampered_first_tag_byte_is_checksum_mismatch() {
    let secret = vec![1u8, 2, 3];
    let payload = encode(&secret, &sample_record());
    let mut tampered = payload.clone();
    let first_tag = tampered.len() - TAG_LEN;
    tampered[first_tag] ^= 0x80;
    assert_eq!(decode(&secret, &tampered), Err(DiscoveryError::ChecksumMismatch));
}

#[test]
fn short_payload_is_checksum_mismatch() {
    let secret = vec![1u8, 2, 3];
    assert_eq!(decode(&secret, &[]), Err(DiscoveryError::ChecksumMismatch));
    assert_eq!(decode(&secret, &[0u8; 19]), Err(DiscoveryError::ChecksumMismatch));
}

#[test]
fn wrong_secret_is_checksum_mismatch() {
    let payload = encode(&[1u8, 2, 3], &sample_record());
    assert_eq!(decode(&[4u8, 5, 6], &payload), Err(DiscoveryError::ChecksumMismatch));
}

#[test]
fn bad_auth_type_is_malformed() {
    let secret = vec![5u8, 6, 7];
    let payload = seal_reference(&secret, &[0xffu8, 0x00]);
    assert_eq!(decode(&secret, &payload), Err(DiscoveryError::MalformedCredential));
}

#[test]
fn truncated_username_is_malformed() {
    let secret = vec![5u8, 6, 7];
    // Username length byte says 10 but only one byte follows.
    let payload = seal_reference(&secret, &[0x00u8, 10, 65]);
    assert_eq!(decode(&secret, &payload), Err(DiscoveryError::MalformedCredential));
}

#[test]
fn empty_plaintext_is_malformed() {
    let secret = vec![5u8, 6, 7];
    let payload = seal_reference(&secret, &[]);
    assert_eq!(decode(&secret, &payload), Err(DiscoveryError::MalformedCredential));
}

#[test]
fn decode_is_deterministic() {
    let secret = vec![3u8, 1, 4, 1, 5];
    let payload = encode(&secret, &sample_record());
    let a = decode(&secret, &payload).unwrap();
    let b = decode(&secret, &payload).unwrap();
    assert_eq!(a.username, b.username);
    assert_eq!(a.auth_data, b.auth_data);
    assert_eq!(a.auth_type, b.auth_type);
    let mut tampered = payload.clone();
    let last = tampered.len() - 1;
    tampered[last] ^= 1;
    assert_eq!(decode(&secret, &tampered), decode(&secret, &tampered));
}

#[test]
fn auth_type_codes_round_trip() {
    for t in [
        AuthenticationType::UserPass,
        AuthenticationType::StoredCredentials,
        AuthenticationType::StoredExternal,
        AuthenticationType::AccessToken,
    ] {
        assert_eq!(AuthenticationType::from_code(t.code()), Some(t));
    }
    assert_eq!(AuthenticationType::from_code(4), None);
    assert_eq!(AuthenticationType::from_code(255), None);
}
