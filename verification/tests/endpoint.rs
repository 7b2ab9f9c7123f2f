//! End-to-end tests of the endpoint state machine: discovery info,
//! successful and rejected pairing, the output channel, and release.

use base64::Engine;
use discovery::codec::encode;
use discovery::dh::dh_prime;
use discovery::handler::Response;
use discovery::types::{AuthenticationType, CredentialRecord, DeviceType, DiscoveryError};
use discovery::{Builder, Discovery, Pulled};
use num_bigint::BigUint;

/// Percent-encodes a field value the way a form-encoding client would.
fn pct_encode(raw: &[u8]) -> String {
    let mut out = String::new();
    for &b in raw {
        let c = b as char;
        if c.is_ascii_alphanumeric() || c == '-' || c == '_' || c == '.' {
            out.push(c);
        } else {
            out.push_str(&format!("%{:02X}", b));
        }
    }
    out
}

/// A client-side party to the key agreement.
struct Client {
    private: Vec<u8>,
    public_b64: String,
}

impl Client {
    fn new(private: Vec<u8>) -> Client {
        let p = BigUint::from_bytes_be(&dh_prime());
        let g = BigUint::from(2u32);
        let x = BigUint::from_bytes_be(&private);
        let public = g.modpow(&x, &p).to_bytes_be();
        let public_b64 = base64::engine::general_purpose::STANDARD.encode(&public);
        Client { private, public_b64 }
    }

    fn shared_secret(&self, server_public: &[u8]) -> Vec<u8> {
        let p = BigUint::from_bytes_be(&dh_prime());
        let s = BigUint::from_bytes_be(server_public);
        let x = BigUint::from_bytes_be(&self.private);
        s.modpow(&x, &p).to_bytes_be()
    }
}

fn server_public_key(d: &mut Discovery) -> Vec<u8> {
    let resp = d.handle_request(b"action=getInfo");
    match resp {
        Response::Info(info) => base64::engine::general_purpose::STANDARD
            .decode(&info.public_key)
            .expect("advertised key is valid base64"),
        _ => panic!("getInfo must be answered with device info"),
    }
}

fn add_user_body(username: &str, blob: &[u8], client_key_b64: &str) -> Vec<u8> {
    let blob_b64 = base64::engine::general_purpose::STANDARD.encode(blob);
    format!(
        "action=addUser&userName={}&blob={}&clientKey={}",
        pct_encode(username.as_bytes()),
        pct_encode(blob_b64.as_bytes()),
        pct_encode(client_key_b64.as_bytes())
    )
    .into_bytes()
}

#[test]
fn scenario_pairing_succeeds() {
    let mut d = Discovery::new(Discovery::builder("dev-123".to_string()));

    let resp = d.handle_request(b"action=getInfo");
    assert_eq!(resp.status_code(), 101);
    match &resp {
        Response::Info(info) => {
            assert_eq!(info.device_id, "dev-123");
            assert_eq!(info.name, "Librespot");
            assert_eq!(info.device_type, DeviceType::Speaker);
            assert_eq!(info.version, "1.0");
        }
        _ => panic!("expected device info"),
    }

    let server_public = server_public_key(&mut d);
    let client = Client::new(vec![0x21u8; 40]);
    let shared = client.shared_secret(&server_public);
    let record = CredentialRecord {
        username: b"alice".to_vec(),
        auth_data: vec![0x01, 0x02, 0x03],
        auth_type: AuthenticationType::UserPass,
    };
    let blob = encode(&shared, &record);

    let resp = d.handle_request(&add_user_body("alice", &blob, &client.public_b64));
    assert!(matches!(resp, Response::Accepted));
    assert_eq!(resp.status_code(), 101);
    assert_eq!(resp.status_string(), "OK");
    assert_eq!(resp.spotify_error(), 0);

    match d.pull() {
        Pulled::Item(c) => {
            assert_eq!(c.username, b"alice".to_vec());
            assert_eq!(c.auth_data, vec![0x01, 0x02, 0x03]);
        }
        _ => panic!("a decoded credential must be waiting"),
    }
    assert!(matches!(d.pull(), Pulled::NothingYet));
}

#[test]
fn scenario_tampered_checksum_rejected() {
    let mut d = Discovery::new(Discovery::builder("dev-123".to_string()));
    let server_public = server_public_key(&mut d);
    let client = Client::new(vec![0x37u8; 40]);
    let shared = client.shared_secret(&server_public);
    let record = CredentialRecord {
        username: b"alice".to_vec(),
        auth_data: vec![0x01, 0x02, 0x03],
        auth_type: AuthenticationType::UserPass,
    };
    let mut blob = encode(&shared, &record);
    let last = blob.len() - 1;
    blob[last] ^= 0x01;

    let resp = d.handle_request(&add_user_body("alice", &blob, &client.public_b64));
    assert!(matches!(resp, Response::Rejected(DiscoveryError::ChecksumMismatch)));
    assert_ne!(resp.status_code(), 101);
    assert_ne!(resp.status_code(), 0);
    assert_ne!(resp.spotify_error(), 0);
    assert!(matches!(d.pull(), Pulled::NothingYet));
}

#[test]
fn zero_client_key_rejected_before_decoding() {
    let mut d = Discovery::new(Discovery::builder("dev-123".to_string()));
    let zero_key_b64 = base64::engine::general_purpose::STANDARD.encode([0u8; 96]);
    // The blob is nonsense on purpose: the peer key must be rejected first.
    let resp = d.handle_request(&add_user_body("alice", &[0xab; 64], &zero_key_b64));
    assert!(matches!(resp, Response::Rejected(DiscoveryError::InvalidPeerKey)));
    assert!(matches!(d.pull(), Pulled::NothingYet));
}

#[test]
fn oversized_client_key_rejected() {
    let mut d = Discovery::new(Discovery::builder("dev-123".to_string()));
    let long_key_b64 = base64::engine::general_purpose::STANDARD.encode([1u8; 97]);
    let resp = d.handle_request(&add_user_body("alice", &[0xab; 64], &long_key_b64));
    assert!(matches!(resp, Response::Rejected(DiscoveryError::InvalidPeerKey)));
}

#[test]
fn non_base64_client_key_rejected() {
    let mut d = Discovery::new(Discovery::builder("dev-123".to_string()));
    let resp = d.handle_request(b"action=addUser&userName=a&blob=AAAA&clientKey=!!!!");
    assert!(matches!(resp, Response::Rejected(DiscoveryError::InvalidPeerKey)));
}

#[test]
fn non_base64_blob_is_bad_request() {
    let mut d = Discovery::new(Discovery::builder("dev-123".to_string()));
    let client = Client::new(vec![0x11u8; 40]);
    let body = format!(
        "action=addUser&userName=a&blob=%21%21&clientKey={}",
        pct_encode(client.public_b64.as_bytes())
    );
    let resp = d.handle_request(body.as_bytes());
    assert!(matches!(resp, Response::Rejected(DiscoveryError::BadRequest)));
}

#[test]
fn plus_decodes_as_space_in_fields() {
    // `AA+A` would be valid base64 were `+` kept literal; decoded as a
    // space it is not, so the key must be rejected as invalid.
    let mut d = Discovery::new(Discovery::builder("dev-123".to_string()));
    let resp = d.handle_request(b"action=addUser&userName=a&blob=%21%21&clientKey=AA+A");
    assert!(matches!(resp, Response::Rejected(DiscoveryError::InvalidPeerKey)));
}

#[test]
fn percent_escapes_decode_in_keys_and_values() {
    let mut d = Discovery::new(Discovery::builder("dev-123".to_string()));
    // `%6F` and `%6f` are both `o`; escapes work in keys as well.
    assert!(matches!(d.handle_request(b"action=getInf%6F"), Response::Info(_)));
    assert!(matches!(d.handle_request(b"action=getInf%6f"), Response::Info(_)));
    assert!(matches!(d.handle_request(b"a%63tion=getInfo"), Response::Info(_)));
    // A dangling escape makes the request structurally invalid.
    assert!(matches!(
        d.handle_request(b"action=getInfo%"),
        Response::Rejected(DiscoveryError::BadRequest)
    ));
    assert!(matches!(
        d.handle_request(b"action=getInfo%Z1"),
        Response::Rejected(DiscoveryError::BadRequest)
    ));
}

#[test]
fn group_prime_has_the_expected_shape() {
    let p = dh_prime();
    assert_eq!(p.len(), 96);
    assert_eq!(p[0], 0xff);
    assert_eq!(p[95], 0xff);
}

#[test]
fn missing_field_is_bad_request() {
    let mut d = Discovery::new(Discovery::builder("dev-123".to_string()));
    let resp = d.handle_request(b"action=addUser&userName=a&blob=AAAA");
    assert!(matches!(resp, Response::Rejected(DiscoveryError::BadRequest)));
    assert_eq!(resp.status_code(), 400);
}

#[test]
fn unknown_action_is_bad_request() {
    let mut d = Discovery::new(Discovery::builder("dev-123".to_string()));
    let resp = d.handle_request(b"action=fly");
    assert!(matches!(resp, Response::Rejected(DiscoveryError::BadRequest)));
    let resp = d.handle_request(b"");
    assert!(matches!(resp, Response::Rejected(DiscoveryError::BadRequest)));
    let resp = d.handle_request(b"action=%ZZ");
    assert!(matches!(resp, Response::Rejected(DiscoveryError::BadRequest)));
}

#[test]
fn release_ends_pending_pull() {
    let mut d = Discovery::new(Discovery::builder("dev-123".to_string()));
    assert!(matches!(d.pull(), Pulled::NothingYet));
    d.close();
    assert!(matches!(d.pull(), Pulled::Ended));
    assert!(matches!(d.pull(), Pulled::Ended));
}

#[test]
fn release_ends_sequence_even_with_queued_items() {
    let mut d = Discovery::new(Discovery::builder("dev-123".to_string()));
    let server_public = server_public_key(&mut d);
    let client = Client::new(vec![0x29u8; 40]);
    let shared = client.shared_secret(&server_public);
    let record = CredentialRecord {
        username: b"bob".to_vec(),
        auth_data: vec![9],
        auth_type: AuthenticationType::StoredCredentials,
    };
    let blob = encode(&shared, &record);
    let resp = d.handle_request(&add_user_body("bob", &blob, &client.public_b64));
    assert!(matches!(resp, Response::Accepted));
    d.close();
    assert!(matches!(d.pull(), Pulled::Ended));
}

#[test]
fn records_come_out_in_completion_order() {
    let mut d = Discovery::new(Discovery::builder("dev-123".to_string()));
    let server_public = server_public_key(&mut d);
    for (i, name) in [b"u1".to_vec(), b"u2".to_vec()].iter().enumerate() {
        let client = Client::new(vec![0x41u8 + i as u8; 40]);
        let shared = client.shared_secret(&server_public);
        let record = CredentialRecord {
            username: name.clone(),
            auth_data: vec![i as u8],
            auth_type: AuthenticationType::UserPass,
        };
        let blob = encode(&shared, &record);
        let resp = d.handle_request(&add_user_body("u", &blob, &client.public_b64));
        assert!(matches!(resp, Response::Accepted));
    }
    match d.pull() {
        Pulled::Item(c) => assert_eq!(c.username, b"u1".to_vec()),
        _ => panic!("first record expected"),
    }
    match d.pull() {
        Pulled::Item(c) => assert_eq!(c.username, b"u2".to_vec()),
        _ => panic!("second record expected"),
    }
}

#[test]
fn builder_setters_apply() {
    let b = Builder::new("id-1".to_string())
        .name("Kitchen".to_string())
        .device_type(DeviceType::Tv)
        .port(1234);
    assert_eq!(b.server_config.name, "Kitchen");
    assert_eq!(b.server_config.device_type, DeviceType::Tv);
    assert_eq!(b.server_config.device_id, "id-1");
    assert_eq!(b.port, 1234);
    let d = Discovery::new(b);
    assert!(!d.closed);
    assert_eq!(d.config.name, "Kitchen");
}

#[test]
fn device_type_wire_names() {
    assert_eq!(DeviceType::Speaker.wire_name(), "speaker");
    assert_eq!(DeviceType::Tv.wire_name(), "tv");
    assert_eq!(DeviceType::default(), DeviceType::Speaker);
}

#[test]
fn shared_secret_agreement_is_symmetric() {
    // Two independent parties compute the same secret from each other's
    // public halves.
    let mut d = Discovery::new(Discovery::builder("dev-123".to_string()));
    let server_public = server_public_key(&mut d);
    let client = Client::new(vec![0x55u8; 60]);
    let client_public = base64::engine::general_purpose::STANDARD
        .decode(&client.public_b64)
        .unwrap();
    let from_client = client.shared_secret(&server_public);
    let from_server = d.keys.shared_secret(&client_public).expect("valid peer key");
    assert_eq!(from_client, from_server);
}

#[test]
fn each_endpoint_has_a_fresh_keypair() {
    let mut a = Discovery::new(Discovery::builder("dev-1".to_string()));
    let mut b = Discovery::new(Discovery::builder("dev-2".to_string()));
    assert_ne!(server_public_key(&mut a), server_public_key(&mut b));
}

#[test]
fn rejection_status_codes_are_exact() {
    assert_eq!(Response::Rejected(DiscoveryError::InvalidPeerKey).status_code(), 202);
    assert_eq!(Response::Rejected(DiscoveryError::ChecksumMismatch).status_code(), 203);
    assert_eq!(Response::Rejected(DiscoveryError::MalformedCredential).status_code(), 204);
    assert_eq!(Response::Rejected(DiscoveryError::BadRequest).status_code(), 400);
    assert_eq!(
        Response::Rejected(DiscoveryError::ChecksumMismatch).status_string(),
        "ERROR-CHECKSUM-MISMATCH"
    );
}

#[test]
fn error_status_strings_are_distinct() {
    let codes = [
        DiscoveryError::InvalidPeerKey,
        DiscoveryError::ChecksumMismatch,
        DiscoveryError::MalformedCredential,
        DiscoveryError::BadRequest,
    ];
    for (i, a) in codes.iter().enumerate() {
        let ra = Response::Rejected(*a);
        assert_ne!(ra.status_code(), 101);
        for b in codes.iter().skip(i + 1) {
            let rb = Response::Rejected(*b);
            assert_ne!(ra.status_code(), rb.status_code());
            assert_ne!(ra.status_string(), rb.status_string());
        }
    }
}
