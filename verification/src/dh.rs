//! Key agreement context: an ephemeral finite-field Diffie-Hellman keypair
//! over the protocol's fixed 768-bit prime group (generator 2). The private
//! scalar never leaves this module; the public element is stable for the
//! endpoint's lifetime, and a fresh shared secret is computed per pairing
//! attempt from a validated peer public value.

use vstd::prelude::*;

use crate::types::DiscoveryError;
use rand::RngCore;

verus! {

/// The minimal big-endian bytes of `(base ^ exponent) mod modulus`, where
/// each argument is read as a big-endian unsigned integer: a function of the
/// three byte strings alone.
pub uninterp spec fn modpow_of(base: Seq<u8>, exponent: Seq<u8>, modulus: Seq<u8>) -> Seq<u8>;

/// Relies on `num_bigint::BigUint`: `from_bytes_be`, `modpow` (returns
/// `(base ^ exp) % modulus`, panics only on a zero modulus, which the
/// precondition rules out) and `to_bytes_be` (minimal big-endian bytes, so
/// the remainder takes at most as many bytes as the modulus, and at least one).
#[verifier::external_body]
fn modpow_bytes(base: &[u8], exponent: &[u8], modulus: &[u8]) -> (r: Vec<u8>)
    requires
        exists|i: int| 0 <= i < modulus@.len() && modulus@[i] != 0,
    ensures
        r@ == modpow_of(base@, exponent@, modulus@),
        1 <= r@.len() <= modulus@.len(),
{
    let b = num_bigint::BigUint::from_bytes_be(base);
    let e = num_bigint::BigUint::from_bytes_be(exponent);
    let m = num_bigint::BigUint::from_bytes_be(modulus);
    b.modpow(&e, &m).to_bytes_be()
}

/// Relies on `rand::thread_rng` and `RngCore::fill_bytes`: fills the buffer
/// with bytes; nothing is assumed about their values.
#[verifier::external_body]
fn random_bytes(len: usize) -> (r: Vec<u8>)
    ensures
        r@.len() == len as nat,
{
    let mut buf = vec![0u8; len];
    rand::thread_rng().fill_bytes(&mut buf);
    buf
}

/// The big-endian bytes of the fixed 768-bit prime modulus of the
/// protocol's Diffie-Hellman group.
pub open spec fn dh_prime_spec() -> Seq<u8> {
    seq![
        0xffu8, 0xffu8, 0xffu8, 0xffu8, 0xffu8, 0xffu8, 0xffu8, 0xffu8, 0xc9u8,
        0x0fu8, 0xdau8, 0xa2u8, 0x21u8, 0x68u8, 0xc2u8, 0x34u8, 0xc4u8, 0xc6u8,
        0x62u8, 0x8bu8, 0x80u8, 0xdcu8, 0x1cu8, 0xd1u8, 0x29u8, 0x02u8, 0x4eu8,
        0x08u8, 0x8au8, 0x67u8, 0xccu8, 0x74u8, 0x02u8, 0x0bu8, 0xbeu8, 0xa6u8,
        0x3bu8, 0x13u8, 0x9bu8, 0x22u8, 0x51u8, 0x4au8, 0x08u8, 0x79u8, 0x8eu8,
        0x34u8, 0x04u8, 0xddu8, 0xefu8, 0x95u8, 0x19u8, 0xb3u8, 0xcdu8, 0x3au8,
        0x43u8, 0x1bu8, 0x30u8, 0x2bu8, 0x0au8, 0x6du8, 0xf2u8, 0x5fu8, 0x14u8,
        0x37u8, 0x4fu8, 0xe1u8, 0x35u8, 0x6du8, 0x6du8, 0x51u8, 0xc2u8, 0x45u8,
        0xe4u8, 0x85u8, 0xb5u8, 0x76u8, 0x62u8, 0x5eu8, 0x7eu8, 0xc6u8, 0xf4u8,
        0x4cu8, 0x42u8, 0xe9u8, 0xa6u8, 0x3au8, 0x36u8, 0x20u8, 0xffu8, 0xffu8,
        0xffu8, 0xffu8, 0xffu8, 0xffu8, 0xffu8, 0xffu8,
    ]
}

/// The big-endian bytes of the group generator.
pub open spec fn dh_generator_spec() -> Seq<u8> {
    seq![2u8]
}

/// Byte length of the private scalar drawn at endpoint start.
pub const PRIVATE_KEY_LEN: usize = 95;

/// Maximum byte length accepted for a peer public value (the modulus width).
pub const MAX_PEER_KEY_LEN: usize = 96;

/// The big-endian bytes of the group's prime modulus, as a value; a peer
/// performing its own side of the agreement needs them.
pub fn dh_prime() -> (v: Vec<u8>)
    ensures
        v@ == dh_prime_spec(),
{
    let v: Vec<u8> = vec![
        0xffu8, 0xffu8, 0xffu8, 0xffu8, 0xffu8, 0xffu8, 0xffu8, 0xffu8, 0xc9u8,
        0x0fu8, 0xdau8, 0xa2u8, 0x21u8, 0x68u8, 0xc2u8, 0x34u8, 0xc4u8, 0xc6u8,
        0x62u8, 0x8bu8, 0x80u8, 0xdcu8, 0x1cu8, 0xd1u8, 0x29u8, 0x02u8, 0x4eu8,
        0x08u8, 0x8au8, 0x67u8, 0xccu8, 0x74u8, 0x02u8, 0x0bu8, 0xbeu8, 0xa6u8,
        0x3bu8, 0x13u8, 0x9bu8, 0x22u8, 0x51u8, 0x4au8, 0x08u8, 0x79u8, 0x8eu8,
        0x34u8, 0x04u8, 0xddu8, 0xefu8, 0x95u8, 0x19u8, 0xb3u8, 0xcdu8, 0x3au8,
        0x43u8, 0x1bu8, 0x30u8, 0x2bu8, 0x0au8, 0x6du8, 0xf2u8, 0x5fu8, 0x14u8,
        0x37u8, 0x4fu8, 0xe1u8, 0x35u8, 0x6du8, 0x6du8, 0x51u8, 0xc2u8, 0x45u8,
        0xe4u8, 0x85u8, 0xb5u8, 0x76u8, 0x62u8, 0x5eu8, 0x7eu8, 0xc6u8, 0xf4u8,
        0x4cu8, 0x42u8, 0xe9u8, 0xa6u8, 0x3au8, 0x36u8, 0x20u8, 0xffu8, 0xffu8,
        0xffu8, 0xffu8, 0xffu8, 0xffu8, 0xffu8, 0xffu8,
    ];
    proof {
        assert(v@ =~= dh_prime_spec());
    }
    v
}

/// A peer public value is accepted when it is nonempty, no wider than the
/// modulus, and not the all-zero string (a degenerate element that would
/// force a predictable shared secret).
pub open spec fn valid_peer_key(peer: Seq<u8>) -> bool {
    &&& 1 <= peer.len() <= MAX_PEER_KEY_LEN as nat
    &&& exists|i: int| 0 <= i < peer.len() && peer[i] != 0
}

/// An all-zero peer value is never a valid peer key.
pub proof fn lemma_zero_peer_key_invalid(peer: Seq<u8>)
    requires
        forall|i: int| 0 <= i < peer.len() ==> peer[i] == 0,
    ensures
        !valid_peer_key(peer),
{
}

/// The ephemeral keypair owned by one endpoint instance. The private scalar
/// is private to this type and is only consumed by `shared_secret`.
pub struct KeyAgreement {
    private_key: Vec<u8>,
    public_key: Vec<u8>,
}

impl KeyAgreement {
    /// The public group element, as advertised to clients.
    pub closed spec fn spec_public_key(self) -> Seq<u8> {
        self.public_key@
    }

    /// The shared secret this context computes against a given peer value.
    pub closed spec fn spec_shared_secret(self, peer: Seq<u8>) -> Seq<u8> {
        modpow_of(peer, self.private_key@, dh_prime_spec())
    }

    /// The keypair is internally consistent: the public element is the
    /// generator raised to the private scalar in the fixed group.
    pub closed spec fn wf(self) -> bool {
        &&& self.public_key@ == modpow_of(
            dh_generator_spec(),
            self.private_key@,
            dh_prime_spec(),
        )
        &&& 1 <= self.public_key@.len() <= MAX_PEER_KEY_LEN as nat
    }

    /// Draws a fresh private scalar and computes the matching public element.
    pub fn generate() -> (k: KeyAgreement)
        ensures
            k.wf(),
    {
        let private_key = random_bytes(PRIVATE_KEY_LEN);
        let generator: Vec<u8> = vec![2u8];
        let prime = dh_prime();
        proof {
            assert(generator@ =~= dh_generator_spec());
            assert(dh_prime_spec()[0] == 0xff);
        }
        let public_key = modpow_bytes(
            generator.as_slice(),
            private_key.as_slice(),
            prime.as_slice(),
        );
        KeyAgreement { private_key, public_key }
    }

    /// Returns a copy of the stable public group element.
    pub fn public_key(&self) -> (r: Vec<u8>)
        ensures
            r@ == self.spec_public_key(),
    {
        crate::bytes::copy_range(self.public_key.as_slice(), 0, self.public_key.len())
    }

    /// Computes the shared secret against a peer public value, rejecting a
    /// degenerate or out-of-range peer key before any arithmetic is done.
    pub fn shared_secret(&self, peer: &[u8]) -> (r: Result<Vec<u8>, DiscoveryError>)
        ensures
            match r {
                Ok(s) => valid_peer_key(peer@) && s@ == self.spec_shared_secret(peer@),
                Err(e) => e == DiscoveryError::InvalidPeerKey && !valid_peer_key(peer@),
            },
    {
        if peer.len() == 0 || peer.len() > MAX_PEER_KEY_LEN {
            return Err(DiscoveryError::InvalidPeerKey);
        }
        let mut all_zero = true;
        let mut i: usize = 0;
        while i < peer.len()
            invariant
                0 <= i <= peer@.len(),
                all_zero <==> (forall|j: int| 0 <= j < i ==> peer@[j] == 0),
            decreases peer@.len() - i,
        {
            if peer[i] != 0 {
                all_zero = false;
            }
            i = i + 1;
        }
        if all_zero {
            return Err(DiscoveryError::InvalidPeerKey);
        }
        let prime = dh_prime();
        proof {
            assert(dh_prime_spec()[0] == 0xff);
        }
        Ok(modpow_bytes(peer, self.private_key.as_slice(), prime.as_slice()))
    }
}

} // verus!
