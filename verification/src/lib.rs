//! A local-network discovery and credential-exchange endpoint.
//!
//! The library makes a playback device discoverable to companion clients and
//! accepts authentication credentials from them without a prior pairing step:
//! it answers discovery-info requests with the device metadata and an
//! ephemeral Diffie-Hellman public key, and pairing requests by deriving a
//! shared secret, verifying and decrypting the submitted credential blob,
//! and handing the decoded record to a consumer through a pull-based queue.
//!
//! Network transport, service advertisement and the async driver around
//! this state machine live outside the library; every request is handed in
//! as its raw body bytes and answered with a structured [`handler::Response`].

use vstd::prelude::*;
use vstd::string::StringExecFns;

pub mod bytes;
pub mod codec;
pub mod crypto;
pub mod dh;
pub mod handler;
pub mod request;
pub mod types;

use crate::codec::{decode, decode_spec};
use crate::dh::{valid_peer_key, KeyAgreement};
use crate::handler::{
    b64_decode, b64_decode_of, b64_encode, b64_encode_of, parse_request, request_of, InfoResponse,
    Request, RequestView, Response,
};
use crate::types::{CredentialRecord, CredentialView, DeviceType, DiscoveryError};

verus! {

/// The immutable identity of the endpoint, fixed at construction.
pub struct Config {
    /// The display name shown to clients.
    pub name: String,
    /// The device-type classifier shown as an icon.
    pub device_type: DeviceType,
    /// The opaque device identifier.
    pub device_id: String,
}

/// A builder for [`Discovery`].
pub struct Builder {
    /// The device identity the endpoint will advertise.
    pub server_config: Config,
    /// The port the endpoint should listen on; `0` means any port.
    pub port: u16,
}

impl Builder {
    /// Starts a new builder using the provided device id.
    pub fn new(device_id: String) -> (b: Builder)
        ensures
            b.server_config.name@ == "Librespot"@,
            b.server_config.device_type == DeviceType::Speaker,
            b.server_config.device_id == device_id,
            b.port == 0,
    {
        Builder {
            server_config: Config {
                name: String::from_str("Librespot"),
                device_type: DeviceType::default(),
                device_id,
            },
            port: 0,
        }
    }

    /// Sets the name to be displayed. Default is `"Librespot"`.
    pub fn name(self, name: String) -> (b: Builder)
        ensures
            b.server_config.name == name,
            b.server_config.device_type == self.server_config.device_type,
            b.server_config.device_id == self.server_config.device_id,
            b.port == self.port,
    {
        Builder { server_config: Config { name, ..self.server_config }, ..self }
    }

    /// Sets the device type which is visible as icon in other clients.
    /// Default is `Speaker`.
    pub fn device_type(self, device_type: DeviceType) -> (b: Builder)
        ensures
            b.server_config.name == self.server_config.name,
            b.server_config.device_type == device_type,
            b.server_config.device_id == self.server_config.device_id,
            b.port == self.port,
    {
        Builder { server_config: Config { device_type, ..self.server_config }, ..self }
    }

    /// Sets the port on which it should listen to incoming connections.
    /// The default value `0` means any port.
    pub fn port(self, port: u16) -> (b: Builder)
        ensures
            b.server_config == self.server_config,
            b.port == port,
    {
        Builder { port, ..self }
    }
}

/// What one pull from the credential output channel observes.
pub enum Pulled {
    /// The next decoded credential record, in handshake-completion order.
    Item(CredentialRecord),
    /// Nothing is currently available, but the endpoint is still running.
    NothingYet,
    /// The endpoint has been released: the sequence has ended.
    Ended,
}

/// The value of a queue of credential records.
pub open spec fn pending_view(s: Seq<CredentialRecord>) -> Seq<CredentialView> {
    Seq::new(s.len(), |i: int| s[i]@)
}

/// The outcome of the pairing pipeline on the raw `blob` and `clientKey`
/// field values: transport decoding, peer-key validation, shared-secret
/// agreement and credential decoding, in that order.
pub open spec fn add_user_outcome(
    keys: KeyAgreement,
    blob_text: Seq<u8>,
    client_key_text: Seq<u8>,
) -> Result<CredentialView, DiscoveryError> {
    match b64_decode_of(client_key_text) {
        None => Err(DiscoveryError::InvalidPeerKey),
        Some(peer) => if !valid_peer_key(peer) {
            Err(DiscoveryError::InvalidPeerKey)
        } else {
            match b64_decode_of(blob_text) {
                None => Err(DiscoveryError::BadRequest),
                Some(payload) => decode_spec(keys.spec_shared_secret(peer), payload),
            }
        },
    }
}

/// The discovery endpoint's state machine: the fixed identity, the
/// ephemeral keypair, the queue of decoded credentials awaiting the
/// consumer, and whether the endpoint has been released.
///
/// Every successfully decoded credential is queued in completion order and
/// none is dropped while the endpoint runs (the queue favours keeping
/// records over replacing them); once the endpoint is released the
/// sequence ends and nothing further is delivered.
pub struct Discovery {
    /// The device identity advertised to clients.
    pub config: Config,
    /// The endpoint's ephemeral keypair.
    pub keys: KeyAgreement,
    /// Decoded credential records not yet pulled by the consumer.
    pub pending: Vec<CredentialRecord>,
    /// Whether the endpoint has been released.
    pub closed: bool,
}

impl Discovery {
    /// Starts a [`Builder`] with the provided device id.
    pub fn builder(device_id: String) -> (b: Builder)
        ensures
            b.server_config.name@ == "Librespot"@,
            b.server_config.device_type == DeviceType::Speaker,
            b.server_config.device_id == device_id,
            b.port == 0,
    {
        Builder::new(device_id)
    }

    /// Creates the endpoint state for a built configuration: a fresh
    /// ephemeral keypair, an empty credential queue, not yet released.
    pub fn new(builder: Builder) -> (d: Discovery)
        ensures
            d.config == builder.server_config,
            d.keys.wf(),
            d.pending@.len() == 0,
            !d.closed,
    {
        Discovery {
            config: builder.server_config,
            keys: KeyAgreement::generate(),
            pending: Vec::new(),
            closed: false,
        }
    }

    /// Handles one inbound request body and produces the response to send.
    ///
    /// A discovery-info request is answered with the device metadata and
    /// the transport-encoded public key and queues nothing. A pairing
    /// request runs the full pipeline; exactly on success its credential
    /// record is appended to the queue and the response is `Accepted`,
    /// and on every failure the queue is unchanged and the response
    /// carries the rejection reason. Anything else is answered with
    /// `BadRequest`. The identity, the keypair and the released flag are
    /// never changed by a request.
    pub fn handle_request(&mut self, body: &[u8]) -> (resp: Response)
        ensures
            final(self).config == old(self).config,
            final(self).keys == old(self).keys,
            final(self).closed == old(self).closed,
            match request_of(body@) {
                RequestView::GetInfo => {
                    &&& final(self).pending == old(self).pending
                    &&& resp matches Response::Info(info)
                        && info.name@ == old(self).config.name@
                        && info.device_type == old(self).config.device_type
                        && info.device_id@ == old(self).config.device_id@
                        && info.version@ == "1.0"@
                        && info.public_key@ == b64_encode_of(old(self).keys.spec_public_key())
                },
                RequestView::Bad => {
                    &&& final(self).pending == old(self).pending
                    &&& resp == Response::Rejected(DiscoveryError::BadRequest)
                },
                RequestView::AddUser { username, blob, client_key } => {
                    match add_user_outcome(old(self).keys, blob, client_key) {
                        Ok(v) => {
                            &&& resp == Response::Accepted
                            &&& pending_view(final(self).pending@) == pending_view(
                                old(self).pending@,
                            ) + seq![v]
                        },
                        Err(e) => {
                            &&& resp == Response::Rejected(e)
                            &&& final(self).pending == old(self).pending
                        },
                    }
                },
            },
    {
        let req = parse_request(body);
        match req {
            Request::GetInfo => {
                let public = self.keys.public_key();
                let public_key = b64_encode(public.as_slice());
                Response::Info(
                    InfoResponse {
                        name: self.config.name.clone(),
                        device_type: self.config.device_type,
                        device_id: self.config.device_id.clone(),
                        version: String::from_str("1.0"),
                        public_key,
                    },
                )
            },
            Request::Bad => Response::Rejected(DiscoveryError::BadRequest),
            Request::AddUser { username: _, blob, client_key } => {
                match b64_decode(client_key.as_slice()) {
                    None => Response::Rejected(DiscoveryError::InvalidPeerKey),
                    Some(peer) => match self.keys.shared_secret(peer.as_slice()) {
                        Err(e) => Response::Rejected(e),
                        Ok(secret) => match b64_decode(blob.as_slice()) {
                            None => Response::Rejected(DiscoveryError::BadRequest),
                            Some(payload) => match decode(
                                secret.as_slice(),
                                payload.as_slice(),
                            ) {
                                Ok(record) => {
                                    let ghost old_pending = self.pending@;
                                    let ghost record_view = record@;
                                    self.pending.push(record);
                                    proof {
                                        assert(pending_view(self.pending@) =~= pending_view(
                                            old_pending,
                                        ) + seq![record_view]);
                                    }
                                    Response::Accepted
                                },
                                Err(e) => Response::Rejected(e),
                            },
                        },
                    },
                }
            },
        }
    }

    /// Pulls the next credential record, if one is ready.
    ///
    /// Records come out in the order their handshakes completed decoding.
    /// Once the endpoint has been released every pull observes the end of
    /// the sequence rather than waiting for more items.
    pub fn pull(&mut self) -> (r: Pulled)
        ensures
            final(self).config == old(self).config,
            final(self).keys == old(self).keys,
            final(self).closed == old(self).closed,
            old(self).closed ==> r is Ended && final(self).pending == old(self).pending,
            !old(self).closed && old(self).pending@.len() == 0 ==> r is NothingYet
                && final(self).pending == old(self).pending,
            !old(self).closed && old(self).pending@.len() > 0 ==> {
                &&& r matches Pulled::Item(c) && c@ == old(self).pending@[0]@
                &&& pending_view(final(self).pending@) == pending_view(old(self).pending@).skip(1)
            },
    {
        if self.closed {
            Pulled::Ended
        } else if self.pending.len() == 0 {
            Pulled::NothingYet
        } else {
            let ghost old_pending = self.pending@;
            let c = self.pending.remove(0);
            proof {
                assert(pending_view(self.pending@) =~= pending_view(old_pending).skip(1));
            }
            Pulled::Item(c)
        }
    }

    /// Releases the endpoint: from here on every pull observes the end of
    /// the credential sequence, and the driver outside the library stops
    /// accepting connections and withdraws the advertisement.
    pub fn close(&mut self)
        ensures
            final(self).config == old(self).config,
            final(self).keys == old(self).keys,
            final(self).pending == old(self).pending,
            final(self).closed,
    {
        self.closed = true;
    }
}

} // verus!
