//! The protocol surface of the handshake handler: the two request shapes
//! the endpoint accepts, the responses it returns, and the base64 transport
//! encoding used for binary values inside requests and responses.

use vstd::prelude::*;

use crate::request::{bytes_eq, fields_view, get_field, lookup_field, parse_form, parse_form_fields};
use crate::types::{DeviceType, DiscoveryError};
use base64::Engine;

verus! {

/// The standard base64 encoding of `data`: a function of the input alone.
pub uninterp spec fn b64_encode_of(data: Seq<u8>) -> Seq<u8>;

/// What standard base64 text decodes to, if it is valid: a function of the
/// input alone.
pub uninterp spec fn b64_decode_of(text: Seq<u8>) -> Option<Seq<u8>>;

/// Relies on `base64::engine::general_purpose::STANDARD` encode: the output
/// depends on the input alone, and decoding it returns the input.
#[verifier::external_body]
pub(crate) fn b64_encode(data: &[u8]) -> (r: Vec<u8>)
    ensures
        r@ == b64_encode_of(data@),
        b64_decode_of(r@) == Some(data@),
{
    base64::engine::general_purpose::STANDARD.encode(data).into_bytes()
}

/// Relies on `base64::engine::general_purpose::STANDARD` decode: it returns
/// bytes exactly for valid standard base64 text, and the result depends on
/// the input alone.
#[verifier::external_body]
pub(crate) fn b64_decode(text: &[u8]) -> (r: Option<Vec<u8>>)
    ensures
        match r {
            Some(v) => b64_decode_of(text@) == Some(v@),
            None => b64_decode_of(text@) is None,
        },
{
    match base64::engine::general_purpose::STANDARD.decode(text) {
        Ok(v) => Some(v),
        Err(_) => None,
    }
}

/// The field name `action`.
pub open spec fn key_action() -> Seq<u8> {
    seq![97u8, 99u8, 116u8, 105u8, 111u8, 110u8]
}

/// The field name `userName`.
pub open spec fn key_user_name() -> Seq<u8> {
    seq![117u8, 115u8, 101u8, 114u8, 78u8, 97u8, 109u8, 101u8]
}

/// The field name `blob`.
pub open spec fn key_blob() -> Seq<u8> {
    seq![98u8, 108u8, 111u8, 98u8]
}

/// The field name `clientKey`.
pub open spec fn key_client_key() -> Seq<u8> {
    seq![99u8, 108u8, 105u8, 101u8, 110u8, 116u8, 75u8, 101u8, 121u8]
}

/// The action value `getInfo`.
pub open spec fn action_get_info() -> Seq<u8> {
    seq![103u8, 101u8, 116u8, 73u8, 110u8, 102u8, 111u8]
}

/// The action value `addUser`.
pub open spec fn action_add_user() -> Seq<u8> {
    seq![97u8, 100u8, 100u8, 85u8, 115u8, 101u8, 114u8]
}

fn key_action_bytes() -> (v: Vec<u8>)
    ensures
        v@ == key_action(),
{
    let v: Vec<u8> = vec![97u8, 99u8, 116u8, 105u8, 111u8, 110u8];
    proof {
        assert(v@ =~= key_action());
    }
    v
}

fn key_user_name_bytes() -> (v: Vec<u8>)
    ensures
        v@ == key_user_name(),
{
    let v: Vec<u8> = vec![117u8, 115u8, 101u8, 114u8, 78u8, 97u8, 109u8, 101u8];
    proof {
        assert(v@ =~= key_user_name());
    }
    v
}

fn key_blob_bytes() -> (v: Vec<u8>)
    ensures
        v@ == key_blob(),
{
    let v: Vec<u8> = vec![98u8, 108u8, 111u8, 98u8];
    proof {
        assert(v@ =~= key_blob());
    }
    v
}

fn key_client_key_bytes() -> (v: Vec<u8>)
    ensures
        v@ == key_client_key(),
{
    let v: Vec<u8> = vec![99u8, 108u8, 105u8, 101u8, 110u8, 116u8, 75u8, 101u8, 121u8];
    proof {
        assert(v@ =~= key_client_key());
    }
    v
}

fn action_get_info_bytes() -> (v: Vec<u8>)
    ensures
        v@ == action_get_info(),
{
    let v: Vec<u8> = vec![103u8, 101u8, 116u8, 73u8, 110u8, 102u8, 111u8];
    proof {
        assert(v@ =~= action_get_info());
    }
    v
}

fn action_add_user_bytes() -> (v: Vec<u8>)
    ensures
        v@ == action_add_user(),
{
    let v: Vec<u8> = vec![97u8, 100u8, 100u8, 85u8, 115u8, 101u8, 114u8];
    proof {
        assert(v@ =~= action_add_user());
    }
    v
}

/// A structurally parsed inbound request.
pub enum Request {
    /// A discovery-info request (`action=getInfo`).
    GetInfo,
    /// A pairing request (`action=addUser`) with its three mandatory
    /// fields, still transport-encoded. The handler validates and decodes
    /// them; the record's username is the one carried inside the encrypted
    /// payload, while the `userName` field is only required to be present.
    AddUser {
        /// The `userName` field.
        username: Vec<u8>,
        /// The `blob` field: base64 text of the encrypted payload.
        blob: Vec<u8>,
        /// The `clientKey` field: base64 text of the peer public element.
        client_key: Vec<u8>,
    },
    /// Anything that is not structurally one of the two requests above.
    Bad,
}

/// The mathematical value of a parsed request.
pub enum RequestView {
    /// A discovery-info request.
    GetInfo,
    /// A pairing request with its raw field values.
    AddUser {
        /// The `userName` field.
        username: Seq<u8>,
        /// The `blob` field.
        blob: Seq<u8>,
        /// The `clientKey` field.
        client_key: Seq<u8>,
    },
    /// A structurally invalid request.
    Bad,
}

impl View for Request {
    type V = RequestView;

    open spec fn view(&self) -> RequestView {
        match self {
            Request::GetInfo => RequestView::GetInfo,
            Request::AddUser { username, blob, client_key } => RequestView::AddUser {
                username: username@,
                blob: blob@,
                client_key: client_key@,
            },
            Request::Bad => RequestView::Bad,
        }
    }
}

/// What a request body means: a discovery-info request, a pairing request
/// with all three mandatory fields present, or a bad request.
pub open spec fn request_of(body: Seq<u8>) -> RequestView {
    match parse_form(body) {
        None => RequestView::Bad,
        Some(fields) => match lookup_field(fields, key_action()) {
            None => RequestView::Bad,
            Some(action) => if action == action_get_info() {
                RequestView::GetInfo
            } else if action == action_add_user() {
                match (
                    lookup_field(fields, key_user_name()),
                    lookup_field(fields, key_blob()),
                    lookup_field(fields, key_client_key()),
                ) {
                    (Some(u), Some(b), Some(k)) => RequestView::AddUser {
                        username: u,
                        blob: b,
                        client_key: k,
                    },
                    _ => RequestView::Bad,
                }
            } else {
                RequestView::Bad
            },
        },
    }
}

/// Parses a request body into its structural shape. Never fails: anything
/// that is not a well-formed discovery-info or pairing request comes back
/// as `Request::Bad`.
pub fn parse_request(body: &[u8]) -> (r: Request)
    ensures
        r@ == request_of(body@),
{
    match parse_form_fields(body) {
        None => Request::Bad,
        Some(fields) => {
            let action_key = key_action_bytes();
            match get_field(&fields, action_key.as_slice()) {
                None => Request::Bad,
                Some(action) => {
                    let get_info = action_get_info_bytes();
                    let add_user = action_add_user_bytes();
                    if bytes_eq(action.as_slice(), get_info.as_slice()) {
                        Request::GetInfo
                    } else if bytes_eq(action.as_slice(), add_user.as_slice()) {
                        let user_key = key_user_name_bytes();
                        let blob_key = key_blob_bytes();
                        let client_key_key = key_client_key_bytes();
                        let u = get_field(&fields, user_key.as_slice());
                        let b = get_field(&fields, blob_key.as_slice());
                        let k = get_field(&fields, client_key_key.as_slice());
                        match (u, b, k) {
                            (Some(username), Some(blob), Some(client_key)) => Request::AddUser {
                                username,
                                blob,
                                client_key,
                            },
                            _ => Request::Bad,
                        }
                    } else {
                        Request::Bad
                    }
                },
            }
        },
    }
}

/// The discovery-info answer: the device metadata and the endpoint's
/// public key, transport-encoded for the response.
pub struct InfoResponse {
    /// The display name of the device.
    pub name: String,
    /// The device-type classifier.
    pub device_type: DeviceType,
    /// The opaque device identifier.
    pub device_id: String,
    /// The protocol version string.
    pub version: String,
    /// Base64 text of the endpoint's public Diffie-Hellman element.
    pub public_key: Vec<u8>,
}

/// What the handler answers to one request.
pub enum Response {
    /// Device metadata, answering a discovery-info request.
    Info(InfoResponse),
    /// A pairing request was accepted and its credential record queued.
    Accepted,
    /// The request was rejected for the carried reason.
    Rejected(DiscoveryError),
}

impl Response {
    /// The protocol status code of each response.
    pub open spec fn spec_status_code(self) -> u32 {
        match self {
            Response::Info(_) => 101,
            Response::Accepted => 101,
            Response::Rejected(DiscoveryError::InvalidPeerKey) => 202,
            Response::Rejected(DiscoveryError::ChecksumMismatch) => 203,
            Response::Rejected(DiscoveryError::MalformedCredential) => 204,
            Response::Rejected(DiscoveryError::BadRequest) => 400,
        }
    }

    /// The protocol status code: `101` for both success shapes, a distinct
    /// nonzero error code per rejection reason.
    pub fn status_code(&self) -> (c: u32)
        ensures
            c == self.spec_status_code(),
            (c == 101) <==> !(self is Rejected),
    {
        match self {
            Response::Info(_) => 101,
            Response::Accepted => 101,
            Response::Rejected(DiscoveryError::InvalidPeerKey) => 202,
            Response::Rejected(DiscoveryError::ChecksumMismatch) => 203,
            Response::Rejected(DiscoveryError::MalformedCredential) => 204,
            Response::Rejected(DiscoveryError::BadRequest) => 400,
        }
    }

    /// The machine-readable status string of each response.
    pub open spec fn spec_status_string(self) -> Seq<char> {
        match self {
            Response::Info(_) => "OK"@,
            Response::Accepted => "OK"@,
            Response::Rejected(DiscoveryError::InvalidPeerKey) => "ERROR-INVALID-KEY"@,
            Response::Rejected(DiscoveryError::ChecksumMismatch) => "ERROR-CHECKSUM-MISMATCH"@,
            Response::Rejected(DiscoveryError::MalformedCredential) => "ERROR-MALFORMED-CREDENTIAL"@,
            Response::Rejected(DiscoveryError::BadRequest) => "ERROR-BAD-REQUEST"@,
        }
    }

    /// The machine-readable status string: `OK` on success, a distinct
    /// error reason per rejection.
    pub fn status_string(&self) -> (s: &'static str)
        ensures
            s@ == self.spec_status_string(),
    {
        match self {
            Response::Info(_) => "OK",
            Response::Accepted => "OK",
            Response::Rejected(DiscoveryError::InvalidPeerKey) => "ERROR-INVALID-KEY",
            Response::Rejected(DiscoveryError::ChecksumMismatch) => "ERROR-CHECKSUM-MISMATCH",
            Response::Rejected(DiscoveryError::MalformedCredential) => "ERROR-MALFORMED-CREDENTIAL",
            Response::Rejected(DiscoveryError::BadRequest) => "ERROR-BAD-REQUEST",
        }
    }

    /// The remote-service error field: zero on success, the status code of
    /// the rejection otherwise.
    pub fn spotify_error(&self) -> (c: u32)
        ensures
            c == 0 <==> !(self is Rejected),
            self is Rejected ==> c == self.spec_status_code(),
    {
        match self {
            Response::Info(_) => 0,
            Response::Accepted => 0,
            Response::Rejected(_) => self.status_code(),
        }
    }
}

} // verus!
