//! Shared data types of the endpoint: the per-request error taxonomy, the
//! device-type classifier shown to clients, and the credential record that a
//! successful pairing attempt produces.

use vstd::prelude::*;

verus! {

/// Why a single request was rejected. Every variant is recovered locally by
/// answering the request with a protocol error; none aborts the endpoint.
#[derive(Clone, Copy, Debug, PartialEq, Eq, Structural)]
pub enum DiscoveryError {
    /// The submitted peer public value is not a valid group element.
    InvalidPeerKey,
    /// The payload's checksum tag does not match its ciphertext.
    ChecksumMismatch,
    /// The checksum matched but the decrypted record is structurally invalid.
    MalformedCredential,
    /// The request is not structurally a discovery-info or pairing request.
    BadRequest,
}

/// The icon a client shows for this device in its list of available devices.
#[derive(Clone, Copy, Debug, PartialEq, Eq, Structural)]
pub enum DeviceType {
    /// No specific classification.
    Unknown,
    /// A desktop or laptop computer.
    Computer,
    /// A tablet.
    Tablet,
    /// A phone.
    Smartphone,
    /// A standalone speaker (the default).
    Speaker,
    /// A television.
    Tv,
    /// An audio/video receiver.
    Avr,
    /// A set-top box.
    Stb,
    /// An audio dongle.
    AudioDongle,
}

impl DeviceType {
    /// The wire name of this classifier, as sent in discovery-info responses.
    pub fn wire_name(&self) -> (s: &'static str)
        ensures
            s@ == self.spec_wire_name(),
    {
        match self {
            DeviceType::Unknown => "unknown",
            DeviceType::Computer => "computer",
            DeviceType::Tablet => "tablet",
            DeviceType::Smartphone => "smartphone",
            DeviceType::Speaker => "speaker",
            DeviceType::Tv => "tv",
            DeviceType::Avr => "avr",
            DeviceType::Stb => "stb",
            DeviceType::AudioDongle => "audiodongle",
        }
    }

    /// The wire name of each classifier.
    pub open spec fn spec_wire_name(self) -> Seq<char> {
        match self {
            DeviceType::Unknown => "unknown"@,
            DeviceType::Computer => "computer"@,
            DeviceType::Tablet => "tablet"@,
            DeviceType::Smartphone => "smartphone"@,
            DeviceType::Speaker => "speaker"@,
            DeviceType::Tv => "tv"@,
            DeviceType::Avr => "avr"@,
            DeviceType::Stb => "stb"@,
            DeviceType::AudioDongle => "audiodongle"@,
        }
    }
}

impl Default for DeviceType {
    /// The default classification is a generic speaker.
    fn default() -> (d: DeviceType)
        ensures
            d == DeviceType::Speaker,
    {
        DeviceType::Speaker
    }
}

/// How the authentication data in a credential record is to be used by the
/// consumer that authenticates with the remote service.
#[derive(Clone, Copy, Debug, PartialEq, Eq, Structural)]
pub enum AuthenticationType {
    /// A plain user password.
    UserPass,
    /// Stored credentials issued by the remote service.
    StoredCredentials,
    /// Stored credentials issued through a third-party account.
    StoredExternal,
    /// A short-lived access token.
    AccessToken,
}

impl AuthenticationType {
    /// The wire code of each authentication type.
    pub open spec fn spec_code(self) -> u8 {
        match self {
            AuthenticationType::UserPass => 0,
            AuthenticationType::StoredCredentials => 1,
            AuthenticationType::StoredExternal => 2,
            AuthenticationType::AccessToken => 3,
        }
    }

    /// The authentication type a wire code stands for, if any.
    pub open spec fn spec_from_code(code: u8) -> Option<AuthenticationType> {
        if code == 0 {
            Some(AuthenticationType::UserPass)
        } else if code == 1 {
            Some(AuthenticationType::StoredCredentials)
        } else if code == 2 {
            Some(AuthenticationType::StoredExternal)
        } else if code == 3 {
            Some(AuthenticationType::AccessToken)
        } else {
            None
        }
    }

    /// The wire code of this authentication type.
    pub fn code(&self) -> (c: u8)
        ensures
            c == self.spec_code(),
    {
        match self {
            AuthenticationType::UserPass => 0,
            AuthenticationType::StoredCredentials => 1,
            AuthenticationType::StoredExternal => 2,
            AuthenticationType::AccessToken => 3,
        }
    }

    /// Decodes a wire code.
    pub fn from_code(code: u8) -> (r: Option<AuthenticationType>)
        ensures
            r == AuthenticationType::spec_from_code(code),
    {
        if code == 0 {
            Some(AuthenticationType::UserPass)
        } else if code == 1 {
            Some(AuthenticationType::StoredCredentials)
        } else if code == 2 {
            Some(AuthenticationType::StoredExternal)
        } else if code == 3 {
            Some(AuthenticationType::AccessToken)
        } else {
            None
        }
    }
}

/// Round-tripping an authentication type through its wire code is lossless.
pub proof fn lemma_auth_type_code_round_trip(t: AuthenticationType)
    ensures
        AuthenticationType::spec_from_code(t.spec_code()) == Some(t),
{
}

/// The terminal artifact of a successful handshake. The username and the
/// authentication data are carried as the raw bytes decoded from the
/// payload; ownership moves to the output channel and then to the consumer.
#[derive(Debug, PartialEq, Eq)]
pub struct CredentialRecord {
    /// The account name the credentials belong to (UTF-8 bytes).
    pub username: Vec<u8>,
    /// Opaque authentication data for the remote service.
    pub auth_data: Vec<u8>,
    /// How `auth_data` is to be used.
    pub auth_type: AuthenticationType,
}

/// The mathematical value of a credential record.
pub struct CredentialView {
    /// The account name bytes.
    pub username: Seq<u8>,
    /// The authentication data bytes.
    pub auth_data: Seq<u8>,
    /// The authentication type.
    pub auth_type: AuthenticationType,
}

impl View for CredentialRecord {
    type V = CredentialView;

    open spec fn view(&self) -> CredentialView {
        CredentialView {
            username: self.username@,
            auth_data: self.auth_data@,
            auth_type: self.auth_type,
        }
    }
}

} // verus!
