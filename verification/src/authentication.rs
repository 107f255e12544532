//! Placeholders for the types of the authentication plugin. The handshake
//! itself is not part of this library; these types only give its artifacts
//! a name.

use vstd::prelude::*;

verus! {

/// How a validation step of the handshake ended, short of failure. A failed
/// validation is an error, not an outcome.
#[derive(Debug, Clone, Copy, PartialEq, Eq, Structural)]
pub enum ValidationOutcome {
    Validated,
    PendingRetry,
    PendingHandshakeRequest,
    PendingHandshakeMessage,
    OkFinalMessage,
}

/// The token that names an identity.
#[derive(Debug, Clone, Copy, PartialEq, Eq, Structural)]
pub struct IdentityToken;

impl IdentityToken {
    /// A stand-in value.
    pub const MOCK: IdentityToken = IdentityToken;
}

/// The token that tells the status of an identity.
#[derive(Debug, Clone, Copy, PartialEq, Eq, Structural)]
pub struct IdentityStatusToken;

impl IdentityStatusToken {
    /// A stand-in value.
    pub const MOCK: IdentityStatusToken = IdentityStatusToken;
}

/// The handle of a validated identity.
#[derive(Debug, Clone, Copy, PartialEq, Eq, Structural)]
pub struct IdentityHandle;

impl IdentityHandle {
    /// A stand-in value.
    pub const MOCK: IdentityHandle = IdentityHandle;
}

/// The handle of a handshake in progress.
#[derive(Debug, Clone, Copy, PartialEq, Eq, Structural)]
pub struct HandshakeHandle;

impl HandshakeHandle {
    /// A stand-in value.
    pub const MOCK: HandshakeHandle = HandshakeHandle;
}

/// The token that asks for authentication.
#[derive(Debug, Clone, Copy, PartialEq, Eq, Structural)]
pub struct AuthRequestMessageToken;

impl AuthRequestMessageToken {
    /// A stand-in value.
    pub const MOCK: AuthRequestMessageToken = AuthRequestMessageToken;
}

/// A message of the handshake.
#[derive(Debug, Clone, Copy, PartialEq, Eq, Structural)]
pub struct HandshakeMessageToken;

impl HandshakeMessageToken {
    /// A stand-in value.
    pub const MOCK: HandshakeMessageToken = HandshakeMessageToken;
}

/// The credentials of an authenticated peer.
#[derive(Debug, Clone, Copy, PartialEq, Eq, Structural)]
pub struct AuthenticatedPeerCredentialToken;

impl AuthenticatedPeerCredentialToken {
    /// A stand-in value.
    pub const MOCK: AuthenticatedPeerCredentialToken = AuthenticatedPeerCredentialToken;
}

/// The handle of the secret that a handshake has established.
#[derive(Debug, Clone, Copy, PartialEq, Eq, Structural)]
pub struct SharedSecretHandle;

impl SharedSecretHandle {
    /// A stand-in value.
    pub const MOCK: SharedSecretHandle = SharedSecretHandle;
}

} // verus!
