//! Why a listener could not be configured.

use vstd::prelude::*;
use vstd::string::*;

verus! {

/// A configuration failure. Every one is fatal: no listener exists afterwards.
#[derive(Clone, Debug, PartialEq, Eq)]
pub enum ConfigError {
    /// The certificate chain could not be read, or held no certificate.
    MalformedCertificate(String),
    /// The private key could not be read, or there was not exactly one.
    MalformedPrivateKey(String),
    /// The CA bundle could not be read, held no certificate, or held one that
    /// is no usable trust anchor.
    MalformedTrustAnchors(String),
    /// The cipher suite list leaves the engine nothing to negotiate with.
    UnsupportedCipherConfiguration,
    /// The engine refused the private key for the certificate chain.
    InvalidKeyPair,
    /// No fresh session-ticket keys could be generated.
    TicketKeysUnavailable,
}

/// The mathematical value of a [`ConfigError`]: the same cases, with text as
/// sequences of characters.
pub enum ConfigFailure {
    MalformedCertificate(Seq<char>),
    MalformedPrivateKey(Seq<char>),
    MalformedTrustAnchors(Seq<char>),
    UnsupportedCipherConfiguration,
    InvalidKeyPair,
    TicketKeysUnavailable,
}

impl View for ConfigError {
    type V = ConfigFailure;

    open spec fn view(&self) -> ConfigFailure {
        match self {
            ConfigError::MalformedCertificate(d) => ConfigFailure::MalformedCertificate(d@),
            ConfigError::MalformedPrivateKey(d) => ConfigFailure::MalformedPrivateKey(d@),
            ConfigError::MalformedTrustAnchors(d) => ConfigFailure::MalformedTrustAnchors(d@),
            ConfigError::UnsupportedCipherConfiguration =>
                ConfigFailure::UnsupportedCipherConfiguration,
            ConfigError::InvalidKeyPair => ConfigFailure::InvalidKeyPair,
            ConfigError::TicketKeysUnavailable => ConfigFailure::TicketKeysUnavailable,
        }
    }
}

impl ConfigFailure {
    /// The text shown to whoever tried to start the server.
    pub open spec fn message(self) -> Seq<char> {
        match self {
            ConfigFailure::MalformedCertificate(d) => "malformed TLS certificate chain: "@ + d,
            ConfigFailure::MalformedPrivateKey(d) => "malformed TLS private key: "@ + d,
            ConfigFailure::MalformedTrustAnchors(d) => "malformed CA certificate(s): "@ + d,
            ConfigFailure::UnsupportedCipherConfiguration => "tls config failed"@,
            ConfigFailure::InvalidKeyPair => "invalid key"@,
            ConfigFailure::TicketKeysUnavailable => "no session ticket keys"@,
        }
    }
}

impl ConfigError {
    /// The text shown to whoever tried to start the server: what was wrong, and
    /// for unreadable input the parser's own diagnostic after it.
    pub fn message(&self) -> (text: String)
        ensures
            text@ == self@.message(),
    {
        match self {
            ConfigError::MalformedCertificate(d) => {
                String::from_str("malformed TLS certificate chain: ").concat(d.as_str())
            },
            ConfigError::MalformedPrivateKey(d) => {
                String::from_str("malformed TLS private key: ").concat(d.as_str())
            },
            ConfigError::MalformedTrustAnchors(d) => {
                String::from_str("malformed CA certificate(s): ").concat(d.as_str())
            },
            ConfigError::UnsupportedCipherConfiguration => String::from_str("tls config failed"),
            ConfigError::InvalidKeyPair => String::from_str("invalid key"),
            ConfigError::TicketKeysUnavailable => String::from_str("no session ticket keys"),
        }
    }
}

} // verus!
