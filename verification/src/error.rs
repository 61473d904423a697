use vstd::prelude::*;

verus! {

/// What was wrong with key material.
#[derive(Clone, Copy, Debug, PartialEq, Eq, Structural)]
pub enum CryptoError {
    /// The public key is not 33 bytes long.
    MalformedKey,
    /// The 33 bytes are not a compressed point of the curve.
    InvalidKey,
    /// The PEM text holds no private key that can sign.
    InvalidPem,
}

/// Why a job, or a call on behalf of a job, failed.
#[derive(Clone, Copy, Debug, PartialEq, Eq, Structural)]
pub enum Error {
    /// A remote service could not be reached, or did not answer in time.
    NetworkError,
    /// An answer did not have the expected shape.
    ProtocolError,
    /// A remote service refused the operation.
    RemoteRejection,
    /// Key or signature material was malformed.
    CryptoError(CryptoError),
    /// The operator's balance does not cover the setup.
    InsufficientBalance,
}

impl Error {
    /// A short description for the operator.
    pub fn description(&self) -> (text: &'static str)
        ensures
            text@ == match *self {
                Error::NetworkError => "a remote service could not be reached"@,
                Error::ProtocolError => "a remote service gave an unexpected answer"@,
                Error::RemoteRejection => "a remote service refused the operation"@,
                Error::CryptoError(CryptoError::MalformedKey) => "the public key is not 33 bytes long"@,
                Error::CryptoError(CryptoError::InvalidKey) => "the public key is not a point of the curve"@,
                Error::CryptoError(CryptoError::InvalidPem) => "the key file holds no usable private key"@,
                Error::InsufficientBalance => "the balance does not cover the setup"@,
            },
    {
        match self {
            Error::NetworkError => "a remote service could not be reached",
            Error::ProtocolError => "a remote service gave an unexpected answer",
            Error::RemoteRejection => "a remote service refused the operation",
            Error::CryptoError(CryptoError::MalformedKey) => "the public key is not 33 bytes long",
            Error::CryptoError(CryptoError::InvalidKey) => "the public key is not a point of the curve",
            Error::CryptoError(CryptoError::InvalidPem) => "the key file holds no usable private key",
            Error::InsufficientBalance => "the balance does not cover the setup",
        }
    }
}

} // verus!
