use crate::digest::{sha256, spec_sha256};
use crate::error::{CryptoError, Error};
use crate::principal::{spec_self_authenticating, Principal};
use k256::ecdsa::VerifyingKey;
use k256::pkcs8::EncodePublicKey;
use k256::PublicKey;
use vstd::prelude::*;

verus! {

/// How long the custody service's public key is: a compressed point of the
/// curve.
pub const PUBLIC_KEY_LENGTH: usize = 33;

/// The DER encoding of the secp256k1 public key that a SEC1 byte string
/// spells, as `VerifyingKey::from_sec1_bytes` and
/// `EncodePublicKey::to_public_key_der` of the `k256` crate compute it;
/// `None` where either of them fails.
pub uninterp spec fn spec_public_key_der(sec1: Seq<u8>) -> Option<Seq<u8>>;

/// Calls `VerifyingKey::from_sec1_bytes` of the `k256` crate on the bytes,
/// and `to_public_key_der` on the key that comes out. The contract names
/// the encoding, and says that there is none exactly where one of the two
/// calls fails.
#[verifier::external_body]
fn public_key_der(sec1: &[u8]) -> (der: Option<Vec<u8>>)
    ensures
        der is Some == spec_public_key_der(sec1@) is Some,
        der matches Some(d) ==> d@ == spec_public_key_der(sec1@).unwrap(),
{
    match VerifyingKey::from_sec1_bytes(sec1) {
        Ok(key) => match PublicKey::from(key).to_public_key_der() {
            Ok(document) => Some(document.as_bytes().to_vec()),
            Err(_) => None,
        },
        Err(_) => None,
    }
}

/// The identity of an operator whose key only a custody service can use.
#[derive(Debug, PartialEq)]
pub struct CanisterIdentity {
    /// The custody service.
    pub canister: Principal,
    /// The PEM text of the key that signs the calls to the custody service;
    /// without one those calls are anonymous.
    pub local: Option<String>,
    /// The address of the network.
    pub ic_url: String,
    /// Whether the network's root key has to be fetched.
    pub fetch_root_key: bool,
}

/// A signature: the DER-encoded public key, and the signature bytes.
#[derive(Debug, PartialEq)]
pub struct Signature {
    pub public_key: Option<Vec<u8>>,
    pub signature: Option<Vec<u8>>,
}

/// What the bridge asks of the custody service.
#[derive(Clone, Copy, Debug, PartialEq, Eq)]
pub enum CustodyRequest {
    /// The operation `public_key`, without an argument.
    PublicKey,
    /// The operation `sign`, on a 32-byte digest.
    Sign { digest: [u8; 32] },
}

/// The mathematical model of `CustodyRequest`.
pub enum CustodyRequestView {
    PublicKey,
    Sign { digest: Seq<u8> },
}

impl View for CustodyRequest {
    type V = CustodyRequestView;

    open spec fn view(&self) -> CustodyRequestView {
        match *self {
            CustodyRequest::PublicKey => CustodyRequestView::PublicKey,
            CustodyRequest::Sign { digest } => CustodyRequestView::Sign { digest: digest@ },
        }
    }
}

/// How a call to the custody service ended.
#[derive(Debug, PartialEq)]
pub enum CustodyReply {
    /// The service answered with these bytes: its key, or a signature.
    Answer(Vec<u8>),
    /// The service could not be reached, or the call was lost on the way.
    Unreachable,
    /// The answer could not be decoded.
    Undecodable,
    /// The service refused.
    Rejected,
}

/// What a call to the custody service brought: the bytes of the answer, a
/// network error where the service was not reached, a protocol error where
/// the answer could not be decoded, a rejection where the service refused.
pub open spec fn spec_canister_update(reply: CustodyReply) -> Result<Seq<u8>, Error> {
    match reply {
        CustodyReply::Answer(bytes) => Ok(bytes@),
        CustodyReply::Unreachable => Err(Error::NetworkError),
        CustodyReply::Undecodable => Err(Error::ProtocolError),
        CustodyReply::Rejected => Err(Error::RemoteRejection),
    }
}

/// What the custody service's key is worth: its DER encoding, where it is
/// 33 bytes long and spells a point of the curve; else the error.
pub open spec fn spec_public_key(key: Seq<u8>) -> Result<Seq<u8>, Error> {
    if key.len() != PUBLIC_KEY_LENGTH {
        Err(Error::CryptoError(CryptoError::MalformedKey))
    } else {
        match spec_public_key_der(key) {
            Some(der) => Ok(der),
            None => Err(Error::CryptoError(CryptoError::InvalidKey)),
        }
    }
}

/// The principal that signs with the custody service's key: the
/// self-authenticating principal of the key's DER encoding.
pub open spec fn spec_sender(key: Seq<u8>) -> Result<Seq<u8>, Error> {
    match spec_public_key(key) {
        Ok(der) => Ok(spec_self_authenticating(der)),
        Err(error) => Err(error),
    }
}

impl CanisterIdentity {
    /// The identity behind the custody service `canister`.
    pub fn new(canister: Principal, local: Option<String>, ic_url: String, fetch_root_key: bool) -> (identity:
        CanisterIdentity)
        ensures
            identity == (CanisterIdentity { canister, local, ic_url, fetch_root_key }),
    {
        CanisterIdentity { canister, local, ic_url, fetch_root_key }
    }

    /// Reads the outcome of a call to the custody service.
    pub fn canister_update(reply: CustodyReply) -> (outcome: Result<Vec<u8>, Error>)
        ensures
            match spec_canister_update(reply) {
                Ok(bytes) => outcome matches Ok(b) && b@ == bytes,
                Err(error) => outcome == Err::<Vec<u8>, Error>(error),
            },
    {
        match reply {
            CustodyReply::Answer(bytes) => Ok(bytes),
            CustodyReply::Unreachable => Err(Error::NetworkError),
            CustodyReply::Undecodable => Err(Error::ProtocolError),
            CustodyReply::Rejected => Err(Error::RemoteRejection),
        }
    }

    /// Checks the key that the custody service gave and encodes it in DER.
    /// A key that is not 33 bytes long is malformed, and nothing else is
    /// looked at.
    pub fn public_key(key: &[u8]) -> (der: Result<Vec<u8>, Error>)
        ensures
            match spec_public_key(key@) {
                Ok(encoded) => der matches Ok(d) && d@ == encoded,
                Err(error) => der == Err::<Vec<u8>, Error>(error),
            },
    {
        if key.len() != PUBLIC_KEY_LENGTH {
            return Err(Error::CryptoError(CryptoError::MalformedKey));
        }
        match public_key_der(key) {
            Some(der) => Ok(der),
            None => Err(Error::CryptoError(CryptoError::InvalidKey)),
        }
    }

    /// The principal that the bridge signs as, given the key that the
    /// custody service gave.
    pub fn sender(key: &[u8]) -> (sender: Result<Principal, Error>)
        ensures
            match spec_sender(key@) {
                Ok(id) => sender matches Ok(p) && p@ == id,
                Err(error) => sender == Err::<Principal, Error>(error),
            },
    {
        match CanisterIdentity::public_key(key) {
            Ok(der) => Ok(Principal::self_authenticating(der.as_slice())),
            Err(error) => Err(error),
        }
    }

    /// Begins the signing of `message`: the session that holds the SHA-256
    /// digest of the message, and the first request, which asks the custody
    /// service for its key.
    pub fn sign(&self, message: &[u8]) -> (r: (SignSession, CustodyRequest))
        ensures
            r.0@ == (SignSessionView::AwaitingKey { digest: spec_sha256(message@) }),
            r.1@ == CustodyRequestView::PublicKey,
    {
        (
            SignSession { state: SignState::AwaitingKey { digest: sha256(message) } },
            CustodyRequest::PublicKey,
        )
    }
}

#[derive(Debug, PartialEq)]
enum SignState {
    AwaitingKey { digest: [u8; 32] },
    AwaitingSignature { key_der: Vec<u8> },
}

/// A signing in progress: it waits for one answer of the custody service.
#[derive(Debug, PartialEq)]
pub struct SignSession {
    state: SignState,
}

/// The mathematical model of `SignSession`.
pub enum SignSessionView {
    /// The custody service's key is awaited; the digest is still to be
    /// signed.
    AwaitingKey { digest: Seq<u8> },
    /// The signature is awaited; the key was checked and encoded.
    AwaitingSignature { key_der: Seq<u8> },
}

impl View for SignSession {
    type V = SignSessionView;

    closed spec fn view(&self) -> SignSessionView {
        match self.state {
            SignState::AwaitingKey { digest } => SignSessionView::AwaitingKey { digest: digest@ },
            SignState::AwaitingSignature { key_der } => SignSessionView::AwaitingSignature {
                key_der: key_der@,
            },
        }
    }
}

/// How far a signing has come.
#[derive(Debug, PartialEq)]
pub enum SignProgress {
    /// The custody service is to be asked again.
    Call(SignSession, CustodyRequest),
    /// The message is signed.
    Signed(Signature),
    /// The signing failed.
    Failed(Error),
}

/// The mathematical model of `SignProgress`.
pub enum SignProgressView {
    Call(SignSessionView, CustodyRequestView),
    Signed { public_key: Seq<u8>, signature: Seq<u8> },
    Failed(Error),
}

impl View for SignProgress {
    type V = SignProgressView;

    open spec fn view(&self) -> SignProgressView {
        match *self {
            SignProgress::Call(session, request) => SignProgressView::Call(session@, request@),
            SignProgress::Signed(signature) => SignProgressView::Signed {
                public_key: match signature.public_key {
                    Some(key) => key@,
                    None => Seq::empty(),
                },
                signature: match signature.signature {
                    Some(bytes) => bytes@,
                    None => Seq::empty(),
                },
            },
            SignProgress::Failed(error) => SignProgressView::Failed(error),
        }
    }
}

/// One step of a signing. A call that failed fails the signing. The key,
/// once it has come, is checked and encoded before anything is signed: only
/// a good key lets the digest go to the custody service. The signature,
/// once it has come, is handed out with the encoded key.
pub open spec fn spec_sign_step(session: SignSessionView, reply: CustodyReply) -> SignProgressView {
    match spec_canister_update(reply) {
        Err(error) => SignProgressView::Failed(error),
        Ok(bytes) => match session {
            SignSessionView::AwaitingKey { digest } => match spec_public_key(bytes) {
                Ok(key_der) => SignProgressView::Call(
                    SignSessionView::AwaitingSignature { key_der },
                    CustodyRequestView::Sign { digest },
                ),
                Err(error) => SignProgressView::Failed(error),
            },
            SignSessionView::AwaitingSignature { key_der } => SignProgressView::Signed {
                public_key: key_der,
                signature: bytes,
            },
        },
    }
}

impl SignSession {
    /// Takes the answer of the custody service and moves the signing on.
    /// A signature that comes out holds both the key and the signature
    /// bytes.
    pub fn step(self, reply: CustodyReply) -> (progress: SignProgress)
        ensures
            progress@ == spec_sign_step(self@, reply),
            progress matches SignProgress::Signed(s) ==> s.public_key is Some && s.signature is Some,
    {
        let bytes = match CanisterIdentity::canister_update(reply) {
            Ok(bytes) => bytes,
            Err(error) => {
                return SignProgress::Failed(error);
            },
        };
        match self.state {
            SignState::AwaitingKey { digest } => match CanisterIdentity::public_key(bytes.as_slice()) {
                Ok(key_der) => SignProgress::Call(
                    SignSession { state: SignState::AwaitingSignature { key_der } },
                    CustodyRequest::Sign { digest },
                ),
                Err(error) => SignProgress::Failed(error),
            },
            SignState::AwaitingSignature { key_der } => SignProgress::Signed(
                Signature { public_key: Some(key_der), signature: Some(bytes) },
            ),
        }
    }
}

/// A key that is not 33 bytes long fails the signing with a crypto error,
/// before the custody service is asked to sign anything.
pub proof fn lemma_malformed_key_signs_nothing(digest: Seq<u8>, key: Vec<u8>)
    requires
        key@.len() != PUBLIC_KEY_LENGTH,
    ensures
        spec_sign_step(SignSessionView::AwaitingKey { digest }, CustodyReply::Answer(key))
            == SignProgressView::Failed(Error::CryptoError(CryptoError::MalformedKey)),
        spec_sender(key@) == Err::<Seq<u8>, Error>(Error::CryptoError(CryptoError::MalformedKey)),
{
}

/// The custody service is asked to sign exactly the digest that the
/// session was begun with, and only after a key of 33 bytes that spells a
/// point of the curve has come.
pub proof fn lemma_signs_the_digest_after_the_key(
    session: SignSessionView,
    reply: CustodyReply,
    digest: Seq<u8>,
)
    requires
        spec_sign_step(session, reply) matches SignProgressView::Call(_, request) && request
            == (CustodyRequestView::Sign { digest }),
    ensures
        session == (SignSessionView::AwaitingKey { digest }),
        reply matches CustodyReply::Answer(key) && key@.len() == PUBLIC_KEY_LENGTH
            && spec_public_key_der(key@) is Some,
{
}

/// A bridge that is given a good key signs as the self-authenticating
/// principal of that key's DER encoding: the SHA-224 digest of the
/// encoding, and the byte 2.
pub proof fn lemma_sender_is_self_authenticating(key: Seq<u8>)
    requires
        key.len() == PUBLIC_KEY_LENGTH,
        spec_public_key_der(key) is Some,
    ensures
        spec_sender(key) == Ok::<Seq<u8>, Error>(
            crate::digest::spec_sha224(spec_public_key_der(key).unwrap()).push(2u8),
        ),
{
}

} // verus!
