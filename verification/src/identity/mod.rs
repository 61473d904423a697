use crate::account::{derive_account_id, spec_derive_account_id, AccountIdentifier};
use crate::error::{CryptoError, Error};
use crate::principal::{spec_principal_from_text, Principal};
use vstd::prelude::*;
use vstd::string::StringExecFns;

pub mod canister_identity;

use canister_identity::CanisterIdentity;

verus! {

/// The address of the main network.
pub const DEFAULT_IC_URL: &'static str = "https://ic0.app";

/// The deposits service on the main network.
pub const DEFAULT_DEPOSITS_CANISTER_ID: &'static str = "hnwvc-lyaaa-aaaal-aaf6q-cai";

/// The governance service on the main network.
pub const DEFAULT_GOVERNANCE_CANISTER_ID: &'static str = "rrkah-fqaaa-aaaaa-aaaaq-cai";

/// The ledger on the main network.
pub const DEFAULT_ICP_LEDGER_CANISTER_ID: &'static str = "ryjl3-tyaaa-aaaaa-aaaba-cai";

/// How long a request stays valid after it is signed, in seconds.
pub const INGRESS_EXPIRY_SECONDS: u64 = 300;

/// Where the jobs run and who signs for them, as the operator gave it.
#[derive(Debug, PartialEq)]
pub struct IdentityArgs {
    /// The path of the PEM key file that signs the calls to the custody
    /// service, if any.
    pub private_pem: Option<String>,
    /// The principal of the custody service that signs for the operator, as
    /// text.
    pub signing_canister: String,
    /// The principal of the deposits service, as text.
    pub deposits: String,
    /// The principal of the governance service, as text.
    pub governance: String,
    /// The address of the network.
    pub ic_url: String,
}

/// A custody service that signs, and how it is reached.
#[derive(Debug, PartialEq)]
pub struct CanisterInfo {
    /// The custody service.
    pub signer: Principal,
    /// The PEM text of the key that signs the calls to the custody service;
    /// without one those calls are anonymous.
    pub local: Option<String>,
    /// Whether the network's root key has to be fetched.
    pub fetch_root_key: bool,
}

/// Who signs: nobody, a local key, or a custody service.
#[derive(Debug, PartialEq)]
pub enum AuthInfo {
    /// Nobody signs: only anonymous calls can be made.
    NoAuth,
    /// The key in this PEM text signs.
    PemFile(String),
    /// A custody service signs.
    Canister(CanisterInfo),
}

/// What a PEM text turned out to hold.
#[derive(Clone, Copy, Debug, PartialEq, Eq, Structural)]
pub enum PemKind {
    /// A secp256k1 private key.
    Secp256k1,
    /// An Ed25519 private key.
    Ed25519,
    /// Neither.
    Unreadable,
}

/// The identity to sign with.
#[derive(Debug, PartialEq)]
pub enum IdentityChoice {
    /// The anonymous identity.
    Anonymous,
    /// The secp256k1 key of the PEM text.
    Secp256k1Pem,
    /// The Ed25519 key of the PEM text.
    Ed25519Pem,
    /// The custody service, through the signing bridge.
    Canister(CanisterIdentity),
}

/// How the client of the network is to be set up.
#[derive(Debug, PartialEq)]
pub struct AgentSettings {
    /// The address of the network.
    pub url: String,
    /// How long a request stays valid, in seconds.
    pub ingress_expiry_seconds: u64,
    /// Whether the network's root key has to be fetched before the first
    /// call: it is built in for the main network only.
    pub fetch_root_key: bool,
}

/// What a PEM text holds, given which of the two readings of it succeeded:
/// a secp256k1 key where that reading succeeds, else an Ed25519 key where
/// that one does.
pub fn pem_kind(reads_as_secp256k1: bool, reads_as_ed25519: bool) -> (kind: PemKind)
    ensures
        kind == if reads_as_secp256k1 {
            PemKind::Secp256k1
        } else if reads_as_ed25519 {
            PemKind::Ed25519
        } else {
            PemKind::Unreadable
        },
{
    if reads_as_secp256k1 {
        PemKind::Secp256k1
    } else if reads_as_ed25519 {
        PemKind::Ed25519
    } else {
        PemKind::Unreadable
    }
}

/// Chooses the identity that signs. `kind` says what the PEM text of a
/// `PemFile` holds and is not looked at otherwise; `ic_url` is where a
/// custody service is reached.
pub fn get_identity(auth: AuthInfo, kind: PemKind, ic_url: String) -> (choice: Result<
    IdentityChoice,
    Error,
>)
    ensures
        match auth {
            AuthInfo::NoAuth => choice == Ok::<IdentityChoice, Error>(IdentityChoice::Anonymous),
            AuthInfo::PemFile(_) => choice == match kind {
                PemKind::Secp256k1 => Ok::<IdentityChoice, Error>(IdentityChoice::Secp256k1Pem),
                PemKind::Ed25519 => Ok(IdentityChoice::Ed25519Pem),
                PemKind::Unreadable => Err(Error::CryptoError(CryptoError::InvalidPem)),
            },
            AuthInfo::Canister(info) => choice == Ok::<IdentityChoice, Error>(
                IdentityChoice::Canister(
                    CanisterIdentity {
                        canister: info.signer,
                        local: info.local,
                        ic_url,
                        fetch_root_key: info.fetch_root_key,
                    },
                ),
            ),
        },
{
    match auth {
        AuthInfo::NoAuth => Ok(IdentityChoice::Anonymous),
        AuthInfo::PemFile(_) => match kind {
            PemKind::Secp256k1 => Ok(IdentityChoice::Secp256k1Pem),
            PemKind::Ed25519 => Ok(IdentityChoice::Ed25519Pem),
            PemKind::Unreadable => Err(Error::CryptoError(CryptoError::InvalidPem)),
        },
        AuthInfo::Canister(info) => Ok(
            IdentityChoice::Canister(
                CanisterIdentity::new(info.signer, info.local, ic_url, info.fetch_root_key),
            ),
        ),
    }
}

impl IdentityArgs {
    /// Whether the network's root key has to be fetched: on every network
    /// but the main one.
    pub fn should_fetch_root_key(&self) -> (fetch: bool)
        ensures
            fetch == (self.ic_url@ != DEFAULT_IC_URL@),
    {
        let main = String::from_str(DEFAULT_IC_URL);
        !(self.ic_url == main)
    }

    /// Who signs: always the custody service, reached with the key of the
    /// PEM text `pem` where the operator named a key file, and anonymously
    /// where not. `None` where the custody service's principal cannot be
    /// read.
    pub fn get_auth(&self, pem: Option<String>) -> (auth: Option<AuthInfo>)
        ensures
            auth is Some == spec_principal_from_text(self.signing_canister@) is Some,
            auth matches Some(a) ==> (a matches AuthInfo::Canister(info) && (info.signer@
                == spec_principal_from_text(self.signing_canister@).unwrap() && (info.local == pem
                && info.fetch_root_key == (self.ic_url@ != DEFAULT_IC_URL@)))),
    {
        match Principal::from_text(self.signing_canister.as_str()) {
            Some(signer) => Some(
                AuthInfo::Canister(
                    CanisterInfo { signer, local: pem, fetch_root_key: self.should_fetch_root_key() },
                ),
            ),
            None => None,
        }
    }

    /// The default account of the custody service, which pays for the
    /// jobs. `None` where its principal cannot be read.
    pub fn account_id(&self) -> (account: Option<AccountIdentifier>)
        ensures
            account is Some == spec_principal_from_text(self.signing_canister@) is Some,
            account matches Some(a) ==> a@ == spec_derive_account_id(
                spec_principal_from_text(self.signing_canister@).unwrap(),
                None,
            ),
    {
        match Principal::from_text(self.signing_canister.as_str()) {
            Some(signer) => Some(derive_account_id(&signer, None)),
            None => None,
        }
    }

    /// How the client is to be set up: for the given network, with requests
    /// that stay valid for five minutes.
    pub fn create_agent(&self) -> (settings: AgentSettings)
        ensures
            settings.url@ == self.ic_url@,
            settings.ingress_expiry_seconds == INGRESS_EXPIRY_SECONDS,
            settings.fetch_root_key == (self.ic_url@ != DEFAULT_IC_URL@),
    {
        AgentSettings {
            url: self.ic_url.clone(),
            ingress_expiry_seconds: INGRESS_EXPIRY_SECONDS,
            fetch_root_key: self.should_fetch_root_key(),
        }
    }
}

} // verus!
