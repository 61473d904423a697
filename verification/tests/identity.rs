use staking_jobs::account::derive_account_id;
use staking_jobs::error::{CryptoError, Error};
use staking_jobs::identity::canister_identity::CanisterIdentity;
use staking_jobs::identity::{
    get_identity, pem_kind, AuthInfo, CanisterInfo, IdentityArgs, IdentityChoice, PemKind,
    DEFAULT_DEPOSITS_CANISTER_ID, DEFAULT_GOVERNANCE_CANISTER_ID, DEFAULT_IC_URL,
    INGRESS_EXPIRY_SECONDS,
};
use staking_jobs::principal::Principal;

fn args(ic_url: &str, signing_canister: &str) -> IdentityArgs {
    IdentityArgs {
        private_pem: None,
        signing_canister: String::from(signing_canister),
        deposits: String::from(DEFAULT_DEPOSITS_CANISTER_ID),
        governance: String::from(DEFAULT_GOVERNANCE_CANISTER_ID),
        ic_url: String::from(ic_url),
    }
}

#[test]
fn root_key_is_fetched_everywhere_but_on_the_main_network() {
    assert!(!args("https://ic0.app", "aaaaa-aa").should_fetch_root_key());
    assert!(!args(DEFAULT_IC_URL, "aaaaa-aa").should_fetch_root_key());
    assert!(args("http://localhost:8000", "aaaaa-aa").should_fetch_root_key());
    assert!(args("https://ic0.app/", "aaaaa-aa").should_fetch_root_key());
    assert!(args("", "aaaaa-aa").should_fetch_root_key());
}

#[test]
fn auth_is_always_the_custody_service() {
    let a = args("http://localhost:8000", "ryjl3-tyaaa-aaaaa-aaaba-cai");
    let signer = Principal::from_slice(&[0, 0, 0, 0, 0, 0, 0, 2, 1, 1]).unwrap();
    assert_eq!(
        a.get_auth(None),
        Some(AuthInfo::Canister(CanisterInfo { signer, local: None, fetch_root_key: true }))
    );
    let b = args("https://ic0.app", "ryjl3-tyaaa-aaaaa-aaaba-cai");
    assert_eq!(
        b.get_auth(Some(String::from("-----BEGIN"))),
        Some(AuthInfo::Canister(CanisterInfo {
            signer,
            local: Some(String::from("-----BEGIN")),
            fetch_root_key: false
        }))
    );
}

#[test]
fn auth_needs_a_readable_custody_principal() {
    assert_eq!(args("https://ic0.app", "nonsense").get_auth(None), None);
    assert_eq!(args("https://ic0.app", "nonsense").account_id(), None);
}

#[test]
fn account_is_the_default_account_of_the_custody_service() {
    let a = args("https://ic0.app", "2vxsx-fae");
    assert_eq!(a.account_id(), Some(derive_account_id(&Principal::anonymous(), None)));
}

#[test]
fn agent_settings_follow_the_arguments() {
    let local = args("http://localhost:8000", "aaaaa-aa").create_agent();
    assert_eq!(local.url, "http://localhost:8000");
    assert_eq!(local.ingress_expiry_seconds, 300);
    assert_eq!(INGRESS_EXPIRY_SECONDS, 300);
    assert!(local.fetch_root_key);
    let main = args("https://ic0.app", "aaaaa-aa").create_agent();
    assert!(!main.fetch_root_key);
}

#[test]
fn pem_is_read_as_secp256k1_first() {
    assert_eq!(pem_kind(true, true), PemKind::Secp256k1);
    assert_eq!(pem_kind(true, false), PemKind::Secp256k1);
    assert_eq!(pem_kind(false, true), PemKind::Ed25519);
    assert_eq!(pem_kind(false, false), PemKind::Unreadable);
}

#[test]
fn identity_is_chosen_by_the_kind_of_auth() {
    let url = || String::from("https://ic0.app");
    assert_eq!(get_identity(AuthInfo::NoAuth, PemKind::Unreadable, url()), Ok(IdentityChoice::Anonymous));
    assert_eq!(
        get_identity(AuthInfo::PemFile(String::from("x")), PemKind::Secp256k1, url()),
        Ok(IdentityChoice::Secp256k1Pem)
    );
    assert_eq!(
        get_identity(AuthInfo::PemFile(String::from("x")), PemKind::Ed25519, url()),
        Ok(IdentityChoice::Ed25519Pem)
    );
    assert_eq!(
        get_identity(AuthInfo::PemFile(String::from("x")), PemKind::Unreadable, url()),
        Err(Error::CryptoError(CryptoError::InvalidPem))
    );
    let signer = Principal::from_slice(&[5, 5]).unwrap();
    let info = CanisterInfo { signer, local: Some(String::from("pem")), fetch_root_key: true };
    assert_eq!(
        get_identity(AuthInfo::Canister(info), PemKind::Unreadable, url()),
        Ok(IdentityChoice::Canister(CanisterIdentity {
            canister: signer,
            local: Some(String::from("pem")),
            ic_url: url(),
            fetch_root_key: true,
        }))
    );
}
