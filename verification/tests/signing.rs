use staking_jobs::error::{CryptoError, Error};
use staking_jobs::identity::canister_identity::{
    CanisterIdentity, CustodyReply, CustodyRequest, SignProgress, Signature,
};
use staking_jobs::principal::Principal;

fn hex(bytes: &[u8]) -> String {
    let mut out = String::new();
    for b in bytes {
        out.push_str(&format!("{:02x}", b));
    }
    out
}

fn unhex(text: &str) -> Vec<u8> {
    let mut out = Vec::new();
    let mut i = 0;
    while i + 2 <= text.len() {
        out.push(u8::from_str_radix(&text[i..i + 2], 16).unwrap());
        i += 2;
    }
    out
}

const GENERATOR: &str = "0279be667ef9dcbbac55a06295ce870b07029bfcdb2dce28d959f2815b16f81798";
const GENERATOR_DER: &str = "3056301006072a8648ce3d020106052b8104000a0342000479be667ef9dcbbac55a06295ce870b07029bfcdb2dce28d959f2815b16f81798483ada7726a3c4655da4fbfc0e1108a8fd17b448a68554199c47d08ffb10d4b8";

fn bridge() -> CanisterIdentity {
    CanisterIdentity::new(
        Principal::from_slice(&[0, 0, 0, 0, 0, 0, 0, 7, 1, 1]).unwrap(),
        None,
        String::from("https://ic0.app"),
        false,
    )
}

#[test]
fn new_keeps_what_it_is_given() {
    let canister = Principal::from_slice(&[9]).unwrap();
    let id = CanisterIdentity::new(canister, Some(String::from("pem")), String::from("http://x"), true);
    assert_eq!(id.canister, canister);
    assert_eq!(id.local, Some(String::from("pem")));
    assert_eq!(id.ic_url, "http://x");
    assert!(id.fetch_root_key);
}

#[test]
fn public_key_of_33_bytes_is_encoded_in_der() {
    let der = CanisterIdentity::public_key(&unhex(GENERATOR)).unwrap();
    assert_eq!(hex(&der), GENERATOR_DER);
}

#[test]
fn public_key_of_another_length_is_malformed() {
    let key = unhex(GENERATOR);
    assert_eq!(
        CanisterIdentity::public_key(&key[..32]),
        Err(Error::CryptoError(CryptoError::MalformedKey))
    );
    let mut long = key.clone();
    long.push(0);
    assert_eq!(
        CanisterIdentity::public_key(&long),
        Err(Error::CryptoError(CryptoError::MalformedKey))
    );
    assert_eq!(CanisterIdentity::public_key(&[]), Err(Error::CryptoError(CryptoError::MalformedKey)));
    // 65 bytes spell the same point uncompressed, and are refused all the same
    let uncompressed = unhex(&GENERATOR_DER[46..]);
    assert_eq!(uncompressed.len(), 65);
    assert_eq!(
        CanisterIdentity::public_key(&uncompressed),
        Err(Error::CryptoError(CryptoError::MalformedKey))
    );
}

#[test]
fn public_key_that_is_no_point_is_invalid() {
    assert_eq!(
        CanisterIdentity::public_key(&[0u8; 33]),
        Err(Error::CryptoError(CryptoError::InvalidKey))
    );
    assert_eq!(
        CanisterIdentity::public_key(&[0xffu8; 33]),
        Err(Error::CryptoError(CryptoError::InvalidKey))
    );
}

#[test]
fn sender_is_the_self_authenticating_principal_of_the_der_key() {
    let sender = CanisterIdentity::sender(&unhex(GENERATOR)).unwrap();
    assert_eq!(hex(&sender.to_vec()), "bd056946d0e70841d7ca5b0d63969be380df712a9bca75316fd2388302");
    assert_eq!(sender, Principal::self_authenticating(&unhex(GENERATOR_DER)));
}

#[test]
fn sender_fails_on_a_key_of_the_wrong_length() {
    assert_eq!(
        CanisterIdentity::sender(&[2u8; 34]),
        Err(Error::CryptoError(CryptoError::MalformedKey))
    );
    assert_eq!(CanisterIdentity::sender(&[0u8; 33]), Err(Error::CryptoError(CryptoError::InvalidKey)));
}

#[test]
fn canister_update_maps_each_outcome() {
    assert_eq!(CanisterIdentity::canister_update(CustodyReply::Answer(vec![1, 2, 3])), Ok(vec![1, 2, 3]));
    assert_eq!(CanisterIdentity::canister_update(CustodyReply::Unreachable), Err(Error::NetworkError));
    assert_eq!(CanisterIdentity::canister_update(CustodyReply::Undecodable), Err(Error::ProtocolError));
    assert_eq!(CanisterIdentity::canister_update(CustodyReply::Rejected), Err(Error::RemoteRejection));
}

#[test]
fn signing_round_trip() {
    let (session, first) = bridge().sign(b"hello");
    assert_eq!(first, CustodyRequest::PublicKey);
    let progress = session.step(CustodyReply::Answer(unhex(GENERATOR)));
    let session = match progress {
        SignProgress::Call(session, CustodyRequest::Sign { digest }) => {
            assert_eq!(
                hex(&digest),
                "2cf24dba5fb0a30e26e83b2ac5b9e29e1b161e5c1fa7425e73043362938b9824"
            );
            session
        }
        other => panic!("unexpected progress: {:?}", other),
    };
    let progress = session.step(CustodyReply::Answer(vec![7u8; 64]));
    assert_eq!(
        progress,
        SignProgress::Signed(Signature {
            public_key: Some(unhex(GENERATOR_DER)),
            signature: Some(vec![7u8; 64]),
        })
    );
}

#[test]
fn signing_the_empty_message_signs_its_digest() {
    let (session, _) = bridge().sign(b"");
    match session.step(CustodyReply::Answer(unhex(GENERATOR))) {
        SignProgress::Call(_, CustodyRequest::Sign { digest }) => assert_eq!(
            hex(&digest),
            "e3b0c44298fc1c149afbf4c8996fb92427ae41e4649b934ca495991b7852b855"
        ),
        other => panic!("unexpected progress: {:?}", other),
    }
}

#[test]
fn malformed_key_fails_before_any_signing_attempt() {
    let (session, first) = bridge().sign(b"hello");
    assert_eq!(first, CustodyRequest::PublicKey);
    let progress = session.step(CustodyReply::Answer(vec![2u8; 32]));
    assert_eq!(progress, SignProgress::Failed(Error::CryptoError(CryptoError::MalformedKey)));
}

#[test]
fn invalid_key_fails_before_any_signing_attempt() {
    let (session, _) = bridge().sign(b"hello");
    let progress = session.step(CustodyReply::Answer(vec![0u8; 33]));
    assert_eq!(progress, SignProgress::Failed(Error::CryptoError(CryptoError::InvalidKey)));
}

#[test]
fn failed_calls_fail_the_signing() {
    let (session, _) = bridge().sign(b"hello");
    assert_eq!(session.step(CustodyReply::Unreachable), SignProgress::Failed(Error::NetworkError));
    let (session, _) = bridge().sign(b"hello");
    assert_eq!(session.step(CustodyReply::Rejected), SignProgress::Failed(Error::RemoteRejection));
    let (session, _) = bridge().sign(b"hello");
    let session = match session.step(CustodyReply::Answer(unhex(GENERATOR))) {
        SignProgress::Call(session, _) => session,
        other => panic!("unexpected progress: {:?}", other),
    };
    assert_eq!(session.step(CustodyReply::Undecodable), SignProgress::Failed(Error::ProtocolError));
}
