use staking_jobs::principal::Principal;

fn hex(bytes: &[u8]) -> String {
    let mut out = String::new();
    for b in bytes {
        out.push_str(&format!("{:02x}", b));
    }
    out
}

fn unhex(text: &str) -> Vec<u8> {
    let mut out = Vec::new();
    let mut i = 0;
    while i + 2 <= text.len() {
        out.push(u8::from_str_radix(&text[i..i + 2], 16).unwrap());
        i += 2;
    }
    out
}

#[test]
fn well_known_principals_have_their_bytes() {
    assert_eq!(Principal::management_canister().to_vec(), Vec::<u8>::new());
    assert_eq!(Principal::management_canister().len(), 0);
    assert_eq!(Principal::anonymous().to_vec(), vec![4u8]);
    assert_eq!(Principal::anonymous().len(), 1);
}

#[test]
fn from_slice_accepts_up_to_29_bytes() {
    let bytes: Vec<u8> = (1..=29).collect();
    let p = Principal::from_slice(&bytes).unwrap();
    assert_eq!(p.to_vec(), bytes);
    assert_eq!(p.len(), 29);
    let too_long: Vec<u8> = (1..=30).collect();
    assert!(Principal::from_slice(&too_long).is_none());
    assert_eq!(Principal::from_slice(&[]).unwrap(), Principal::management_canister());
}

#[test]
fn principals_compare_by_their_bytes() {
    let a = Principal::from_slice(&[1, 2, 3]).unwrap();
    let b = Principal::from_slice(&[1, 2, 3]).unwrap();
    let c = Principal::from_slice(&[1, 2, 4]).unwrap();
    let d = Principal::from_slice(&[1, 2, 3, 0]).unwrap();
    assert!(a.same_as(&b));
    assert_eq!(a, b);
    assert!(!a.same_as(&c));
    assert!(!a.same_as(&d));
    assert_ne!(a, d);
}

#[test]
fn text_decodes_to_the_principal_it_spells() {
    let governance = Principal::from_text("rrkah-fqaaa-aaaaa-aaaaq-cai").unwrap();
    assert_eq!(governance.to_vec(), vec![0, 0, 0, 0, 0, 0, 0, 1, 1, 1]);
    let ledger = Principal::from_text("ryjl3-tyaaa-aaaaa-aaaba-cai").unwrap();
    assert_eq!(ledger.to_vec(), vec![0, 0, 0, 0, 0, 0, 0, 2, 1, 1]);
    let deposits = Principal::from_text("hnwvc-lyaaa-aaaal-aaf6q-cai").unwrap();
    assert_eq!(deposits.to_vec(), vec![0, 0, 0, 0, 1, 96, 1, 125, 1, 1]);
    assert_eq!(Principal::from_text("2vxsx-fae").unwrap(), Principal::anonymous());
    assert_eq!(Principal::from_text("aaaaa-aa").unwrap(), Principal::management_canister());
}

#[test]
fn text_that_spells_no_principal_is_refused() {
    assert!(Principal::from_text("").is_none());
    assert!(Principal::from_text("not a principal").is_none());
    // a wrong checksum
    assert!(Principal::from_text("rrkah-fqaaa-aaaaa-aaaaq-caa").is_none());
    // wrong grouping
    assert!(Principal::from_text("rrkahfqaaaaaaaaaaaaqcai").is_none());
}

#[test]
fn self_authenticating_principal_is_the_digest_of_the_key_and_the_tag() {
    let der = unhex(
        "3056301006072a8648ce3d020106052b8104000a0342000479be667ef9dcbbac55a06295ce870b07029bfcdb2dce28d959f2815b16f81798483ada7726a3c4655da4fbfc0e1108a8fd17b448a68554199c47d08ffb10d4b8",
    );
    let p = Principal::self_authenticating(&der);
    assert_eq!(hex(&p.to_vec()), "bd056946d0e70841d7ca5b0d63969be380df712a9bca75316fd2388302");
    assert_eq!(p.len(), 29);
    assert_eq!(*p.to_vec().last().unwrap(), 2u8);
    // another key, another principal
    assert_ne!(Principal::self_authenticating(&der[..87]), p);
}
