use staking_jobs::account::{
    derive_account_id, derive_subaccount, neuron_account_id, neuron_stake_tag, AccountIdentifier,
    Subaccount,
};
use staking_jobs::principal::Principal;

fn hex(bytes: &[u8]) -> String {
    let mut out = String::new();
    for b in bytes {
        out.push_str(&format!("{:02x}", b));
    }
    out
}

#[test]
fn anonymous_default_account_matches_ledger_vector() {
    let account = derive_account_id(&Principal::anonymous(), None);
    assert_eq!(hex(&account.hash), "6a562aa9eaa2481a9049cdf0433b9738c992d698c31d8abf89cadc79");
    assert_eq!(
        hex(&account.to_address()),
        "1c7a48ba6a562aa9eaa2481a9049cdf0433b9738c992d698c31d8abf89cadc79"
    );
}

#[test]
fn neuron_subaccount_matches_reference_digest() {
    let tag = neuron_stake_tag();
    let sub = derive_subaccount(&tag, &Principal::anonymous(), 1);
    assert_eq!(hex(&sub.0), "ec53232f8ac7f9c7a0866a3b307a68f124f15ffb3572d6752e61e7a5b605d691");
}

#[test]
fn neuron_account_matches_reference_address() {
    let governance = Principal::from_slice(&[0, 0, 0, 0, 0, 0, 0, 1, 1, 1]).unwrap();
    let account = neuron_account_id(&governance, &Principal::anonymous(), 1);
    assert_eq!(
        hex(&account.to_address()),
        "3d7452a95fdcf4d86502fcd7697415f6018768326e8e7f11142dc12061607e76"
    );
    let default_account = AccountIdentifier::new(&governance, None);
    assert_eq!(
        hex(&default_account.to_address()),
        "082ecf2e3f647ac600f43f38a68342fba5b8e68b085f02592b77f39808a8d2b5"
    );
}

#[test]
fn derivation_is_deterministic() {
    let controller = Principal::from_slice(&[9, 8, 7]).unwrap();
    let tag = neuron_stake_tag();
    assert_eq!(derive_subaccount(&tag, &controller, 42), derive_subaccount(&tag, &controller, 42));
    assert_ne!(derive_subaccount(&tag, &controller, 42), derive_subaccount(&tag, &controller, 43));
    let sub = Subaccount([7u8; 32]);
    assert_eq!(derive_account_id(&controller, Some(sub)), derive_account_id(&controller, Some(sub)));
    assert_ne!(derive_account_id(&controller, Some(sub)), derive_account_id(&controller, None));
}

#[test]
fn explicit_zero_subaccount_is_the_default_account() {
    let owner = Principal::from_slice(&[1, 2, 3, 4]).unwrap();
    assert_eq!(derive_account_id(&owner, Some(Subaccount([0u8; 32]))), derive_account_id(&owner, None));
}
