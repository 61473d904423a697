use crate::bytes::{append_bytes, spec_u32_be_bytes, spec_u64_be_bytes, u32_be_bytes, u64_be_bytes};
use crate::digest::{crc32, sha224, sha256, spec_crc32, spec_sha224, spec_sha256};
use crate::principal::Principal;
use vstd::prelude::*;

verus! {

/// Thirty-two bytes that tell apart the accounts of one owner.
#[derive(Clone, Copy, Debug, PartialEq, Eq, Hash)]
pub struct Subaccount(pub [u8; 32]);

impl View for Subaccount {
    type V = Seq<u8>;

    open spec fn view(&self) -> Seq<u8> {
        self.0@
    }
}

/// The address of a funding destination on the ledger: the 28-byte hash of
/// an owner and a subaccount.
#[derive(Clone, Copy, Debug, PartialEq, Eq, Hash)]
pub struct AccountIdentifier {
    pub hash: [u8; 28],
}

impl View for AccountIdentifier {
    type V = Seq<u8>;

    open spec fn view(&self) -> Seq<u8> {
        self.hash@
    }
}

/// The domain separator of a neuron's staking subaccount: the length byte 12
/// and the ASCII text `neuron-stake`.
pub open spec fn spec_neuron_stake_tag() -> Seq<u8> {
    seq![0x0cu8, 0x6e, 0x65, 0x75, 0x72, 0x6f, 0x6e, 0x2d, 0x73, 0x74, 0x61, 0x6b, 0x65]
}

/// The domain separator of an account identifier: the length byte 10 and the
/// ASCII text `account-id`.
pub open spec fn spec_account_domain() -> Seq<u8> {
    seq![0x0au8, 0x61, 0x63, 0x63, 0x6f, 0x75, 0x6e, 0x74, 0x2d, 0x69, 0x64]
}

/// Thirty-two zero bytes: the subaccount of an owner's default account.
pub open spec fn spec_default_subaccount() -> Seq<u8> {
    Seq::new(32, |i: int| 0u8)
}

/// A subaccount is the SHA-256 digest of the tag, the controller's bytes and
/// the nonce in big-endian order, one after the other.
pub open spec fn spec_derive_subaccount(tag: Seq<u8>, controller: Seq<u8>, nonce: u64) -> Seq<u8> {
    spec_sha256(tag + controller + spec_u64_be_bytes(nonce))
}

/// An account identifier is the SHA-224 digest of the domain separator, the
/// owner's bytes and the subaccount, where no subaccount means 32 zeros.
pub open spec fn spec_derive_account_id(owner: Seq<u8>, subaccount: Option<Seq<u8>>) -> Seq<u8> {
    spec_sha224(
        spec_account_domain() + owner + match subaccount {
            Some(s) => s,
            None => spec_default_subaccount(),
        },
    )
}

/// The account that funds the neuron which `controller` will claim from the
/// governance service with the memo `nonce`.
pub open spec fn spec_neuron_account_id(governance: Seq<u8>, controller: Seq<u8>, nonce: u64) -> Seq<
    u8,
> {
    spec_derive_account_id(
        governance,
        Some(spec_derive_subaccount(spec_neuron_stake_tag(), controller, nonce)),
    )
}

/// The 32-byte address of an account: the CRC-32 checksum of the hash, most
/// significant byte first, and then the hash.
pub open spec fn spec_address(hash: Seq<u8>) -> Seq<u8> {
    spec_u32_be_bytes(spec_crc32(hash)) + hash
}

/// The domain separator of a neuron's staking subaccount.
pub fn neuron_stake_tag() -> (tag: [u8; 13])
    ensures
        tag@ == spec_neuron_stake_tag(),
{
    let tag: [u8; 13] = [0x0c, 0x6e, 0x65, 0x75, 0x72, 0x6f, 0x6e, 0x2d, 0x73, 0x74, 0x61, 0x6b, 0x65];
    assert(tag@ =~= spec_neuron_stake_tag());
    tag
}

/// Derives the subaccount that belongs to a tag, a controller and a nonce.
pub fn derive_subaccount(tag: &[u8], controller: &Principal, nonce: u64) -> (subaccount: Subaccount)
    ensures
        subaccount@ == spec_derive_subaccount(tag@, controller@, nonce),
{
    let mut preimage: Vec<u8> = Vec::new();
    append_bytes(&mut preimage, tag);
    let owner = controller.to_vec();
    append_bytes(&mut preimage, owner.as_slice());
    let nonce_bytes = u64_be_bytes(nonce);
    append_bytes(&mut preimage, nonce_bytes.as_slice());
    assert(preimage@ =~= tag@ + controller@ + spec_u64_be_bytes(nonce));
    Subaccount(sha256(preimage.as_slice()))
}

/// Derives the account identifier of an owner and an optional subaccount.
pub fn derive_account_id(owner: &Principal, subaccount: Option<Subaccount>) -> (account:
    AccountIdentifier)
    ensures
        account@ == spec_derive_account_id(
            owner@,
            match subaccount {
                Some(s) => Some(s@),
                None => None,
            },
        ),
{
    let domain: [u8; 11] = [0x0a, 0x61, 0x63, 0x63, 0x6f, 0x75, 0x6e, 0x74, 0x2d, 0x69, 0x64];
    assert(domain@ =~= spec_account_domain());
    let mut preimage: Vec<u8> = Vec::new();
    append_bytes(&mut preimage, domain.as_slice());
    let owner_bytes = owner.to_vec();
    append_bytes(&mut preimage, owner_bytes.as_slice());
    let tail: [u8; 32] = match subaccount {
        Some(s) => s.0,
        None => {
            let zero = [0u8; 32];
            assert(zero@ =~= spec_default_subaccount());
            zero
        },
    };
    append_bytes(&mut preimage, tail.as_slice());
    assert(preimage@ =~= spec_account_domain() + owner@ + tail@);
    AccountIdentifier { hash: sha224(preimage.as_slice()) }
}

/// Derives the account that funds a neuron before the neuron exists.
pub fn neuron_account_id(governance: &Principal, controller: &Principal, nonce: u64) -> (account:
    AccountIdentifier)
    ensures
        account@ == spec_neuron_account_id(governance@, controller@, nonce),
{
    let tag = neuron_stake_tag();
    let subaccount = derive_subaccount(tag.as_slice(), controller, nonce);
    derive_account_id(governance, Some(subaccount))
}

impl AccountIdentifier {
    /// The account of an owner and an optional subaccount.
    pub fn new(owner: &Principal, subaccount: Option<Subaccount>) -> (account: AccountIdentifier)
        ensures
            account@ == spec_derive_account_id(
                owner@,
                match subaccount {
                    Some(s) => Some(s@),
                    None => None,
                },
            ),
    {
        derive_account_id(owner, subaccount)
    }

    /// The 32-byte address under which the ledger knows the account.
    pub fn to_address(&self) -> (address: [u8; 32])
        ensures
            address@ == spec_address(self@),
    {
        let sum = u32_be_bytes(crc32(self.hash.as_slice()));
        let mut address = [0u8; 32];
        let mut i: usize = 0;
        while i < 4
            invariant
                i <= 4,
                forall|j: int| 0 <= j < i ==> address@[j] == sum@[j],
            decreases 4 - i,
        {
            address[i] = sum[i];
            i = i + 1;
        }
        let mut k: usize = 0;
        while k < 28
            invariant
                k <= 28,
                forall|j: int| 0 <= j < 4 ==> address@[j] == sum@[j],
                forall|j: int| 0 <= j < k ==> address@[4 + j] == self.hash@[j],
            decreases 28 - k,
        {
            address[4 + k] = self.hash[k];
            k = k + 1;
        }
        assert(address@ =~= spec_address(self@));
        address
    }
}

} // verus!
