use crate::digest::spec_sha224;
use vstd::prelude::*;

verus! {

/// The most bytes a principal can hold.
pub const MAX_PRINCIPAL_LENGTH: usize = 29;

/// The last byte of every self-authenticating principal.
pub const SELF_AUTHENTICATING_TAG: u8 = 2;

/// The only byte of the anonymous principal.
pub const ANONYMOUS_TAG: u8 = 4;

/// An opaque identifier of an actor: at most 29 bytes, compared byte by byte.
///
/// The unused tail of the buffer is kept at zero, so that the derived `==`
/// agrees with equality of the views.
#[derive(Clone, Copy, Debug, PartialEq, Eq, Hash)]
pub struct Principal {
    len: u8,
    bytes: [u8; 29],
}

impl View for Principal {
    type V = Seq<u8>;

    closed spec fn view(&self) -> Seq<u8> {
        self.bytes@.subrange(0, self.len as int)
    }
}

/// The bytes of the principal that a text spells, as `Principal::from_text`
/// of the `candid` crate decodes it; `None` where that function rejects the
/// text.
pub uninterp spec fn spec_principal_from_text(text: Seq<char>) -> Option<Seq<u8>>;

/// What a self-authenticating principal is made of: the SHA-224 digest of
/// the DER-encoded public key, then the tag byte.
pub open spec fn spec_self_authenticating(public_key: Seq<u8>) -> Seq<u8> {
    spec_sha224(public_key).push(SELF_AUTHENTICATING_TAG)
}

/// Calls `Principal::self_authenticating` of the `candid` crate and hands
/// out the principal's bytes. Its source hashes the key with SHA-224, copies
/// the 28 bytes and appends the tag 2; the contract says that and no more.
#[verifier::external_body]
fn self_authenticating_bytes(public_key: &[u8]) -> (id: Vec<u8>)
    ensures
        id@ == spec_self_authenticating(public_key@),
        id@.len() == 29,
{
    candid::Principal::self_authenticating(public_key).as_slice().to_vec()
}

/// Calls `Principal::from_text` of the `candid` crate and hands out the
/// principal's bytes. The contract names what the text decodes to; the one
/// fact stated beside the name is the length limit that the crate's
/// constructor enforces.
#[verifier::external_body]
fn principal_bytes_from_text(text: &str) -> (decoded: Option<Vec<u8>>)
    ensures
        decoded.is_some() == spec_principal_from_text(text@).is_some(),
        decoded.is_some() ==> decoded.unwrap()@ == spec_principal_from_text(text@).unwrap()
            && decoded.unwrap()@.len() <= 29,
{
    match candid::Principal::from_text(text) {
        Ok(p) => Some(p.as_slice().to_vec()),
        Err(_) => None,
    }
}

impl Principal {
    #[verifier::type_invariant]
    closed spec fn inv(&self) -> bool {
        &&& self.len <= 29
        &&& forall|i: int| self.len <= i < 29 ==> self.bytes@[i] == 0
    }

    /// The principal of the management canister: no bytes at all.
    pub fn management_canister() -> (p: Principal)
        ensures
            p@ == Seq::<u8>::empty(),
    {
        let p = Principal { len: 0, bytes: [0u8; 29] };
        assert(p@ =~= Seq::<u8>::empty());
        p
    }

    /// The anonymous principal: the single byte 4.
    pub fn anonymous() -> (p: Principal)
        ensures
            p@ == seq![ANONYMOUS_TAG],
    {
        let mut bytes = [0u8; 29];
        bytes[0] = ANONYMOUS_TAG;
        let p = Principal { len: 1, bytes };
        assert(p@ =~= seq![ANONYMOUS_TAG]);
        p
    }

    /// The principal with exactly these bytes; `None` where there are more
    /// than 29 of them.
    pub fn from_slice(slice: &[u8]) -> (r: Option<Principal>)
        ensures
            r.is_some() == (slice@.len() <= MAX_PRINCIPAL_LENGTH),
            r.is_some() ==> r.unwrap()@ == slice@,
    {
        if slice.len() > MAX_PRINCIPAL_LENGTH {
            return None;
        }
        let mut bytes = [0u8; 29];
        let mut i: usize = 0;
        while i < slice.len()
            invariant
                i <= slice@.len() <= 29,
                forall|j: int| 0 <= j < i ==> bytes@[j] == slice@[j],
                forall|j: int| i <= j < 29 ==> bytes@[j] == 0,
            decreases slice@.len() - i,
        {
            bytes[i] = slice[i];
            i = i + 1;
        }
        let p = Principal { len: slice.len() as u8, bytes };
        assert(p@ =~= slice@);
        Some(p)
    }

    /// The self-authenticating principal of a DER-encoded public key.
    pub fn self_authenticating(public_key: &[u8]) -> (p: Principal)
        ensures
            p@ == spec_self_authenticating(public_key@),
            p@.len() == MAX_PRINCIPAL_LENGTH,
    {
        let id = self_authenticating_bytes(public_key);
        match Principal::from_slice(id.as_slice()) {
            Some(p) => p,
            None => {
                assert(false);
                Principal::management_canister()
            },
        }
    }

    /// The principal that a text spells; `None` where the text is not the
    /// canonical text of any principal.
    pub fn from_text(text: &str) -> (r: Option<Principal>)
        ensures
            r.is_some() == spec_principal_from_text(text@).is_some(),
            r.is_some() ==> r.unwrap()@ == spec_principal_from_text(text@).unwrap(),
    {
        match principal_bytes_from_text(text) {
            Some(bytes) => Principal::from_slice(bytes.as_slice()),
            None => None,
        }
    }

    /// How many bytes the principal holds.
    pub fn len(&self) -> (n: usize)
        ensures
            n == self@.len(),
            n <= MAX_PRINCIPAL_LENGTH,
    {
        proof {
            use_type_invariant(self);
        }
        self.len as usize
    }

    /// The principal's bytes.
    pub fn to_vec(&self) -> (bytes: Vec<u8>)
        ensures
            bytes@ == self@,
    {
        proof {
            use_type_invariant(self);
        }
        let mut out: Vec<u8> = Vec::new();
        let mut i: usize = 0;
        let n: usize = self.len as usize;
        while i < n
            invariant
                i <= n <= 29,
                n == self.len,
                out@ == self.bytes@.subrange(0, i as int),
            decreases n - i,
        {
            out.push(self.bytes[i]);
            i = i + 1;
            assert(out@ =~= self.bytes@.subrange(0, i as int));
        }
        out
    }

    /// Whether two principals hold the same bytes.
    pub fn same_as(&self, other: &Principal) -> (r: bool)
        ensures
            r == (self@ == other@),
    {
        proof {
            use_type_invariant(self);
            use_type_invariant(other);
        }
        if self.len != other.len {
            assert(self@.len() != other@.len());
            return false;
        }
        let n: usize = self.len as usize;
        let mut i: usize = 0;
        while i < n
            invariant
                i <= n <= 29,
                n == self.len,
                n == other.len,
                forall|j: int| 0 <= j < i ==> self.bytes@[j] == other.bytes@[j],
            decreases n - i,
        {
            if self.bytes[i] != other.bytes[i] {
                assert(self@[i as int] != other@[i as int]);
                return false;
            }
            i = i + 1;
        }
        assert(self@ =~= other@);
        true
    }
}

} // verus!
