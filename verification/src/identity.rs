//! Caller identities.
//!
//! An identity is the byte string of a principal: at most 29 bytes, with
//! the single byte `0x04` standing for the anonymous caller.

use vstd::prelude::*;

verus! {

/// The longest byte string that is a principal.
pub const MAX_IDENTITY_LEN: usize = 29;

/// The bytes of the anonymous principal.
pub open spec fn anonymous_bytes() -> Seq<u8> {
    seq![4u8]
}

/// `Principal::anonymous` followed by `Principal::as_slice`: the bytes of
/// the anonymous principal, which are the one byte `0x04`.
#[verifier::external_body]
fn principal_anonymous() -> (bytes: Vec<u8>)
    ensures
        bytes@ == anonymous_bytes(),
{
    candid::Principal::anonymous().as_slice().to_vec()
}

/// `Principal::try_from_slice`: a byte string is accepted as a principal
/// exactly when it has at most 29 bytes.
#[verifier::external_body]
fn principal_accepts(bytes: &Vec<u8>) -> (accepted: bool)
    ensures
        accepted == (bytes@.len() <= MAX_IDENTITY_LEN),
{
    candid::Principal::try_from_slice(bytes.as_slice()).is_ok()
}

/// The identity of a caller.
#[derive(Debug, PartialEq, Eq)]
pub struct Identity {
    bytes: Vec<u8>,
}

impl View for Identity {
    type V = Seq<u8>;

    closed spec fn view(&self) -> Seq<u8> {
        self.bytes@
    }
}

impl Clone for Identity {
    fn clone(&self) -> (copy: Self)
        ensures
            copy@ == self@,
    {
        proof {
            use_type_invariant(self);
        }
        Identity { bytes: self.bytes.clone() }
    }
}

impl Identity {
    #[verifier::type_invariant]
    spec fn fits_a_principal(&self) -> bool {
        self.bytes@.len() <= MAX_IDENTITY_LEN
    }

    /// The number of bytes of this identity, never more than
    /// `MAX_IDENTITY_LEN`.
    pub fn len(&self) -> (n: usize)
        ensures
            n == self@.len(),
            n <= MAX_IDENTITY_LEN,
    {
        proof {
            use_type_invariant(self);
        }
        self.bytes.len()
    }

    /// The identity with the given bytes, or `None` when they are too many
    /// to be a principal.
    pub fn from_bytes(bytes: Vec<u8>) -> (made: Option<Identity>)
        ensures
            made is Some <==> bytes@.len() <= MAX_IDENTITY_LEN,
            made matches Some(id) ==> id@ == bytes@,
    {
        if principal_accepts(&bytes) {
            Some(Identity { bytes })
        } else {
            None
        }
    }

    /// The anonymous identity.
    pub fn anonymous() -> (id: Identity)
        ensures
            id@ == anonymous_bytes(),
    {
        Identity { bytes: principal_anonymous() }
    }

    /// The bytes of this identity.
    pub fn to_bytes(&self) -> (bytes: Vec<u8>)
        ensures
            bytes@ == self@,
    {
        self.bytes.clone()
    }

    /// Whether the two identities are the same caller.
    pub fn same_as(&self, other: &Identity) -> (same: bool)
        ensures
            same == (self@ == other@),
    {
        let n: usize = self.bytes.len();
        if n != other.bytes.len() {
            return false;
        }
        let mut i: usize = 0;
        while i < n
            invariant
                n == self.bytes@.len(),
                n == other.bytes@.len(),
                i <= n,
                forall|j: int| 0 <= j < i ==> self.bytes@[j] == other.bytes@[j],
            decreases n - i,
        {
            if self.bytes[i] != other.bytes[i] {
                return false;
            }
            i += 1;
        }
        assert(self.bytes@ =~= other.bytes@);
        true
    }

    /// Whether this is the anonymous identity.
    pub fn is_anonymous(&self) -> (anonymous: bool)
        ensures
            anonymous == (self@ == anonymous_bytes()),
    {
        let anonymous = self.bytes.len() == 1 && self.bytes[0] == 4;
        assert(anonymous ==> self.bytes@ =~= anonymous_bytes());
        anonymous
    }
}

} // verus!
