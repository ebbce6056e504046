//! Account identities.

use vstd::prelude::*;
use vstd::std_specs::cmp::PartialEqSpecImpl;
use vstd::std_specs::convert::FromSpecImpl;

verus! {

/// An opaque, fixed-size account identity.
///
/// Two identities are the same account exactly when their bytes agree.
#[derive(Clone, Copy, Debug, Hash)]
pub struct AccountId {
    bytes: [u8; 32],
}

impl AccountId {
    /// The thirty-two bytes of the identity.
    pub closed spec fn bytes(self) -> Seq<u8> {
        self.bytes@
    }

    /// The identity made of the given bytes.
    pub closed spec fn of(bytes: [u8; 32]) -> AccountId {
        AccountId { bytes }
    }

    /// An identity is determined by its bytes.
    pub proof fn lemma_bytes_determine_account(a: AccountId, b: AccountId)
        ensures
            a.bytes().len() == 32,
            a.bytes() == b.bytes() <==> a == b,
    {
        if a.bytes() == b.bytes() {
            assert(a.bytes =~= b.bytes);
        }
    }

    /// The identity made of some bytes holds exactly those bytes.
    pub proof fn lemma_bytes_of(bytes: [u8; 32])
        ensures
            AccountId::of(bytes).bytes() == bytes@,
    {
    }

    /// The bytes of the identity, for a caller that stores or prints them.
    pub fn to_bytes(&self) -> (bytes: [u8; 32])
        ensures
            bytes@ == self.bytes(),
    {
        self.bytes
    }
}

impl PartialEq for AccountId {
    fn eq(&self, other: &AccountId) -> (r: bool) {
        let mut i: usize = 0;
        while i < 32
            invariant
                i <= 32,
                forall|j: int| 0 <= j < i ==> self.bytes[j] == other.bytes[j],
            decreases 32 - i,
        {
            if self.bytes[i] != other.bytes[i] {
                return false;
            }
            i += 1;
        }
        assert(self.bytes =~= other.bytes);
        true
    }
}

impl Eq for AccountId {

}

impl PartialEqSpecImpl for AccountId {
    open spec fn obeys_eq_spec() -> bool {
        true
    }

    open spec fn eq_spec(&self, other: &AccountId) -> bool {
        *self == *other
    }
}

impl From<[u8; 32]> for AccountId {
    fn from(bytes: [u8; 32]) -> (account: AccountId) {
        AccountId { bytes }
    }
}

impl FromSpecImpl<[u8; 32]> for AccountId {
    open spec fn obeys_from_spec() -> bool {
        true
    }

    open spec fn from_spec(bytes: [u8; 32]) -> AccountId {
        AccountId::of(bytes)
    }
}

} // verus!
