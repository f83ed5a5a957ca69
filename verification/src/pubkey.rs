//! Identities: of the principals that sign requests, of the players that are
//! credited, and of token types.

use vstd::prelude::*;
use vstd::std_specs::cmp::PartialEqSpecImpl;

verus! {

/// A 32-byte identity. Two identities are the same exactly when their bytes
/// are.
#[derive(Debug, Clone, Copy)]
pub struct Pubkey {
    pub bytes: [u8; 32],
}

impl View for Pubkey {
    type V = Seq<u8>;

    open spec fn view(&self) -> Seq<u8> {
        self.bytes@
    }
}

/// Whether two 32-byte strings hold the same bytes.
pub fn bytes_equal(a: &[u8; 32], b: &[u8; 32]) -> (same: bool)
    ensures
        same == (a@ == b@),
{
    let mut i: usize = 0;
    while i < 32
        invariant
            i <= 32,
            forall|j: int| 0 <= j < i ==> a@[j] == b@[j],
        decreases 32 - i,
    {
        if a[i] != b[i] {
            return false;
        }
        i += 1;
    }
    assert(a@ =~= b@);
    true
}

impl Pubkey {
    /// The identity with the given bytes.
    pub fn new(bytes: [u8; 32]) -> (key: Pubkey)
        ensures
            key@ == bytes@,
            key.bytes == bytes,
    {
        Pubkey { bytes }
    }

    /// The bytes of the identity.
    pub fn to_bytes(&self) -> (bytes: [u8; 32])
        ensures
            bytes@ == self@,
    {
        self.bytes
    }

    /// Equal views make equal identities: an identity holds nothing but its
    /// bytes.
    pub proof fn lemma_view_injective(a: Pubkey, b: Pubkey)
        ensures
            (a@ == b@) <==> (a == b),
            a@.len() == 32,
    {
        if a@ == b@ {
            assert(a.bytes =~= b.bytes);
        }
    }
}

impl PartialEq for Pubkey {
    fn eq(&self, other: &Pubkey) -> (same: bool) {
        bytes_equal(&self.bytes, &other.bytes)
    }
}

impl Eq for Pubkey {

}

impl PartialEqSpecImpl for Pubkey {
    open spec fn obeys_eq_spec() -> bool {
        true
    }

    open spec fn eq_spec(&self, other: &Pubkey) -> bool {
        self@ == other@
    }
}

} // verus!
