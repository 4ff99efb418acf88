//! Public keys.

use vstd::prelude::*;

verus! {

/// A 32-byte public key: the address of an account, the identity of a signer
/// or the identifier of an asset.
///
/// Keys are opaque; the ledger only ever compares them and feeds their bytes
/// into address derivation.
#[derive(Clone, Copy, Debug, Hash)]
pub struct Pubkey {
    pub bytes: [u8; 32],
}

impl View for Pubkey {
    type V = Seq<u8>;

    open spec fn view(&self) -> Seq<u8> {
        self.bytes@
    }
}

impl PartialEq for Pubkey {
    fn eq(&self, other: &Pubkey) -> (same: bool) {
        let mut i: usize = 0;
        while i < 32
            invariant
                i <= 32,
                forall|j: int| 0 <= j < i ==> self.bytes[j] == other.bytes[j],
            decreases 32 - i,
        {
            if self.bytes[i] != other.bytes[i] {
                return false;
            }
            i += 1;
        }
        assert(self.bytes =~= other.bytes);
        true
    }
}

impl vstd::std_specs::cmp::PartialEqSpecImpl for Pubkey {
    open spec fn obeys_eq_spec() -> bool {
        true
    }

    open spec fn eq_spec(&self, other: &Pubkey) -> bool {
        *self == *other
    }
}

impl Eq for Pubkey {

}

impl Pubkey {
    /// The key whose bytes are all zero.
    pub open spec fn zeroed_spec() -> Pubkey {
        Pubkey { bytes: vstd::array::spec_array_fill_for_copy_type::<u8, 32>(0u8) }
    }

    /// The key whose bytes are all zero.
    pub fn zeroed() -> (key: Pubkey)
        ensures
            key == Pubkey::zeroed_spec(),
    {
        Pubkey { bytes: [0u8; 32] }
    }

    /// The key that holds `bytes`. It is meant for sequences of 32 bytes;
    /// for each of them there is exactly one such key.
    pub open spec fn from_view(bytes: Seq<u8>) -> Pubkey {
        choose|key: Pubkey| key@ == bytes
    }

    /// Wraps 32 bytes as a key.
    pub fn new_from_array(bytes: [u8; 32]) -> (key: Pubkey)
        ensures
            key.bytes == bytes,
    {
        Pubkey { bytes }
    }

    /// The 32 bytes of the key.
    pub fn to_bytes(&self) -> (bytes: [u8; 32])
        ensures
            bytes == self.bytes,
    {
        self.bytes
    }

    /// The bytes of the key as a seed for address derivation.
    pub fn to_seed(&self) -> (seed: Vec<u8>)
        ensures
            seed@ == self@,
    {
        let mut seed: Vec<u8> = Vec::new();
        let mut i: usize = 0;
        while i < 32
            invariant
                i <= 32,
                seed@ == self@.subrange(0, i as int),
            decreases 32 - i,
        {
            seed.push(self.bytes[i]);
            i += 1;
        }
        seed
    }
}

/// Two keys with the same bytes are the same key.
pub proof fn lemma_pubkey_view_injective(a: Pubkey, b: Pubkey)
    requires
        a@ == b@,
    ensures
        a == b,
{
    assert(a.bytes =~= b.bytes);
}

/// A key is the key that holds its bytes.
pub proof fn lemma_pubkey_from_view(key: Pubkey)
    ensures
        Pubkey::from_view(key@) == key,
{
    lemma_pubkey_view_injective(Pubkey::from_view(key@), key);
}

} // verus!
