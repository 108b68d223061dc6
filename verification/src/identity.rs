//! Identities: the 32-byte keys that name actors and records.

use vstd::prelude::*;

verus! {

/// A 32-byte identity: an actor's key or the address of a record.
#[derive(Clone, Copy, Debug, PartialEq, Eq, Hash)]
pub struct Pubkey {
    pub bytes: [u8; 32],
}

impl View for Pubkey {
    type V = Seq<u8>;

    open spec fn view(&self) -> Seq<u8> {
        self.bytes@
    }
}

impl Pubkey {
    /// Whether this is the identity whose bytes are all zero; it names nobody.
    pub open spec fn is_default(&self) -> bool {
        self@ == Seq::new(32, |i: int| 0u8)
    }

    /// The identity with the given 32 bytes.
    pub open spec fn spec_from_seq(bytes: Seq<u8>) -> Pubkey {
        choose|key: Pubkey| key@ == bytes
    }

    /// The identity whose bytes are all zero.
    pub open spec fn spec_default() -> Pubkey {
        Pubkey::spec_from_seq(Seq::new(32, |i: int| 0u8))
    }

    /// Reading an identity back from its own bytes gives that identity.
    pub proof fn lemma_from_seq(key: Pubkey)
        ensures
            Pubkey::spec_from_seq(key@) == key,
    {
        let chosen = Pubkey::spec_from_seq(key@);
        assert(chosen@ == key@);
        Pubkey::lemma_eq_by_view(chosen, key);
    }

    /// Two identities are the same exactly when their bytes agree.
    pub proof fn lemma_eq_by_view(a: Pubkey, b: Pubkey)
        ensures
            (a == b) <==> (a@ == b@),
            a@.len() == 32,
    {
        if a@ == b@ {
            assert(a.bytes =~= b.bytes);
        }
    }

    /// The identity with the given bytes.
    pub fn new_from_array(bytes: [u8; 32]) -> (key: Pubkey)
        ensures
            key.bytes == bytes,
    {
        Pubkey { bytes }
    }

    /// The bytes of the identity.
    pub fn to_bytes(&self) -> (bytes: [u8; 32])
        ensures
            bytes == self.bytes,
    {
        self.bytes
    }

    /// The all-zero identity.
    pub fn default() -> (key: Pubkey)
        ensures
            key.is_default(),
            key == Pubkey::spec_default(),
    {
        let key = Pubkey { bytes: [0u8; 32] };
        assert(key@ =~= Seq::new(32, |i: int| 0u8));
        proof {
            Pubkey::lemma_from_seq(key);
        }
        key
    }

    /// Whether every byte is zero.
    pub fn is_zero(&self) -> (zero: bool)
        ensures
            zero == self.is_default(),
    {
        let mut i: usize = 0;
        while i < 32
            invariant
                i <= 32,
                forall|j: int| 0 <= j < i ==> self.bytes[j] == 0,
            decreases 32 - i,
        {
            if self.bytes[i] != 0 {
                assert(self@[i as int] != Seq::new(32, |i: int| 0u8)[i as int]);
                return false;
            }
            i += 1;
        }
        assert(self@ =~= Seq::new(32, |i: int| 0u8));
        true
    }

    /// Byte-wise comparison.
    pub fn equals(&self, other: &Pubkey) -> (same: bool)
        ensures
            same == (*self == *other),
    {
        let mut i: usize = 0;
        while i < 32
            invariant
                i <= 32,
                forall|j: int| 0 <= j < i ==> self.bytes[j] == other.bytes[j],
            decreases 32 - i,
        {
            if self.bytes[i] != other.bytes[i] {
                return false;
            }
            i += 1;
        }
        assert(self.bytes =~= other.bytes);
        true
    }

    /// Reads an identity from a slice of exactly 32 bytes.
    pub fn from_slice(data: &[u8]) -> (key: Option<Pubkey>)
        ensures
            key is Some <==> data@.len() == 32,
            key is Some ==> key->0@ == data@ && key->0 == Pubkey::spec_from_seq(data@),
    {
        if data.len() != 32 {
            return None;
        }
        let mut bytes = [0u8; 32];
        let mut i: usize = 0;
        while i < 32
            invariant
                i <= 32,
                data@.len() == 32,
                forall|j: int| 0 <= j < i ==> bytes[j] == data@[j],
            decreases 32 - i,
        {
            bytes[i] = data[i];
            i += 1;
        }
        assert(bytes@ =~= data@);
        let key = Pubkey { bytes };
        proof {
            Pubkey::lemma_from_seq(key);
        }
        Some(key)
    }

    /// The 32 bytes as a vector.
    pub fn to_vec(&self) -> (out: Vec<u8>)
        ensures
            out@ == self@,
    {
        let mut out: Vec<u8> = Vec::new();
        let mut i: usize = 0;
        while i < 32
            invariant
                i <= 32,
                out@.len() == i,
                forall|j: int| 0 <= j < i ==> out@[j] == self.bytes[j],
            decreases 32 - i,
        {
            out.push(self.bytes[i]);
            i += 1;
        }
        assert(out@ =~= self@);
        out
    }
}

} // verus!
