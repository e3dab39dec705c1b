use vstd::prelude::*;

verus! {

/// The number of bytes in an address.
pub const PUBKEY_LEN: usize = 32;

/// A 32-byte address: the identity of an account, a program, or an asset.
#[derive(Debug, Clone, PartialEq, Eq, Hash)]
pub struct Pubkey {
    pub bytes: Vec<u8>,
}

impl View for Pubkey {
    type V = Seq<u8>;

    open spec fn view(&self) -> Seq<u8> {
        self.bytes@
    }
}

impl Pubkey {
    /// A well-formed address holds exactly 32 bytes.
    pub open spec fn wf(&self) -> bool {
        self@.len() == PUBKEY_LEN
    }

    /// Builds an address from its 32 bytes.
    pub fn new(bytes: Vec<u8>) -> (k: Pubkey)
        requires
            bytes@.len() == PUBKEY_LEN,
        ensures
            k@ == bytes@,
            k.wf(),
    {
        Pubkey { bytes }
    }

    /// Whether two addresses hold the same bytes.
    pub fn eq_key(&self, other: &Pubkey) -> (r: bool)
        ensures
            r == (self@ == other@),
    {
        let r = self.bytes == other.bytes;
        proof {
            if r {
                assert(self.bytes@ =~= other.bytes@);
            } else {
                if self@ == other@ {
                    assert(forall|i: int|
                        0 <= i < self.bytes@.len() ==> self.bytes@[i] == other.bytes@[i]);
                    assert(false);
                }
            }
        }
        r
    }

    /// A fresh copy of the address bytes, for seed lists and stored records.
    pub fn to_bytes(&self) -> (v: Vec<u8>)
        ensures
            v@ == self@,
    {
        let v = self.bytes.clone();
        proof {
            assert(v@ =~= self.bytes@);
        }
        v
    }

    /// A fresh copy of the address itself.
    pub fn copy_key(&self) -> (k: Pubkey)
        ensures
            k@ == self@,
    {
        Pubkey { bytes: self.to_bytes() }
    }
}

} // verus!
