use vstd::prelude::*;

verus! {

/// A 32-byte ledger address, the unit of identity on the ledger.
///
/// Both signing keys and derived (off-curve) addresses are carried in this
/// form; contracts speak of an address as its byte sequence `self@`.
#[derive(Clone, Copy, PartialEq, Eq, Debug)]
pub struct Address {
    pub bytes: [u8; 32],
}

impl View for Address {
    type V = Seq<u8>;

    open spec fn view(&self) -> Seq<u8> {
        self.bytes@
    }
}

impl DeepView for Address {
    type V = Seq<u8>;

    open spec fn deep_view(&self) -> Seq<u8> {
        self.bytes@
    }
}

impl Address {
    pub fn new(bytes: [u8; 32]) -> (a: Address)
        ensures
            a@ == bytes@,
    {
        Address { bytes }
    }

    /// Byte-for-byte equality of two addresses.
    pub fn equals(&self, other: &Address) -> (r: bool)
        ensures
            r == (self@ == other@),
    {
        let mut i: usize = 0;
        while i < 32
            invariant
                0 <= i <= 32,
                forall|j: int| 0 <= j < i ==> self.bytes@[j] == other.bytes@[j],
            decreases 32 - i,
        {
            if self.bytes[i] != other.bytes[i] {
                assert(self@[i as int] != other@[i as int]);
                return false;
            }
            i += 1;
        }
        proof {
            assert(self@ =~= other@);
        }
        true
    }

    /// Copies the 32 bytes of `data` that start at `start` into an address.
    pub fn from_slice(data: &[u8], start: usize) -> (a: Address)
        requires
            start + 32 <= data@.len(),
        ensures
            a@ == data@.subrange(start as int, start as int + 32),
    {
        let n: usize = data.len();
        let mut bytes: [u8; 32] = [0; 32];
        let mut i: usize = 0;
        while i < 32
            invariant
                0 <= i <= 32,
                start + 32 <= n == data@.len(),
                forall|j: int| 0 <= j < i ==> bytes@[j] == data@[start + j],
            decreases 32 - i,
        {
            bytes[i] = data[start + i];
            i += 1;
        }
        proof {
            assert(bytes@ =~= data@.subrange(start as int, start as int + 32));
        }
        Address { bytes }
    }

    /// The address as a fresh byte vector.
    pub fn to_vec(&self) -> (v: Vec<u8>)
        ensures
            v@ == self@,
    {
        let mut v: Vec<u8> = Vec::new();
        let mut i: usize = 0;
        while i < 32
            invariant
                0 <= i <= 32,
                v@.len() == i,
                forall|j: int| 0 <= j < i ==> v@[j] == self.bytes@[j],
            decreases 32 - i,
        {
            v.push(self.bytes[i]);
            i += 1;
        }
        proof {
            assert(v@ =~= self@);
        }
        v
    }
}

} // verus!
