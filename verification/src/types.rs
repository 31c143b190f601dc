use vstd::prelude::*;

verus! {

/// The identity of a participant: a 20-byte account address.
#[derive(Clone, Copy, Debug, PartialEq, Eq, Hash)]
pub struct Address {
    pub bytes: [u8; 20],
}

impl Address {
    /// Every byte is zero.
    pub open spec fn is_zero(&self) -> bool {
        forall|i: int| 0 <= i < 20 ==> self.bytes@[i] == 0u8
    }

    /// The address made of the given bytes.
    pub fn from_bytes(bytes: [u8; 20]) -> (a: Address)
        ensures
            a.bytes == bytes,
    {
        Address { bytes }
    }

    /// The all-zero address.
    pub fn zero() -> (a: Address)
        ensures
            a.is_zero(),
    {
        Address { bytes: [0u8; 20] }
    }

    /// Whether two addresses hold the same bytes.
    pub fn same(&self, other: &Address) -> (b: bool)
        ensures
            b == (*self == *other),
    {
        let mut i: usize = 0;
        while i < 20
            invariant
                i <= 20,
                forall|j: int| 0 <= j < i ==> self.bytes@[j] == other.bytes@[j],
            decreases 20 - i,
        {
            if self.bytes[i] != other.bytes[i] {
                return false;
            }
            i += 1;
        }
        assert(self.bytes@ =~= other.bytes@);
        assert(self.bytes == other.bytes);
        true
    }
}

/// The reference that the trading venue gives to a transaction: 32 bytes.
#[derive(Clone, Copy, Debug, PartialEq, Eq, Hash)]
pub struct TxHash {
    pub bytes: [u8; 32],
}

impl TxHash {
    /// Every byte is zero.
    pub open spec fn is_zero(&self) -> bool {
        forall|i: int| 0 <= i < 32 ==> self.bytes@[i] == 0u8
    }

    /// The reference made of the given bytes.
    pub fn from_bytes(bytes: [u8; 32]) -> (h: TxHash)
        ensures
            h.bytes == bytes,
    {
        TxHash { bytes }
    }

    /// The all-zero reference.
    pub fn zero() -> (h: TxHash)
        ensures
            h.is_zero(),
    {
        TxHash { bytes: [0u8; 32] }
    }
}

} // verus!
