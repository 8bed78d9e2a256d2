//! Fixed-width values of the chain: 256-bit numbers, account addresses and
//! 32-byte hashes.

use vstd::prelude::*;

verus! {

/// A 256-bit unsigned number, held as two 128-bit halves.
#[derive(Clone, Copy, Debug, PartialEq, Eq, Hash, Structural)]
pub struct U256 {
    /// The upper 128 bits.
    pub hi: u128,
    /// The lower 128 bits.
    pub lo: u128,
}

/// Two to the power 128.
pub open spec fn pow2_128() -> nat {
    0x1_0000_0000_0000_0000_0000_0000_0000_0000nat
}

impl U256 {
    /// The number that the two halves stand for.
    pub open spec fn value(self) -> nat {
        (self.hi as nat) * pow2_128() + (self.lo as nat)
    }

    /// The number zero.
    pub fn zero() -> (r: U256)
        ensures
            r.value() == 0,
            r == (U256 { hi: 0, lo: 0 }),
    {
        U256 { hi: 0, lo: 0 }
    }

    /// The 256-bit number equal to `v`.
    pub fn from_u64(v: u64) -> (r: U256)
        ensures
            r.value() == v,
            r == (U256 { hi: 0, lo: v as u128 }),
    {
        U256 { hi: 0, lo: v as u128 }
    }

    /// The number as a `u64`, when it is small enough to be one.
    pub fn to_u64(&self) -> (r: Option<u64>)
        ensures
            r is Some <==> self.value() <= u64::MAX,
            r matches Some(v) ==> v == self.value(),
    {
        if self.hi == 0 && self.lo <= u64::MAX as u128 {
            Some(self.lo as u64)
        } else {
            proof {
                if self.hi != 0 {
                    assert((self.hi as nat) * pow2_128() >= pow2_128()) by (nonlinear_arith)
                        requires
                            self.hi >= 1,
                    ;
                }
            }
            None
        }
    }
}

/// The address of an account: twenty bytes.
#[derive(Clone, Copy, Debug, PartialEq, Eq, Hash)]
pub struct Address {
    /// The bytes, first byte first.
    pub bytes: [u8; 20],
}

/// The address of twenty zero bytes.
pub open spec fn zero_address() -> Address {
    Address {
        bytes: [
            0u8, 0u8, 0u8, 0u8, 0u8, 0u8, 0u8, 0u8, 0u8, 0u8,
            0u8, 0u8, 0u8, 0u8, 0u8, 0u8, 0u8, 0u8, 0u8, 0u8,
        ],
    }
}

impl Address {
    /// The address of twenty zero bytes.
    pub fn zero() -> (r: Address)
        ensures
            r == zero_address(),
    {
        Address {
            bytes: [
                0u8, 0u8, 0u8, 0u8, 0u8, 0u8, 0u8, 0u8, 0u8, 0u8,
                0u8, 0u8, 0u8, 0u8, 0u8, 0u8, 0u8, 0u8, 0u8, 0u8,
            ],
        }
    }

    /// Whether two addresses hold the same bytes.
    pub fn same(&self, other: &Address) -> (r: bool)
        ensures
            r == (*self == *other),
    {
        let mut i: usize = 0;
        while i < 20
            invariant
                i <= 20,
                forall|j: int| 0 <= j < i ==> self.bytes[j] == other.bytes[j],
            decreases 20 - i,
        {
            if self.bytes[i] != other.bytes[i] {
                return false;
            }
            i += 1;
        }
        assert(self.bytes =~= other.bytes);
        true
    }
}

/// A 32-byte hash.
#[derive(Clone, Copy, Debug, PartialEq, Eq, Hash)]
pub struct H256 {
    /// The bytes, first byte first.
    pub bytes: [u8; 32],
}

} // verus!
