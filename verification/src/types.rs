//! Plain value types shared by every module: account addresses, 256-bit
//! quantities and transaction hashes.

use vstd::prelude::*;

verus! {

/// A 20-byte account or contract address.
#[derive(Clone, Copy, Debug, PartialEq, Eq, Hash)]
pub struct Address {
    pub bytes: [u8; 20],
}

/// A 32-byte transaction hash.
#[derive(Clone, Copy, Debug, PartialEq, Eq, Hash)]
pub struct TransactionHash {
    pub bytes: [u8; 32],
}

/// An unsigned 256-bit quantity, least significant limb first.
#[derive(Clone, Copy, Debug, PartialEq, Eq, Hash)]
pub struct U256 {
    pub limbs: [u64; 4],
}

impl U256 {
    /// The mathematical value of the quantity.
    pub open spec fn value(self) -> nat {
        (self.limbs[0] as nat) + (self.limbs[1] as nat) * 0x1_0000_0000_0000_0000nat
            + (self.limbs[2] as nat) * 0x1_0000_0000_0000_0000nat * 0x1_0000_0000_0000_0000nat
            + (self.limbs[3] as nat) * 0x1_0000_0000_0000_0000nat * 0x1_0000_0000_0000_0000nat
            * 0x1_0000_0000_0000_0000nat
    }

    /// The quantity zero.
    pub fn zero() -> (r: U256)
        ensures
            r.value() == 0,
            r.limbs@ == seq![0u64, 0u64, 0u64, 0u64],
    {
        U256 { limbs: [0, 0, 0, 0] }
    }

    /// A quantity that fits in 64 bits.
    pub fn from_u64(v: u64) -> (r: U256)
        ensures
            r.value() == v as nat,
            r.limbs@ == seq![v, 0u64, 0u64, 0u64],
    {
        U256 { limbs: [v, 0, 0, 0] }
    }

    /// Whether the quantity is zero.
    pub fn is_zero(&self) -> (r: bool)
        ensures
            r == (self.value() == 0),
    {
        proof {
            assert(self.value() == 0 <==> (self.limbs[0] == 0 && self.limbs[1] == 0
                && self.limbs[2] == 0 && self.limbs[3] == 0)) by (nonlinear_arith)
                requires
                    self.value() == (self.limbs[0] as nat) + (self.limbs[1] as nat)
                        * 0x1_0000_0000_0000_0000nat + (self.limbs[2] as nat)
                        * 0x1_0000_0000_0000_0000nat * 0x1_0000_0000_0000_0000nat + (
                    self.limbs[3] as nat) * 0x1_0000_0000_0000_0000nat
                        * 0x1_0000_0000_0000_0000nat * 0x1_0000_0000_0000_0000nat,
            ;
        }
        self.limbs[0] == 0 && self.limbs[1] == 0 && self.limbs[2] == 0 && self.limbs[3] == 0
    }
}

} // verus!
