//! 256-bit unsigned amounts (wei, gas, nonces) as the foreign chain has them.

use vstd::prelude::*;

verus! {

/// 2^64.
pub open spec fn two_pow_64() -> nat {
    0x1_0000_0000_0000_0000
}

/// 2^256.
pub open spec fn two_pow_256() -> nat {
    two_pow_64() * two_pow_64() * two_pow_64() * two_pow_64()
}

/// A 256-bit unsigned integer as four 64-bit limbs, least significant
/// first (the layout of ethers-core's `U256`).
#[derive(Debug, Clone, Copy, PartialEq, Eq)]
pub struct Amount {
    pub limbs: [u64; 4],
}

impl View for Amount {
    type V = nat;

    /// The integer that the limbs spell.
    open spec fn view(&self) -> nat {
        self.limbs@[0] as nat + self.limbs@[1] as nat * two_pow_64() + self.limbs@[2] as nat
            * two_pow_64() * two_pow_64() + self.limbs@[3] as nat * two_pow_64() * two_pow_64()
            * two_pow_64()
    }
}

/// One limb of a sum: `a + b + carry` as a low limb and a carry.
fn add_limb(a: u64, b: u64, carry: u64) -> (r: (u64, u64))
    requires
        carry <= 1,
    ensures
        r.0 as nat + r.1 as nat * two_pow_64() == a as nat + b as nat + carry as nat,
        r.1 <= 1,
{
    let s: u128 = a as u128 + b as u128 + carry as u128;
    let low = (s % 0x1_0000_0000_0000_0000u128) as u64;
    let high = (s / 0x1_0000_0000_0000_0000u128) as u64;
    (low, high)
}

impl Amount {
    /// The amount `v`.
    pub fn from_u128(v: u128) -> (r: Amount)
        ensures
            r@ == v as nat,
    {
        let low = (v % 0x1_0000_0000_0000_0000u128) as u64;
        let high = (v / 0x1_0000_0000_0000_0000u128) as u64;
        let mut limbs = [0u64; 4];
        limbs[0] = low;
        limbs[1] = high;
        Amount { limbs }
    }

    /// The sum, where it is below 2^256.
    pub fn checked_add(&self, other: &Amount) -> (r: Option<Amount>)
        ensures
            self@ + other@ < two_pow_256() ==> (r matches Some(c) && c@ == self@ + other@),
            self@ + other@ >= two_pow_256() ==> r is None,
    {
        let (l0, c0) = add_limb(self.limbs[0], other.limbs[0], 0);
        let (l1, c1) = add_limb(self.limbs[1], other.limbs[1], c0);
        let (l2, c2) = add_limb(self.limbs[2], other.limbs[2], c1);
        let (l3, c3) = add_limb(self.limbs[3], other.limbs[3], c2);
        let mut limbs = [0u64; 4];
        limbs[0] = l0;
        limbs[1] = l1;
        limbs[2] = l2;
        limbs[3] = l3;
        let sum = Amount { limbs };
        assert(self@ + other@ == sum@ + c3 as nat * two_pow_256()) by (nonlinear_arith)
            requires
                l0 as nat + c0 as nat * two_pow_64() == self.limbs@[0] as nat + other.limbs@[0] as nat,
                l1 as nat + c1 as nat * two_pow_64() == self.limbs@[1] as nat + other.limbs@[1] as nat
                    + c0 as nat,
                l2 as nat + c2 as nat * two_pow_64() == self.limbs@[2] as nat + other.limbs@[2] as nat
                    + c1 as nat,
                l3 as nat + c3 as nat * two_pow_64() == self.limbs@[3] as nat + other.limbs@[3] as nat
                    + c2 as nat,
                sum.limbs@[0] == l0,
                sum.limbs@[1] == l1,
                sum.limbs@[2] == l2,
                sum.limbs@[3] == l3,
        ;
        if c3 != 0 {
            None
        } else {
            Some(sum)
        }
    }
}

} // verus!
