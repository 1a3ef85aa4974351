//! Unsigned 256-bit quantities, the width of the contract's amounts and balances.
use vstd::prelude::*;

verus! {

/// A 256-bit unsigned integer as four 64-bit words, least significant first.
#[derive(Clone, Copy, Debug)]
pub struct Uint256 {
    pub words: [u64; 4],
}

impl View for Uint256 {
    type V = nat;

    open spec fn view(&self) -> nat {
        (self.words@[0] + self.words@[1] * 0x1_0000_0000_0000_0000 + self.words@[2]
            * 0x1_0000_0000_0000_0000_0000_0000_0000_0000 + self.words@[3]
            * 0x1_0000_0000_0000_0000_0000_0000_0000_0000_0000_0000_0000_0000) as nat
    }
}

impl Uint256 {
    /// Widens a 64-bit amount; the value is unchanged.
    pub fn from_u64(v: u64) -> (r: Uint256)
        ensures
            r@ == v as nat,
    {
        let r = Uint256 { words: [v, 0, 0, 0] };
        assert(r.words@ =~= seq![v, 0u64, 0u64, 0u64]);
        r
    }
}

} // verus!
