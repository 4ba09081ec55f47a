use vstd::prelude::*;

verus! {

/// A party's 32-byte public key, held as two 128-bit halves (most significant
/// half first). The channel logic only ever compares keys for equality; the
/// cryptography behind them belongs to the surrounding runtime, not to this
/// library.
#[derive(Clone, Copy, Debug, PartialEq, Eq, Structural)]
pub struct Pubkey {
    pub hi: u128,
    pub lo: u128,
}

impl Pubkey {
    /// Builds a key from its two 128-bit halves.
    pub fn new(hi: u128, lo: u128) -> (r: Pubkey)
        ensures
            r == (Pubkey { hi, lo }),
    {
        Pubkey { hi, lo }
    }
}

} // verus!
