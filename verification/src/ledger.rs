use vstd::prelude::*;

use crate::errors::ErrorCode;

verus! {

/// The single primitive the surrounding Ledger offers: move `amount` from one
/// account's funds to another's, failing (and changing nothing) when the
/// source cannot cover the amount. Here the two accounts are the in-memory
/// lamport balances the caller holds; the surrounding runtime mirrors every
/// transfer this library decides on.
///
/// The bound in `requires` is a machine limit: a real ledger's total supply
/// keeps any account below `u64::MAX`.
pub fn transfer(from: &mut u64, to: &mut u64, amount: u64) -> (r: Result<(), ErrorCode>)
    requires
        *old(to) + amount <= u64::MAX,
    ensures
        match r {
            Ok(()) => amount <= *old(from) && *final(from) == *old(from) - amount && *final(to)
                == *old(to) + amount,
            Err(e) => e == ErrorCode::NotEnoughLamports && amount > *old(from) && *final(from)
                == *old(from) && *final(to) == *old(to),
        },
{
    if amount > *from {
        return Err(ErrorCode::NotEnoughLamports);
    }
    *from = *from - amount;
    *to = *to + amount;
    Ok(())
}

} // verus!
