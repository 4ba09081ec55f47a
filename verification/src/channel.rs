use vstd::prelude::*;

use crate::errors::ErrorCode;
use crate::keys::Pubkey;
use crate::ledger;

verus! {

/// The persisted record of a two-party payment channel: the two parties'
/// keys, fixed at creation, and the currently recorded split of the escrowed
/// funds between them. After settlement both balances are zero and the record
/// remains as an inert tombstone.
#[derive(Clone, Copy, Debug, PartialEq, Eq, Structural)]
pub struct MultiSigWallet {
    pub user_1: Pubkey,
    pub user_2: Pubkey,
    pub user_1_balance: u64,
    pub user_2_balance: u64,
}

/// The total value the channel currently records for its two parties.
pub open spec fn wallet_total(w: MultiSigWallet) -> int {
    w.user_1_balance + w.user_2_balance
}

/// Whether `k` is one of the channel's two registered parties — the
/// authorization test every balance-affecting operation applies to each of
/// its required signers.
pub open spec fn is_party(w: MultiSigWallet, k: Pubkey) -> bool {
    k == w.user_1 || k == w.user_2
}

/// What opening a channel does, as a function of the declared parties and
/// contributions and of the three accounts' funds at call time: either the
/// fresh record together with the three funds after both deposits moved into
/// escrow (party 1's funds, party 2's funds, owner's funds, in that order),
/// or the error and no change.
pub open spec fn create_multisig_wallet_result(
    user_1: Pubkey,
    user_2: Pubkey,
    user_1_contribution: u64,
    user_2_contribution: u64,
    user_1_lamports: u64,
    user_2_lamports: u64,
    owner_lamports: u64,
) -> Result<(MultiSigWallet, u64, u64, u64), ErrorCode> {
    if user_1_contribution > user_1_lamports || user_2_contribution > user_2_lamports {
        Err(ErrorCode::NotEnoughLamports)
    } else {
        Ok(
            (
                MultiSigWallet {
                    user_1,
                    user_2,
                    user_1_balance: user_1_contribution,
                    user_2_balance: user_2_contribution,
                },
                (user_1_lamports - user_1_contribution) as u64,
                (user_2_lamports - user_2_contribution) as u64,
                (owner_lamports + user_1_contribution + user_2_contribution) as u64,
            ),
        )
    }
}

/// What a reallocation does to the record: either the record with the new
/// split (parties unchanged), or the error and no change. Conservation is
/// checked first, then each signer's authorization.
pub open spec fn update_balance_result(
    w: MultiSigWallet,
    signer_1: Pubkey,
    signer_2: Pubkey,
    new_user_1_balance: u64,
    new_user_2_balance: u64,
) -> Result<MultiSigWallet, ErrorCode> {
    if new_user_1_balance + new_user_2_balance != wallet_total(w) {
        Err(ErrorCode::InvalidBalances)
    } else if !is_party(w, signer_1) || !is_party(w, signer_2) {
        Err(ErrorCode::InvalidSigner)
    } else {
        Ok(
            MultiSigWallet {
                user_1_balance: new_user_1_balance,
                user_2_balance: new_user_2_balance,
                ..w
            },
        )
    }
}

/// What settlement does, as a function of the record, the triggering signer
/// and the three accounts' funds at call time: either the zeroed record
/// together with the funds after both payouts (owner's funds, party 1's
/// funds, party 2's funds, in that order), or the error and no change. The
/// two payouts and the zeroing commit as one atomic unit: if the owner's
/// escrow cannot cover both recorded balances, nothing moves and the record
/// keeps its pre-close balances.
pub open spec fn close_channel_result(
    w: MultiSigWallet,
    signer: Pubkey,
    owner_lamports: u64,
    user_1_lamports: u64,
    user_2_lamports: u64,
) -> Result<(MultiSigWallet, u64, u64, u64), ErrorCode> {
    if !is_party(w, signer) {
        Err(ErrorCode::InvalidSigner)
    } else if wallet_total(w) > owner_lamports {
        Err(ErrorCode::NotEnoughLamports)
    } else {
        Ok(
            (
                MultiSigWallet { user_1_balance: 0, user_2_balance: 0, ..w },
                (owner_lamports - wallet_total(w)) as u64,
                (user_1_lamports + w.user_1_balance) as u64,
                (user_2_lamports + w.user_2_balance) as u64,
            ),
        )
    }
}

/// Opens a channel: validates each party's declared contribution against that
/// party's funds at call time, records the parties and their contributions in
/// a fresh `MultiSigWallet`, and moves both contributions into the owner's
/// escrow. If either check fails, nothing is created and no funds move. The
/// record write and the two deposits commit as one atomic unit.
///
/// The bound in `requires` is a machine limit: a real ledger's total supply
/// keeps the owner's account below `u64::MAX` after both deposits.
pub fn create_multisig_wallet(
    user_1: Pubkey,
    user_2: Pubkey,
    user_1_contribution: u64,
    user_2_contribution: u64,
    user_1_lamports: &mut u64,
    user_2_lamports: &mut u64,
    owner_lamports: &mut u64,
) -> (r: Result<MultiSigWallet, ErrorCode>)
    requires
        *old(owner_lamports) + user_1_contribution + user_2_contribution <= u64::MAX,
    ensures
        match create_multisig_wallet_result(
            user_1,
            user_2,
            user_1_contribution,
            user_2_contribution,
            *old(user_1_lamports),
            *old(user_2_lamports),
            *old(owner_lamports),
        ) {
            Ok(t) => r == Ok::<MultiSigWallet, ErrorCode>(t.0)
                && *final(user_1_lamports) == t.1
                && *final(user_2_lamports) == t.2
                && *final(owner_lamports) == t.3,
            Err(e) => r == Err::<MultiSigWallet, ErrorCode>(e)
                && *final(user_1_lamports) == *old(user_1_lamports)
                && *final(user_2_lamports) == *old(user_2_lamports)
                && *final(owner_lamports) == *old(owner_lamports),
        },
{
    if user_1_contribution > *user_1_lamports {
        return Err(ErrorCode::NotEnoughLamports);
    }
    if user_2_contribution > *user_2_lamports {
        return Err(ErrorCode::NotEnoughLamports);
    }
    let multisig_wallet = MultiSigWallet {
        user_1,
        user_2,
        user_1_balance: user_1_contribution,
        user_2_balance: user_2_contribution,
    };
    match ledger::transfer(user_1_lamports, owner_lamports, user_1_contribution) {
        Ok(()) => (),
        Err(e) => {
            return Err(e);
        },
    }
    match ledger::transfer(user_2_lamports, owner_lamports, user_2_contribution) {
        Ok(()) => (),
        Err(e) => {
            return Err(e);
        },
    }
    Ok(multisig_wallet)
}

/// Replaces the recorded split of the channel's funds with
/// `new_user_1_balance` / `new_user_2_balance`, provided the new split
/// conserves the recorded total and both co-signers are registered parties of
/// the channel. No funds move at the ledger level; settlement happens only at
/// close. On any failure the record is unchanged.
pub fn update_balance(
    multisig_wallet: &mut MultiSigWallet,
    signer_1: &Pubkey,
    signer_2: &Pubkey,
    new_user_1_balance: u64,
    new_user_2_balance: u64,
) -> (r: Result<(), ErrorCode>)
    ensures
        match update_balance_result(
            *old(multisig_wallet),
            *signer_1,
            *signer_2,
            new_user_1_balance,
            new_user_2_balance,
        ) {
            Ok(w) => r == Ok::<(), ErrorCode>(()) && *final(multisig_wallet) == w,
            Err(e) => r == Err::<(), ErrorCode>(e)
                && *final(multisig_wallet) == *old(multisig_wallet),
        },
{
    let previous_balance = multisig_wallet.user_1_balance as u128
        + multisig_wallet.user_2_balance as u128;
    if previous_balance != new_user_1_balance as u128 + new_user_2_balance as u128 {
        return Err(ErrorCode::InvalidBalances);
    }
    if *signer_1 != multisig_wallet.user_1 && *signer_1 != multisig_wallet.user_2 {
        return Err(ErrorCode::InvalidSigner);
    }
    if *signer_2 != multisig_wallet.user_1 && *signer_2 != multisig_wallet.user_2 {
        return Err(ErrorCode::InvalidSigner);
    }
    multisig_wallet.user_1_balance = new_user_1_balance;
    multisig_wallet.user_2_balance = new_user_2_balance;
    Ok(())
}

/// Settles the channel: pays the recorded balances back to the two parties
/// from the owner's escrow and zeroes the record, provided the triggering
/// signer is a registered party. If the owner's escrow cannot cover both
/// payouts, nothing moves and the record keeps its balances, so the close can
/// be retried. A second close of an already-settled channel succeeds and
/// moves nothing.
///
/// The bounds in `requires` are machine limits: a real ledger's total supply
/// keeps each party's account below `u64::MAX` after its payout.
pub fn close_channel(
    multisig_wallet: &mut MultiSigWallet,
    signer: &Pubkey,
    owner_lamports: &mut u64,
    user_1_lamports: &mut u64,
    user_2_lamports: &mut u64,
) -> (r: Result<(), ErrorCode>)
    requires
        *old(user_1_lamports) + old(multisig_wallet).user_1_balance <= u64::MAX,
        *old(user_2_lamports) + old(multisig_wallet).user_2_balance <= u64::MAX,
    ensures
        match close_channel_result(
            *old(multisig_wallet),
            *signer,
            *old(owner_lamports),
            *old(user_1_lamports),
            *old(user_2_lamports),
        ) {
            Ok(t) => r == Ok::<(), ErrorCode>(())
                && *final(multisig_wallet) == t.0
                && *final(owner_lamports) == t.1
                && *final(user_1_lamports) == t.2
                && *final(user_2_lamports) == t.3,
            Err(e) => r == Err::<(), ErrorCode>(e)
                && *final(multisig_wallet) == *old(multisig_wallet)
                && *final(owner_lamports) == *old(owner_lamports)
                && *final(user_1_lamports) == *old(user_1_lamports)
                && *final(user_2_lamports) == *old(user_2_lamports),
        },
{
    if *signer != multisig_wallet.user_1 && *signer != multisig_wallet.user_2 {
        return Err(ErrorCode::InvalidSigner);
    }
    let user_1_balance = multisig_wallet.user_1_balance;
    let user_2_balance = multisig_wallet.user_2_balance;
    if user_1_balance as u128 + user_2_balance as u128 > *owner_lamports as u128 {
        return Err(ErrorCode::NotEnoughLamports);
    }
    match ledger::transfer(owner_lamports, user_1_lamports, user_1_balance) {
        Ok(()) => (),
        Err(e) => {
            return Err(e);
        },
    }
    match ledger::transfer(owner_lamports, user_2_lamports, user_2_balance) {
        Ok(()) => (),
        Err(e) => {
            return Err(e);
        },
    }
    multisig_wallet.user_1_balance = 0;
    multisig_wallet.user_2_balance = 0;
    Ok(())
}

} // verus!
