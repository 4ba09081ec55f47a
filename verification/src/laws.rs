use vstd::prelude::*;

use crate::channel::close_channel_result;
use crate::channel::create_multisig_wallet_result;
use crate::channel::is_party;
use crate::channel::update_balance_result;
use crate::channel::wallet_total;
use crate::channel::MultiSigWallet;
use crate::errors::ErrorCode;
use crate::keys::Pubkey;

verus! {

/// Conservation: a successful reallocation never changes the channel's total
/// recorded balance — the new split sums to exactly the old one — and any
/// proposed split that would change the total is rejected with
/// `InvalidBalances` (the record itself is left untouched on failure, as
/// `update_balance` ensures).
pub proof fn lemma_reallocate_conserves(
    w: MultiSigWallet,
    signer_1: Pubkey,
    signer_2: Pubkey,
    new_user_1_balance: u64,
    new_user_2_balance: u64,
)
    ensures
        match update_balance_result(w, signer_1, signer_2, new_user_1_balance, new_user_2_balance) {
            Ok(w2) => wallet_total(w2) == wallet_total(w),
            Err(e) => new_user_1_balance + new_user_2_balance != wallet_total(w) ==> e
                == ErrorCode::InvalidBalances,
        },
        new_user_1_balance + new_user_2_balance != wallet_total(w) <==> update_balance_result(
            w,
            signer_1,
            signer_2,
            new_user_1_balance,
            new_user_2_balance,
        ) == Err::<MultiSigWallet, ErrorCode>(ErrorCode::InvalidBalances),
{
}

/// Authorization gating: a reallocation whose proposed split conserves the
/// total but whose co-signers are not both registered parties is rejected
/// with `UnauthorizedSigner` (`InvalidSigner`), and a close triggered by a
/// non-party is rejected the same way; the executable operations ensure the
/// record and all funds are bit-for-bit unchanged on such a failure.
pub proof fn lemma_unauthorized_rejected(
    w: MultiSigWallet,
    signer_1: Pubkey,
    signer_2: Pubkey,
    new_user_1_balance: u64,
    new_user_2_balance: u64,
    owner_lamports: u64,
    user_1_lamports: u64,
    user_2_lamports: u64,
)
    requires
        new_user_1_balance + new_user_2_balance == wallet_total(w),
    ensures
        !is_party(w, signer_1) || !is_party(w, signer_2) <==> update_balance_result(
            w,
            signer_1,
            signer_2,
            new_user_1_balance,
            new_user_2_balance,
        ) == Err::<MultiSigWallet, ErrorCode>(ErrorCode::InvalidSigner),
        !is_party(w, signer_1) ==> close_channel_result(
            w,
            signer_1,
            owner_lamports,
            user_1_lamports,
            user_2_lamports,
        ) == Err::<(MultiSigWallet, u64, u64, u64), ErrorCode>(ErrorCode::InvalidSigner),
{
}

/// Funding precondition: opening a channel fails with `InsufficientFunds`
/// (`NotEnoughLamports`) exactly when either declared contribution exceeds
/// that party's funds at call time — in which case no record is created and
/// no funds move, as `create_multisig_wallet` ensures. When both checks pass,
/// the fresh record holds exactly the two contributions, the escrow gains
/// exactly what the parties paid in, and no value appears or vanishes.
pub proof fn lemma_open_requires_funding(
    user_1: Pubkey,
    user_2: Pubkey,
    user_1_contribution: u64,
    user_2_contribution: u64,
    user_1_lamports: u64,
    user_2_lamports: u64,
    owner_lamports: u64,
)
    requires
        owner_lamports + user_1_contribution + user_2_contribution <= u64::MAX,
    ensures
        user_1_contribution > user_1_lamports || user_2_contribution > user_2_lamports
            <==> create_multisig_wallet_result(
            user_1,
            user_2,
            user_1_contribution,
            user_2_contribution,
            user_1_lamports,
            user_2_lamports,
            owner_lamports,
        ) == Err::<(MultiSigWallet, u64, u64, u64), ErrorCode>(ErrorCode::NotEnoughLamports),
        match create_multisig_wallet_result(
            user_1,
            user_2,
            user_1_contribution,
            user_2_contribution,
            user_1_lamports,
            user_2_lamports,
            owner_lamports,
        ) {
            Ok(t) => wallet_total(t.0) == user_1_contribution + user_2_contribution && t.0.user_1
                == user_1 && t.0.user_2 == user_2 && t.1 + t.2 + t.3 == user_1_lamports
                + user_2_lamports + owner_lamports && t.3 == owner_lamports + wallet_total(t.0),
            Err(_) => true,
        },
{
}

/// Settlement correctness: a successful close zeroes both recorded balances,
/// leaves the registered parties untouched, increases each party's externally
/// observable funds by exactly its pre-close recorded balance, and draws
/// exactly the recorded total from the owner's escrow, so no value appears or
/// vanishes.
pub proof fn lemma_close_settles(
    w: MultiSigWallet,
    signer: Pubkey,
    owner_lamports: u64,
    user_1_lamports: u64,
    user_2_lamports: u64,
)
    requires
        user_1_lamports + w.user_1_balance <= u64::MAX,
        user_2_lamports + w.user_2_balance <= u64::MAX,
    ensures
        match close_channel_result(w, signer, owner_lamports, user_1_lamports, user_2_lamports) {
            Ok(t) => t.0.user_1_balance == 0 && t.0.user_2_balance == 0 && t.0.user_1 == w.user_1
                && t.0.user_2 == w.user_2 && t.2 == user_1_lamports + w.user_1_balance && t.3
                == user_2_lamports + w.user_2_balance && t.1 == owner_lamports - wallet_total(w)
                && t.1 + t.2 + t.3 == owner_lamports + user_1_lamports + user_2_lamports,
            Err(_) => true,
        },
{
}

/// Idempotent zero-close: closing an already-settled channel (both recorded
/// balances zero) by any registered party succeeds again, moves no funds at
/// all, and leaves the tombstone record exactly as it was.
pub proof fn lemma_closed_channel_close_is_noop(
    w: MultiSigWallet,
    signer: Pubkey,
    owner_lamports: u64,
    user_1_lamports: u64,
    user_2_lamports: u64,
)
    requires
        w.user_1_balance == 0,
        w.user_2_balance == 0,
        is_party(w, signer),
    ensures
        close_channel_result(w, signer, owner_lamports, user_1_lamports, user_2_lamports) == Ok::<
            (MultiSigWallet, u64, u64, u64),
            ErrorCode,
        >((w, owner_lamports, user_1_lamports, user_2_lamports)),
{
}

} // verus!
