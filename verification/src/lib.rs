//! Two-party escrowed payment channel.
//!
//! Two parties deposit funds into a jointly controlled record held by an
//! intermediary (the owner); the parties may cooperatively reallocate the
//! recorded split any number of times without moving funds, and either party
//! alone may trigger settlement, which pays the recorded balances back out
//! and leaves the record as an inert tombstone.

mod channel;
mod errors;
mod keys;
mod laws;
mod ledger;
mod user;

pub use channel::close_channel;
pub use channel::close_channel_result;
pub use channel::create_multisig_wallet;
pub use channel::create_multisig_wallet_result;
pub use channel::is_party;
pub use channel::update_balance;
pub use channel::update_balance_result;
pub use channel::wallet_total;
pub use channel::MultiSigWallet;
pub use errors::ErrorCode;
pub use laws::lemma_close_settles;
pub use laws::lemma_closed_channel_close_is_noop;
pub use laws::lemma_open_requires_funding;
pub use laws::lemma_reallocate_conserves;
pub use laws::lemma_unauthorized_rejected;
pub use keys::Pubkey;
pub use ledger::transfer;
pub use user::create_payment_user;
pub use user::PaymentUser;
