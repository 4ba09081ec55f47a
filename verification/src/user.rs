use vstd::prelude::*;

use crate::keys::Pubkey;

verus! {

/// A registered identity: a human-readable name bound to the registering
/// party's public key. Auxiliary to the channel logic; the name is cosmetic
/// metadata with no uniqueness constraint.
#[derive(Clone, Debug)]
pub struct PaymentUser {
    pub user_name: String,
    pub key: Pubkey,
}

/// Registers an identity: binds `user_name` to the requesting party's key.
/// Always succeeds for a fresh identity record.
pub fn create_payment_user(user: Pubkey, user_name: String) -> (r: PaymentUser)
    ensures
        r.key == user,
        r.user_name@ == user_name@,
{
    PaymentUser { user_name, key: user }
}

} // verus!
