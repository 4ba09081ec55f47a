use solana_pay_channel_multisig::create_payment_user;
use solana_pay_channel_multisig::transfer;
use solana_pay_channel_multisig::ErrorCode;
use solana_pay_channel_multisig::Pubkey;

#[test]
fn create_payment_user_binds_name_to_key() {
    let key = Pubkey::new(5, 6);
    let user = create_payment_user(key, String::from("alice"));
    assert_eq!(user.key, key);
    assert_eq!(user.user_name, "alice");
}

#[test]
fn transfer_moves_amount_between_accounts() {
    let mut from: u64 = 10;
    let mut to: u64 = 1;
    assert_eq!(transfer(&mut from, &mut to, 7), Ok(()));
    assert_eq!(from, 3);
    assert_eq!(to, 8);
}

#[test]
fn transfer_rejects_overdraft_and_changes_nothing() {
    let mut from: u64 = 10;
    let mut to: u64 = 1;
    assert_eq!(transfer(&mut from, &mut to, 11), Err(ErrorCode::NotEnoughLamports));
    assert_eq!(from, 10);
    assert_eq!(to, 1);
}

#[test]
fn error_messages() {
    assert_eq!(ErrorCode::NotEnoughLamports.message(), "Not enough lamports in wallet");
    assert_eq!(
        ErrorCode::InvalidBalances.message(),
        "previous contribution sum doesnot match with new contribution sum"
    );
    assert_eq!(ErrorCode::InvalidSigner.message(), "Not a valid signer");
}
