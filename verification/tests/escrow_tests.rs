use coinflip::account::{keys_differ, total_fits, Account};
use coinflip::error::CoinFlipError;
use coinflip::escrow::{lock, pay};
use coinflip::pubkey::{bytes32_eq, Pubkey};

fn wallet(fill: u8, lamports: u64) -> Account {
    Account::new(
        Pubkey::new_from_array([fill; 32]),
        Pubkey::new_from_array([0; 32]),
        lamports,
        vec![fill, 1, 2],
        true,
    )
}

#[test]
fn lock_moves_the_amount() {
    let mut payer = wallet(1, 1500);
    let mut escrow = wallet(2, 10);
    assert_eq!(lock(&mut payer, &mut escrow, 1000), Ok(()));
    assert_eq!(payer, wallet(1, 500));
    assert_eq!(escrow, wallet(2, 1010));
}

#[test]
fn lock_of_all_the_payer_holds() {
    let mut payer = wallet(1, 1000);
    let mut escrow = wallet(2, 0);
    assert_eq!(lock(&mut payer, &mut escrow, 1000), Ok(()));
    assert_eq!(payer.lamports, 0);
    assert_eq!(escrow.lamports, 1000);
}

#[test]
fn lock_fails_before_any_change() {
    let mut payer = wallet(1, 999);
    let mut escrow = wallet(2, 10);
    assert_eq!(lock(&mut payer, &mut escrow, 1000), Err(CoinFlipError::InsufficientFunds));
    assert_eq!(payer, wallet(1, 999));
    assert_eq!(escrow, wallet(2, 10));
}

#[test]
fn lock_of_nothing_changes_nothing() {
    let mut payer = wallet(1, 0);
    let mut escrow = wallet(2, 10);
    assert_eq!(lock(&mut payer, &mut escrow, 0), Ok(()));
    assert_eq!(payer, wallet(1, 0));
    assert_eq!(escrow, wallet(2, 10));
}

#[test]
fn pay_moves_the_amount() {
    let mut escrow = wallet(2, 2000);
    let mut recipient = wallet(3, 5);
    pay(&mut escrow, &mut recipient, 2000);
    assert_eq!(escrow, wallet(2, 0));
    assert_eq!(recipient, wallet(3, 2005));
}

#[test]
fn lock_and_pay_keep_the_sum() {
    let mut a = wallet(1, u64::MAX - 7);
    let mut b = wallet(2, 7);
    assert_eq!(lock(&mut a, &mut b, u64::MAX - 7), Ok(()));
    assert_eq!((a.lamports, b.lamports), (0, u64::MAX));
    pay(&mut b, &mut a, 12);
    assert_eq!((a.lamports, b.lamports), (12, u64::MAX - 12));
}

#[test]
fn total_fits_the_unit_or_not() {
    assert!(total_fits(&vec![]));
    assert!(total_fits(&vec![wallet(1, u64::MAX)]));
    assert!(total_fits(&vec![wallet(1, u64::MAX - 5), wallet(2, 2), wallet(3, 3)]));
    assert!(!total_fits(&vec![wallet(1, u64::MAX - 5), wallet(2, 3), wallet(3, 3)]));
    assert!(!total_fits(&vec![wallet(1, u64::MAX), wallet(2, u64::MAX)]));
    assert!(!total_fits(&vec![wallet(1, 1), wallet(2, u64::MAX), wallet(3, 0)]));
}

#[test]
fn duplicate_has_the_same_contents() {
    let account = wallet(4, 44);
    let copy = account.duplicate();
    assert_eq!(copy, account);
    assert_eq!(copy.data, vec![4, 1, 2]);
}

#[test]
fn keys_compare_by_their_bytes() {
    let mut bytes = [7u8; 32];
    let a = Pubkey::new_from_array(bytes);
    assert_eq!(a.to_bytes(), bytes);
    assert!(a == Pubkey::new_from_array([7; 32]));
    assert!(bytes32_eq(&bytes, &[7; 32]));
    bytes[31] = 8;
    assert!(a != Pubkey::new_from_array(bytes));
    assert!(!bytes32_eq(&bytes, &[7; 32]));
    bytes[31] = 7;
    bytes[0] = 6;
    assert!(a != Pubkey::new_from_array(bytes));
}

#[test]
fn keys_differ_or_not() {
    assert!(keys_differ(&vec![]));
    assert!(keys_differ(&vec![wallet(1, 0)]));
    assert!(keys_differ(&vec![wallet(1, 0), wallet(2, 0), wallet(3, 0)]));
    assert!(!keys_differ(&vec![wallet(1, 0), wallet(1, 5)]));
    assert!(!keys_differ(&vec![wallet(1, 0), wallet(2, 0), wallet(1, 0)]));
    assert!(!keys_differ(&vec![wallet(3, 0), wallet(2, 0), wallet(2, 0)]));
}
