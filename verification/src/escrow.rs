//! Moving value between two accounts of one ledger.
//!
//! Both operations leave the sum of the two balances as it was.

use crate::account::Account;
use crate::error::CoinFlipError;
use vstd::prelude::*;

verus! {

/// Moves `amount` from `payer` into `escrow`. Fails with `InsufficientFunds`,
/// and changes nothing, where `payer` holds less than `amount`. Where it holds
/// the amount, the two accounts are accounts of one ledger: their balances fit
/// its unit together.
pub fn lock(payer: &mut Account, escrow: &mut Account, amount: u64) -> (done: Result<
    (),
    CoinFlipError,
>)
    requires
        old(payer).lamports >= amount ==> old(payer).lamports + old(escrow).lamports <= u64::MAX,
    ensures
        old(payer).lamports < amount ==> done == Err::<(), CoinFlipError>(
            CoinFlipError::InsufficientFunds,
        ) && final(payer)@ == old(payer)@ && final(escrow)@ == old(escrow)@,
        old(payer).lamports >= amount ==> {
            &&& done == Ok::<(), CoinFlipError>(())
            &&& final(payer)@ == old(payer)@.with_lamports((old(payer).lamports - amount) as u64)
            &&& final(escrow)@ == old(escrow)@.with_lamports(
                (old(escrow).lamports + amount) as u64,
            )
        },
{
    if payer.lamports < amount {
        return Err(CoinFlipError::InsufficientFunds);
    }
    payer.lamports = payer.lamports - amount;
    escrow.lamports = escrow.lamports + amount;
    Ok(())
}

/// Moves `amount` out of `escrow` to `recipient`. The escrow holds the amount:
/// the stage of the game that authorizes the payment sees to it.
pub fn pay(escrow: &mut Account, recipient: &mut Account, amount: u64)
    requires
        old(escrow).lamports >= amount,
        old(escrow).lamports + old(recipient).lamports <= u64::MAX,
    ensures
        final(escrow)@ == old(escrow)@.with_lamports((old(escrow).lamports - amount) as u64),
        final(recipient)@ == old(recipient)@.with_lamports(
            (old(recipient).lamports + amount) as u64,
        ),
{
    escrow.lamports = escrow.lamports - amount;
    recipient.lamports = recipient.lamports + amount;
}

} // verus!
