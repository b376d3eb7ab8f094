//! What the operations read of the accounts they are handed: who owns an
//! account and what it holds. The operations compute on these values; the
//! caller carries the results back to the ledger.

use vstd::prelude::*;
use crate::errors::HorseFunError;
use crate::keys::{program_id, Pubkey};

verus! {

/// An account as the ledger presents it.
#[derive(Clone, Copy, Debug, PartialEq, Eq)]
pub struct AccountInfo {
    /// The account's own address.
    pub key: Pubkey,
    /// The program that may debit the account.
    pub owner: Pubkey,
    /// The lamports it holds.
    pub lamports: u64,
}

/// A token account: which asset it holds, and how much.
#[derive(Clone, Copy, Debug, PartialEq, Eq)]
pub struct TokenAccount {
    pub mint: Pubkey,
    pub amount: u64,
}

/// The two accounts after `lamports` moved from `from` to `to`, or why
/// they cannot move. The payer must be owned by this program, the amount
/// must not be 0, and the payer must hold it. The receiver's balance stops
/// at the largest 64-bit value.
pub open spec fn pda_transfer_outcome(from: AccountInfo, to: AccountInfo, lamports: u64) -> Result<
    (AccountInfo, AccountInfo),
    HorseFunError,
> {
    if from.owner != program_id() {
        Err(HorseFunError::NotAuthorized)
    } else if lamports == 0 {
        Err(HorseFunError::InsufficientDonationAmount)
    } else if from.lamports < lamports {
        Err(HorseFunError::InsufficientTreasuryFunds)
    } else {
        Ok(
            (
                AccountInfo { lamports: (from.lamports - lamports) as u64, ..from },
                AccountInfo {
                    lamports: if to.lamports + lamports > u64::MAX {
                        u64::MAX
                    } else {
                        (to.lamports + lamports) as u64
                    },
                    ..to
                },
            ),
        )
    }
}

/// Moves `lamports` out of an account of this program into another
/// account. Refused, with both accounts untouched, where the payer does not
/// belong to this program, the amount is 0, or the payer holds less.
pub fn pda_transfer_lamports(from: &mut AccountInfo, to: &mut AccountInfo, lamports: u64) -> (done:
    Result<(), HorseFunError>)
    ensures
        match done {
            Ok(()) => pda_transfer_outcome(*old(from), *old(to), lamports) == Ok::<
                (AccountInfo, AccountInfo),
                HorseFunError,
            >((*final(from), *final(to))),
            Err(e) => {
                &&& pda_transfer_outcome(*old(from), *old(to), lamports) == Err::<
                    (AccountInfo, AccountInfo),
                    HorseFunError,
                >(e)
                &&& *final(from) == *old(from)
                &&& *final(to) == *old(to)
            },
        },
        done is Ok ==> final(from).lamports + lamports == old(from).lamports,
{
    if from.owner != program_id() {
        return Err(HorseFunError::NotAuthorized);
    }
    if lamports == 0 {
        return Err(HorseFunError::InsufficientDonationAmount);
    }
    if from.lamports < lamports {
        return Err(HorseFunError::InsufficientTreasuryFunds);
    }
    from.lamports = from.lamports - lamports;
    to.lamports = to.lamports.saturating_add(lamports);
    Ok(())
}

} // verus!
