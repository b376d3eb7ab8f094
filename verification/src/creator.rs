//! What a curve owes its creator, and what the administrator takes from a
//! finished curve.

use vstd::prelude::*;
use crate::accounts::{pda_transfer_lamports, pda_transfer_outcome, AccountInfo, TokenAccount};
use crate::curve::BondingCurve;
use crate::errors::HorseFunError;
use crate::events::CreatorFeeClaimedEvent;
use crate::global::Global;
use crate::identity::{creator_authorized, is_creator_authorized, IdentityProof};
use crate::keys::{withdraw_authority, Pubkey};

verus! {

/// The accounts of a claim of creator fees.
#[derive(Debug, PartialEq, Eq)]
pub struct ClaimCreatorFees {
    pub mint: Pubkey,
    pub bonding_curve: BondingCurve,
    /// The curve's own account, which pays.
    pub bonding_curve_info: AccountInfo,
    /// The claimant, who is paid.
    pub user: AccountInfo,
    pub streamer_identity: IdentityProof,
}

/// The accounts of the withdrawal from a finished curve.
#[derive(Debug, PartialEq, Eq)]
pub struct Withdraw {
    pub global: Global,
    pub mint: Pubkey,
    pub bonding_curve: BondingCurve,
    /// The curve's own account, which pays.
    pub bonding_curve_info: AccountInfo,
    /// The curve's token account.
    pub associated_bonding_curve: TokenAccount,
    pub associated_user: TokenAccount,
    /// The caller, who is paid; it must be the withdraw authority.
    pub user: AccountInfo,
}

/// What a withdrawal settled on.
#[derive(Clone, Copy, Debug, PartialEq, Eq, Structural)]
pub struct WithdrawReceipt {
    /// Tokens that the curve's token account owes the caller: all it holds.
    pub token_amount: u64,
    /// Lamports that moved from the curve's account to the caller.
    pub sol_amount: u64,
}

impl ClaimCreatorFees {
    /// Whether the claimant may collect the creator's fees.
    pub open spec fn authorized(&self) -> bool {
        creator_authorized(self.user.key, self.bonding_curve, self.streamer_identity)
    }

    /// Why the claim is refused, if it is. In order: the pool is empty;
    /// the claimant is not authorized; the curve's account cannot pay.
    pub open spec fn refusal(self) -> Option<HorseFunError> {
        if self.bonding_curve.creator_fee_pool == 0 {
            Some(HorseFunError::NoFeesToClaim)
        } else if !self.authorized() {
            Some(HorseFunError::UnauthorizedCreator)
        } else {
            match pda_transfer_outcome(
                self.bonding_curve_info,
                self.user,
                self.bonding_curve.creator_fee_pool,
            ) {
                Err(e) => Some(e),
                Ok(_) => None,
            }
        }
    }

    /// The accounts after a claim that is not refused: the whole pool
    /// moved from the curve's account to the claimant, and the pool is
    /// empty.
    pub open spec fn claimed(self) -> ClaimCreatorFees
        recommends
            self.refusal() is None,
    {
        let moved = pda_transfer_outcome(
            self.bonding_curve_info,
            self.user,
            self.bonding_curve.creator_fee_pool,
        )->Ok_0;
        ClaimCreatorFees {
            bonding_curve: BondingCurve { creator_fee_pool: 0, ..self.bonding_curve },
            bonding_curve_info: moved.0,
            user: moved.1,
            ..self
        }
    }

    /// Checks that the claimant may collect the creator's fees.
    pub fn validate(&self) -> (done: Result<(), HorseFunError>)
        ensures
            done == if self.authorized() {
                Ok::<(), HorseFunError>(())
            } else {
                Err::<(), HorseFunError>(HorseFunError::UnauthorizedCreator)
            },
    {
        if is_creator_authorized(&self.user.key, &self.bonding_curve, &self.streamer_identity) {
            Ok(())
        } else {
            Err(HorseFunError::UnauthorizedCreator)
        }
    }
}

/// Pays the creator the whole creator fee pool and empties it. A refused
/// claim changes nothing.
pub fn claim_creator_fees(ctx: &mut ClaimCreatorFees, timestamp: i64) -> (done: Result<
    CreatorFeeClaimedEvent,
    HorseFunError,
>)
    ensures
        match done {
            Ok(event) => {
                &&& old(ctx).refusal() is None
                &&& *final(ctx) == old(ctx).claimed()
                &&& event == (CreatorFeeClaimedEvent {
                    mint: old(ctx).mint,
                    claimer: old(ctx).user.key,
                    amount: old(ctx).bonding_curve.creator_fee_pool,
                    total_fees_accrued: old(ctx).bonding_curve.total_fees_accrued,
                    timestamp,
                })
            },
            Err(e) => old(ctx).refusal() == Some(e) && *final(ctx) == *old(ctx),
        },
        final(ctx).bonding_curve.early_bird_share_per_seat == old(ctx).bonding_curve.early_bird_share_per_seat,
        old(ctx).bonding_curve.wf() ==> final(ctx).bonding_curve.wf(),
{
    let fees = ctx.bonding_curve.creator_fee_pool;
    if fees == 0 {
        return Err(HorseFunError::NoFeesToClaim);
    }
    match ctx.validate() {
        Err(e) => {
            return Err(e);
        },
        Ok(()) => {},
    }
    match pda_transfer_lamports(&mut ctx.bonding_curve_info, &mut ctx.user, fees) {
        Err(e) => {
            return Err(e);
        },
        Ok(()) => {},
    }
    ctx.bonding_curve.creator_fee_pool = 0;
    Ok(
        CreatorFeeClaimedEvent {
            mint: ctx.mint,
            claimer: ctx.user.key,
            amount: fees,
            total_fees_accrued: ctx.bonding_curve.total_fees_accrued,
            timestamp,
        },
    )
}

impl Withdraw {
    /// Why the withdrawal is refused, if it is. In order: the curve is
    /// not complete; the caller is not the withdraw authority; the creator
    /// fee pool exceeds the real lamport reserve; the curve's account
    /// cannot pay the difference.
    pub open spec fn refusal(self) -> Option<HorseFunError> {
        if !self.bonding_curve.complete {
            Some(HorseFunError::BondingCurveNotComplete)
        } else if self.user.key != withdraw_authority() {
            Some(HorseFunError::NotAuthorized)
        } else if self.bonding_curve.real_sol_reserves < self.bonding_curve.creator_fee_pool {
            Some(HorseFunError::ArithmeticOverflow)
        } else {
            match pda_transfer_outcome(
                self.bonding_curve_info,
                self.user,
                (self.bonding_curve.real_sol_reserves - self.bonding_curve.creator_fee_pool) as u64,
            ) {
                Err(e) => Some(e),
                Ok(_) => None,
            }
        }
    }

    /// The accounts after a withdrawal that is not refused: the real
    /// lamport reserve less the creator fee pool moved to the caller, the
    /// reserve keeps what the creator is owed, and the other reserves are
    /// empty.
    pub open spec fn withdrawn(self) -> Withdraw
        recommends
            self.refusal() is None,
    {
        let moved = pda_transfer_outcome(
            self.bonding_curve_info,
            self.user,
            (self.bonding_curve.real_sol_reserves - self.bonding_curve.creator_fee_pool) as u64,
        )->Ok_0;
        Withdraw {
            bonding_curve: BondingCurve {
                real_sol_reserves: self.bonding_curve.creator_fee_pool,
                virtual_sol_reserves: 0,
                real_token_reserves: 0,
                virtual_token_reserves: 0,
                ..self.bonding_curve
            },
            bonding_curve_info: moved.0,
            user: moved.1,
            ..self
        }
    }
}

/// Pays the administrator `sol_amount` lamports from the curve's account.
/// Refused, with nothing changed, where the curve's account cannot pay.
pub fn transfer_sol_from_bonding_curve_to_admin(ctx: &mut Withdraw, sol_amount: u64) -> (done:
    Result<(), HorseFunError>)
    ensures
        match done {
            Ok(()) => {
                &&& pda_transfer_outcome(old(ctx).bonding_curve_info, old(ctx).user, sol_amount)
                    == Ok::<(AccountInfo, AccountInfo), HorseFunError>(
                    (final(ctx).bonding_curve_info, final(ctx).user),
                )
                &&& *final(ctx) == (Withdraw {
                    bonding_curve_info: final(ctx).bonding_curve_info,
                    user: final(ctx).user,
                    ..*old(ctx)
                })
            },
            Err(e) => {
                &&& pda_transfer_outcome(old(ctx).bonding_curve_info, old(ctx).user, sol_amount)
                    == Err::<(AccountInfo, AccountInfo), HorseFunError>(e)
                &&& *final(ctx) == *old(ctx)
            },
        },
{
    pda_transfer_lamports(&mut ctx.bonding_curve_info, &mut ctx.user, sol_amount)
}

/// Sweeps a finished curve: the tokens left in its token account and its
/// lamport reserve, less what the creator is owed, go to the withdraw
/// authority. A refused withdrawal changes nothing.
pub fn withdraw(ctx: &mut Withdraw) -> (done: Result<WithdrawReceipt, HorseFunError>)
    ensures
        match done {
            Ok(receipt) => {
                &&& old(ctx).refusal() is None
                &&& *final(ctx) == old(ctx).withdrawn()
                &&& receipt.token_amount == old(ctx).associated_bonding_curve.amount
                &&& receipt.sol_amount == old(ctx).bonding_curve.real_sol_reserves - old(ctx).bonding_curve.creator_fee_pool
            },
            Err(e) => old(ctx).refusal() == Some(e) && *final(ctx) == *old(ctx),
        },
        final(ctx).bonding_curve.creator_fee_pool == old(ctx).bonding_curve.creator_fee_pool,
        final(ctx).bonding_curve.early_bird_share_per_seat == old(ctx).bonding_curve.early_bird_share_per_seat,
        old(ctx).bonding_curve.wf() ==> final(ctx).bonding_curve.wf(),
{
    if !ctx.bonding_curve.complete {
        return Err(HorseFunError::BondingCurveNotComplete);
    }
    if ctx.user.key != withdraw_authority() {
        return Err(HorseFunError::NotAuthorized);
    }
    let creator_fees = ctx.bonding_curve.creator_fee_pool;
    if ctx.bonding_curve.real_sol_reserves < creator_fees {
        return Err(HorseFunError::ArithmeticOverflow);
    }
    let sol_amount = ctx.bonding_curve.real_sol_reserves - creator_fees;
    match transfer_sol_from_bonding_curve_to_admin(ctx, sol_amount) {
        Err(e) => {
            return Err(e);
        },
        Ok(()) => {},
    }
    ctx.bonding_curve.real_sol_reserves = creator_fees;
    ctx.bonding_curve.virtual_sol_reserves = 0;
    ctx.bonding_curve.real_token_reserves = 0;
    ctx.bonding_curve.virtual_token_reserves = 0;
    Ok(WithdrawReceipt { token_amount: ctx.associated_bonding_curve.amount, sol_amount })
}

} // verus!
