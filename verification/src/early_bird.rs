//! The early-bird reward program: who earns a seat, who loses it, what a
//! seat is worth once the curve completes, and the one claim per seat.

use vstd::prelude::*;
use crate::accounts::{pda_transfer_lamports, pda_transfer_outcome, AccountInfo};
use crate::curve::BondingCurve;
use crate::errors::HorseFunError;
use crate::events::EarlyBirdClaimed;
use crate::global::Global;
use crate::holder::{HolderStats, REVOKED_POSITION};
use crate::keys::Pubkey;
use crate::math::sat_sub;

verus! {

/// The reward of one seat when `pool` lamports are shared by `seats`
/// seats: `floor(pool / seats)`, and 0 where there is no seat.
pub open spec fn share_per_seat(pool: int, seats: int) -> int {
    if seats == 0 {
        0
    } else {
        pool / seats
    }
}

/// The holder and the curve after a buy that cost `sol_cost` lamports is
/// considered for a rank. Only a holder who never entered, with a buy of
/// at least the configured minimum, gets one: the next rank in sequence.
/// Where the program is on and the rank is within the cutoff, the seat
/// counts as valid. None where the next rank or the seat count leaves its
/// range.
pub open spec fn qualified(holder: HolderStats, curve: BondingCurve, global: Global, sol_cost: u64)
    -> Option<(HolderStats, BondingCurve)> {
    if holder.entry_position != 0 || sol_cost < global.early_bird_min_buy_sol {
        Some((holder, curve))
    } else if curve.total_buyers + 1 >= REVOKED_POSITION {
        None
    } else {
        let rank = (curve.total_buyers + 1) as u64;
        let seated = global.early_bird_enabled && rank <= global.early_bird_cutoff;
        if seated && curve.early_bird_valid_count + 1 > u64::MAX {
            None
        } else {
            Some(
                (
                    HolderStats { entry_position: rank, ..holder },
                    BondingCurve {
                        total_buyers: rank,
                        early_bird_valid_count: if seated {
                            (curve.early_bird_valid_count + 1) as u64
                        } else {
                            curve.early_bird_valid_count
                        },
                        ..curve
                    },
                ),
            )
        }
    }
}

/// The holder and the curve after the holder sold. A holder with a rank
/// loses it for good, and where the rank was within the cutoff the curve
/// counts one valid seat less. Anyone else is left as they are.
pub open spec fn revoked(holder: HolderStats, curve: BondingCurve, global: Global) -> (
    HolderStats,
    BondingCurve,
) {
    if holder.is_ranked() {
        (
            HolderStats { entry_position: REVOKED_POSITION, ..holder },
            if holder.entry_position <= global.early_bird_cutoff {
                BondingCurve {
                    early_bird_valid_count: sat_sub(curve.early_bird_valid_count as int, 1) as u64,
                    ..curve
                }
            } else {
                curve
            },
        )
    } else {
        (holder, curve)
    }
}

impl BondingCurve {
    /// The curve, marked complete with the reward per seat fixed, where
    /// nothing is left for sale; else as it is.
    pub open spec fn finished_if_drained(self) -> BondingCurve {
        if self.real_token_reserves == 0 {
            BondingCurve {
                complete: true,
                early_bird_share_per_seat: share_per_seat(
                    self.early_bird_pool as int,
                    self.early_bird_valid_count as int,
                ) as u64,
                ..self
            }
        } else {
            self
        }
    }

    /// Marks the curve complete and fixes the reward per seat where
    /// nothing is left for sale. Tells whether it did.
    pub fn finish_if_drained(&mut self) -> (finished: bool)
        ensures
            *final(self) == old(self).finished_if_drained(),
            finished == (old(self).real_token_reserves == 0),
    {
        if self.real_token_reserves == 0 {
            self.complete = true;
            self.early_bird_share_per_seat = if self.early_bird_valid_count == 0 {
                0
            } else {
                self.early_bird_pool / self.early_bird_valid_count
            };
            true
        } else {
            false
        }
    }
}

/// Considers a buy that cost `sol_cost` lamports for a rank. Refused,
/// with nothing changed, where a counter would leave its range.
pub fn qualify_first_buy(
    holder_stats: &mut HolderStats,
    bonding_curve: &mut BondingCurve,
    global: &Global,
    sol_cost: u64,
) -> (done: Result<(), HorseFunError>)
    ensures
        match done {
            Ok(()) => qualified(*old(holder_stats), *old(bonding_curve), *global, sol_cost)
                == Some((*final(holder_stats), *final(bonding_curve))),
            Err(e) => {
                &&& e == HorseFunError::ArithmeticOverflow
                &&& qualified(*old(holder_stats), *old(bonding_curve), *global, sol_cost) is None
                &&& *final(holder_stats) == *old(holder_stats)
                &&& *final(bonding_curve) == *old(bonding_curve)
            },
        },
        old(holder_stats).entry_position == REVOKED_POSITION ==> final(holder_stats).entry_position
            == REVOKED_POSITION,
{
    if holder_stats.entry_position != 0 || sol_cost < global.early_bird_min_buy_sol {
        return Ok(());
    }
    if bonding_curve.total_buyers >= REVOKED_POSITION - 1 {
        return Err(HorseFunError::ArithmeticOverflow);
    }
    let rank = bonding_curve.total_buyers + 1;
    let seated = global.early_bird_enabled && rank <= global.early_bird_cutoff;
    if seated {
        match bonding_curve.early_bird_valid_count.checked_add(1) {
            None => {
                return Err(HorseFunError::ArithmeticOverflow);
            },
            Some(count) => {
                bonding_curve.early_bird_valid_count = count;
            },
        }
    }
    bonding_curve.total_buyers = rank;
    holder_stats.entry_position = rank;
    Ok(())
}

/// Takes the rank from a holder who sold. The loss is permanent: no later
/// buy earns a rank again.
pub fn revoke_early_bird_status(
    holder_stats: &mut HolderStats,
    bonding_curve: &mut BondingCurve,
    global: &Global,
)
    ensures
        (*final(holder_stats), *final(bonding_curve)) == revoked(
            *old(holder_stats),
            *old(bonding_curve),
            *global,
        ),
        old(holder_stats).entry_position == REVOKED_POSITION ==> final(holder_stats).entry_position
            == REVOKED_POSITION,
        old(holder_stats).entry_position != 0 ==> final(holder_stats).entry_position
            == REVOKED_POSITION,
{
    if holder_stats.entry_position > 0 && holder_stats.entry_position != REVOKED_POSITION {
        if holder_stats.entry_position <= global.early_bird_cutoff {
            bonding_curve.early_bird_valid_count = bonding_curve.early_bird_valid_count.saturating_sub(
                1,
            );
        }
        holder_stats.entry_position = REVOKED_POSITION;
    }
}

/// The accounts of a reward claim.
#[derive(Debug, PartialEq, Eq)]
pub struct ClaimEarlyBirdRewards {
    pub global: Global,
    pub mint: Pubkey,
    pub bonding_curve: BondingCurve,
    /// The curve's own account, which pays.
    pub bonding_curve_info: AccountInfo,
    pub holder_stats: HolderStats,
    /// The claimant, who is paid.
    pub user: AccountInfo,
}

impl ClaimEarlyBirdRewards {
    /// Why the claim is refused, if it is. In order: the program is off;
    /// the curve is not complete; the claimant holds no seat; the claimant
    /// claimed before; a seat is worth nothing; the pool holds less than
    /// one seat's reward; the curve's account cannot pay.
    pub open spec fn refusal(self) -> Option<HorseFunError> {
        let share = self.bonding_curve.early_bird_share_per_seat;
        if !self.global.early_bird_enabled {
            Some(HorseFunError::EarlyBirdDisabled)
        } else if !self.bonding_curve.complete {
            Some(HorseFunError::CurveNotComplete)
        } else if !self.holder_stats.holds_seat(self.global.early_bird_cutoff) {
            Some(HorseFunError::NotEarlyBird)
        } else if self.holder_stats.fees_claimed != 0 {
            Some(HorseFunError::AlreadyClaimedEarlyBird)
        } else if share == 0 {
            Some(HorseFunError::NoRewardsToClaim)
        } else if self.bonding_curve.early_bird_pool < share {
            Some(HorseFunError::InsufficientTreasuryFunds)
        } else {
            match pda_transfer_outcome(self.bonding_curve_info, self.user, share) {
                Err(e) => Some(e),
                Ok(_) => None,
            }
        }
    }

    /// The accounts after a claim that is not refused: the reward moved
    /// from the curve's account to the claimant, the pool is debited, and
    /// the claim is recorded with the claimant.
    pub open spec fn claimed(self) -> ClaimEarlyBirdRewards
        recommends
            self.refusal() is None,
    {
        let share = self.bonding_curve.early_bird_share_per_seat;
        let moved = pda_transfer_outcome(self.bonding_curve_info, self.user, share)->Ok_0;
        ClaimEarlyBirdRewards {
            bonding_curve: BondingCurve {
                early_bird_pool: (self.bonding_curve.early_bird_pool - share) as u64,
                ..self.bonding_curve
            },
            bonding_curve_info: moved.0,
            user: moved.1,
            holder_stats: HolderStats { fees_claimed: share, ..self.holder_stats },
            ..self
        }
    }
}

/// Pays an early bird the reward of their seat: the amount fixed when the
/// curve completed, once. A refused claim changes nothing.
pub fn claim_early_bird_rewards(ctx: &mut ClaimEarlyBirdRewards, timestamp: i64) -> (done: Result<
    EarlyBirdClaimed,
    HorseFunError,
>)
    ensures
        match done {
            Ok(event) => {
                &&& old(ctx).refusal() is None
                &&& *final(ctx) == old(ctx).claimed()
                &&& event == (EarlyBirdClaimed {
                    user: old(ctx).user.key,
                    mint: old(ctx).mint,
                    amount: old(ctx).bonding_curve.early_bird_share_per_seat,
                    position: old(ctx).holder_stats.entry_position,
                    timestamp,
                })
            },
            Err(e) => old(ctx).refusal() == Some(e) && *final(ctx) == *old(ctx),
        },
        final(ctx).bonding_curve.early_bird_share_per_seat == old(ctx).bonding_curve.early_bird_share_per_seat,
        final(ctx).holder_stats.entry_position == old(ctx).holder_stats.entry_position,
        done is Ok ==> final(ctx).holder_stats.fees_claimed > 0,
        old(ctx).holder_stats.fees_claimed > 0 ==> done is Err,
        old(ctx).bonding_curve.wf() ==> final(ctx).bonding_curve.wf(),
{
    if !ctx.global.early_bird_enabled {
        return Err(HorseFunError::EarlyBirdDisabled);
    }
    if !ctx.bonding_curve.complete {
        return Err(HorseFunError::CurveNotComplete);
    }
    if !ctx.holder_stats.is_early_bird(ctx.global.early_bird_cutoff) {
        return Err(HorseFunError::NotEarlyBird);
    }
    if ctx.holder_stats.fees_claimed != 0 {
        return Err(HorseFunError::AlreadyClaimedEarlyBird);
    }
    let share = ctx.bonding_curve.early_bird_share_per_seat;
    if share == 0 {
        return Err(HorseFunError::NoRewardsToClaim);
    }
    if ctx.bonding_curve.early_bird_pool < share {
        return Err(HorseFunError::InsufficientTreasuryFunds);
    }
    match pda_transfer_lamports(&mut ctx.bonding_curve_info, &mut ctx.user, share) {
        Err(e) => {
            return Err(e);
        },
        Ok(()) => {},
    }
    ctx.bonding_curve.early_bird_pool = ctx.bonding_curve.early_bird_pool - share;
    ctx.holder_stats.fees_claimed = share;
    Ok(
        EarlyBirdClaimed {
            user: ctx.user.key,
            mint: ctx.mint,
            amount: share,
            position: ctx.holder_stats.entry_position,
            timestamp,
        },
    )
}

} // verus!
