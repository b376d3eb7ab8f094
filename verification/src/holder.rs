//! The record kept for one participant in one asset.

use vstd::prelude::*;
use crate::accounts::TokenAccount;
use crate::curve::BondingCurve;
use crate::errors::HorseFunError;
use crate::keys::Pubkey;

verus! {

/// The entry position of a participant who gave up their rank for good.
pub const REVOKED_POSITION: u64 = 0xffff_ffff_ffff_ffff;

/// Where a participant stands in the early-bird program.
#[derive(Clone, Copy, Debug, PartialEq, Eq, Structural)]
pub enum Standing {
    /// No buy of theirs has earned a rank.
    NeverEntered,
    /// They hold the rank, counted from 1 in order of qualification.
    Active(u64),
    /// They sold; no later buy earns a rank again.
    Revoked,
}

/// One participant's balance and standing in one asset.
#[derive(Clone, Copy, Debug, PartialEq, Eq)]
pub struct HolderStats {
    pub user: Pubkey,
    pub mint: Pubkey,
    pub current_balance: u64,
    /// Early-bird reward paid out so far; 0 until the one claim.
    pub fees_claimed: u64,
    /// 0 before a rank is earned, the rank while it is held, and
    /// `REVOKED_POSITION` once it is given up.
    pub entry_position: u64,
    /// Lamports spent on buys.
    pub total_volume: u64,
}

impl HolderStats {
    /// Bytes that the record takes in storage.
    pub const SIZE: usize = 8 + 32 + 32 + 8 + 8 + 8 + 8;

    /// The standing that the entry position encodes.
    pub open spec fn standing(&self) -> Standing {
        if self.entry_position == 0 {
            Standing::NeverEntered
        } else if self.entry_position == REVOKED_POSITION {
            Standing::Revoked
        } else {
            Standing::Active(self.entry_position)
        }
    }

    /// Whether the participant holds a rank.
    pub open spec fn is_ranked(&self) -> bool {
        self.standing() is Active
    }

    /// Whether the participant holds an early-bird seat: a rank within
    /// `cutoff`.
    pub open spec fn holds_seat(&self, cutoff: u64) -> bool {
        self.standing() matches Standing::Active(rank) && rank <= cutoff
    }

    /// The standing that the entry position encodes.
    pub fn read_standing(&self) -> (standing: Standing)
        ensures
            standing == self.standing(),
    {
        if self.entry_position == 0 {
            Standing::NeverEntered
        } else if self.entry_position == REVOKED_POSITION {
            Standing::Revoked
        } else {
            Standing::Active(self.entry_position)
        }
    }

    /// Whether the participant holds a rank.
    pub fn has_rank(&self) -> (ranked: bool)
        ensures
            ranked == self.is_ranked(),
    {
        self.entry_position > 0 && self.entry_position != REVOKED_POSITION
    }

    /// Whether the participant holds an early-bird seat.
    pub fn is_early_bird(&self, cutoff: u64) -> (seated: bool)
        ensures
            seated == self.holds_seat(cutoff),
    {
        self.entry_position > 0 && self.entry_position != REVOKED_POSITION
            && self.entry_position <= cutoff
    }

    /// Refreshes the record at time `unix_timestamp`. Nothing in the
    /// record depends on time, so this always succeeds and changes nothing.
    pub fn update_stats(&mut self, unix_timestamp: i64) -> (done: Result<(), HorseFunError>)
        ensures
            done is Ok,
            *final(self) == *old(self),
    {
        Ok(())
    }
}

/// The accounts of opening a holder's record.
#[derive(Clone, Copy, Debug, PartialEq, Eq)]
pub struct InitHolderStats {
    pub mint: Pubkey,
    /// The holder's token account.
    pub associated_user: TokenAccount,
    pub user: Pubkey,
}

/// The accounts of bringing a holder's balance up to date.
#[derive(Clone, Copy, Debug, PartialEq, Eq)]
pub struct UpdateHolderStats {
    pub mint: Pubkey,
    /// The holder's token account.
    pub associated_user: TokenAccount,
    pub holder_stats: HolderStats,
    pub user: Pubkey,
}

/// The accounts of a holder's claim on fees.
#[derive(Debug, PartialEq, Eq)]
pub struct ClaimHolderFees {
    pub mint: Pubkey,
    pub bonding_curve: BondingCurve,
    pub holder_stats: HolderStats,
    pub associated_user: TokenAccount,
    pub user: Pubkey,
}

/// Opens the record of a holder who has not traded yet: the balance is
/// what the holder's token account holds, nothing is claimed or spent, and
/// no rank is earned.
pub fn init_holder_stats(ctx: &InitHolderStats) -> (record: HolderStats)
    ensures
        record == (HolderStats {
            user: ctx.user,
            mint: ctx.mint,
            current_balance: ctx.associated_user.amount,
            fees_claimed: 0,
            entry_position: 0,
            total_volume: 0,
        }),
        record.standing() is NeverEntered,
{
    HolderStats {
        user: ctx.user,
        mint: ctx.mint,
        current_balance: ctx.associated_user.amount,
        fees_claimed: 0,
        entry_position: 0,
        total_volume: 0,
    }
}

/// Sets the recorded balance to what the holder's token account holds.
/// Nothing else of the record changes; the standing in particular stays.
pub fn update_holder_stats(ctx: &mut UpdateHolderStats) -> (done: Result<(), HorseFunError>)
    ensures
        done is Ok,
        *final(ctx) == (UpdateHolderStats {
            holder_stats: HolderStats {
                current_balance: old(ctx).associated_user.amount,
                ..old(ctx).holder_stats
            },
            ..*old(ctx)
        }),
        final(ctx).holder_stats.entry_position == old(ctx).holder_stats.entry_position,
{
    ctx.holder_stats.current_balance = ctx.associated_user.amount;
    Ok(())
}

} // verus!
