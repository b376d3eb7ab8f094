//! The records that operations hand out for others to consume.

use vstd::prelude::*;
use crate::keys::Pubkey;

verus! {

/// A curve was launched.
#[derive(Debug, PartialEq, Eq)]
pub struct CreateEvent {
    pub name: String,
    pub symbol: String,
    pub uri: String,
    pub mint: Pubkey,
    pub bonding_curve: Pubkey,
    pub user: Pubkey,
}

/// A trade went through. It carries the state of the curve and of the
/// trader after the trade, and what the buyback controller did.
#[derive(Clone, Copy, Debug, PartialEq, Eq)]
pub struct TradeEvent {
    pub mint: Pubkey,
    /// The quote: cost of a buy, proceeds of a sell, without the fee.
    pub sol_amount: u64,
    pub token_amount: u64,
    pub is_buy: bool,
    pub user: Pubkey,
    pub timestamp: i64,
    pub virtual_sol_reserves: u64,
    pub virtual_token_reserves: u64,
    pub circulating_supply: u64,
    pub real_token_reserves: u64,
    pub real_sol_reserves: u64,
    pub creator_fee_pool: u64,
    pub treasury_fee_pool: u64,
    pub total_fees_accrued: u64,
    pub total_treasury_fees_accrued: u64,
    /// The creator's part of this trade's fee.
    pub creator_fee_amount: u64,
    /// The wallet that creator fees belong to.
    pub fee_recipient: Pubkey,
    pub is_buyback: bool,
    pub burn_amount: u64,
    pub price_lamports_per_token: u64,
    pub total_burned_supply: u64,
    pub total_treasury_spent: u64,
    pub early_bird_pool: u64,
    pub total_early_bird_fees_accrued: u64,
    /// The trader's entry position.
    pub user_position: u64,
    pub user_balance: u64,
    pub early_bird_cutoff: u64,
    pub total_buyers: u64,
    pub early_bird_valid_count: u64,
    /// Whether the trader holds an early-bird seat.
    pub is_early_bird: bool,
}

/// Creator fees moved to another recipient.
#[derive(Debug, PartialEq, Eq)]
pub struct CtoEvent {
    pub mint: Pubkey,
    pub old_creator: Pubkey,
    pub old_streamer_id: Option<String>,
    pub new_creator: Pubkey,
    pub new_streamer_id: Option<String>,
    pub platform_authority: Pubkey,
    pub timestamp: i64,
}

/// A curve sold its last token.
#[derive(Clone, Copy, Debug, PartialEq, Eq)]
pub struct CompleteEvent {
    pub user: Pubkey,
    pub mint: Pubkey,
    pub bonding_curve: Pubkey,
    pub timestamp: i64,
    /// The early-bird pool when the curve completed.
    pub early_bird_pool: u64,
}

/// A message with a donation was left for a creator.
#[derive(Debug, PartialEq, Eq)]
pub struct MessageSentEvent {
    pub mint: Pubkey,
    pub sender: Pubkey,
    pub amount: u64,
    pub message: String,
    pub timestamp: i64,
}

/// A creator collected the donations.
#[derive(Clone, Copy, Debug, PartialEq, Eq)]
pub struct DonationClaimedEvent {
    pub mint: Pubkey,
    pub creator: Pubkey,
    pub amount: u64,
    pub timestamp: i64,
    pub remaining_unclaimed: u64,
}

/// An early bird collected the reward.
#[derive(Clone, Copy, Debug, PartialEq, Eq)]
pub struct EarlyBirdClaimed {
    pub user: Pubkey,
    pub mint: Pubkey,
    pub amount: u64,
    pub position: u64,
    pub timestamp: i64,
}

/// The configuration was rewritten.
#[derive(Clone, Copy, Debug, PartialEq, Eq)]
pub struct SetParamsEvent {
    pub fee_recipient: Pubkey,
    pub initial_virtual_token_reserves: u64,
    pub initial_virtual_sol_reserves: u64,
    pub initial_real_token_reserves: u64,
    pub token_total_supply: u64,
    pub fee_basis_points: u64,
    pub creator_fee_share: u64,
    pub platform_fee_share: u64,
    pub treasury_fee_share: u64,
    pub buybacks_enabled: bool,
}

/// A creator collected the creator fees.
#[derive(Clone, Copy, Debug, PartialEq, Eq)]
pub struct CreatorFeeClaimedEvent {
    pub mint: Pubkey,
    pub claimer: Pubkey,
    pub amount: u64,
    pub total_fees_accrued: u64,
    pub timestamp: i64,
}

/// A streamer identity was registered for a wallet.
#[derive(Debug, PartialEq, Eq)]
pub struct StreamerIdentityRegisteredEvent {
    pub user: Pubkey,
    pub streamer_id: String,
    pub timestamp: i64,
}

/// A streamer identity was cancelled.
#[derive(Debug, PartialEq, Eq)]
pub struct StreamerIdentityCancelledEvent {
    pub user: Pubkey,
    pub streamer_id: String,
    pub timestamp: i64,
}

} // verus!
