//! Launching the curve of a new asset.

use vstd::prelude::*;
use crate::curve::BondingCurve;
use crate::errors::HorseFunError;
use crate::events::CreateEvent;
use crate::global::Global;
use crate::identity::{copy_of_id, is_optional_id_valid, streamer_id_valid};
use crate::keys::Pubkey;

verus! {

/// The accounts of a launch.
#[derive(Clone, Copy, Debug, PartialEq, Eq)]
pub struct Create {
    /// The new asset.
    pub mint: Pubkey,
    /// The address of the new curve's account.
    pub bonding_curve: Pubkey,
    pub global: Global,
    /// The creator.
    pub user: Pubkey,
}

/// What a launch settled on.
#[derive(Debug, PartialEq, Eq)]
pub struct Launch {
    /// The new curve.
    pub bonding_curve: BondingCurve,
    /// Tokens to mint into the curve's token account: the total supply.
    pub mint_amount: u64,
    pub event: CreateEvent,
}

/// The curve of an asset at its launch: the reserves and the supply that
/// the configuration names, nothing burned, all pools empty, no buyer yet,
/// not complete.
pub open spec fn launched(global: Global, creator: Pubkey, streamer_id: Option<String>)
    -> BondingCurve {
    BondingCurve {
        virtual_token_reserves: global.initial_virtual_token_reserves,
        virtual_sol_reserves: global.initial_virtual_sol_reserves,
        real_token_reserves: global.initial_real_token_reserves,
        real_sol_reserves: 0,
        token_total_supply: global.token_total_supply,
        circulating_supply: global.token_total_supply,
        complete: false,
        creator_wallet: creator,
        creator_streamer_id: streamer_id,
        creator_fee_pool: 0,
        treasury_fee_pool: 0,
        total_fees_accrued: 0,
        total_treasury_fees_accrued: 0,
        ema_lot_price: 0,
        total_burned_supply: 0,
        total_treasury_spent: 0,
        early_bird_pool: 0,
        total_buyers: 0,
        total_early_bird_fees_accrued: 0,
        early_bird_valid_count: 0,
        early_bird_share_per_seat: 0,
    }
}

/// Launches the curve of a new asset for its creator. Refused where a
/// streamer id is given that is not well formed. The caller registers the
/// asset's name, symbol and uri, mints the total supply into the curve's
/// token account, and gives up the right to mint.
pub fn create(
    ctx: &Create,
    name: String,
    symbol: String,
    uri: String,
    streamer_id: Option<String>,
) -> (done: Result<Launch, HorseFunError>)
    ensures
        match done {
            Ok(launch) => {
                &&& streamer_id matches Some(id) ==> streamer_id_valid(id@)
                &&& launch.bonding_curve == launched(ctx.global, ctx.user, streamer_id)
                &&& launch.bonding_curve.wf()
                &&& launch.mint_amount == ctx.global.token_total_supply
                &&& launch.event == (CreateEvent {
                    name,
                    symbol,
                    uri,
                    mint: ctx.mint,
                    bonding_curve: ctx.bonding_curve,
                    user: ctx.user,
                })
            },
            Err(e) => {
                &&& e == HorseFunError::InvalidStreamerId
                &&& streamer_id matches Some(id) && !streamer_id_valid(id@)
            },
        },
{
    if !is_optional_id_valid(&streamer_id) {
        return Err(HorseFunError::InvalidStreamerId);
    }
    let bonding_curve = BondingCurve {
        virtual_token_reserves: ctx.global.initial_virtual_token_reserves,
        virtual_sol_reserves: ctx.global.initial_virtual_sol_reserves,
        real_token_reserves: ctx.global.initial_real_token_reserves,
        real_sol_reserves: 0,
        token_total_supply: ctx.global.token_total_supply,
        circulating_supply: ctx.global.token_total_supply,
        complete: false,
        creator_wallet: ctx.user,
        creator_streamer_id: copy_of_id(&streamer_id),
        creator_fee_pool: 0,
        treasury_fee_pool: 0,
        total_fees_accrued: 0,
        total_treasury_fees_accrued: 0,
        ema_lot_price: 0,
        total_burned_supply: 0,
        total_treasury_spent: 0,
        early_bird_pool: 0,
        total_buyers: 0,
        total_early_bird_fees_accrued: 0,
        early_bird_valid_count: 0,
        early_bird_share_per_seat: 0,
    };
    Ok(
        Launch {
            bonding_curve,
            mint_amount: ctx.global.token_total_supply,
            event: CreateEvent {
                name,
                symbol,
                uri,
                mint: ctx.mint,
                bonding_curve: ctx.bonding_curve,
                user: ctx.user,
            },
        },
    )
}

} // verus!
