//! Creating and rewriting the configuration.

use vstd::prelude::*;
use crate::errors::HorseFunError;
use crate::events::SetParamsEvent;
use crate::global::{BuybackParams, Global};
use crate::keys::Pubkey;

verus! {

/// The accounts of creating the configuration.
#[derive(Clone, Copy, Debug, PartialEq, Eq)]
pub struct Initialize {
    pub global: Global,
    /// The caller, who becomes the authority.
    pub user: Pubkey,
}

/// The accounts of rewriting the configuration.
#[derive(Clone, Copy, Debug, PartialEq, Eq)]
pub struct SetParams {
    pub global: Global,
    /// The caller; it must be the authority.
    pub user: Pubkey,
}

/// The values that a rewrite gives the configuration.
#[derive(Clone, Copy, Debug, PartialEq, Eq)]
pub struct Params {
    pub fee_recipient: Pubkey,
    pub initial_virtual_token_reserves: u64,
    pub initial_virtual_sol_reserves: u64,
    pub initial_real_token_reserves: u64,
    pub token_total_supply: u64,
    pub fee_basis_points: u64,
    pub creator_fee_share: u64,
    pub platform_fee_share: u64,
    pub treasury_fee_share: u64,
    pub early_bird_fee_share: u64,
    pub buybacks_enabled: bool,
    pub buyback_params: BuybackParams,
    pub early_bird_enabled: bool,
    pub early_bird_cutoff: u64,
    pub early_bird_min_buy_sol: u64,
}

impl Params {
    /// Whether the four fee shares make up exactly one whole.
    pub open spec fn fee_shares_valid(self) -> bool {
        self.creator_fee_share + self.platform_fee_share + self.treasury_fee_share
            + self.early_bird_fee_share == 10_000
    }

    /// The configuration `global` rewritten with these values. Who the
    /// authority is, and that the configuration exists, stay.
    pub open spec fn written_over(self, global: Global) -> Global {
        Global {
            initialized: global.initialized,
            authority: global.authority,
            fee_recipient: self.fee_recipient,
            initial_virtual_token_reserves: self.initial_virtual_token_reserves,
            initial_virtual_sol_reserves: self.initial_virtual_sol_reserves,
            initial_real_token_reserves: self.initial_real_token_reserves,
            token_total_supply: self.token_total_supply,
            fee_basis_points: self.fee_basis_points,
            creator_fee_share: self.creator_fee_share,
            platform_fee_share: self.platform_fee_share,
            treasury_fee_share: self.treasury_fee_share,
            early_bird_fee_share: self.early_bird_fee_share,
            buybacks_enabled: self.buybacks_enabled,
            buyback_params: self.buyback_params,
            early_bird_enabled: self.early_bird_enabled,
            early_bird_cutoff: self.early_bird_cutoff,
            early_bird_min_buy_sol: self.early_bird_min_buy_sol,
        }
    }

    /// The record of a rewrite with these values.
    pub open spec fn record(self) -> SetParamsEvent {
        SetParamsEvent {
            fee_recipient: self.fee_recipient,
            initial_virtual_token_reserves: self.initial_virtual_token_reserves,
            initial_virtual_sol_reserves: self.initial_virtual_sol_reserves,
            initial_real_token_reserves: self.initial_real_token_reserves,
            token_total_supply: self.token_total_supply,
            fee_basis_points: self.fee_basis_points,
            creator_fee_share: self.creator_fee_share,
            platform_fee_share: self.platform_fee_share,
            treasury_fee_share: self.treasury_fee_share,
            buybacks_enabled: self.buybacks_enabled,
        }
    }
}

impl SetParams {
    /// Why the rewrite is refused, if it is. In order: the configuration
    /// does not exist; the caller is not its authority; the four fee shares
    /// do not add up to 10000.
    pub open spec fn refusal(self, params: Params) -> Option<HorseFunError> {
        if !self.global.initialized {
            Some(HorseFunError::NotInitialized)
        } else if self.user != self.global.authority {
            Some(HorseFunError::NotAuthorized)
        } else if !params.fee_shares_valid() {
            Some(HorseFunError::InvalidFeeShares)
        } else {
            None
        }
    }
}

/// Creates the configuration with the caller as its authority and
/// buybacks switched on. Refused, with nothing changed, where it exists
/// already.
pub fn initialize(ctx: &mut Initialize) -> (done: Result<(), HorseFunError>)
    ensures
        match done {
            Ok(()) => {
                &&& !old(ctx).global.initialized
                &&& *final(ctx) == (Initialize {
                    global: Global {
                        authority: old(ctx).user,
                        initialized: true,
                        buybacks_enabled: true,
                        ..old(ctx).global
                    },
                    ..*old(ctx)
                })
            },
            Err(e) => {
                &&& e == HorseFunError::AlreadyInitialized
                &&& old(ctx).global.initialized
                &&& *final(ctx) == *old(ctx)
            },
        },
{
    if ctx.global.initialized {
        return Err(HorseFunError::AlreadyInitialized);
    }
    ctx.global.authority = ctx.user;
    ctx.global.initialized = true;
    ctx.global.buybacks_enabled = true;
    Ok(())
}

/// Rewrites the configuration. Only the authority may, and the four fee
/// shares must add up to exactly 10000 basis points: any other sum is
/// refused. A refusal changes nothing, so an accepted configuration always
/// has valid fee shares.
pub fn set_params(
    ctx: &mut SetParams,
    fee_recipient: Pubkey,
    initial_virtual_token_reserves: u64,
    initial_virtual_sol_reserves: u64,
    initial_real_token_reserves: u64,
    token_total_supply: u64,
    fee_basis_points: u64,
    creator_fee_share: u64,
    platform_fee_share: u64,
    treasury_fee_share: u64,
    early_bird_fee_share: u64,
    buybacks_enabled: bool,
    buyback_params: BuybackParams,
    early_bird_enabled: bool,
    early_bird_cutoff: u64,
    early_bird_min_buy_sol: u64,
) -> (done: Result<SetParamsEvent, HorseFunError>)
    ensures
        ({
            let params = Params {
                fee_recipient,
                initial_virtual_token_reserves,
                initial_virtual_sol_reserves,
                initial_real_token_reserves,
                token_total_supply,
                fee_basis_points,
                creator_fee_share,
                platform_fee_share,
                treasury_fee_share,
                early_bird_fee_share,
                buybacks_enabled,
                buyback_params,
                early_bird_enabled,
                early_bird_cutoff,
                early_bird_min_buy_sol,
            };
            match done {
                Ok(event) => {
                    &&& old(ctx).refusal(params) is None
                    &&& final(ctx).global == params.written_over(old(ctx).global)
                    &&& final(ctx).user == old(ctx).user
                    &&& final(ctx).global.fee_shares_valid()
                    &&& event == params.record()
                },
                Err(e) => old(ctx).refusal(params) == Some(e) && *final(ctx) == *old(ctx),
            }
        }),
        creator_fee_share + platform_fee_share + treasury_fee_share + early_bird_fee_share
            != 10_000 ==> done is Err,
{
    if !ctx.global.initialized {
        return Err(HorseFunError::NotInitialized);
    }
    if ctx.user != ctx.global.authority {
        return Err(HorseFunError::NotAuthorized);
    }
    let sum: u128 = creator_fee_share as u128 + platform_fee_share as u128
        + treasury_fee_share as u128 + early_bird_fee_share as u128;
    if sum != 10_000 {
        return Err(HorseFunError::InvalidFeeShares);
    }
    ctx.global.fee_recipient = fee_recipient;
    ctx.global.initial_virtual_token_reserves = initial_virtual_token_reserves;
    ctx.global.initial_virtual_sol_reserves = initial_virtual_sol_reserves;
    ctx.global.initial_real_token_reserves = initial_real_token_reserves;
    ctx.global.token_total_supply = token_total_supply;
    ctx.global.fee_basis_points = fee_basis_points;
    ctx.global.creator_fee_share = creator_fee_share;
    ctx.global.platform_fee_share = platform_fee_share;
    ctx.global.treasury_fee_share = treasury_fee_share;
    ctx.global.early_bird_fee_share = early_bird_fee_share;
    ctx.global.buybacks_enabled = buybacks_enabled;
    ctx.global.buyback_params = buyback_params;
    ctx.global.early_bird_enabled = early_bird_enabled;
    ctx.global.early_bird_cutoff = early_bird_cutoff;
    ctx.global.early_bird_min_buy_sol = early_bird_min_buy_sol;
    Ok(
        SetParamsEvent {
            fee_recipient,
            initial_virtual_token_reserves,
            initial_virtual_sol_reserves,
            initial_real_token_reserves,
            token_total_supply,
            fee_basis_points,
            creator_fee_share,
            platform_fee_share,
            treasury_fee_share,
            buybacks_enabled,
        },
    )
}

} // verus!
