//! The program-wide configuration: the fee rate and how a fee is shared,
//! the buyback tuning, and the early-bird program's parameters.

use vstd::prelude::*;
use vstd::arithmetic::div_mod::lemma_fundamental_div_mod;
use crate::keys::Pubkey;
use crate::math::{bps_share, bps_share_wide, lemma_bps_share_bounded, narrow};

verus! {

/// Tuning of the buyback controller. Rates are in basis points.
#[derive(Clone, Copy, Debug, PartialEq, Eq, Structural)]
pub struct BuybackParams {
    /// Multiple of the backing per lot below which the price is a bargain.
    pub backing_mult_bps: u16,
    /// Fraction of the average lot price below which the price has dropped.
    pub ema_drop_bps: u16,
    /// Weight of a new observation in the average lot price.
    pub ema_alpha_bps: u16,
    /// Fraction of the treasury pool spent per buyback.
    pub spend_bps: u16,
    /// Largest fraction of the curve's token reserve bought per buyback.
    pub max_supply_bps: u16,
    /// Backing per lot under which only a sharp drop triggers a buyback.
    pub min_backing_lamports: u64,
    /// Fraction of the total supply after which nothing more is burned.
    pub max_burn_percentage_bps: u16,
}

/// The configuration. There is one; its authority alone rewrites it.
#[derive(Clone, Copy, Debug, PartialEq, Eq)]
pub struct Global {
    pub initialized: bool,
    pub authority: Pubkey,
    pub fee_recipient: Pubkey,
    pub initial_virtual_token_reserves: u64,
    pub initial_virtual_sol_reserves: u64,
    pub initial_real_token_reserves: u64,
    pub token_total_supply: u64,
    /// Fee on a trade, in basis points of its value.
    pub fee_basis_points: u64,
    pub creator_fee_share: u64,
    pub platform_fee_share: u64,
    pub treasury_fee_share: u64,
    pub early_bird_fee_share: u64,
    pub buybacks_enabled: bool,
    pub buyback_params: BuybackParams,
    pub early_bird_enabled: bool,
    /// Ranks up to this one hold an early-bird seat.
    pub early_bird_cutoff: u64,
    /// Least cost of a first buy that earns a rank.
    pub early_bird_min_buy_sol: u64,
}

/// A fee divided among its four receivers, each part floored.
#[derive(Clone, Copy, Debug, PartialEq, Eq, Structural)]
pub struct FeeSplit {
    pub platform: u64,
    pub creator: u64,
    pub treasury: u64,
    pub early_bird: u64,
}

impl FeeSplit {
    /// What stays with the curve: the creator, treasury and early-bird
    /// parts together.
    pub open spec fn pooled(self) -> int {
        self.creator + self.treasury + self.early_bird
    }

    /// All four parts together.
    pub open spec fn total(self) -> int {
        self.platform + self.creator + self.treasury + self.early_bird
    }
}

impl Global {
    /// Bytes that the configuration takes in storage.
    pub const SIZE: usize = 8 + 32 + 1 + 32 + 8 + 8 + 8 + 8 + 8 + 8 + 8 + 8 + 8 + 8 + 1 + 18 + 1 + 8
        + 8;

    /// Whether the four fee shares make up exactly one whole.
    pub open spec fn fee_shares_valid(&self) -> bool {
        self.creator_fee_share + self.platform_fee_share + self.treasury_fee_share
            + self.early_bird_fee_share == 10_000
    }

    /// The fee on a trade worth `amount`: `floor(amount * fee_bps / 10000)`.
    pub open spec fn fee_of(&self, amount: u64) -> int {
        bps_share(amount as int, self.fee_basis_points as int)
    }

    /// Whether each part of `total_fee` fits 64 bits.
    pub open spec fn splits_fit(&self, total_fee: u64) -> bool {
        &&& bps_share(total_fee as int, self.platform_fee_share as int) <= u64::MAX
        &&& bps_share(total_fee as int, self.creator_fee_share as int) <= u64::MAX
        &&& bps_share(total_fee as int, self.treasury_fee_share as int) <= u64::MAX
        &&& bps_share(total_fee as int, self.early_bird_fee_share as int) <= u64::MAX
    }

    /// The four parts of `total_fee`, each `floor(total_fee * share / 10000)`.
    pub open spec fn split_of(&self, total_fee: u64) -> FeeSplit
        recommends
            self.splits_fit(total_fee),
    {
        FeeSplit {
            platform: bps_share(total_fee as int, self.platform_fee_share as int) as u64,
            creator: bps_share(total_fee as int, self.creator_fee_share as int) as u64,
            treasury: bps_share(total_fee as int, self.treasury_fee_share as int) as u64,
            early_bird: bps_share(total_fee as int, self.early_bird_fee_share as int) as u64,
        }
    }

    /// The fee on a trade worth `amount`, or `None` where it exceeds 64 bits.
    pub fn checked_fee(&self, amount: u64) -> (fee: Option<u64>)
        ensures
            fee == if self.fee_of(amount) <= u64::MAX {
                Some(self.fee_of(amount) as u64)
            } else {
                None::<u64>
            },
    {
        narrow(bps_share_wide(amount, self.fee_basis_points))
    }

    /// The fee on a trade worth `amount`.
    pub fn get_fee(&self, amount: u64) -> (fee: u64)
        requires
            self.fee_of(amount) <= u64::MAX,
        ensures
            fee == self.fee_of(amount),
    {
        bps_share_wide(amount, self.fee_basis_points) as u64
    }

    /// The four parts of `total_fee`, or `None` where one exceeds 64 bits.
    pub fn checked_fee_splits(&self, total_fee: u64) -> (split: Option<FeeSplit>)
        ensures
            split == if self.splits_fit(total_fee) {
                Some(self.split_of(total_fee))
            } else {
                None::<FeeSplit>
            },
    {
        let platform = narrow(bps_share_wide(total_fee, self.platform_fee_share));
        let creator = narrow(bps_share_wide(total_fee, self.creator_fee_share));
        let treasury = narrow(bps_share_wide(total_fee, self.treasury_fee_share));
        let early_bird = narrow(bps_share_wide(total_fee, self.early_bird_fee_share));
        match (platform, creator, treasury, early_bird) {
            (Some(platform), Some(creator), Some(treasury), Some(early_bird)) => Some(
                FeeSplit { platform, creator, treasury, early_bird },
            ),
            _ => None,
        }
    }

    /// The parts of `total_fee` in the order platform, creator, treasury,
    /// early bird.
    pub fn get_fee_splits(&self, total_fee: u64) -> (parts: (u64, u64, u64, u64))
        requires
            self.splits_fit(total_fee),
        ensures
            parts.0 == self.split_of(total_fee).platform,
            parts.1 == self.split_of(total_fee).creator,
            parts.2 == self.split_of(total_fee).treasury,
            parts.3 == self.split_of(total_fee).early_bird,
    {
        let platform = bps_share_wide(total_fee, self.platform_fee_share) as u64;
        let creator = bps_share_wide(total_fee, self.creator_fee_share) as u64;
        let treasury = bps_share_wide(total_fee, self.treasury_fee_share) as u64;
        let early_bird = bps_share_wide(total_fee, self.early_bird_fee_share) as u64;
        (platform, creator, treasury, early_bird)
    }

    /// With valid shares every fee can be split: no part exceeds the fee.
    pub proof fn lemma_valid_shares_fit(&self, total_fee: u64)
        requires
            self.fee_shares_valid(),
        ensures
            self.splits_fit(total_fee),
            self.split_of(total_fee).platform <= total_fee,
            self.split_of(total_fee).creator <= total_fee,
            self.split_of(total_fee).treasury <= total_fee,
            self.split_of(total_fee).early_bird <= total_fee,
    {
        lemma_bps_share_bounded(total_fee as int, self.platform_fee_share as int);
        lemma_bps_share_bounded(total_fee as int, self.creator_fee_share as int);
        lemma_bps_share_bounded(total_fee as int, self.treasury_fee_share as int);
        lemma_bps_share_bounded(total_fee as int, self.early_bird_fee_share as int);
    }

    /// With valid shares the four parts never exceed the fee, and flooring
    /// loses at most 3 lamports of it.
    pub proof fn lemma_split_dust(&self, total_fee: u64)
        requires
            self.fee_shares_valid(),
        ensures
            self.splits_fit(total_fee),
            0 <= total_fee - self.split_of(total_fee).total() <= 3,
    {
        self.lemma_valid_shares_fit(total_fee);
        let f = total_fee as int;
        let p = self.platform_fee_share as int;
        let c = self.creator_fee_share as int;
        let t = self.treasury_fee_share as int;
        let e = self.early_bird_fee_share as int;
        lemma_fundamental_div_mod(f * p, 10_000);
        lemma_fundamental_div_mod(f * c, 10_000);
        lemma_fundamental_div_mod(f * t, 10_000);
        lemma_fundamental_div_mod(f * e, 10_000);
        assert(f * p + f * c + f * t + f * e == f * 10_000) by (nonlinear_arith)
            requires
                p + c + t + e == 10_000,
        ;
        assert(0 <= (f * p) % 10_000 < 10_000);
        assert(0 <= (f * c) % 10_000 < 10_000);
        assert(0 <= (f * t) % 10_000 < 10_000);
        assert(0 <= (f * e) % 10_000 < 10_000);
    }

    /// Valid shares split a fee of 10000 lamports into the shares
    /// themselves, and nothing is lost.
    pub proof fn lemma_split_of_whole(&self)
        requires
            self.fee_shares_valid(),
        ensures
            self.split_of(10_000).platform == self.platform_fee_share,
            self.split_of(10_000).creator == self.creator_fee_share,
            self.split_of(10_000).treasury == self.treasury_fee_share,
            self.split_of(10_000).early_bird == self.early_bird_fee_share,
            self.split_of(10_000).total() == 10_000,
    {
        let p = self.platform_fee_share as int;
        let c = self.creator_fee_share as int;
        let t = self.treasury_fee_share as int;
        let e = self.early_bird_fee_share as int;
        assert((10_000 * p) / 10_000 == p) by (nonlinear_arith);
        assert((10_000 * c) / 10_000 == c) by (nonlinear_arith);
        assert((10_000 * t) / 10_000 == t) by (nonlinear_arith);
        assert((10_000 * e) / 10_000 == e) by (nonlinear_arith);
    }
}

} // verus!
