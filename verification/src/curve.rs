//! The bonding curve of one asset: its reserves, its supply, its fee pools,
//! and the constant-product pricing on its virtual reserves.

use vstd::prelude::*;
use crate::keys::Pubkey;
use crate::errors::HorseFunError;
use crate::math::{
    lemma_product_fits, max_int, min_int, mul_div, mul_div_wide, narrow, sat_add, sat_sub,
    LAMPORTS_PER_SOL,
};

verus! {

/// Cost of buying `amount` tokens from virtual reserves `(vt, vs)`:
/// `floor(amount * vs / (vt - amount)) + 1`. Meaningful for `amount < vt`.
pub open spec fn buy_cost(vt: int, vs: int, amount: int) -> int
    recommends
        0 <= amount < vt,
{
    (amount * vs) / (vt - amount) + 1
}

/// Proceeds of selling `amount` tokens into virtual reserves `(vt, vs)`:
/// `floor(amount * vs / (vt + amount))`. Meaningful for `vt + amount > 0`.
pub open spec fn sell_proceeds(vt: int, vs: int, amount: int) -> int
    recommends
        0 < vt + amount,
{
    (amount * vs) / (vt + amount)
}

/// Tokens that `budget` lamports buy from virtual reserves `(vt, vs)`:
/// `floor(budget * vt / (vs + budget))`, kept strictly below `vt`.
pub open spec fn tokens_for(vt: int, vs: int, budget: int) -> int {
    if budget == 0 {
        0
    } else {
        min_int((budget * vt) / (vs + budget), max_int(vt - 1, 0))
    }
}

/// The average lot price after observing `price`: the first observation
/// seeds it; later ones are blended in with weight `alpha_bps`, which
/// counts as 10000 where it is larger.
pub open spec fn ema_next(ema: int, price: int, alpha_bps: int) -> int {
    if ema == 0 {
        price
    } else {
        let a = min_int(alpha_bps, 10_000);
        (a * price + (10_000 - a) * ema) / 10_000
    }
}

/// The state of one asset's curve.
#[derive(Debug, PartialEq, Eq)]
pub struct BondingCurve {
    /// Token side of the pricing reserves.
    pub virtual_token_reserves: u64,
    /// Reserve-currency side of the pricing reserves.
    pub virtual_sol_reserves: u64,
    /// Tokens the curve still has for sale.
    pub real_token_reserves: u64,
    /// Lamports paid into the curve by trades.
    pub real_sol_reserves: u64,
    pub token_total_supply: u64,
    /// The total supply less what was burned.
    pub circulating_supply: u64,
    /// Set when a buy takes the last token for sale; never reset.
    pub complete: bool,
    pub creator_wallet: Pubkey,
    pub creator_streamer_id: Option<String>,
    pub creator_fee_pool: u64,
    pub treasury_fee_pool: u64,
    /// Creator fees ever accrued.
    pub total_fees_accrued: u64,
    /// Treasury fees ever accrued.
    pub total_treasury_fees_accrued: u64,
    /// Average price of a lot; 0 until first observed.
    pub ema_lot_price: u64,
    pub total_burned_supply: u64,
    pub total_treasury_spent: u64,
    pub early_bird_pool: u64,
    /// Ranks handed out so far.
    pub total_buyers: u64,
    pub total_early_bird_fees_accrued: u64,
    /// Seats within the cutoff that were not given up.
    pub early_bird_valid_count: u64,
    /// Reward per seat, fixed when the curve completes.
    pub early_bird_share_per_seat: u64,
}

impl Clone for BondingCurve {
    fn clone(&self) -> (copy: BondingCurve)
        ensures
            copy == *self,
    {
        BondingCurve {
            virtual_token_reserves: self.virtual_token_reserves,
            virtual_sol_reserves: self.virtual_sol_reserves,
            real_token_reserves: self.real_token_reserves,
            real_sol_reserves: self.real_sol_reserves,
            token_total_supply: self.token_total_supply,
            circulating_supply: self.circulating_supply,
            complete: self.complete,
            creator_wallet: self.creator_wallet,
            creator_streamer_id: match &self.creator_streamer_id {
                Some(id) => Some(id.clone()),
                None => None,
            },
            creator_fee_pool: self.creator_fee_pool,
            treasury_fee_pool: self.treasury_fee_pool,
            total_fees_accrued: self.total_fees_accrued,
            total_treasury_fees_accrued: self.total_treasury_fees_accrued,
            ema_lot_price: self.ema_lot_price,
            total_burned_supply: self.total_burned_supply,
            total_treasury_spent: self.total_treasury_spent,
            early_bird_pool: self.early_bird_pool,
            total_buyers: self.total_buyers,
            total_early_bird_fees_accrued: self.total_early_bird_fees_accrued,
            early_bird_valid_count: self.early_bird_valid_count,
            early_bird_share_per_seat: self.early_bird_share_per_seat,
        }
    }
}

impl BondingCurve {
    /// Bytes that the curve takes in storage, with up to 50 bytes of
    /// streamer id.
    pub const SIZE: usize = 8 + 8 + 8 + 8 + 8 + 8 + 8 + 1 + 32 + (4 + 50) + 8 + 8 + 8 + 8 + 8 + 8
        + 8 + 8 + 8 + 8 + 8 + 8;

    /// The circulating supply is the total supply less what was burned.
    pub open spec fn supply_consistent(&self) -> bool {
        self.circulating_supply + self.total_burned_supply == self.token_total_supply
    }

    /// A complete curve has nothing left for sale, and the reward per seat
    /// stays 0 until the curve completes.
    pub open spec fn completion_consistent(&self) -> bool {
        &&& self.complete ==> self.real_token_reserves == 0
        &&& !self.complete ==> self.early_bird_share_per_seat == 0
    }

    /// What every operation keeps true of a curve.
    pub open spec fn wf(&self) -> bool {
        &&& self.supply_consistent()
        &&& self.completion_consistent()
    }

    /// Cost of `amount` tokens at the current price.
    pub open spec fn buy_cost_of(&self, amount: int) -> int {
        buy_cost(self.virtual_token_reserves as int, self.virtual_sol_reserves as int, amount)
    }

    /// Proceeds of `amount` tokens at the current price.
    pub open spec fn sell_proceeds_of(&self, amount: int) -> int {
        sell_proceeds(self.virtual_token_reserves as int, self.virtual_sol_reserves as int, amount)
    }

    /// The quote for buying `amount` tokens: none where `amount` is not
    /// below the virtual token reserve or the cost exceeds 64 bits.
    pub open spec fn safe_buy_cost(&self, amount: u64) -> Option<u64> {
        if amount >= self.virtual_token_reserves {
            None
        } else if self.buy_cost_of(amount as int) > u64::MAX {
            None
        } else {
            Some(self.buy_cost_of(amount as int) as u64)
        }
    }

    /// As `safe_buy_cost`, except that nothing costs nothing.
    pub open spec fn checked_buy_cost(&self, amount: u64) -> Option<u64> {
        if amount == 0 {
            Some(0)
        } else {
            self.safe_buy_cost(amount)
        }
    }

    /// The quote for selling `amount` tokens: none only where both the
    /// amount and the virtual token reserve are 0.
    pub open spec fn safe_sell_proceeds(&self, amount: u64) -> Option<u64> {
        if self.virtual_token_reserves + amount == 0 {
            None
        } else {
            Some(self.sell_proceeds_of(amount as int) as u64)
        }
    }

    /// Treasury lamports standing behind one lot of circulating supply:
    /// `floor(treasury_pool * lot / circulating_supply)`, and 0 for a
    /// complete curve, an empty lot or no circulating supply.
    pub open spec fn backing_per_lot(&self, lot: u64, treasury_pool: u64) -> int {
        if self.complete || lot == 0 || self.circulating_supply == 0 {
            0
        } else {
            mul_div(treasury_pool as int, lot as int, self.circulating_supply as int)
        }
    }

    /// Lamports, reserves and treasury together, behind each token that
    /// left the curve; 0 for a complete curve or where none left.
    pub open spec fn backing_per_token_value(&self) -> int {
        let sold = max_int(self.token_total_supply - self.real_token_reserves, 0);
        if self.complete || sold == 0 {
            0
        } else {
            min_int(self.real_sol_reserves + self.treasury_fee_pool, u64::MAX as int) / sold
        }
    }

    /// The share of the treasury pool a size-tiered buyback would spend:
    /// 50% below 100 SOL of virtual reserves, 30% below 1000 SOL, else 10%.
    pub open spec fn tier_percentage(&self) -> int {
        if self.virtual_sol_reserves < 100 * LAMPORTS_PER_SOL {
            50
        } else if self.virtual_sol_reserves < 1000 * LAMPORTS_PER_SOL {
            30
        } else {
            10
        }
    }

    /// Tokens that the tiered share of the treasury pool buys at the
    /// current spot price.
    pub open spec fn tiered_buyback_amount(&self) -> int {
        ((self.treasury_fee_pool * self.tier_percentage()) / 100 * self.virtual_token_reserves)
            / (self.virtual_sol_reserves as int)
    }

    /// Proceeds of a sale never exceed the virtual reserve they come from.
    pub proof fn lemma_sell_proceeds_bounded(vt: int, vs: int, amount: int)
        requires
            0 <= vt,
            0 <= vs,
            0 <= amount,
            0 < vt + amount,
        ensures
            0 <= sell_proceeds(vt, vs, amount) <= vs,
    {
        assert(0 <= (amount * vs) / (vt + amount) <= vs) by (nonlinear_arith)
            requires
                0 <= vt,
                0 <= vs,
                0 <= amount,
                0 < vt + amount,
        ;
    }

    /// A budget buys fewer tokens than the virtual reserve holds.
    pub proof fn lemma_tokens_for_bounded(vt: int, vs: int, budget: int)
        requires
            0 <= vt,
            0 <= vs,
            0 <= budget,
        ensures
            0 <= tokens_for(vt, vs, budget) <= max_int(vt - 1, 0),
            budget > 0 ==> 0 <= (budget * vt) / (vs + budget) <= vt,
    {
        if budget > 0 {
            assert(0 <= (budget * vt) / (vs + budget) <= vt) by (nonlinear_arith)
                requires
                    0 <= vt,
                    0 <= vs,
                    0 < budget,
            ;
        }
    }

    /// The average stays between its old value and the new observation.
    pub proof fn lemma_ema_between(ema: int, price: int, alpha_bps: int)
        requires
            0 <= ema,
            0 <= price,
            0 <= alpha_bps,
        ensures
            min_int(ema, price) <= ema_next(ema, price, alpha_bps) <= max_int(ema, price),
            ema == 0 ==> ema_next(ema, price, alpha_bps) == price,
    {
        if ema != 0 {
            let a = min_int(alpha_bps, 10_000);
            let lo = min_int(ema, price);
            let hi = max_int(ema, price);
            assert(lo * 10_000 <= a * price + (10_000 - a) * ema <= hi * 10_000)
                by (nonlinear_arith)
                requires
                    0 <= a <= 10_000,
                    lo <= ema <= hi,
                    lo <= price <= hi,
            ;
        }
    }

    /// Cost of `amount` tokens. `amount` must be below the virtual token
    /// reserve, and the cost must fit 64 bits.
    pub fn buy_quote(&self, amount: u128) -> (cost: u64)
        requires
            amount < self.virtual_token_reserves,
            self.buy_cost_of(amount as int) <= u64::MAX,
        ensures
            cost == self.buy_cost_of(amount as int),
    {
        let quotient = mul_div_wide(
            amount as u64,
            self.virtual_sol_reserves,
            self.virtual_token_reserves as u128 - amount,
        );
        (quotient + 1) as u64
    }

    /// Proceeds of `amount` tokens. The amount and the virtual token
    /// reserve must not both be 0.
    pub fn sell_quote(&self, amount: u128) -> (proceeds: u64)
        requires
            amount <= u64::MAX,
            0 < self.virtual_token_reserves + amount,
        ensures
            proceeds == self.sell_proceeds_of(amount as int),
            proceeds <= self.virtual_sol_reserves,
    {
        proof {
            Self::lemma_sell_proceeds_bounded(
                self.virtual_token_reserves as int,
                self.virtual_sol_reserves as int,
                amount as int,
            );
        }
        let quotient = mul_div_wide(
            amount as u64,
            self.virtual_sol_reserves,
            self.virtual_token_reserves as u128 + amount,
        );
        quotient as u64
    }

    /// The quote for buying `amount` tokens, or `None` where there is no
    /// safe quote.
    pub fn quote_buy(&self, amount: u64) -> (cost: Option<u64>)
        ensures
            cost == self.safe_buy_cost(amount),
    {
        if amount >= self.virtual_token_reserves {
            return None;
        }
        let quotient = mul_div_wide(
            amount,
            self.virtual_sol_reserves,
            (self.virtual_token_reserves - amount) as u128,
        );
        proof {
            lemma_product_fits(amount, self.virtual_sol_reserves);
        }
        narrow(quotient + 1)
    }

    /// The quote for selling `amount` tokens, or `None` where there is
    /// nothing to price it against.
    pub fn quote_sell(&self, amount: u64) -> (proceeds: Option<u64>)
        ensures
            proceeds == self.safe_sell_proceeds(amount),
            proceeds matches Some(p) ==> p <= self.virtual_sol_reserves,
    {
        if self.virtual_token_reserves == 0 && amount == 0 {
            return None;
        }
        Some(self.sell_quote(amount as u128))
    }

    /// The price to buy `amount` tokens, guarded: nothing costs nothing,
    /// and there is no price for an amount the virtual reserve cannot give.
    pub fn buy_quote_checked(&self, amount: u64) -> (cost: Option<u64>)
        ensures
            cost == self.checked_buy_cost(amount),
    {
        if amount == 0 {
            return Some(0);
        }
        self.quote_buy(amount)
    }

    /// Backing per lot, in 128 bits.
    pub fn backing_per_lot_wide(&self, lot: u64, treasury_pool: u64) -> (backing: u128)
        ensures
            backing == self.backing_per_lot(lot, treasury_pool),
    {
        if self.complete || lot == 0 {
            return 0;
        }
        if self.circulating_supply == 0 {
            return 0;
        }
        mul_div_wide(treasury_pool, lot, self.circulating_supply as u128)
    }

    /// Backing per lot. It must fit 64 bits.
    pub fn backing_per_lot_with_treasury(&self, lot: u64, treasury_pool: u64) -> (backing: u64)
        requires
            self.backing_per_lot(lot, treasury_pool) <= u64::MAX,
        ensures
            backing == self.backing_per_lot(lot, treasury_pool),
    {
        self.backing_per_lot_wide(lot, treasury_pool) as u64
    }

    /// Takes `new_price` into the average lot price.
    pub fn update_ema_lot_price(&mut self, new_price: u64, alpha_bps: u64)
        ensures
            final(self).ema_lot_price == ema_next(
                old(self).ema_lot_price as int,
                new_price as int,
                alpha_bps as int,
            ),
            *final(self) == (BondingCurve { ema_lot_price: final(self).ema_lot_price, ..*old(self) }),
    {
        self.ema_lot_price = ema_after(self.ema_lot_price, new_price, alpha_bps);
    }

    /// Tokens that `budget` lamports buy at the current price, kept
    /// strictly below the virtual token reserve.
    pub fn tokens_for_budget(&self, budget: u64) -> (tokens: u64)
        ensures
            tokens == tokens_for(
                self.virtual_token_reserves as int,
                self.virtual_sol_reserves as int,
                budget as int,
            ),
            tokens == 0 || tokens < self.virtual_token_reserves,
    {
        if budget == 0 {
            return 0;
        }
        proof {
            Self::lemma_tokens_for_bounded(
                self.virtual_token_reserves as int,
                self.virtual_sol_reserves as int,
                budget as int,
            );
        }
        let denominator: u128 = self.virtual_sol_reserves as u128 + budget as u128;
        let tokens = mul_div_wide(budget, self.virtual_token_reserves, denominator) as u64;
        let most = self.virtual_token_reserves.saturating_sub(1);
        if tokens > most {
            most
        } else {
            tokens
        }
    }

    /// Lamports behind each token that left the curve.
    pub fn backing_per_token(&self) -> (backing: u64)
        ensures
            backing == self.backing_per_token_value(),
    {
        if self.complete {
            return 0;
        }
        let sold = self.token_total_supply.saturating_sub(self.real_token_reserves);
        if sold == 0 {
            return 0;
        }
        let total_backing = self.real_sol_reserves.saturating_add(self.treasury_fee_pool);
        total_backing / sold
    }

    /// Tokens a size-tiered buyback would buy. The virtual reserve of
    /// lamports must not be 0, and the share and the result must fit 64
    /// bits.
    pub fn calculate_buyback_amount(&self) -> (tokens: u64)
        requires
            self.virtual_sol_reserves > 0,
            self.treasury_fee_pool * self.tier_percentage() <= u64::MAX,
            self.tiered_buyback_amount() <= u64::MAX,
        ensures
            tokens == self.tiered_buyback_amount(),
    {
        let percentage: u64 = if self.virtual_sol_reserves < 100_000_000_000 {
            50
        } else if self.virtual_sol_reserves < 1_000_000_000_000 {
            30
        } else {
            10
        };
        let budget = (self.treasury_fee_pool * percentage) / 100;
        mul_div_wide(budget, self.virtual_token_reserves, self.virtual_sol_reserves as u128) as u64
    }

    /// The curve after `amount` tokens left it for `cost` lamports: both
    /// token reserves shrink by the amount, both lamport reserves grow by
    /// the cost. None where a reserve holds fewer tokens than `amount` or a
    /// lamport reserve would exceed 64 bits.
    pub open spec fn purchased(self, amount: u64, cost: u64) -> Option<BondingCurve> {
        if amount > self.virtual_token_reserves || amount > self.real_token_reserves
            || self.virtual_sol_reserves + cost > u64::MAX || self.real_sol_reserves + cost
            > u64::MAX {
            None
        } else {
            Some(
                BondingCurve {
                    virtual_token_reserves: (self.virtual_token_reserves - amount) as u64,
                    virtual_sol_reserves: (self.virtual_sol_reserves + cost) as u64,
                    real_token_reserves: (self.real_token_reserves - amount) as u64,
                    real_sol_reserves: (self.real_sol_reserves + cost) as u64,
                    ..self
                },
            )
        }
    }

    /// The curve after `amount` tokens came back for `proceeds` lamports:
    /// both token reserves grow by the amount, both lamport reserves shrink
    /// by the proceeds, each stopping at the end of its range.
    pub open spec fn sold(self, amount: u64, proceeds: u64) -> BondingCurve {
        BondingCurve {
            virtual_token_reserves: sat_add(self.virtual_token_reserves as int, amount as int) as u64,
            real_token_reserves: sat_add(self.real_token_reserves as int, amount as int) as u64,
            virtual_sol_reserves: sat_sub(self.virtual_sol_reserves as int, proceeds as int) as u64,
            real_sol_reserves: sat_sub(self.real_sol_reserves as int, proceeds as int) as u64,
            ..self
        }
    }

    /// Moves the reserves as a purchase of `amount` tokens for `cost`
    /// lamports does. Refused, with the curve untouched, where a reserve
    /// cannot take it.
    pub fn apply_purchase(&mut self, amount: u64, cost: u64) -> (done: Result<(), HorseFunError>)
        ensures
            match done {
                Ok(()) => old(self).purchased(amount, cost) == Some(*final(self)),
                Err(e) => {
                    &&& e == HorseFunError::ArithmeticOverflow
                    &&& old(self).purchased(amount, cost) is None
                    &&& *final(self) == *old(self)
                },
            },
    {
        if amount > self.virtual_token_reserves || amount > self.real_token_reserves {
            return Err(HorseFunError::ArithmeticOverflow);
        }
        let virtual_sol = self.virtual_sol_reserves.checked_add(cost);
        let real_sol = self.real_sol_reserves.checked_add(cost);
        match (virtual_sol, real_sol) {
            (Some(virtual_sol), Some(real_sol)) => {
                self.virtual_token_reserves = self.virtual_token_reserves - amount;
                self.virtual_sol_reserves = virtual_sol;
                self.real_token_reserves = self.real_token_reserves - amount;
                self.real_sol_reserves = real_sol;
                Ok(())
            },
            _ => Err(HorseFunError::ArithmeticOverflow),
        }
    }

    /// Moves the reserves as a sale of `amount` tokens for `proceeds`
    /// lamports does.
    pub fn apply_sale(&mut self, amount: u64, proceeds: u64)
        ensures
            *final(self) == old(self).sold(amount, proceeds),
    {
        self.virtual_token_reserves = self.virtual_token_reserves.saturating_add(amount);
        self.real_token_reserves = self.real_token_reserves.saturating_add(amount);
        self.virtual_sol_reserves = self.virtual_sol_reserves.saturating_sub(proceeds);
        self.real_sol_reserves = self.real_sol_reserves.saturating_sub(proceeds);
    }
}

/// The average lot price after observing `new_price`.
pub fn ema_after(ema: u64, new_price: u64, alpha_bps: u64) -> (next: u64)
    ensures
        next == ema_next(ema as int, new_price as int, alpha_bps as int),
{
    if ema == 0 {
        return new_price;
    }
    let a: u64 = if alpha_bps < 10_000 {
        alpha_bps
    } else {
        10_000
    };
    proof {
        BondingCurve::lemma_ema_between(ema as int, new_price as int, alpha_bps as int);
        assert((a as int) * (new_price as int) <= 10_000 * 0xffff_ffff_ffff_ffff) by (nonlinear_arith)
            requires
                0 <= a <= 10_000,
                0 <= new_price <= 0xffff_ffff_ffff_ffff,
        ;
        assert(((10_000 - a) as int) * (ema as int) <= 10_000 * 0xffff_ffff_ffff_ffff)
            by (nonlinear_arith)
            requires
                0 <= 10_000 - a <= 10_000,
                0 <= ema <= 0xffff_ffff_ffff_ffff,
        ;
    }
    let blended: u128 = (a as u128) * (new_price as u128) + ((10_000 - a) as u128) * (ema as u128);
    (blended / 10_000) as u64
}

} // verus!
