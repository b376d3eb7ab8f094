//! The buyback controller. After a trade it watches the price of one lot,
//! and where the price is low against the treasury's backing or against
//! its own running average, it spends part of the treasury pool to buy
//! tokens from the curve and burn them.

use vstd::prelude::*;
use crate::curve::{ema_after, ema_next, tokens_for, BondingCurve};
use crate::errors::HorseFunError;
use crate::global::{BuybackParams, Global};
use crate::math::{
    bps_share, bps_share_wide, lemma_product_fits, max_int, min_int, min_u64, narrow, sat_add,
    sat_sub,
};

verus! {

/// Decimal places of every asset.
pub const DECIMALS: u32 = 6;

/// One whole token, which is 10 to the power of `DECIMALS` units: the size
/// in which the controller samples the price.
pub const LOT_SIZE: u64 = 1_000_000;

/// What a run of the controller did.
#[derive(Clone, Copy, Debug, PartialEq, Eq, Structural)]
pub struct BuybackOutcome {
    /// Whether tokens were bought.
    pub is_buyback: bool,
    /// Tokens bought from the curve.
    pub token_amount: u64,
    /// Lamports taken from the treasury pool for them.
    pub sol_cost: u64,
    /// Tokens to destroy: all that were bought, or none where the curve's
    /// token account does not cover them.
    pub burn_amount: u64,
    /// `floor(sol_cost / token_amount)`.
    pub price_lamports_per_token: u64,
}

/// The outcome of a run that bought nothing.
pub open spec fn idle() -> BuybackOutcome {
    BuybackOutcome {
        is_buyback: false,
        token_amount: 0,
        sol_cost: 0,
        burn_amount: 0,
        price_lamports_per_token: 0,
    }
}

/// The lot sampled at a virtual token reserve of `vt`: one whole token,
/// or all but one unit of the reserve where that is less.
pub open spec fn lot_for(vt: u64) -> u64 {
    min_int(LOT_SIZE as int, sat_sub(vt as int, 1)) as u64
}

/// Whether a lot price of `market` triggers a buyback: it is at most the
/// larger of `backing * backing_mult_bps / 10000` and
/// `ema * ema_drop_bps / 10000`, and either the backing reaches the
/// configured floor or the price is at most half the average.
pub open spec fn triggered(market: int, backing: int, ema: int, params: BuybackParams) -> bool {
    let backing_threshold = bps_share(backing, params.backing_mult_bps as int);
    let ema_threshold = bps_share(ema, params.ema_drop_bps as int);
    &&& market <= max_int(backing_threshold, ema_threshold)
    &&& (backing >= params.min_backing_lamports || market <= ema / 2)
}

/// The most tokens one buyback may take from a real token reserve of
/// `reserve`: `max_supply_bps` of it, but at least 1 and at most all of
/// it; 0 where the reserve is empty.
pub open spec fn supply_cap(reserve: int, max_supply_bps: int) -> int {
    if reserve == 0 {
        0
    } else {
        min_int(max_int(bps_share(reserve, max_supply_bps), 1), reserve)
    }
}

impl BondingCurve {
    /// The burned part of the total supply in basis points, floored; 0
    /// where there is no supply.
    pub open spec fn burned_bps(&self) -> int {
        if self.token_total_supply > 0 {
            (self.total_burned_supply * 10_000) / (self.token_total_supply as int)
        } else {
            0
        }
    }

    /// Whether the burned part has reached the configured most. From then
    /// on the controller does nothing.
    pub open spec fn burn_cap_reached(&self, params: BuybackParams) -> bool {
        self.burned_bps() >= params.max_burn_percentage_bps
    }

    /// The lamports the controller may spend now:
    /// `floor(treasury_pool * spend_bps / 10000)`.
    pub open spec fn buyback_budget(&self, params: BuybackParams) -> int {
        bps_share(self.treasury_fee_pool as int, params.spend_bps as int)
    }

    /// The tokens a triggered buyback takes on a budget of `budget`
    /// lamports. The budget is turned into tokens at the current price and
    /// capped by the supply cap. Where that
    /// leaves nothing, one unit is taken if the cap allows one and the pool
    /// affords it, and failing that one lot on the same terms.
    pub open spec fn buyback_size(&self, params: BuybackParams, lot: u64, budget: u64) -> int {
        let cap = supply_cap(self.real_token_reserves as int, params.max_supply_bps as int);
        let sized = min_int(
            tokens_for(
                self.virtual_token_reserves as int,
                self.virtual_sol_reserves as int,
                budget as int,
            ),
            cap,
        );
        if sized > 0 {
            sized
        } else if cap >= 1 && (self.checked_buy_cost(1) matches Some(unit_cost)
            && self.treasury_fee_pool >= unit_cost) {
            1
        } else if lot > 0 && cap >= lot && (self.checked_buy_cost(lot) matches Some(lot_cost)
            && self.treasury_fee_pool >= lot_cost) {
            lot as int
        } else {
            0
        }
    }

    /// The curve after a buyback of `amount` tokens for `cost` lamports,
    /// its reserves already moved: the treasury pool pays the cost, and
    /// where the curve's token account holds `inventory >= amount` the
    /// tokens leave the circulating supply and join the burned supply.
    pub open spec fn settled_buyback(self, amount: u64, cost: u64, inventory: u64) -> BondingCurve {
        let burns = inventory >= amount;
        BondingCurve {
            treasury_fee_pool: sat_sub(self.treasury_fee_pool as int, cost as int) as u64,
            circulating_supply: if burns {
                sat_sub(self.circulating_supply as int, amount as int) as u64
            } else {
                self.circulating_supply
            },
            total_burned_supply: if burns {
                sat_add(self.total_burned_supply as int, amount as int) as u64
            } else {
                self.total_burned_supply
            },
            total_treasury_spent: sat_add(self.total_treasury_spent as int, cost as int) as u64,
            ..self
        }
    }

    /// The curve with `price` taken into its average lot price.
    pub open spec fn observed(self, price: u64, params: BuybackParams) -> BondingCurve {
        BondingCurve {
            ema_lot_price: ema_next(
                self.ema_lot_price as int,
                price as int,
                params.ema_alpha_bps as int,
            ) as u64,
            ..self
        }
    }

    /// What one run of the controller makes of the curve, where
    /// `inventory` is what the curve's token account holds.
    ///
    /// The controller rests, leaving the curve as it is, where buybacks
    /// are switched off, the burn cap is reached, the virtual token reserve
    /// is below 2, the treasury pool is empty, or a lot has no safe quote.
    /// Otherwise it takes the lot price into the average, and rests unless
    /// the price triggers. A triggered run sizes the buyback and rests where
    /// the size is 0 or has no safe quote. Else the pool must afford the
    /// cost; then the reserves move as in a purchase and the buyback is
    /// settled.
    pub open spec fn buyback_step(self, global: Global, inventory: u64) -> Result<
        (BondingCurve, BuybackOutcome),
        HorseFunError,
    > {
        let params = global.buyback_params;
        let lot = lot_for(self.virtual_token_reserves);
        if !global.buybacks_enabled || self.burn_cap_reached(params)
            || self.virtual_token_reserves <= 1 || self.treasury_fee_pool == 0 {
            Ok((self, idle()))
        } else {
            match self.checked_buy_cost(lot) {
                None => Ok((self, idle())),
                Some(market) => {
                    let seen = self.observed(market, params);
                    let backing = self.backing_per_lot(lot, self.treasury_fee_pool);
                    if !triggered(market as int, backing, seen.ema_lot_price as int, params) {
                        Ok((seen, idle()))
                    } else if self.buyback_budget(params) > u64::MAX {
                        Err(HorseFunError::ArithmeticOverflow)
                    } else {
                        let amount = self.buyback_size(
                            params,
                            lot,
                            self.buyback_budget(params) as u64,
                        ) as u64;
                        if amount == 0 {
                            Ok((seen, idle()))
                        } else {
                            match self.checked_buy_cost(amount) {
                                None => Ok((seen, idle())),
                                Some(cost) => {
                                    if self.treasury_fee_pool < cost {
                                        Err(HorseFunError::InsufficientTreasuryFunds)
                                    } else {
                                        match seen.purchased(amount, cost) {
                                            None => Err(HorseFunError::ArithmeticOverflow),
                                            Some(moved) => Ok(
                                                (
                                                    moved.settled_buyback(amount, cost, inventory),
                                                    BuybackOutcome {
                                                        is_buyback: true,
                                                        token_amount: amount,
                                                        sol_cost: cost,
                                                        burn_amount: if inventory >= amount {
                                                            amount
                                                        } else {
                                                            0
                                                        },
                                                        price_lamports_per_token: (cost
                                                            / amount) as u64,
                                                    },
                                                ),
                                            ),
                                        }
                                    }
                                },
                            }
                        }
                    }
                },
            }
        }
    }
}

/// Whether the burned part of the supply has reached the configured most.
pub fn burn_cap_reached(curve: &BondingCurve, params: &BuybackParams) -> (reached: bool)
    ensures
        reached == curve.burn_cap_reached(*params),
{
    let burned_bps: u128 = if curve.token_total_supply > 0 {
        proof {
            lemma_product_fits(curve.total_burned_supply, 10_000);
        }
        (curve.total_burned_supply as u128) * 10_000 / (curve.token_total_supply as u128)
    } else {
        0
    };
    burned_bps >= params.max_burn_percentage_bps as u128
}

/// Whether a lot price of `market` triggers a buyback, given the backing
/// per lot and the average lot price.
pub fn is_triggered(market: u64, backing: u128, ema: u64, params: &BuybackParams) -> (fires: bool)
    ensures
        fires == triggered(market as int, backing as int, ema as int, *params),
{
    let ema_threshold: u128 = bps_share_wide(ema, params.ema_drop_bps as u64);
    let under_threshold = match backing.checked_mul(params.backing_mult_bps as u128) {
        Some(product) => {
            let backing_threshold = product / 10_000;
            (market as u128) <= backing_threshold || (market as u128) <= ema_threshold
        },
        None => {
            proof {
                lemma_large_share_exceeds_64_bits(
                    backing as int,
                    params.backing_mult_bps as int,
                );
            }
            true
        },
    };
    let sharp_drop = market <= ema / 2;
    under_threshold && (backing >= params.min_backing_lamports as u128 || sharp_drop)
}

/// A share of a product beyond 128 bits is beyond 64 bits.
proof fn lemma_large_share_exceeds_64_bits(amount: int, bps: int)
    requires
        amount * bps > u128::MAX,
    ensures
        bps_share(amount, bps) > u64::MAX,
{
    assert((amount * bps) / 10_000 > 0xffff_ffff_ffff_ffff) by (nonlinear_arith)
        requires
            amount * bps > 0xffff_ffff_ffff_ffff_ffff_ffff_ffff_ffff,
    ;
}

/// The most tokens one buyback may take from a real token reserve of
/// `reserve`.
pub fn supply_cap_of(reserve: u64, max_supply_bps: u16) -> (cap: u64)
    ensures
        cap == supply_cap(reserve as int, max_supply_bps as int),
        cap <= reserve,
{
    if reserve == 0 {
        return 0;
    }
    let share: u128 = bps_share_wide(reserve, max_supply_bps as u64);
    let at_least_one: u128 = if share >= 1 {
        share
    } else {
        1
    };
    if at_least_one > reserve as u128 {
        reserve
    } else {
        at_least_one as u64
    }
}

/// The tokens a triggered buyback takes on a budget of `budget` lamports.
pub fn size_buyback(curve: &BondingCurve, params: &BuybackParams, lot: u64, budget: u64) -> (amount:
    u64)
    ensures
        amount == curve.buyback_size(*params, lot, budget),
        amount <= curve.real_token_reserves,
        amount <= supply_cap(curve.real_token_reserves as int, params.max_supply_bps as int),
{
    let cap = supply_cap_of(curve.real_token_reserves, params.max_supply_bps);
    let sized = min_u64(curve.tokens_for_budget(budget), cap);
    if sized > 0 {
        return sized;
    }
    if cap >= 1 {
        if let Some(unit_cost) = curve.buy_quote_checked(1) {
            if curve.treasury_fee_pool >= unit_cost {
                return 1;
            }
        }
    }
    if lot > 0 && cap >= lot {
        if let Some(lot_cost) = curve.buy_quote_checked(lot) {
            if curve.treasury_fee_pool >= lot_cost {
                return lot;
            }
        }
    }
    0
}

/// Runs the controller once on `curve`, where `inventory` is what the
/// curve's token account holds. A refusal leaves the curve untouched.
///
/// Once the burned part of the supply has reached the configured most,
/// the controller changes nothing. It never burns more than it bought,
/// never buys more than the curve has for sale, and never spends more than
/// the treasury pool holds.
pub fn run_buyback(curve: &mut BondingCurve, global: &Global, inventory: u64) -> (done: Result<
    BuybackOutcome,
    HorseFunError,
>)
    ensures
        match done {
            Ok(outcome) => {
                &&& old(curve).buyback_step(*global, inventory) == Ok::<
                    (BondingCurve, BuybackOutcome),
                    HorseFunError,
                >((*final(curve), outcome))
                &&& outcome.burn_amount <= outcome.token_amount <= old(curve).real_token_reserves
                &&& outcome.sol_cost <= old(curve).treasury_fee_pool
                &&& final(curve).total_burned_supply >= old(curve).total_burned_supply
            },
            Err(e) => {
                &&& old(curve).buyback_step(*global, inventory) == Err::<
                    (BondingCurve, BuybackOutcome),
                    HorseFunError,
                >(e)
                &&& *final(curve) == *old(curve)
            },
        },
        old(curve).burn_cap_reached(global.buyback_params) ==> done == Ok::<
            BuybackOutcome,
            HorseFunError,
        >(idle()) && *final(curve) == *old(curve),
        old(curve).completion_consistent() ==> final(curve).completion_consistent(),
        (old(curve).supply_consistent() && inventory <= old(curve).circulating_supply)
            ==> final(curve).supply_consistent(),
{
    let done = controller_step(curve, global, inventory);
    proof {
        if done is Ok {
            old(curve).lemma_buyback_step(*global, inventory);
        }
    }
    done
}

/// One run of the controller.
fn controller_step(curve: &mut BondingCurve, global: &Global, inventory: u64) -> (done: Result<
    BuybackOutcome,
    HorseFunError,
>)
    ensures
        match done {
            Ok(outcome) => old(curve).buyback_step(*global, inventory) == Ok::<
                (BondingCurve, BuybackOutcome),
                HorseFunError,
            >((*final(curve), outcome)),
            Err(e) => {
                &&& old(curve).buyback_step(*global, inventory) == Err::<
                    (BondingCurve, BuybackOutcome),
                    HorseFunError,
                >(e)
                &&& *final(curve) == *old(curve)
            },
        },
{
    let resting = BuybackOutcome {
        is_buyback: false,
        token_amount: 0,
        sol_cost: 0,
        burn_amount: 0,
        price_lamports_per_token: 0,
    };
    let params = global.buyback_params;
    if !global.buybacks_enabled || burn_cap_reached(curve, &params) {
        return Ok(resting);
    }
    let pool = curve.treasury_fee_pool;
    if curve.virtual_token_reserves <= 1 || pool == 0 {
        return Ok(resting);
    }
    let lot = min_u64(LOT_SIZE, curve.virtual_token_reserves - 1);
    let market = match curve.buy_quote_checked(lot) {
        None => {
            return Ok(resting);
        },
        Some(market) => market,
    };
    let backing = curve.backing_per_lot_wide(lot, pool);
    let ema = ema_after(curve.ema_lot_price, market, params.ema_alpha_bps as u64);
    if !is_triggered(market, backing, ema, &params) {
        curve.ema_lot_price = ema;
        return Ok(resting);
    }
    let budget = match narrow(bps_share_wide(pool, params.spend_bps as u64)) {
        None => {
            return Err(HorseFunError::ArithmeticOverflow);
        },
        Some(budget) => budget,
    };
    let amount = size_buyback(curve, &params, lot, budget);
    if amount == 0 {
        curve.ema_lot_price = ema;
        return Ok(resting);
    }
    let cost = match curve.buy_quote_checked(amount) {
        None => {
            curve.ema_lot_price = ema;
            return Ok(resting);
        },
        Some(cost) => cost,
    };
    if pool < cost {
        return Err(HorseFunError::InsufficientTreasuryFunds);
    }
    let burns = inventory >= amount;
    let virtual_sol = curve.virtual_sol_reserves.checked_add(cost);
    let real_sol = curve.real_sol_reserves.checked_add(cost);
    match (virtual_sol, real_sol) {
        (Some(virtual_sol), Some(real_sol)) => {
            curve.ema_lot_price = ema;
            curve.virtual_token_reserves = curve.virtual_token_reserves - amount;
            curve.virtual_sol_reserves = virtual_sol;
            curve.real_token_reserves = curve.real_token_reserves - amount;
            curve.real_sol_reserves = real_sol;
            curve.treasury_fee_pool = pool - cost;
            if burns {
                curve.circulating_supply = curve.circulating_supply.saturating_sub(amount);
                curve.total_burned_supply = curve.total_burned_supply.saturating_add(amount);
            }
            curve.total_treasury_spent = curve.total_treasury_spent.saturating_add(cost);
            Ok(
                BuybackOutcome {
                    is_buyback: true,
                    token_amount: amount,
                    sol_cost: cost,
                    burn_amount: if burns {
                        amount
                    } else {
                        0
                    },
                    price_lamports_per_token: cost / amount,
                },
            )
        },
        _ => Err(HorseFunError::ArithmeticOverflow),
    }
}

impl BondingCurve {
    /// A buyback takes no more than the supply cap allows, and so never
    /// more than the curve has for sale.
    pub proof fn lemma_buyback_size_bounded(self, params: BuybackParams, lot: u64, budget: u64)
        ensures
            0 <= self.buyback_size(params, lot, budget) <= supply_cap(
                self.real_token_reserves as int,
                params.max_supply_bps as int,
            ) <= self.real_token_reserves,
    {
        Self::lemma_tokens_for_bounded(
            self.virtual_token_reserves as int,
            self.virtual_sol_reserves as int,
            budget as int,
        );
    }

    /// What holds of every run of the controller that is not refused.
    ///
    /// It leaves alone whether the curve is complete, the reward per seat,
    /// the early-bird pool and counters, the creator's pool and the total
    /// supply. A run that buys nothing changes at most the average lot
    /// price. A run that buys takes at most the supply cap from both token
    /// reserves, pays exactly the cost out of the treasury pool, and burns
    /// either all it bought or nothing. The burned supply never shrinks.
    pub proof fn lemma_buyback_step(self, global: Global, inventory: u64)
        requires
            self.buyback_step(global, inventory) is Ok,
        ensures
            ({
                let (after, outcome) = self.buyback_step(global, inventory)->Ok_0;
                &&& after.complete == self.complete
                &&& after.early_bird_share_per_seat == self.early_bird_share_per_seat
                &&& after.early_bird_pool == self.early_bird_pool
                &&& after.early_bird_valid_count == self.early_bird_valid_count
                &&& after.total_buyers == self.total_buyers
                &&& after.creator_fee_pool == self.creator_fee_pool
                &&& after.token_total_supply == self.token_total_supply
                &&& after.creator_wallet == self.creator_wallet
                &&& after.creator_streamer_id == self.creator_streamer_id
                &&& !outcome.is_buyback ==> outcome == idle() && after == (BondingCurve {
                    ema_lot_price: after.ema_lot_price,
                    ..self
                })
                &&& outcome.is_buyback ==> 0 < outcome.token_amount <= supply_cap(
                    self.real_token_reserves as int,
                    global.buyback_params.max_supply_bps as int,
                )
                &&& after.real_token_reserves + outcome.token_amount == self.real_token_reserves
                &&& after.virtual_token_reserves + outcome.token_amount
                    == self.virtual_token_reserves
                &&& after.virtual_sol_reserves == self.virtual_sol_reserves + outcome.sol_cost
                &&& after.real_sol_reserves == self.real_sol_reserves + outcome.sol_cost
                &&& after.treasury_fee_pool + outcome.sol_cost == self.treasury_fee_pool
                &&& outcome.burn_amount == if outcome.is_buyback && inventory
                    >= outcome.token_amount {
                    outcome.token_amount
                } else {
                    0
                }
                &&& after.total_burned_supply == sat_add(
                    self.total_burned_supply as int,
                    outcome.burn_amount as int,
                )
                &&& after.circulating_supply == sat_sub(
                    self.circulating_supply as int,
                    outcome.burn_amount as int,
                )
            }),
    {
        let params = global.buyback_params;
        let lot = lot_for(self.virtual_token_reserves);
        self.lemma_buyback_size_bounded(params, lot, self.buyback_budget(params) as u64);
    }

    /// Once the burned part of the supply has reached the configured most,
    /// the controller does nothing, whatever the price.
    pub proof fn lemma_inert_at_burn_cap(self, global: Global, inventory: u64)
        requires
            self.burn_cap_reached(global.buyback_params),
        ensures
            self.buyback_step(global, inventory) == Ok::<
                (BondingCurve, BuybackOutcome),
                HorseFunError,
            >((self, idle())),
    {
    }

    /// The burn cap, once reached, stays reached as more is burned.
    pub proof fn lemma_burn_cap_persists(self, later: BondingCurve, params: BuybackParams)
        requires
            self.burn_cap_reached(params),
            later.token_total_supply == self.token_total_supply,
            later.total_burned_supply >= self.total_burned_supply,
        ensures
            later.burn_cap_reached(params),
    {
        if self.token_total_supply > 0 {
            let total = self.token_total_supply as int;
            let before = self.total_burned_supply as int;
            let after = later.total_burned_supply as int;
            assert((before * 10_000) / total <= (after * 10_000) / total) by (nonlinear_arith)
                requires
                    0 <= before <= after,
                    0 < total,
            ;
        }
    }

    /// A run of the controller keeps the circulating supply equal to the
    /// total supply less the burned supply, where the curve's token account
    /// holds no more than the circulating supply.
    pub proof fn lemma_buyback_keeps_supply(self, global: Global, inventory: u64)
        requires
            self.supply_consistent(),
            inventory <= self.circulating_supply,
            self.buyback_step(global, inventory) is Ok,
        ensures
            (self.buyback_step(global, inventory)->Ok_0).0.supply_consistent(),
    {
        self.lemma_buyback_step(global, inventory);
    }

    /// A run of the controller keeps a complete curve without tokens for
    /// sale, and an incomplete one without a reward per seat.
    pub proof fn lemma_buyback_keeps_completion(self, global: Global, inventory: u64)
        requires
            self.completion_consistent(),
            self.buyback_step(global, inventory) is Ok,
        ensures
            (self.buyback_step(global, inventory)->Ok_0).0.completion_consistent(),
    {
        self.lemma_buyback_step(global, inventory);
    }
}

} // verus!
