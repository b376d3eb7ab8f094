//! What holds of every trade and every claim, proved from the definitions
//! of their outcomes.

use vstd::prelude::*;
use vstd::arithmetic::div_mod::{
    lemma_div_is_ordered, lemma_div_is_ordered_by_denominator, lemma_fundamental_div_mod,
};
use crate::curve::{buy_cost, sell_proceeds, BondingCurve};
use crate::early_bird::{qualified, revoked, ClaimEarlyBirdRewards};
use crate::errors::HorseFunError;
use crate::holder::REVOKED_POSITION;
use crate::trade::{fees_booked, Buy, Sell};

verus! {

/// Selling back what was just bought pays less than it cost: the curve's
/// spread is never negative.
pub proof fn lemma_round_trip(vt: int, vs: int, amount: int)
    requires
        0 <= amount < vt,
        0 <= vs,
    ensures
        sell_proceeds(vt - amount, vs + buy_cost(vt, vs, amount), amount) < buy_cost(
            vt,
            vs,
            amount,
        ),
{
    let d = vt - amount;
    let n = amount * vs;
    let q = n / d;
    let r = n % d;
    let c = q + 1;
    lemma_fundamental_div_mod(n, d);
    assert(0 <= r < d);
    assert(n == d * q + r);
    let x = amount * (vs + c);
    assert(x < c * vt) by (nonlinear_arith)
        requires
            x == amount * (vs + c),
            n == amount * vs,
            n == d * q + r,
            0 <= r < d,
            c == q + 1,
            d == vt - amount,
    ;
    assert(x / vt < c) by (nonlinear_arith)
        requires
            x < c * vt,
            0 < vt,
    ;
    assert(vt - amount + amount == vt);
}

/// Buying moves the price up: the same amount bought again right after
/// costs no less.
pub proof fn lemma_price_impact(vt: int, vs: int, amount: int)
    requires
        0 <= amount,
        2 * amount < vt,
        0 <= vs,
    ensures
        buy_cost(vt, vs, amount) <= buy_cost(
            vt - amount,
            vs + buy_cost(vt, vs, amount),
            amount,
        ),
{
    let c = buy_cost(vt, vs, amount);
    let d1 = vt - amount;
    let d2 = vt - amount - amount;
    let n1 = amount * vs;
    let n2 = amount * (vs + c);
    assert(0 <= n1 / d1) by (nonlinear_arith)
        requires
            n1 == amount * vs,
            0 <= amount,
            0 <= vs,
            0 < d1,
    ;
    assert(0 <= n1 <= n2) by (nonlinear_arith)
        requires
            n1 == amount * vs,
            n2 == amount * (vs + c),
            0 <= amount,
            0 <= vs,
            0 <= c,
    ;
    lemma_div_is_ordered(n1, n2, d1);
    lemma_div_is_ordered_by_denominator(n2, d2, d1);
}

/// No buy is accepted once the curve is complete.
pub proof fn lemma_buy_refused_once_complete(
    ctx: Buy,
    amount: u64,
    max_sol_cost: u64,
    timestamp: i64,
)
    requires
        ctx.bonding_curve.complete,
    ensures
        ctx.outcome(amount, max_sol_cost, timestamp) is Err,
{
}

/// No sell is accepted once the curve is complete.
pub proof fn lemma_sell_refused_once_complete(
    ctx: Sell,
    amount: u64,
    min_sol_output: u64,
    timestamp: i64,
)
    requires
        ctx.bonding_curve.complete,
    ensures
        ctx.outcome(amount, min_sol_output, timestamp) is Err,
{
}

/// What every accepted buy does.
///
/// The buyer gets the request capped by what the curve had for sale, at
/// the quoted cost plus the fee, which stays within the buyer's bound. The
/// curve completes exactly when the buy takes all that was for sale, and a
/// complete curve has nothing left for sale. Where the controller bought
/// nothing, the real token reserve is 0 afterwards exactly when the curve
/// is complete. The reward per seat changes only as the curve completes. A
/// revoked buyer stays revoked, and a ranked buyer keeps the rank.
pub proof fn lemma_buy_accepted(ctx: Buy, amount: u64, max_sol_cost: u64, timestamp: i64)
    requires
        ctx.outcome(amount, max_sol_cost, timestamp) is Ok,
    ensures
        ({
            let (after, receipt) = ctx.outcome(amount, max_sol_cost, timestamp)->Ok_0;
            let before = ctx.bonding_curve;
            &&& !before.complete
            &&& receipt.token_amount == if amount <= before.real_token_reserves {
                amount
            } else {
                before.real_token_reserves
            }
            &&& receipt.sol_cost == before.buy_cost_of(receipt.token_amount as int)
            &&& receipt.fee == ctx.global.fee_of(receipt.sol_cost)
            &&& receipt.sol_cost + receipt.fee <= max_sol_cost
            &&& receipt.split == ctx.global.split_of(receipt.fee)
            &&& after.bonding_curve.complete == (before.real_token_reserves <= amount)
            &&& after.bonding_curve.complete == receipt.completed is Some
            &&& after.bonding_curve.complete ==> after.bonding_curve.real_token_reserves == 0
            &&& !receipt.buyback.is_buyback ==> (after.bonding_curve.real_token_reserves == 0)
                == after.bonding_curve.complete
            &&& after.bonding_curve.real_token_reserves + receipt.token_amount
                + receipt.buyback.token_amount == before.real_token_reserves
            &&& after.bonding_curve.virtual_token_reserves + receipt.token_amount
                + receipt.buyback.token_amount == before.virtual_token_reserves
            &&& after.bonding_curve.virtual_sol_reserves == before.virtual_sol_reserves
                + receipt.sol_cost + receipt.buyback.sol_cost
            &&& after.bonding_curve.real_sol_reserves == before.real_sol_reserves
                + receipt.sol_cost + receipt.buyback.sol_cost
            &&& after.bonding_curve.creator_fee_pool == before.creator_fee_pool
                + receipt.split.creator
            &&& after.bonding_curve.early_bird_pool == before.early_bird_pool
                + receipt.split.early_bird
            &&& after.bonding_curve.treasury_fee_pool + receipt.buyback.sol_cost
                == before.treasury_fee_pool + receipt.split.treasury
            &&& !after.bonding_curve.complete ==> after.bonding_curve.early_bird_share_per_seat
                == before.early_bird_share_per_seat
            &&& after.holder_stats.current_balance == ctx.holder_stats.current_balance
                + receipt.token_amount
            &&& ctx.holder_stats.entry_position != 0 ==> after.holder_stats.entry_position
                == ctx.holder_stats.entry_position
            &&& after.holder_stats.fees_claimed == ctx.holder_stats.fees_claimed
            &&& after.global == ctx.global
        }),
{
    let terms = ctx.terms(amount, max_sol_cost)->Ok_0;
    let moved = ctx.bonding_curve.purchased(terms.tokens, terms.quote)->Some_0;
    let (booked, split) = fees_booked(
        ctx.global,
        ctx.fee_recipient.key,
        moved.finished_if_drained(),
        terms.fee,
    )->Ok_0;
    let paid = ctx.holder_stats.bought(terms.tokens, terms.quote)->Some_0;
    let (holder, ranked) = qualified(paid, booked, ctx.global, terms.quote)->Some_0;
    ranked.lemma_buyback_step(ctx.global, ctx.associated_bonding_curve.amount);
}

/// What every accepted sell does.
///
/// The seller gives `amount` tokens for the quoted proceeds less the fee,
/// which is at least the seller's bound and is paid out of the curve's
/// account. A sell never completes the curve nor touches the reward per
/// seat. Where the curve had tokens for sale and the controller bought
/// nothing, it still has tokens for sale. The seller ends without a rank:
/// a rank held is revoked, and a revoked one stays revoked.
pub proof fn lemma_sell_accepted(ctx: Sell, amount: u64, min_sol_output: u64, timestamp: i64)
    requires
        ctx.outcome(amount, min_sol_output, timestamp) is Ok,
    ensures
        ({
            let (after, receipt) = ctx.outcome(amount, min_sol_output, timestamp)->Ok_0;
            let before = ctx.bonding_curve;
            &&& !before.complete
            &&& !after.bonding_curve.complete
            &&& receipt.token_amount == amount
            &&& receipt.sol_output == before.sell_proceeds_of(amount as int)
            &&& receipt.fee == ctx.global.fee_of(receipt.sol_output)
            &&& receipt.payout == receipt.sol_output - receipt.fee
            &&& receipt.payout >= min_sol_output
            &&& receipt.payout > 0
            &&& receipt.split == ctx.global.split_of(receipt.fee)
            &&& after.user.lamports >= ctx.user.lamports
            &&& after.bonding_curve_info.lamports + receipt.payout + receipt.split.platform
                == ctx.bonding_curve_info.lamports
            &&& after.bonding_curve.early_bird_share_per_seat == before.early_bird_share_per_seat
            &&& (before.real_token_reserves > 0 && !receipt.buyback.is_buyback)
                ==> after.bonding_curve.real_token_reserves > 0
            &&& after.holder_stats.current_balance + amount == ctx.holder_stats.current_balance
            &&& ctx.holder_stats.entry_position != 0 ==> after.holder_stats.entry_position
                == REVOKED_POSITION
            &&& ctx.holder_stats.entry_position == 0 ==> after.holder_stats.entry_position == 0
            &&& after.holder_stats.fees_claimed == ctx.holder_stats.fees_claimed
            &&& after.global == ctx.global
        }),
{
    BondingCurve::lemma_sell_proceeds_bounded(
        ctx.bonding_curve.virtual_token_reserves as int,
        ctx.bonding_curve.virtual_sol_reserves as int,
        amount as int,
    );
    let terms = ctx.terms(amount, min_sol_output)->Ok_0;
    let (settled, split) = (Sell {
        bonding_curve: ctx.bonding_curve.sold(terms.tokens, terms.quote),
        ..ctx
    }).fee_settled(terms.fee)->Ok_0;
    let gave = settled.holder_stats.gave(terms.tokens)->Some_0;
    let (holder, unseated) = revoked(gave, settled.bonding_curve, ctx.global);
    unseated.lemma_buyback_step(ctx.global, ctx.associated_bonding_curve.amount);
}

/// A buy keeps the curve sound: the circulating supply stays the total
/// supply less the burned supply where the curve's token account holds no
/// more than the circulating supply, and a complete curve has nothing for
/// sale while an incomplete one has no reward per seat.
pub proof fn lemma_buy_keeps_curve_sound(
    ctx: Buy,
    amount: u64,
    max_sol_cost: u64,
    timestamp: i64,
)
    requires
        ctx.outcome(amount, max_sol_cost, timestamp) is Ok,
    ensures
        ({
            let after = (ctx.outcome(amount, max_sol_cost, timestamp)->Ok_0).0.bonding_curve;
            let before = ctx.bonding_curve;
            &&& after.token_total_supply == before.token_total_supply
            &&& after.total_burned_supply >= before.total_burned_supply
            &&& (before.supply_consistent() && ctx.associated_bonding_curve.amount
                <= before.circulating_supply) ==> after.supply_consistent()
            &&& before.completion_consistent() ==> after.completion_consistent()
        }),
{
    let terms = ctx.terms(amount, max_sol_cost)->Ok_0;
    let moved = ctx.bonding_curve.purchased(terms.tokens, terms.quote)->Some_0;
    let (booked, split) = fees_booked(
        ctx.global,
        ctx.fee_recipient.key,
        moved.finished_if_drained(),
        terms.fee,
    )->Ok_0;
    let paid = ctx.holder_stats.bought(terms.tokens, terms.quote)->Some_0;
    let (holder, ranked) = qualified(paid, booked, ctx.global, terms.quote)->Some_0;
    ranked.lemma_buyback_step(ctx.global, ctx.associated_bonding_curve.amount);
}

/// A sell keeps the curve sound, as a buy does.
pub proof fn lemma_sell_keeps_curve_sound(
    ctx: Sell,
    amount: u64,
    min_sol_output: u64,
    timestamp: i64,
)
    requires
        ctx.outcome(amount, min_sol_output, timestamp) is Ok,
    ensures
        ({
            let after = (ctx.outcome(amount, min_sol_output, timestamp)->Ok_0).0.bonding_curve;
            let before = ctx.bonding_curve;
            &&& after.token_total_supply == before.token_total_supply
            &&& after.total_burned_supply >= before.total_burned_supply
            &&& (before.supply_consistent() && ctx.associated_bonding_curve.amount
                <= before.circulating_supply) ==> after.supply_consistent()
            &&& before.completion_consistent() ==> after.completion_consistent()
        }),
{
    let terms = ctx.terms(amount, min_sol_output)->Ok_0;
    let (settled, split) = (Sell {
        bonding_curve: ctx.bonding_curve.sold(terms.tokens, terms.quote),
        ..ctx
    }).fee_settled(terms.fee)->Ok_0;
    let gave = settled.holder_stats.gave(terms.tokens)->Some_0;
    let (holder, unseated) = revoked(gave, settled.bonding_curve, ctx.global);
    unseated.lemma_buyback_step(ctx.global, ctx.associated_bonding_curve.amount);
}

/// Once the burned part of the supply has reached the configured most, a
/// buy burns nothing and spends nothing of the treasury, and the cap stays
/// reached. A buy in which the controller bought began below the cap.
pub proof fn lemma_buy_respects_burn_cap(
    ctx: Buy,
    amount: u64,
    max_sol_cost: u64,
    timestamp: i64,
)
    requires
        ctx.outcome(amount, max_sol_cost, timestamp) is Ok,
    ensures
        ({
            let (after, receipt) = ctx.outcome(amount, max_sol_cost, timestamp)->Ok_0;
            let before = ctx.bonding_curve;
            let params = ctx.global.buyback_params;
            &&& before.burn_cap_reached(params) ==> {
                &&& !receipt.buyback.is_buyback
                &&& receipt.buyback.burn_amount == 0
                &&& after.bonding_curve.total_burned_supply == before.total_burned_supply
                &&& after.bonding_curve.circulating_supply == before.circulating_supply
                &&& after.bonding_curve.total_treasury_spent == before.total_treasury_spent
                &&& after.bonding_curve.burn_cap_reached(params)
            }
            &&& receipt.buyback.is_buyback ==> !before.burn_cap_reached(params)
                && ctx.global.buybacks_enabled
        }),
{
    let terms = ctx.terms(amount, max_sol_cost)->Ok_0;
    let moved = ctx.bonding_curve.purchased(terms.tokens, terms.quote)->Some_0;
    let (booked, split) = fees_booked(
        ctx.global,
        ctx.fee_recipient.key,
        moved.finished_if_drained(),
        terms.fee,
    )->Ok_0;
    let paid = ctx.holder_stats.bought(terms.tokens, terms.quote)->Some_0;
    let (holder, ranked) = qualified(paid, booked, ctx.global, terms.quote)->Some_0;
    ranked.lemma_buyback_step(ctx.global, ctx.associated_bonding_curve.amount);
    assert(ranked.burn_cap_reached(ctx.global.buyback_params) == ctx.bonding_curve.burn_cap_reached(
        ctx.global.buyback_params,
    ));
}

/// Once the burned part of the supply has reached the configured most, a
/// sell burns nothing and spends nothing of the treasury, and the cap
/// stays reached. A sell in which the controller bought began below the
/// cap.
pub proof fn lemma_sell_respects_burn_cap(
    ctx: Sell,
    amount: u64,
    min_sol_output: u64,
    timestamp: i64,
)
    requires
        ctx.outcome(amount, min_sol_output, timestamp) is Ok,
    ensures
        ({
            let (after, receipt) = ctx.outcome(amount, min_sol_output, timestamp)->Ok_0;
            let before = ctx.bonding_curve;
            let params = ctx.global.buyback_params;
            &&& before.burn_cap_reached(params) ==> {
                &&& !receipt.buyback.is_buyback
                &&& receipt.buyback.burn_amount == 0
                &&& after.bonding_curve.total_burned_supply == before.total_burned_supply
                &&& after.bonding_curve.circulating_supply == before.circulating_supply
                &&& after.bonding_curve.total_treasury_spent == before.total_treasury_spent
                &&& after.bonding_curve.burn_cap_reached(params)
            }
            &&& receipt.buyback.is_buyback ==> !before.burn_cap_reached(params)
                && ctx.global.buybacks_enabled
        }),
{
    let terms = ctx.terms(amount, min_sol_output)->Ok_0;
    let (settled, split) = (Sell {
        bonding_curve: ctx.bonding_curve.sold(terms.tokens, terms.quote),
        ..ctx
    }).fee_settled(terms.fee)->Ok_0;
    let gave = settled.holder_stats.gave(terms.tokens)->Some_0;
    let (holder, unseated) = revoked(gave, settled.bonding_curve, ctx.global);
    unseated.lemma_buyback_step(ctx.global, ctx.associated_bonding_curve.amount);
    assert(unseated.burn_cap_reached(ctx.global.buyback_params)
        == ctx.bonding_curve.burn_cap_reached(ctx.global.buyback_params));
}

/// A holder whose rank was revoked stays revoked through every buy: a
/// later buy does not earn a rank again.
pub proof fn lemma_buy_keeps_revoked(ctx: Buy, amount: u64, max_sol_cost: u64, timestamp: i64)
    requires
        ctx.holder_stats.entry_position == REVOKED_POSITION,
        ctx.outcome(amount, max_sol_cost, timestamp) is Ok,
    ensures
        (ctx.outcome(amount, max_sol_cost, timestamp)->Ok_0).0.holder_stats.entry_position
            == REVOKED_POSITION,
{
    lemma_buy_accepted(ctx, amount, max_sol_cost, timestamp);
}

/// A holder whose rank was revoked stays revoked through every sell.
pub proof fn lemma_sell_keeps_revoked(ctx: Sell, amount: u64, min_sol_output: u64, timestamp: i64)
    requires
        ctx.holder_stats.entry_position == REVOKED_POSITION,
        ctx.outcome(amount, min_sol_output, timestamp) is Ok,
    ensures
        (ctx.outcome(amount, min_sol_output, timestamp)->Ok_0).0.holder_stats.entry_position
            == REVOKED_POSITION,
{
    lemma_sell_accepted(ctx, amount, min_sol_output, timestamp);
}

/// The reward per seat is fixed by the buy that completes the curve, as
/// the early-bird pool of that moment shared among the valid seats, and
/// by no other buy.
pub proof fn lemma_share_fixed_at_completion(
    ctx: Buy,
    amount: u64,
    max_sol_cost: u64,
    timestamp: i64,
)
    requires
        ctx.outcome(amount, max_sol_cost, timestamp) is Ok,
    ensures
        ({
            let after = (ctx.outcome(amount, max_sol_cost, timestamp)->Ok_0).0.bonding_curve;
            let before = ctx.bonding_curve;
            after.early_bird_share_per_seat == if after.complete {
                if before.early_bird_valid_count == 0 {
                    0
                } else {
                    before.early_bird_pool as int / before.early_bird_valid_count as int
                }
            } else {
                before.early_bird_share_per_seat as int
            }
        }),
{
    let terms = ctx.terms(amount, max_sol_cost)->Ok_0;
    let moved = ctx.bonding_curve.purchased(terms.tokens, terms.quote)->Some_0;
    let (booked, split) = fees_booked(
        ctx.global,
        ctx.fee_recipient.key,
        moved.finished_if_drained(),
        terms.fee,
    )->Ok_0;
    let paid = ctx.holder_stats.bought(terms.tokens, terms.quote)->Some_0;
    let (holder, ranked) = qualified(paid, booked, ctx.global, terms.quote)->Some_0;
    ranked.lemma_buyback_step(ctx.global, ctx.associated_bonding_curve.amount);
    let valid = ctx.bonding_curve.early_bird_valid_count as int;
    if valid != 0 {
        assert(0 <= (ctx.bonding_curve.early_bird_pool as int) / valid
            <= ctx.bonding_curve.early_bird_pool) by (nonlinear_arith)
            requires
                0 < valid,
                0 <= ctx.bonding_curve.early_bird_pool,
        ;
    }
}

/// A claim that went through cannot be repeated: the second one is
/// refused as already claimed.
pub proof fn lemma_second_claim_refused(ctx: ClaimEarlyBirdRewards)
    requires
        ctx.refusal() is None,
    ensures
        ctx.claimed().refusal() == Some(HorseFunError::AlreadyClaimedEarlyBird),
        ctx.claimed().bonding_curve.early_bird_share_per_seat
            == ctx.bonding_curve.early_bird_share_per_seat,
        ctx.claimed().user.lamports >= ctx.user.lamports,
        ctx.claimed().bonding_curve.early_bird_pool
            + ctx.bonding_curve.early_bird_share_per_seat == ctx.bonding_curve.early_bird_pool,
{
}

/// Selling back right away what a buy bought pays less than the buy
/// cost, where the controller bought nothing in that buy.
pub proof fn lemma_buy_then_sell_back(ctx: Buy, amount: u64, max_sol_cost: u64, timestamp: i64)
    requires
        ctx.outcome(amount, max_sol_cost, timestamp) is Ok,
        !(ctx.outcome(amount, max_sol_cost, timestamp)->Ok_0).1.buyback.is_buyback,
    ensures
        ({
            let (after, receipt) = ctx.outcome(amount, max_sol_cost, timestamp)->Ok_0;
            after.bonding_curve.sell_proceeds_of(receipt.token_amount as int) < receipt.sol_cost
        }),
{
    lemma_buy_accepted(ctx, amount, max_sol_cost, timestamp);
    let (after, receipt) = ctx.outcome(amount, max_sol_cost, timestamp)->Ok_0;
    lemma_round_trip(
        ctx.bonding_curve.virtual_token_reserves as int,
        ctx.bonding_curve.virtual_sol_reserves as int,
        receipt.token_amount as int,
    );
}

} // verus!
