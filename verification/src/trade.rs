//! Buying from and selling into a curve. A trade is priced, checked
//! against the trader's bound, and then applied whole: the reserves move,
//! the fee is shared out, the trader's record and standing are brought up
//! to date, and the buyback controller runs. A refused trade changes
//! nothing.

use vstd::prelude::*;
use crate::accounts::{pda_transfer_lamports, pda_transfer_outcome, AccountInfo, TokenAccount};
use crate::buyback::{run_buyback, BuybackOutcome};
use crate::curve::BondingCurve;
use crate::early_bird::{qualified, qualify_first_buy, revoke_early_bird_status, revoked};
use crate::errors::HorseFunError;
use crate::events::{CompleteEvent, TradeEvent};
use crate::global::{FeeSplit, Global};
use crate::holder::{HolderStats, REVOKED_POSITION};
use crate::keys::Pubkey;
use crate::laws::{
    lemma_buy_accepted, lemma_buy_keeps_curve_sound, lemma_buy_respects_burn_cap,
    lemma_sell_accepted, lemma_sell_keeps_curve_sound, lemma_sell_respects_burn_cap,
};
use crate::math::{min_int, min_u64, sat_sub};

verus! {

/// The accounts of a buy.
#[derive(Debug, PartialEq, Eq)]
pub struct Buy {
    pub global: Global,
    /// The account that takes the platform's part of the fee.
    pub fee_recipient: AccountInfo,
    pub mint: Pubkey,
    pub bonding_curve: BondingCurve,
    /// The curve's own account.
    pub bonding_curve_info: AccountInfo,
    /// The curve's token account, as it stood before the trade.
    pub associated_bonding_curve: TokenAccount,
    pub associated_user: TokenAccount,
    /// The buyer.
    pub user: AccountInfo,
    pub holder_stats: HolderStats,
}

/// The accounts of a sell.
#[derive(Debug, PartialEq, Eq)]
pub struct Sell {
    pub global: Global,
    /// The account that takes the platform's part of the fee.
    pub fee_recipient: AccountInfo,
    pub mint: Pubkey,
    pub bonding_curve: BondingCurve,
    /// The curve's own account, which pays the seller and the platform.
    pub bonding_curve_info: AccountInfo,
    /// The curve's token account, as it stood before the trade.
    pub associated_bonding_curve: TokenAccount,
    pub associated_user: TokenAccount,
    /// The seller.
    pub user: AccountInfo,
    pub holder_stats: HolderStats,
}

impl Clone for Buy {
    fn clone(&self) -> (copy: Buy)
        ensures
            copy == *self,
    {
        Buy {
            global: self.global,
            fee_recipient: self.fee_recipient,
            mint: self.mint,
            bonding_curve: self.bonding_curve.clone(),
            bonding_curve_info: self.bonding_curve_info,
            associated_bonding_curve: self.associated_bonding_curve,
            associated_user: self.associated_user,
            user: self.user,
            holder_stats: self.holder_stats,
        }
    }
}

impl Clone for Sell {
    fn clone(&self) -> (copy: Sell)
        ensures
            copy == *self,
    {
        Sell {
            global: self.global,
            fee_recipient: self.fee_recipient,
            mint: self.mint,
            bonding_curve: self.bonding_curve.clone(),
            bonding_curve_info: self.bonding_curve_info,
            associated_bonding_curve: self.associated_bonding_curve,
            associated_user: self.associated_user,
            user: self.user,
            holder_stats: self.holder_stats,
        }
    }
}

/// What a buy settled on, for the caller to carry out on the ledger.
#[derive(Clone, Copy, Debug, PartialEq, Eq)]
pub struct BuyReceipt {
    /// Tokens the curve's token account owes the buyer.
    pub token_amount: u64,
    /// Lamports the buyer owes the curve, without the fee.
    pub sol_cost: u64,
    /// The fee on top. The buyer owes its platform part to the fee
    /// recipient and the rest to the curve.
    pub fee: u64,
    pub split: FeeSplit,
    /// What the controller did; its burn amount is to be destroyed.
    pub buyback: BuybackOutcome,
    /// Set where this buy completed the curve.
    pub completed: Option<CompleteEvent>,
    pub trade: TradeEvent,
}

/// What a sell settled on, for the caller to carry out on the ledger.
#[derive(Clone, Copy, Debug, PartialEq, Eq)]
pub struct SellReceipt {
    /// Tokens the seller owes the curve's token account.
    pub token_amount: u64,
    /// The proceeds, before the fee.
    pub sol_output: u64,
    pub fee: u64,
    /// Lamports that moved from the curve's account to the seller.
    pub payout: u64,
    pub split: FeeSplit,
    /// What the controller did; its burn amount is to be destroyed.
    pub buyback: BuybackOutcome,
    pub trade: TradeEvent,
}

/// What a trade is priced at.
#[derive(Clone, Copy, Debug, PartialEq, Eq, Structural)]
pub struct Terms {
    /// Tokens that change hands.
    pub tokens: u64,
    /// The quote for them.
    pub quote: u64,
    /// The fee on the quote.
    pub fee: u64,
}

impl BondingCurve {
    /// The curve with the pooled parts of a fee booked: each of the
    /// creator, treasury and early-bird parts joins its pool and its
    /// lifetime counter. None where one of them would exceed 64 bits.
    pub open spec fn with_fees(self, split: FeeSplit) -> Option<BondingCurve> {
        if self.creator_fee_pool + split.creator > u64::MAX || self.treasury_fee_pool
            + split.treasury > u64::MAX || self.early_bird_pool + split.early_bird > u64::MAX
            || self.total_fees_accrued + split.creator > u64::MAX
            || self.total_treasury_fees_accrued + split.treasury > u64::MAX
            || self.total_early_bird_fees_accrued + split.early_bird > u64::MAX {
            None
        } else {
            Some(
                BondingCurve {
                    creator_fee_pool: (self.creator_fee_pool + split.creator) as u64,
                    treasury_fee_pool: (self.treasury_fee_pool + split.treasury) as u64,
                    early_bird_pool: (self.early_bird_pool + split.early_bird) as u64,
                    total_fees_accrued: (self.total_fees_accrued + split.creator) as u64,
                    total_treasury_fees_accrued: (self.total_treasury_fees_accrued
                        + split.treasury) as u64,
                    total_early_bird_fees_accrued: (self.total_early_bird_fees_accrued
                        + split.early_bird) as u64,
                    ..self
                },
            )
        }
    }

    /// Books the pooled parts of a fee. Refused, with the curve untouched,
    /// where a pool or counter would exceed 64 bits.
    pub fn book_fees(&mut self, split: &FeeSplit) -> (done: Result<(), HorseFunError>)
        ensures
            match done {
                Ok(()) => old(self).with_fees(*split) == Some(*final(self)),
                Err(e) => {
                    &&& e == HorseFunError::ArithmeticOverflow
                    &&& old(self).with_fees(*split) is None
                    &&& *final(self) == *old(self)
                },
            },
    {
        let creator_pool = self.creator_fee_pool.checked_add(split.creator);
        let treasury_pool = self.treasury_fee_pool.checked_add(split.treasury);
        let early_bird_pool = self.early_bird_pool.checked_add(split.early_bird);
        let creator_total = self.total_fees_accrued.checked_add(split.creator);
        let treasury_total = self.total_treasury_fees_accrued.checked_add(split.treasury);
        let early_bird_total = self.total_early_bird_fees_accrued.checked_add(split.early_bird);
        match (
            creator_pool,
            treasury_pool,
            early_bird_pool,
            creator_total,
            treasury_total,
            early_bird_total,
        ) {
            (
                Some(creator_pool),
                Some(treasury_pool),
                Some(early_bird_pool),
                Some(creator_total),
                Some(treasury_total),
                Some(early_bird_total),
            ) => {
                self.creator_fee_pool = creator_pool;
                self.treasury_fee_pool = treasury_pool;
                self.early_bird_pool = early_bird_pool;
                self.total_fees_accrued = creator_total;
                self.total_treasury_fees_accrued = treasury_total;
                self.total_early_bird_fees_accrued = early_bird_total;
                Ok(())
            },
            _ => Err(HorseFunError::ArithmeticOverflow),
        }
    }
}

impl HolderStats {
    /// The record after a buy of `amount` tokens for `cost` lamports.
    /// None where the balance or the volume would exceed 64 bits.
    pub open spec fn bought(self, amount: u64, cost: u64) -> Option<HolderStats> {
        if self.current_balance + amount > u64::MAX || self.total_volume + cost > u64::MAX {
            None
        } else {
            Some(
                HolderStats {
                    current_balance: (self.current_balance + amount) as u64,
                    total_volume: (self.total_volume + cost) as u64,
                    ..self
                },
            )
        }
    }

    /// The record after a sale of `amount` tokens. None where the holder
    /// has fewer.
    pub open spec fn gave(self, amount: u64) -> Option<HolderStats> {
        if self.current_balance < amount {
            None
        } else {
            Some(HolderStats { current_balance: (self.current_balance - amount) as u64, ..self })
        }
    }
}

/// The curve with a fee of `fee` lamports shared out, and the parts.
/// Refused where `recipient` is not the configured fee recipient, or
/// where a part, a pool or a counter would exceed 64 bits.
pub open spec fn fees_booked(global: Global, recipient: Pubkey, curve: BondingCurve, fee: u64)
    -> Result<(BondingCurve, FeeSplit), HorseFunError> {
    if global.fee_recipient != recipient {
        Err(HorseFunError::NotAuthorized)
    } else if !global.splits_fit(fee) {
        Err(HorseFunError::ArithmeticOverflow)
    } else {
        match curve.with_fees(global.split_of(fee)) {
            None => Err(HorseFunError::ArithmeticOverflow),
            Some(booked) => Ok((booked, global.split_of(fee))),
        }
    }
}

/// The record of a trade, taken from the state after it.
pub open spec fn trade_record(
    global: Global,
    curve: BondingCurve,
    holder: HolderStats,
    user: Pubkey,
    mint: Pubkey,
    is_buy: bool,
    terms: Terms,
    split: FeeSplit,
    buyback: BuybackOutcome,
    timestamp: i64,
) -> TradeEvent {
    TradeEvent {
        mint,
        sol_amount: terms.quote,
        token_amount: terms.tokens,
        is_buy,
        user,
        timestamp,
        virtual_sol_reserves: curve.virtual_sol_reserves,
        virtual_token_reserves: curve.virtual_token_reserves,
        circulating_supply: curve.circulating_supply,
        real_token_reserves: curve.real_token_reserves,
        real_sol_reserves: curve.real_sol_reserves,
        creator_fee_pool: curve.creator_fee_pool,
        treasury_fee_pool: curve.treasury_fee_pool,
        total_fees_accrued: curve.total_fees_accrued,
        total_treasury_fees_accrued: curve.total_treasury_fees_accrued,
        creator_fee_amount: split.creator,
        fee_recipient: curve.creator_wallet,
        is_buyback: buyback.is_buyback,
        burn_amount: buyback.burn_amount,
        price_lamports_per_token: buyback.price_lamports_per_token,
        total_burned_supply: curve.total_burned_supply,
        total_treasury_spent: curve.total_treasury_spent,
        early_bird_pool: curve.early_bird_pool,
        total_early_bird_fees_accrued: curve.total_early_bird_fees_accrued,
        user_position: holder.entry_position,
        user_balance: holder.current_balance,
        early_bird_cutoff: global.early_bird_cutoff,
        total_buyers: curve.total_buyers,
        early_bird_valid_count: curve.early_bird_valid_count,
        is_early_bird: holder.holds_seat(global.early_bird_cutoff),
    }
}

/// Writes the record of a trade from the state after it.
fn record_trade(
    global: &Global,
    curve: &BondingCurve,
    holder: &HolderStats,
    user: Pubkey,
    mint: Pubkey,
    is_buy: bool,
    terms: &Terms,
    split: &FeeSplit,
    buyback: &BuybackOutcome,
    timestamp: i64,
) -> (event: TradeEvent)
    ensures
        event == trade_record(
            *global,
            *curve,
            *holder,
            user,
            mint,
            is_buy,
            *terms,
            *split,
            *buyback,
            timestamp,
        ),
{
    TradeEvent {
        mint,
        sol_amount: terms.quote,
        token_amount: terms.tokens,
        is_buy,
        user,
        timestamp,
        virtual_sol_reserves: curve.virtual_sol_reserves,
        virtual_token_reserves: curve.virtual_token_reserves,
        circulating_supply: curve.circulating_supply,
        real_token_reserves: curve.real_token_reserves,
        real_sol_reserves: curve.real_sol_reserves,
        creator_fee_pool: curve.creator_fee_pool,
        treasury_fee_pool: curve.treasury_fee_pool,
        total_fees_accrued: curve.total_fees_accrued,
        total_treasury_fees_accrued: curve.total_treasury_fees_accrued,
        creator_fee_amount: split.creator,
        fee_recipient: curve.creator_wallet,
        is_buyback: buyback.is_buyback,
        burn_amount: buyback.burn_amount,
        price_lamports_per_token: buyback.price_lamports_per_token,
        total_burned_supply: curve.total_burned_supply,
        total_treasury_spent: curve.total_treasury_spent,
        early_bird_pool: curve.early_bird_pool,
        total_early_bird_fees_accrued: curve.total_early_bird_fees_accrued,
        user_position: holder.entry_position,
        user_balance: holder.current_balance,
        early_bird_cutoff: global.early_bird_cutoff,
        total_buyers: curve.total_buyers,
        early_bird_valid_count: curve.early_bird_valid_count,
        is_early_bird: holder.is_early_bird(global.early_bird_cutoff),
    }
}

impl Buy {
    /// What the buy is priced at, or why it is refused before anything
    /// moves. The request is capped by what the curve has for sale. In
    /// order: the capped amount has no safe quote or the fee exceeds 64
    /// bits; quote and fee together exceed `max_sol_cost`; the curve's
    /// token account holds another asset; the curve is complete.
    pub open spec fn terms(self, amount: u64, max_sol_cost: u64) -> Result<Terms, HorseFunError> {
        let tokens = min_int(amount as int, self.bonding_curve.real_token_reserves as int) as u64;
        match self.bonding_curve.safe_buy_cost(tokens) {
            None => Err(HorseFunError::ArithmeticOverflow),
            Some(quote) => {
                if self.global.fee_of(quote) > u64::MAX {
                    Err(HorseFunError::ArithmeticOverflow)
                } else if quote + self.global.fee_of(quote) > max_sol_cost {
                    Err(HorseFunError::TooMuchSolRequired)
                } else if self.associated_bonding_curve.mint != self.mint {
                    Err(HorseFunError::MintDoesNotMatchBondingCurve)
                } else if self.bonding_curve.complete {
                    Err(HorseFunError::BondingCurveComplete)
                } else {
                    Ok(Terms { tokens, quote, fee: self.global.fee_of(quote) as u64 })
                }
            },
        }
    }

    /// The accounts after the buy and its receipt, or why it is refused.
    ///
    /// A buy that passes its terms moves the reserves; completes the curve
    /// where that took the last token for sale; shares out the fee; adds
    /// to the buyer's balance and volume; considers the buyer for a rank;
    /// and runs the buyback controller. It is refused where any of these
    /// steps is.
    pub open spec fn outcome(self, amount: u64, max_sol_cost: u64, timestamp: i64) -> Result<
        (Buy, BuyReceipt),
        HorseFunError,
    > {
        match self.terms(amount, max_sol_cost) {
            Err(e) => Err(e),
            Ok(terms) => match self.bonding_curve.purchased(terms.tokens, terms.quote) {
                None => Err(HorseFunError::ArithmeticOverflow),
                Some(moved) => match fees_booked(
                    self.global,
                    self.fee_recipient.key,
                    moved.finished_if_drained(),
                    terms.fee,
                ) {
                    Err(e) => Err(e),
                    Ok((booked, split)) => match self.holder_stats.bought(
                        terms.tokens,
                        terms.quote,
                    ) {
                        None => Err(HorseFunError::ArithmeticOverflow),
                        Some(paid) => match qualified(paid, booked, self.global, terms.quote) {
                            None => Err(HorseFunError::ArithmeticOverflow),
                            Some((holder, ranked)) => match ranked.buyback_step(
                                self.global,
                                self.associated_bonding_curve.amount,
                            ) {
                                Err(e) => Err(e),
                                Ok((curve, buyback)) => Ok(
                                    (
                                        Buy { bonding_curve: curve, holder_stats: holder, ..self },
                                        BuyReceipt {
                                            token_amount: terms.tokens,
                                            sol_cost: terms.quote,
                                            fee: terms.fee,
                                            split,
                                            buyback,
                                            completed: if moved.real_token_reserves == 0 {
                                                Some(
                                                    CompleteEvent {
                                                        user: self.user.key,
                                                        mint: self.mint,
                                                        bonding_curve: self.bonding_curve_info.key,
                                                        timestamp,
                                                        early_bird_pool: moved.early_bird_pool,
                                                    },
                                                )
                                            } else {
                                                None
                                            },
                                            trade: trade_record(
                                                self.global,
                                                curve,
                                                holder,
                                                self.user.key,
                                                self.mint,
                                                true,
                                                terms,
                                                split,
                                                buyback,
                                                timestamp,
                                            ),
                                        },
                                    ),
                                ),
                            },
                        },
                    },
                },
            },
        }
    }
}

impl Sell {
    /// What the sell is priced at, or why it is refused before anything
    /// moves. In order: there is no quote or the fee exceeds 64 bits; the
    /// proceeds less the fee are under `min_sol_output`; the curve's token
    /// account holds another asset; the curve is complete.
    pub open spec fn terms(self, amount: u64, min_sol_output: u64) -> Result<
        Terms,
        HorseFunError,
    > {
        match self.bonding_curve.safe_sell_proceeds(amount) {
            None => Err(HorseFunError::ArithmeticOverflow),
            Some(quote) => {
                if self.global.fee_of(quote) > u64::MAX {
                    Err(HorseFunError::ArithmeticOverflow)
                } else if sat_sub(quote as int, self.global.fee_of(quote)) < min_sol_output {
                    Err(HorseFunError::TooLittleSolReceived)
                } else if self.associated_bonding_curve.mint != self.mint {
                    Err(HorseFunError::MintDoesNotMatchBondingCurve)
                } else if self.bonding_curve.complete {
                    Err(HorseFunError::BondingCurveComplete)
                } else {
                    Ok(Terms { tokens: amount, quote, fee: self.global.fee_of(quote) as u64 })
                }
            },
        }
    }

    /// The accounts after the fee of a sell is shared out, and the parts:
    /// the pooled parts are booked with the curve, and the platform's
    /// part, unless it is 0, moves from the curve's account to the fee
    /// recipient.
    pub open spec fn fee_settled(self, fee: u64) -> Result<(Sell, FeeSplit), HorseFunError> {
        match fees_booked(self.global, self.fee_recipient.key, self.bonding_curve, fee) {
            Err(e) => Err(e),
            Ok((booked, split)) => {
                if split.platform == 0 {
                    Ok((Sell { bonding_curve: booked, ..self }, split))
                } else {
                    match pda_transfer_outcome(
                        self.bonding_curve_info,
                        self.fee_recipient,
                        split.platform,
                    ) {
                        Err(e) => Err(e),
                        Ok((payer, receiver)) => Ok(
                            (
                                Sell {
                                    bonding_curve: booked,
                                    bonding_curve_info: payer,
                                    fee_recipient: receiver,
                                    ..self
                                },
                                split,
                            ),
                        ),
                    }
                }
            },
        }
    }

    /// The accounts after the sell and its receipt, or why it is refused.
    ///
    /// A sell that passes its terms moves the reserves; shares out the fee
    /// and pays the platform its part; takes the tokens off the seller's
    /// balance; takes the seller's rank; runs the buyback controller; and
    /// pays the seller the proceeds less the fee from the curve's account.
    /// It is refused where any of these steps is.
    pub open spec fn outcome(self, amount: u64, min_sol_output: u64, timestamp: i64) -> Result<
        (Sell, SellReceipt),
        HorseFunError,
    > {
        match self.terms(amount, min_sol_output) {
            Err(e) => Err(e),
            Ok(terms) => match (Sell {
                bonding_curve: self.bonding_curve.sold(terms.tokens, terms.quote),
                ..self
            }).fee_settled(terms.fee) {
                Err(e) => Err(e),
                Ok((settled, split)) => match settled.holder_stats.gave(terms.tokens) {
                    None => Err(HorseFunError::ArithmeticOverflow),
                    Some(gave) => {
                        let (holder, unseated) = revoked(gave, settled.bonding_curve, self.global);
                        match unseated.buyback_step(
                            self.global,
                            self.associated_bonding_curve.amount,
                        ) {
                            Err(e) => Err(e),
                            Ok((curve, buyback)) => {
                                let payout = sat_sub(terms.quote as int, terms.fee as int) as u64;
                                match pda_transfer_outcome(
                                    settled.bonding_curve_info,
                                    settled.user,
                                    payout,
                                ) {
                                    Err(e) => Err(e),
                                    Ok((payer, seller)) => Ok(
                                        (
                                            Sell {
                                                bonding_curve: curve,
                                                holder_stats: holder,
                                                bonding_curve_info: payer,
                                                user: seller,
                                                ..settled
                                            },
                                            SellReceipt {
                                                token_amount: terms.tokens,
                                                sol_output: terms.quote,
                                                fee: terms.fee,
                                                payout,
                                                split,
                                                buyback,
                                                trade: trade_record(
                                                    self.global,
                                                    curve,
                                                    holder,
                                                    self.user.key,
                                                    self.mint,
                                                    false,
                                                    terms,
                                                    split,
                                                    buyback,
                                                    timestamp,
                                                ),
                                            },
                                        ),
                                    ),
                                }
                            },
                        }
                    },
                },
            },
        }
    }
}

/// Shares out the fee of a buy: checks the fee recipient, splits the fee,
/// and books the creator, treasury and early-bird parts with the curve.
/// The parts are returned for the buyer to pay: the platform's to the fee
/// recipient, the others to the curve's account. A refusal changes
/// nothing.
pub fn transfer_sol_from_user_to_fee_recipient(ctx: &mut Buy, fee_amount: u64) -> (done: Result<
    FeeSplit,
    HorseFunError,
>)
    ensures
        match done {
            Ok(split) => {
                &&& fees_booked(
                    old(ctx).global,
                    old(ctx).fee_recipient.key,
                    old(ctx).bonding_curve,
                    fee_amount,
                ) == Ok::<(BondingCurve, FeeSplit), HorseFunError>(
                    (final(ctx).bonding_curve, split),
                )
                &&& *final(ctx) == (Buy { bonding_curve: final(ctx).bonding_curve, ..*old(ctx) })
            },
            Err(e) => {
                &&& fees_booked(
                    old(ctx).global,
                    old(ctx).fee_recipient.key,
                    old(ctx).bonding_curve,
                    fee_amount,
                ) == Err::<(BondingCurve, FeeSplit), HorseFunError>(e)
                &&& *final(ctx) == *old(ctx)
            },
        },
{
    if ctx.global.fee_recipient != ctx.fee_recipient.key {
        return Err(HorseFunError::NotAuthorized);
    }
    let split = match ctx.global.checked_fee_splits(fee_amount) {
        None => {
            return Err(HorseFunError::ArithmeticOverflow);
        },
        Some(split) => split,
    };
    match ctx.bonding_curve.book_fees(&split) {
        Err(e) => Err(e),
        Ok(()) => Ok(split),
    }
}

/// Shares out the fee of a sell: checks the fee recipient, splits the
/// fee, books the creator, treasury and early-bird parts with the curve,
/// and moves the platform's part, unless it is 0, from the curve's account
/// to the fee recipient. A refusal changes nothing.
pub fn transfer_sol_from_bonding_curve_to_fee_recipient(ctx: &mut Sell, sol_amount: u64) -> (done:
    Result<FeeSplit, HorseFunError>)
    ensures
        match done {
            Ok(split) => old(ctx).fee_settled(sol_amount) == Ok::<(Sell, FeeSplit), HorseFunError>(
                (*final(ctx), split),
            ),
            Err(e) => {
                &&& old(ctx).fee_settled(sol_amount) == Err::<(Sell, FeeSplit), HorseFunError>(e)
                &&& *final(ctx) == *old(ctx)
            },
        },
{
    if ctx.global.fee_recipient != ctx.fee_recipient.key {
        return Err(HorseFunError::NotAuthorized);
    }
    let split = match ctx.global.checked_fee_splits(sol_amount) {
        None => {
            return Err(HorseFunError::ArithmeticOverflow);
        },
        Some(split) => split,
    };
    let mut curve = ctx.bonding_curve.clone();
    match curve.book_fees(&split) {
        Err(e) => {
            return Err(e);
        },
        Ok(()) => {},
    }
    if split.platform > 0 {
        match pda_transfer_lamports(
            &mut ctx.bonding_curve_info,
            &mut ctx.fee_recipient,
            split.platform,
        ) {
            Err(e) => {
                return Err(e);
            },
            Ok(()) => {},
        }
    }
    ctx.bonding_curve = curve;
    Ok(split)
}

/// Pays the seller `sol_amount` lamports from the curve's account.
/// Refused, with nothing changed, where the curve's account cannot pay.
pub fn transfer_sol_from_bonding_curve_to_user(ctx: &mut Sell, sol_amount: u64) -> (done: Result<
    (),
    HorseFunError,
>)
    ensures
        match done {
            Ok(()) => {
                &&& pda_transfer_outcome(old(ctx).bonding_curve_info, old(ctx).user, sol_amount)
                    == Ok::<(AccountInfo, AccountInfo), HorseFunError>(
                    (final(ctx).bonding_curve_info, final(ctx).user),
                )
                &&& *final(ctx) == (Sell {
                    bonding_curve_info: final(ctx).bonding_curve_info,
                    user: final(ctx).user,
                    ..*old(ctx)
                })
            },
            Err(e) => {
                &&& pda_transfer_outcome(old(ctx).bonding_curve_info, old(ctx).user, sol_amount)
                    == Err::<(AccountInfo, AccountInfo), HorseFunError>(e)
                &&& *final(ctx) == *old(ctx)
            },
        },
{
    pda_transfer_lamports(&mut ctx.bonding_curve_info, &mut ctx.user, sol_amount)
}

/// Prices a buy and checks it against the buyer's bound.
pub fn buy_terms(ctx: &Buy, amount: u64, max_sol_cost: u64) -> (done: Result<Terms, HorseFunError>)
    ensures
        done == ctx.terms(amount, max_sol_cost),
{
    let tokens = min_u64(amount, ctx.bonding_curve.real_token_reserves);
    let quote = match ctx.bonding_curve.quote_buy(tokens) {
        None => {
            return Err(HorseFunError::ArithmeticOverflow);
        },
        Some(quote) => quote,
    };
    let fee = match ctx.global.checked_fee(quote) {
        None => {
            return Err(HorseFunError::ArithmeticOverflow);
        },
        Some(fee) => fee,
    };
    if quote as u128 + fee as u128 > max_sol_cost as u128 {
        return Err(HorseFunError::TooMuchSolRequired);
    }
    if ctx.associated_bonding_curve.mint != ctx.mint {
        return Err(HorseFunError::MintDoesNotMatchBondingCurve);
    }
    if ctx.bonding_curve.complete {
        return Err(HorseFunError::BondingCurveComplete);
    }
    Ok(Terms { tokens, quote, fee })
}

/// Prices a sell and checks it against the seller's bound.
pub fn sell_terms(ctx: &Sell, amount: u64, min_sol_output: u64) -> (done: Result<
    Terms,
    HorseFunError,
>)
    ensures
        done == ctx.terms(amount, min_sol_output),
{
    let quote = match ctx.bonding_curve.quote_sell(amount) {
        None => {
            return Err(HorseFunError::ArithmeticOverflow);
        },
        Some(quote) => quote,
    };
    let fee = match ctx.global.checked_fee(quote) {
        None => {
            return Err(HorseFunError::ArithmeticOverflow);
        },
        Some(fee) => fee,
    };
    if quote.saturating_sub(fee) < min_sol_output {
        return Err(HorseFunError::TooLittleSolReceived);
    }
    if ctx.associated_bonding_curve.mint != ctx.mint {
        return Err(HorseFunError::MintDoesNotMatchBondingCurve);
    }
    if ctx.bonding_curve.complete {
        return Err(HorseFunError::BondingCurveComplete);
    }
    Ok(Terms { tokens: amount, quote, fee })
}

/// Carries a buy through on `ctx`. Where it is refused, `ctx` may be left
/// half-way.
fn settle_buy(ctx: &mut Buy, amount: u64, max_sol_cost: u64, timestamp: i64) -> (done: Result<
    BuyReceipt,
    HorseFunError,
>)
    ensures
        match done {
            Ok(receipt) => old(ctx).outcome(amount, max_sol_cost, timestamp) == Ok::<
                (Buy, BuyReceipt),
                HorseFunError,
            >((*final(ctx), receipt)),
            Err(e) => old(ctx).outcome(amount, max_sol_cost, timestamp) == Err::<
                (Buy, BuyReceipt),
                HorseFunError,
            >(e),
        },
{
    let terms = match buy_terms(ctx, amount, max_sol_cost) {
        Err(e) => {
            return Err(e);
        },
        Ok(terms) => terms,
    };
    match ctx.bonding_curve.apply_purchase(terms.tokens, terms.quote) {
        Err(e) => {
            return Err(e);
        },
        Ok(()) => {},
    }
    let pool_at_completion = ctx.bonding_curve.early_bird_pool;
    let finished = ctx.bonding_curve.finish_if_drained();
    let split = match transfer_sol_from_user_to_fee_recipient(ctx, terms.fee) {
        Err(e) => {
            return Err(e);
        },
        Ok(split) => split,
    };
    let balance = ctx.holder_stats.current_balance.checked_add(terms.tokens);
    let volume = ctx.holder_stats.total_volume.checked_add(terms.quote);
    match (balance, volume) {
        (Some(balance), Some(volume)) => {
            ctx.holder_stats.current_balance = balance;
            ctx.holder_stats.total_volume = volume;
        },
        _ => {
            return Err(HorseFunError::ArithmeticOverflow);
        },
    }
    match qualify_first_buy(
        &mut ctx.holder_stats,
        &mut ctx.bonding_curve,
        &ctx.global,
        terms.quote,
    ) {
        Err(e) => {
            return Err(e);
        },
        Ok(()) => {},
    }
    let buyback = match run_buyback(
        &mut ctx.bonding_curve,
        &ctx.global,
        ctx.associated_bonding_curve.amount,
    ) {
        Err(e) => {
            return Err(e);
        },
        Ok(buyback) => buyback,
    };
    let completed = if finished {
        Some(
            CompleteEvent {
                user: ctx.user.key,
                mint: ctx.mint,
                bonding_curve: ctx.bonding_curve_info.key,
                timestamp,
                early_bird_pool: pool_at_completion,
            },
        )
    } else {
        None
    };
    let trade = record_trade(
        &ctx.global,
        &ctx.bonding_curve,
        &ctx.holder_stats,
        ctx.user.key,
        ctx.mint,
        true,
        &terms,
        &split,
        &buyback,
        timestamp,
    );
    Ok(
        BuyReceipt {
            token_amount: terms.tokens,
            sol_cost: terms.quote,
            fee: terms.fee,
            split,
            buyback,
            completed,
            trade,
        },
    )
}

/// Carries a sell through on `ctx`. Where it is refused, `ctx` may be
/// left half-way.
fn settle_sell(ctx: &mut Sell, amount: u64, min_sol_output: u64, timestamp: i64) -> (done: Result<
    SellReceipt,
    HorseFunError,
>)
    ensures
        match done {
            Ok(receipt) => old(ctx).outcome(amount, min_sol_output, timestamp) == Ok::<
                (Sell, SellReceipt),
                HorseFunError,
            >((*final(ctx), receipt)),
            Err(e) => old(ctx).outcome(amount, min_sol_output, timestamp) == Err::<
                (Sell, SellReceipt),
                HorseFunError,
            >(e),
        },
{
    let terms = match sell_terms(ctx, amount, min_sol_output) {
        Err(e) => {
            return Err(e);
        },
        Ok(terms) => terms,
    };
    ctx.bonding_curve.apply_sale(terms.tokens, terms.quote);
    let split = match transfer_sol_from_bonding_curve_to_fee_recipient(ctx, terms.fee) {
        Err(e) => {
            return Err(e);
        },
        Ok(split) => split,
    };
    match ctx.holder_stats.current_balance.checked_sub(terms.tokens) {
        None => {
            return Err(HorseFunError::ArithmeticOverflow);
        },
        Some(balance) => {
            ctx.holder_stats.current_balance = balance;
        },
    }
    revoke_early_bird_status(&mut ctx.holder_stats, &mut ctx.bonding_curve, &ctx.global);
    let buyback = match run_buyback(
        &mut ctx.bonding_curve,
        &ctx.global,
        ctx.associated_bonding_curve.amount,
    ) {
        Err(e) => {
            return Err(e);
        },
        Ok(buyback) => buyback,
    };
    let payout = terms.quote.saturating_sub(terms.fee);
    let seller = ctx.user.key;
    match transfer_sol_from_bonding_curve_to_user(ctx, payout) {
        Err(e) => {
            return Err(e);
        },
        Ok(()) => {},
    }
    let trade = record_trade(
        &ctx.global,
        &ctx.bonding_curve,
        &ctx.holder_stats,
        seller,
        ctx.mint,
        false,
        &terms,
        &split,
        &buyback,
        timestamp,
    );
    Ok(
        SellReceipt {
            token_amount: terms.tokens,
            sol_output: terms.quote,
            fee: terms.fee,
            payout,
            split,
            buyback,
            trade,
        },
    )
}

/// Buys up to `amount` tokens from the curve for at most `max_sol_cost`
/// lamports, fee included. `timestamp` is the time of the trade. A
/// refused buy changes nothing.
pub fn buy(ctx: &mut Buy, amount: u64, max_sol_cost: u64, timestamp: i64) -> (done: Result<
    BuyReceipt,
    HorseFunError,
>)
    ensures
        match done {
            Ok(receipt) => old(ctx).outcome(amount, max_sol_cost, timestamp) == Ok::<
                (Buy, BuyReceipt),
                HorseFunError,
            >((*final(ctx), receipt)),
            Err(e) => {
                &&& old(ctx).outcome(amount, max_sol_cost, timestamp) == Err::<
                    (Buy, BuyReceipt),
                    HorseFunError,
                >(e)
                &&& *final(ctx) == *old(ctx)
            },
        },
        old(ctx).bonding_curve.complete ==> done is Err,
        done is Ok ==> final(ctx).bonding_curve.complete == (old(ctx).bonding_curve.real_token_reserves <= amount),
        final(ctx).bonding_curve.complete ==> old(ctx).bonding_curve.complete || final(ctx).bonding_curve.real_token_reserves == 0,
        old(ctx).holder_stats.entry_position == REVOKED_POSITION ==> final(ctx).holder_stats.entry_position == REVOKED_POSITION,
        old(ctx).bonding_curve.completion_consistent() ==> final(ctx).bonding_curve.completion_consistent(),
        (old(ctx).bonding_curve.supply_consistent() && old(ctx).associated_bonding_curve.amount
            <= old(ctx).bonding_curve.circulating_supply) ==> final(ctx).bonding_curve.supply_consistent(),
        old(ctx).bonding_curve.burn_cap_reached(old(ctx).global.buyback_params) ==> final(ctx).bonding_curve.total_burned_supply == old(ctx).bonding_curve.total_burned_supply,
{
    let mut work = ctx.clone();
    match settle_buy(&mut work, amount, max_sol_cost, timestamp) {
        Err(e) => Err(e),
        Ok(receipt) => {
            proof {
                lemma_buy_accepted(*ctx, amount, max_sol_cost, timestamp);
                lemma_buy_keeps_curve_sound(*ctx, amount, max_sol_cost, timestamp);
                lemma_buy_respects_burn_cap(*ctx, amount, max_sol_cost, timestamp);
            }
            *ctx = work;
            Ok(receipt)
        },
    }
}

/// Sells `amount` tokens into the curve for at least `min_sol_output`
/// lamports after the fee. `timestamp` is the time of the trade. A refused
/// sell changes nothing.
pub fn sell(ctx: &mut Sell, amount: u64, min_sol_output: u64, timestamp: i64) -> (done: Result<
    SellReceipt,
    HorseFunError,
>)
    ensures
        match done {
            Ok(receipt) => old(ctx).outcome(amount, min_sol_output, timestamp) == Ok::<
                (Sell, SellReceipt),
                HorseFunError,
            >((*final(ctx), receipt)),
            Err(e) => {
                &&& old(ctx).outcome(amount, min_sol_output, timestamp) == Err::<
                    (Sell, SellReceipt),
                    HorseFunError,
                >(e)
                &&& *final(ctx) == *old(ctx)
            },
        },
        old(ctx).bonding_curve.complete ==> done is Err,
        final(ctx).bonding_curve.complete == old(ctx).bonding_curve.complete,
        final(ctx).bonding_curve.early_bird_share_per_seat == old(ctx).bonding_curve.early_bird_share_per_seat,
        old(ctx).holder_stats.entry_position == REVOKED_POSITION ==> final(ctx).holder_stats.entry_position == REVOKED_POSITION,
        (done is Ok && old(ctx).holder_stats.entry_position != 0) ==> final(ctx).holder_stats.entry_position == REVOKED_POSITION,
        old(ctx).bonding_curve.completion_consistent() ==> final(ctx).bonding_curve.completion_consistent(),
        (old(ctx).bonding_curve.supply_consistent() && old(ctx).associated_bonding_curve.amount
            <= old(ctx).bonding_curve.circulating_supply) ==> final(ctx).bonding_curve.supply_consistent(),
        old(ctx).bonding_curve.burn_cap_reached(old(ctx).global.buyback_params) ==> final(ctx).bonding_curve.total_burned_supply == old(ctx).bonding_curve.total_burned_supply,
{
    let mut work = ctx.clone();
    match settle_sell(&mut work, amount, min_sol_output, timestamp) {
        Err(e) => Err(e),
        Ok(receipt) => {
            proof {
                lemma_sell_accepted(*ctx, amount, min_sol_output, timestamp);
                lemma_sell_keeps_curve_sound(*ctx, amount, min_sol_output, timestamp);
                lemma_sell_respects_burn_cap(*ctx, amount, min_sol_output, timestamp);
            }
            *ctx = work;
            Ok(receipt)
        },
    }
}

} // verus!
