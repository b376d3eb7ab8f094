use yoink::accounts::{AccountInfo, TokenAccount};
use yoink::buyback::BuybackOutcome;
use yoink::curve::BondingCurve;
use yoink::errors::HorseFunError;
use yoink::events::{CompleteEvent, TradeEvent};
use yoink::global::{BuybackParams, FeeSplit, Global};
use yoink::holder::{HolderStats, REVOKED_POSITION};
use yoink::keys::{program_id, Pubkey};
use yoink::trade::{
    buy, buy_terms, sell, sell_terms, transfer_sol_from_bonding_curve_to_fee_recipient,
    transfer_sol_from_bonding_curve_to_user, transfer_sol_from_user_to_fee_recipient, Buy, Sell,
};

fn key(tag: u8) -> Pubkey {
    Pubkey::new_from_array([tag; 32])
}

fn config() -> Global {
    Global {
        initialized: true,
        authority: key(1),
        fee_recipient: key(2),
        initial_virtual_token_reserves: 1_073_000_000_000_000,
        initial_virtual_sol_reserves: 30_000_000_000,
        initial_real_token_reserves: 793_100_000_000_000,
        token_total_supply: 1_000_000_000_000_000,
        fee_basis_points: 100,
        creator_fee_share: 3000,
        platform_fee_share: 5000,
        treasury_fee_share: 1500,
        early_bird_fee_share: 500,
        buybacks_enabled: false,
        buyback_params: BuybackParams {
            backing_mult_bps: 11000,
            ema_drop_bps: 9500,
            ema_alpha_bps: 2000,
            spend_bps: 2000,
            max_supply_bps: 1000,
            min_backing_lamports: 0,
            max_burn_percentage_bps: 2500,
        },
        early_bird_enabled: true,
        early_bird_cutoff: 2,
        early_bird_min_buy_sol: 0,
    }
}

fn curve() -> BondingCurve {
    BondingCurve {
        virtual_token_reserves: 1_073_000_000_000_000,
        virtual_sol_reserves: 30_000_000_000,
        real_token_reserves: 793_100_000_000_000,
        real_sol_reserves: 0,
        token_total_supply: 1_000_000_000_000_000,
        circulating_supply: 1_000_000_000_000_000,
        complete: false,
        creator_wallet: key(9),
        creator_streamer_id: None,
        creator_fee_pool: 0,
        treasury_fee_pool: 0,
        total_fees_accrued: 0,
        total_treasury_fees_accrued: 0,
        ema_lot_price: 0,
        total_burned_supply: 0,
        total_treasury_spent: 0,
        early_bird_pool: 0,
        total_buyers: 0,
        total_early_bird_fees_accrued: 0,
        early_bird_valid_count: 0,
        early_bird_share_per_seat: 0,
    }
}

fn small_curve() -> BondingCurve {
    let mut c = curve();
    c.virtual_token_reserves = 1_000_000;
    c.virtual_sol_reserves = 30;
    c.real_token_reserves = 1_000_000;
    c.token_total_supply = 1_000_000;
    c.circulating_supply = 1_000_000;
    c
}

fn holder() -> HolderStats {
    HolderStats {
        user: key(5),
        mint: key(3),
        current_balance: 0,
        fees_claimed: 0,
        entry_position: 0,
        total_volume: 0,
    }
}

fn account(tag: u8, lamports: u64) -> AccountInfo {
    AccountInfo { key: key(tag), owner: key(0), lamports }
}

fn curve_account(lamports: u64) -> AccountInfo {
    AccountInfo { key: key(4), owner: program_id(), lamports }
}

fn buy_ctx(bonding_curve: BondingCurve) -> Buy {
    let inventory = bonding_curve.token_total_supply;
    Buy {
        global: config(),
        fee_recipient: account(2, 0),
        mint: key(3),
        bonding_curve,
        bonding_curve_info: curve_account(1_000_000),
        associated_bonding_curve: TokenAccount { mint: key(3), amount: inventory },
        associated_user: TokenAccount { mint: key(3), amount: 0 },
        user: account(5, 1_000_000_000),
        holder_stats: holder(),
    }
}

fn sell_ctx(bonding_curve: BondingCurve, balance: u64) -> Sell {
    let mut holder_stats = holder();
    holder_stats.current_balance = balance;
    Sell {
        global: config(),
        fee_recipient: account(2, 0),
        mint: key(3),
        bonding_curve,
        bonding_curve_info: curve_account(100_000_000),
        associated_bonding_curve: TokenAccount { mint: key(3), amount: 0 },
        associated_user: TokenAccount { mint: key(3), amount: balance },
        user: account(5, 1_000),
        holder_stats,
    }
}

fn no_buyback() -> BuybackOutcome {
    BuybackOutcome {
        is_buyback: false,
        token_amount: 0,
        sol_cost: 0,
        burn_amount: 0,
        price_lamports_per_token: 0,
    }
}

#[test]
fn buy_of_a_thousand_tokens_costs_one_and_moves_the_reserves() {
    let mut ctx = buy_ctx(small_curve());
    let receipt = buy(&mut ctx, 1_000, 10, 1_700_000_000).unwrap();
    // floor(1000 * 30 / 999000) + 1
    assert_eq!(receipt.sol_cost, 1);
    assert_eq!(receipt.token_amount, 1_000);
    assert_eq!(receipt.fee, 0);
    assert_eq!(ctx.bonding_curve.virtual_token_reserves, 999_000);
    assert_eq!(ctx.bonding_curve.virtual_sol_reserves, 31);
    assert_eq!(ctx.bonding_curve.real_token_reserves, 999_000);
    assert_eq!(ctx.bonding_curve.real_sol_reserves, 1);
    assert!(!ctx.bonding_curve.complete);
    let second = buy(&mut ctx, 1_000, 10, 1_700_000_001).unwrap();
    // floor(1000 * 31 / 998000) + 1
    assert_eq!(second.sol_cost, 1);
    assert!(second.sol_cost >= receipt.sol_cost);
    assert_eq!(ctx.bonding_curve.virtual_token_reserves, 998_000);
    assert_eq!(ctx.bonding_curve.virtual_sol_reserves, 32);
}

#[test]
fn second_identical_buy_costs_strictly_more_at_lamport_scale() {
    let mut c = small_curve();
    c.virtual_sol_reserves = 30_000_000_000;
    let mut ctx = buy_ctx(c);
    let first = buy(&mut ctx, 1_000, u64::MAX, 0).unwrap();
    let second = buy(&mut ctx, 1_000, u64::MAX, 0).unwrap();
    assert_eq!(first.sol_cost, 30_030_031);
    assert_eq!(second.sol_cost, 30_090_211);
    assert!(second.sol_cost > first.sol_cost);
}

#[test]
fn buy_settles_reserves_fees_holder_and_record() {
    let mut ctx = buy_ctx(curve());
    let receipt = buy(&mut ctx, 1_000_000_000_000, 28_264_925, 1_700_000_000).unwrap();
    let split = FeeSplit { platform: 139_925, creator: 83_955, treasury: 41_977, early_bird: 13_992 };
    assert_eq!(receipt.token_amount, 1_000_000_000_000);
    assert_eq!(receipt.sol_cost, 27_985_075);
    assert_eq!(receipt.fee, 279_850);
    assert_eq!(receipt.split, split);
    assert_eq!(receipt.buyback, no_buyback());
    assert_eq!(receipt.completed, None);

    let mut expected = curve();
    expected.virtual_token_reserves = 1_072_000_000_000_000;
    expected.virtual_sol_reserves = 30_027_985_075;
    expected.real_token_reserves = 792_100_000_000_000;
    expected.real_sol_reserves = 27_985_075;
    expected.creator_fee_pool = 83_955;
    expected.treasury_fee_pool = 41_977;
    expected.early_bird_pool = 13_992;
    expected.total_fees_accrued = 83_955;
    expected.total_treasury_fees_accrued = 41_977;
    expected.total_early_bird_fees_accrued = 13_992;
    expected.total_buyers = 1;
    expected.early_bird_valid_count = 1;
    assert_eq!(ctx.bonding_curve, expected);

    let mut buyer = holder();
    buyer.current_balance = 1_000_000_000_000;
    buyer.total_volume = 27_985_075;
    buyer.entry_position = 1;
    assert_eq!(ctx.holder_stats, buyer);

    assert_eq!(
        receipt.trade,
        TradeEvent {
            mint: key(3),
            sol_amount: 27_985_075,
            token_amount: 1_000_000_000_000,
            is_buy: true,
            user: key(5),
            timestamp: 1_700_000_000,
            virtual_sol_reserves: 30_027_985_075,
            virtual_token_reserves: 1_072_000_000_000_000,
            circulating_supply: 1_000_000_000_000_000,
            real_token_reserves: 792_100_000_000_000,
            real_sol_reserves: 27_985_075,
            creator_fee_pool: 83_955,
            treasury_fee_pool: 41_977,
            total_fees_accrued: 83_955,
            total_treasury_fees_accrued: 41_977,
            creator_fee_amount: 83_955,
            fee_recipient: key(9),
            is_buyback: false,
            burn_amount: 0,
            price_lamports_per_token: 0,
            total_burned_supply: 0,
            total_treasury_spent: 0,
            early_bird_pool: 13_992,
            total_early_bird_fees_accrued: 13_992,
            user_position: 1,
            user_balance: 1_000_000_000_000,
            early_bird_cutoff: 2,
            total_buyers: 1,
            early_bird_valid_count: 1,
            is_early_bird: true,
        }
    );
}

#[test]
fn buy_at_exactly_the_bound_passes_and_one_below_is_refused() {
    let mut ctx = buy_ctx(curve());
    let before = ctx.clone();
    // cost 27985075 + fee 279850
    assert_eq!(
        buy(&mut ctx, 1_000_000_000_000, 28_264_924, 0),
        Err(HorseFunError::TooMuchSolRequired)
    );
    assert_eq!(ctx, before);
    assert!(buy(&mut ctx, 1_000_000_000_000, 28_264_925, 0).is_ok());
}

#[test]
fn buy_is_capped_by_what_is_for_sale_and_completes_the_curve() {
    let mut c = small_curve();
    c.real_token_reserves = 1_000;
    c.early_bird_pool = 100;
    c.early_bird_valid_count = 2;
    c.total_buyers = 2;
    let mut ctx = buy_ctx(c);
    let receipt = buy(&mut ctx, 5_000, 10, 42).unwrap();
    assert_eq!(receipt.token_amount, 1_000);
    assert_eq!(receipt.sol_cost, 1);
    assert!(ctx.bonding_curve.complete);
    assert_eq!(ctx.bonding_curve.real_token_reserves, 0);
    assert_eq!(ctx.bonding_curve.virtual_token_reserves, 999_000);
    assert_eq!(ctx.bonding_curve.early_bird_share_per_seat, 50);
    assert_eq!(
        receipt.completed,
        Some(CompleteEvent {
            user: key(5),
            mint: key(3),
            bonding_curve: key(4),
            timestamp: 42,
            early_bird_pool: 100,
        })
    );
    // the completing buyer ranks third, beyond the cutoff of two
    assert_eq!(ctx.holder_stats.entry_position, 3);
    assert_eq!(ctx.bonding_curve.early_bird_valid_count, 2);
    assert!(!receipt.trade.is_early_bird);
}

#[test]
fn completing_without_seats_fixes_a_reward_of_zero() {
    let mut c = small_curve();
    c.real_token_reserves = 1_000;
    c.early_bird_pool = 100;
    let mut ctx = buy_ctx(c);
    ctx.global.early_bird_enabled = false;
    buy(&mut ctx, 1_000, 10, 42).unwrap();
    assert!(ctx.bonding_curve.complete);
    assert_eq!(ctx.bonding_curve.early_bird_share_per_seat, 0);
}

#[test]
fn no_trade_is_accepted_once_complete() {
    let mut c = small_curve();
    c.real_token_reserves = 0;
    c.complete = true;
    c.early_bird_share_per_seat = 50;
    let mut ctx = buy_ctx(c.clone());
    let before = ctx.clone();
    assert_eq!(buy(&mut ctx, 1_000, 10, 0), Err(HorseFunError::BondingCurveComplete));
    assert_eq!(ctx, before);
    let mut ctx = sell_ctx(c, 5_000_000);
    ctx.bonding_curve.virtual_sol_reserves = 30_000_000;
    let before = ctx.clone();
    assert_eq!(sell(&mut ctx, 1_000, 0, 0), Err(HorseFunError::BondingCurveComplete));
    assert_eq!(ctx, before);
}

#[test]
fn buy_for_another_asset_is_refused() {
    let mut ctx = buy_ctx(small_curve());
    ctx.associated_bonding_curve.mint = key(8);
    let before = ctx.clone();
    assert_eq!(buy(&mut ctx, 1_000, 10, 0), Err(HorseFunError::MintDoesNotMatchBondingCurve));
    assert_eq!(ctx, before);
}

#[test]
fn buy_with_the_wrong_fee_recipient_is_refused() {
    let mut ctx = buy_ctx(small_curve());
    ctx.fee_recipient = account(7, 0);
    let before = ctx.clone();
    assert_eq!(buy(&mut ctx, 1_000, 10, 0), Err(HorseFunError::NotAuthorized));
    assert_eq!(ctx, before);
}

#[test]
fn buy_without_a_safe_quote_is_refused() {
    let mut c = small_curve();
    c.virtual_token_reserves = 1_000;
    let mut ctx = buy_ctx(c);
    let before = ctx.clone();
    // capped at 1000000 for sale, which the virtual reserve of 1000 cannot give
    assert_eq!(buy(&mut ctx, 2_000_000, u64::MAX, 0), Err(HorseFunError::ArithmeticOverflow));
    assert_eq!(ctx, before);
}

#[test]
fn buy_that_overflows_the_balance_is_refused() {
    let mut ctx = buy_ctx(small_curve());
    ctx.holder_stats.current_balance = u64::MAX;
    let before = ctx.clone();
    assert_eq!(buy(&mut ctx, 1_000, 10, 0), Err(HorseFunError::ArithmeticOverflow));
    assert_eq!(ctx, before);
}

#[test]
fn buy_below_the_minimum_earns_no_rank() {
    let mut ctx = buy_ctx(small_curve());
    ctx.global.early_bird_min_buy_sol = 2;
    let receipt = buy(&mut ctx, 1_000, 10, 0).unwrap();
    assert_eq!(receipt.sol_cost, 1);
    assert_eq!(ctx.holder_stats.entry_position, 0);
    assert_eq!(ctx.bonding_curve.total_buyers, 0);
    assert_eq!(ctx.bonding_curve.early_bird_valid_count, 0);
    ctx.global.early_bird_min_buy_sol = 1;
    buy(&mut ctx, 1_000, 10, 0).unwrap();
    assert_eq!(ctx.holder_stats.entry_position, 1);
    assert_eq!(ctx.bonding_curve.total_buyers, 1);
    assert_eq!(ctx.bonding_curve.early_bird_valid_count, 1);
}

#[test]
fn rank_beyond_the_cutoff_holds_no_seat() {
    let mut c = small_curve();
    c.total_buyers = 2;
    c.early_bird_valid_count = 2;
    let mut ctx = buy_ctx(c);
    let receipt = buy(&mut ctx, 1_000, 10, 0).unwrap();
    assert_eq!(ctx.holder_stats.entry_position, 3);
    assert_eq!(ctx.bonding_curve.total_buyers, 3);
    assert_eq!(ctx.bonding_curve.early_bird_valid_count, 2);
    assert!(!receipt.trade.is_early_bird);
}

#[test]
fn second_buy_keeps_the_rank() {
    let mut ctx = buy_ctx(small_curve());
    buy(&mut ctx, 1_000, 10, 0).unwrap();
    assert_eq!(ctx.holder_stats.entry_position, 1);
    buy(&mut ctx, 1_000, 10, 0).unwrap();
    assert_eq!(ctx.holder_stats.entry_position, 1);
    assert_eq!(ctx.bonding_curve.total_buyers, 1);
    assert_eq!(ctx.holder_stats.current_balance, 2_000);
    assert_eq!(ctx.holder_stats.total_volume, 2);
}

#[test]
fn revoked_buyer_stays_revoked() {
    let mut ctx = buy_ctx(small_curve());
    ctx.holder_stats.entry_position = REVOKED_POSITION;
    let receipt = buy(&mut ctx, 1_000, 10, 0).unwrap();
    assert_eq!(ctx.holder_stats.entry_position, REVOKED_POSITION);
    assert_eq!(ctx.holder_stats.entry_position, u64::MAX);
    assert_eq!(ctx.bonding_curve.total_buyers, 0);
    assert_eq!(receipt.trade.user_position, u64::MAX);
    assert!(!receipt.trade.is_early_bird);
}

#[test]
fn a_rank_equal_to_the_revoked_mark_is_never_handed_out() {
    let mut c = small_curve();
    c.total_buyers = u64::MAX - 1;
    let mut ctx = buy_ctx(c);
    let before = ctx.clone();
    assert_eq!(buy(&mut ctx, 1_000, 10, 0), Err(HorseFunError::ArithmeticOverflow));
    assert_eq!(ctx, before);
}

#[test]
fn sell_settles_reserves_fees_holder_and_payout() {
    let mut c = curve();
    c.virtual_token_reserves = 1_072_000_000_000_000;
    c.virtual_sol_reserves = 30_027_985_075;
    c.real_token_reserves = 792_100_000_000_000;
    c.real_sol_reserves = 27_985_075;
    c.creator_fee_pool = 83_955;
    c.treasury_fee_pool = 41_977;
    c.early_bird_pool = 13_992;
    c.total_fees_accrued = 83_955;
    c.total_treasury_fees_accrued = 41_977;
    c.total_early_bird_fees_accrued = 13_992;
    c.total_buyers = 1;
    c.early_bird_valid_count = 1;
    let mut ctx = sell_ctx(c, 1_000_000_000_000);
    ctx.holder_stats.entry_position = 1;
    ctx.holder_stats.total_volume = 27_985_075;

    let receipt = sell(&mut ctx, 1_000_000_000_000, 27_705_224, 1_700_000_100).unwrap();
    assert_eq!(receipt.token_amount, 1_000_000_000_000);
    assert_eq!(receipt.sol_output, 27_985_074);
    assert_eq!(receipt.fee, 279_850);
    assert_eq!(receipt.payout, 27_705_224);
    assert_eq!(
        receipt.split,
        FeeSplit { platform: 139_925, creator: 83_955, treasury: 41_977, early_bird: 13_992 }
    );
    assert_eq!(receipt.buyback, no_buyback());

    let mut expected = curve();
    expected.virtual_token_reserves = 1_073_000_000_000_000;
    expected.virtual_sol_reserves = 30_000_000_001;
    expected.real_token_reserves = 793_100_000_000_000;
    expected.real_sol_reserves = 1;
    expected.creator_fee_pool = 167_910;
    expected.treasury_fee_pool = 83_954;
    expected.early_bird_pool = 27_984;
    expected.total_fees_accrued = 167_910;
    expected.total_treasury_fees_accrued = 83_954;
    expected.total_early_bird_fees_accrued = 27_984;
    expected.total_buyers = 1;
    expected.early_bird_valid_count = 0;
    assert_eq!(ctx.bonding_curve, expected);

    assert_eq!(ctx.holder_stats.current_balance, 0);
    assert_eq!(ctx.holder_stats.entry_position, u64::MAX);
    assert_eq!(ctx.holder_stats.total_volume, 27_985_075);
    assert_eq!(ctx.user.lamports, 1_000 + 27_705_224);
    assert_eq!(ctx.fee_recipient.lamports, 139_925);
    assert_eq!(ctx.bonding_curve_info.lamports, 100_000_000 - 27_705_224 - 139_925);

    assert_eq!(receipt.trade.is_buy, false);
    assert_eq!(receipt.trade.sol_amount, 27_985_074);
    assert_eq!(receipt.trade.token_amount, 1_000_000_000_000);
    assert_eq!(receipt.trade.timestamp, 1_700_000_100);
    assert_eq!(receipt.trade.creator_fee_amount, 83_955);
    assert_eq!(receipt.trade.creator_fee_pool, 167_910);
    assert_eq!(receipt.trade.user_position, u64::MAX);
    assert_eq!(receipt.trade.user_balance, 0);
    assert_eq!(receipt.trade.early_bird_valid_count, 0);
    assert!(!receipt.trade.is_early_bird);
    assert_eq!(receipt.trade.real_sol_reserves, 1);
}

#[test]
fn sell_one_lamport_under_the_bound_is_refused() {
    let mut c = curve();
    c.virtual_token_reserves = 1_072_000_000_000_000;
    c.virtual_sol_reserves = 30_027_985_075;
    c.real_sol_reserves = 27_985_075;
    let mut ctx = sell_ctx(c, 1_000_000_000_000);
    let before = ctx.clone();
    assert_eq!(
        sell(&mut ctx, 1_000_000_000_000, 27_705_225, 0),
        Err(HorseFunError::TooLittleSolReceived)
    );
    assert_eq!(ctx, before);
}

#[test]
fn sell_of_more_than_the_balance_is_refused() {
    let mut c = curve();
    c.real_sol_reserves = 27_985_075;
    let mut ctx = sell_ctx(c, 999);
    let before = ctx.clone();
    assert_eq!(sell(&mut ctx, 1_000_000_000_000, 0, 0), Err(HorseFunError::ArithmeticOverflow));
    assert_eq!(ctx, before);
}

#[test]
fn sell_that_pays_nothing_is_refused() {
    let mut ctx = sell_ctx(small_curve(), 1_000);
    let before = ctx.clone();
    // floor(1000 * 30 / 1001000) = 0
    assert_eq!(sell(&mut ctx, 1_000, 0, 0), Err(HorseFunError::InsufficientDonationAmount));
    assert_eq!(ctx, before);
}

#[test]
fn sell_that_the_curve_account_cannot_pay_is_refused() {
    let mut c = curve();
    c.real_sol_reserves = 27_985_075;
    let mut ctx = sell_ctx(c, 1_000_000_000_000);
    ctx.bonding_curve_info.lamports = 27_000_000;
    let before = ctx.clone();
    assert_eq!(
        sell(&mut ctx, 1_000_000_000_000, 0, 0),
        Err(HorseFunError::InsufficientTreasuryFunds)
    );
    assert_eq!(ctx, before);
}

#[test]
fn sell_from_an_account_of_another_program_is_refused() {
    let mut c = curve();
    c.real_sol_reserves = 27_985_075;
    let mut ctx = sell_ctx(c, 1_000_000_000_000);
    ctx.bonding_curve_info.owner = key(0);
    let before = ctx.clone();
    assert_eq!(sell(&mut ctx, 1_000_000_000_000, 0, 0), Err(HorseFunError::NotAuthorized));
    assert_eq!(ctx, before);
}

#[test]
fn sell_for_another_asset_is_refused() {
    let mut ctx = sell_ctx(curve(), 1_000_000_000_000);
    ctx.associated_bonding_curve.mint = key(8);
    assert_eq!(
        sell(&mut ctx, 1_000_000_000_000, 0, 0),
        Err(HorseFunError::MintDoesNotMatchBondingCurve)
    );
}

#[test]
fn sell_by_a_holder_without_rank_leaves_the_seats_alone() {
    let mut c = curve();
    c.early_bird_valid_count = 2;
    c.total_buyers = 5;
    let mut ctx = sell_ctx(c, 1_000_000_000_000);
    sell(&mut ctx, 1_000_000_000_000, 0, 0).unwrap();
    assert_eq!(ctx.holder_stats.entry_position, 0);
    assert_eq!(ctx.bonding_curve.early_bird_valid_count, 2);
}

#[test]
fn sell_by_a_ranked_holder_beyond_the_cutoff_revokes_without_freeing_a_seat() {
    let mut c = curve();
    c.early_bird_valid_count = 2;
    c.total_buyers = 5;
    let mut ctx = sell_ctx(c, 1_000_000_000_000);
    ctx.holder_stats.entry_position = 5;
    sell(&mut ctx, 1_000_000_000_000, 0, 0).unwrap();
    assert_eq!(ctx.holder_stats.entry_position, REVOKED_POSITION);
    assert_eq!(ctx.bonding_curve.early_bird_valid_count, 2);
}

#[test]
fn buy_after_a_sell_does_not_earn_a_rank_again() {
    let mut c = curve();
    c.early_bird_valid_count = 1;
    c.total_buyers = 1;
    let mut selling = sell_ctx(c, 1_000_000_000_000);
    selling.holder_stats.entry_position = 1;
    sell(&mut selling, 1_000_000_000_000, 0, 0).unwrap();
    let mut buying = buy_ctx(selling.bonding_curve.clone());
    buying.holder_stats = selling.holder_stats;
    buy(&mut buying, 1_000_000_000_000, u64::MAX, 0).unwrap();
    assert_eq!(buying.holder_stats.entry_position, REVOKED_POSITION);
    assert_eq!(buying.bonding_curve.total_buyers, 1);
    assert_eq!(buying.bonding_curve.early_bird_valid_count, 0);
}

#[test]
fn trades_run_the_buyback_controller() {
    let mut c = curve();
    c.virtual_token_reserves = 1_000_000_000;
    c.virtual_sol_reserves = 1_000_000;
    c.real_token_reserves = 500_000_000;
    c.token_total_supply = 1_000_000_000;
    c.circulating_supply = 1_000_000_000;
    c.treasury_fee_pool = 10_000_000;
    c.ema_lot_price = 10_000_000;
    let mut ctx = buy_ctx(c);
    ctx.global.buybacks_enabled = true;
    ctx.global.fee_basis_points = 0;
    let receipt = buy(&mut ctx, 0, 10, 0).unwrap();
    // a buy of nothing costs 1 and leaves the price where the controller test has it
    assert_eq!(receipt.sol_cost, 1);
    assert!(receipt.buyback.is_buyback);
    assert_eq!(receipt.buyback.token_amount, 50_000_000);
    assert_eq!(receipt.buyback.burn_amount, 50_000_000);
    assert_eq!(receipt.trade.is_buyback, true);
    assert_eq!(receipt.trade.burn_amount, 50_000_000);
    assert_eq!(ctx.bonding_curve.total_burned_supply, 50_000_000);
    assert_eq!(ctx.bonding_curve.circulating_supply, 950_000_000);
    assert_eq!(
        ctx.bonding_curve.circulating_supply + ctx.bonding_curve.total_burned_supply,
        ctx.bonding_curve.token_total_supply
    );
    assert_eq!(ctx.bonding_curve.real_token_reserves, 450_000_000);
    assert_eq!(receipt.trade.total_burned_supply, 50_000_000);
    assert_eq!(receipt.trade.total_treasury_spent, receipt.buyback.sol_cost);
}

#[test]
fn trade_at_the_burn_cap_burns_nothing() {
    let mut c = curve();
    c.virtual_token_reserves = 1_000_000_000;
    c.virtual_sol_reserves = 1_000_000;
    c.real_token_reserves = 500_000_000;
    c.token_total_supply = 1_000_000_000;
    c.circulating_supply = 750_000_000;
    c.total_burned_supply = 250_000_000;
    c.treasury_fee_pool = 10_000_000;
    c.ema_lot_price = 10_000_000;
    let mut ctx = buy_ctx(c);
    ctx.global.buybacks_enabled = true;
    let receipt = buy(&mut ctx, 1_000, 10, 0).unwrap();
    assert!(!receipt.buyback.is_buyback);
    assert_eq!(ctx.bonding_curve.total_burned_supply, 250_000_000);
    assert_eq!(ctx.bonding_curve.circulating_supply, 750_000_000);
    assert_eq!(ctx.bonding_curve.ema_lot_price, 10_000_000);
}

#[test]
fn unaffordable_buyback_refuses_the_whole_trade() {
    let mut c = curve();
    c.virtual_token_reserves = 4;
    c.virtual_sol_reserves = 0;
    c.real_token_reserves = 3;
    c.treasury_fee_pool = 2;
    c.ema_lot_price = 1_000_000_000_000_000;
    let mut ctx = buy_ctx(c);
    ctx.global.buybacks_enabled = true;
    ctx.global.fee_basis_points = 0;
    ctx.global.buyback_params.spend_bps = 10_000;
    ctx.global.buyback_params.max_supply_bps = 10_000;
    let before = ctx.clone();
    let done = buy(&mut ctx, 1, 10, 0);
    assert_eq!(done, Err(HorseFunError::InsufficientTreasuryFunds));
    assert_eq!(ctx, before);
}

#[test]
fn terms_are_priced_before_anything_moves() {
    let ctx = buy_ctx(curve());
    let terms = buy_terms(&ctx, 1_000_000_000_000, u64::MAX).ok().unwrap();
    assert_eq!((terms.tokens, terms.quote, terms.fee), (1_000_000_000_000, 27_985_075, 279_850));
    let mut c = curve();
    c.virtual_token_reserves = 1_072_000_000_000_000;
    c.virtual_sol_reserves = 30_027_985_075;
    let ctx = sell_ctx(c, 1_000_000_000_000);
    let terms = sell_terms(&ctx, 1_000_000_000_000, 0).ok().unwrap();
    assert_eq!((terms.tokens, terms.quote, terms.fee), (1_000_000_000_000, 27_985_074, 279_850));
}

#[test]
fn fee_of_a_buy_is_booked_with_the_pools() {
    let mut ctx = buy_ctx(curve());
    let split = transfer_sol_from_user_to_fee_recipient(&mut ctx, 10_000).unwrap();
    assert_eq!(
        split,
        FeeSplit { platform: 5_000, creator: 3_000, treasury: 1_500, early_bird: 500 }
    );
    assert_eq!(ctx.bonding_curve.creator_fee_pool, 3_000);
    assert_eq!(ctx.bonding_curve.treasury_fee_pool, 1_500);
    assert_eq!(ctx.bonding_curve.early_bird_pool, 500);
    assert_eq!(ctx.bonding_curve.total_fees_accrued, 3_000);
    assert_eq!(ctx.bonding_curve.total_treasury_fees_accrued, 1_500);
    assert_eq!(ctx.bonding_curve.total_early_bird_fees_accrued, 500);
    assert_eq!(ctx.fee_recipient.lamports, 0);
}

#[test]
fn fee_that_overflows_a_pool_is_refused() {
    let mut ctx = buy_ctx(curve());
    ctx.bonding_curve.total_fees_accrued = u64::MAX;
    let before = ctx.clone();
    assert_eq!(
        transfer_sol_from_user_to_fee_recipient(&mut ctx, 10_000),
        Err(HorseFunError::ArithmeticOverflow)
    );
    assert_eq!(ctx, before);
}

#[test]
fn fee_of_a_sell_pays_the_platform_from_the_curve_account() {
    let mut ctx = sell_ctx(curve(), 0);
    let split = transfer_sol_from_bonding_curve_to_fee_recipient(&mut ctx, 10_000).unwrap();
    assert_eq!(split.platform, 5_000);
    assert_eq!(ctx.fee_recipient.lamports, 5_000);
    assert_eq!(ctx.bonding_curve_info.lamports, 100_000_000 - 5_000);
    assert_eq!(ctx.bonding_curve.creator_fee_pool, 3_000);
    assert_eq!(ctx.bonding_curve.treasury_fee_pool, 1_500);
    assert_eq!(ctx.bonding_curve.early_bird_pool, 500);
}

#[test]
fn fee_of_a_sell_without_a_platform_part_moves_no_lamports() {
    let mut ctx = sell_ctx(curve(), 0);
    ctx.bonding_curve_info.lamports = 0;
    let split = transfer_sol_from_bonding_curve_to_fee_recipient(&mut ctx, 1).unwrap();
    assert_eq!(split, FeeSplit { platform: 0, creator: 0, treasury: 0, early_bird: 0 });
    assert_eq!(ctx.fee_recipient.lamports, 0);
}

#[test]
fn fee_of_a_sell_to_the_wrong_recipient_is_refused() {
    let mut ctx = sell_ctx(curve(), 0);
    ctx.fee_recipient = account(7, 0);
    let before = ctx.clone();
    assert_eq!(
        transfer_sol_from_bonding_curve_to_fee_recipient(&mut ctx, 10_000),
        Err(HorseFunError::NotAuthorized)
    );
    assert_eq!(ctx, before);
}

#[test]
fn seller_is_paid_from_the_curve_account() {
    let mut ctx = sell_ctx(curve(), 0);
    assert_eq!(transfer_sol_from_bonding_curve_to_user(&mut ctx, 400), Ok(()));
    assert_eq!(ctx.user.lamports, 1_400);
    assert_eq!(ctx.bonding_curve_info.lamports, 100_000_000 - 400);
    assert_eq!(
        transfer_sol_from_bonding_curve_to_user(&mut ctx, 100_000_000),
        Err(HorseFunError::InsufficientTreasuryFunds)
    );
}
