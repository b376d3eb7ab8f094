use yoink::buyback::{
    burn_cap_reached, is_triggered, run_buyback, size_buyback, supply_cap_of, BuybackOutcome,
    DECIMALS, LOT_SIZE,
};
use yoink::curve::BondingCurve;
use yoink::errors::HorseFunError;
use yoink::global::{BuybackParams, Global};
use yoink::keys::Pubkey;

fn key(tag: u8) -> Pubkey {
    Pubkey::new_from_array([tag; 32])
}

fn params() -> BuybackParams {
    BuybackParams {
        backing_mult_bps: 11000,
        ema_drop_bps: 9500,
        ema_alpha_bps: 2000,
        spend_bps: 2000,
        max_supply_bps: 1000,
        min_backing_lamports: 0,
        max_burn_percentage_bps: 2500,
    }
}

fn config(buyback_params: BuybackParams) -> Global {
    Global {
        initialized: true,
        authority: key(1),
        fee_recipient: key(2),
        initial_virtual_token_reserves: 1_000_000_000,
        initial_virtual_sol_reserves: 1_000_000,
        initial_real_token_reserves: 500_000_000,
        token_total_supply: 1_000_000_000,
        fee_basis_points: 100,
        creator_fee_share: 3000,
        platform_fee_share: 5000,
        treasury_fee_share: 1500,
        early_bird_fee_share: 500,
        buybacks_enabled: true,
        buyback_params,
        early_bird_enabled: true,
        early_bird_cutoff: 2,
        early_bird_min_buy_sol: 0,
    }
}

fn curve() -> BondingCurve {
    BondingCurve {
        virtual_token_reserves: 1_000_000_000,
        virtual_sol_reserves: 1_000_000,
        real_token_reserves: 500_000_000,
        real_sol_reserves: 0,
        token_total_supply: 1_000_000_000,
        circulating_supply: 1_000_000_000,
        complete: false,
        creator_wallet: key(9),
        creator_streamer_id: None,
        creator_fee_pool: 77,
        treasury_fee_pool: 10_000_000,
        total_fees_accrued: 0,
        total_treasury_fees_accrued: 0,
        ema_lot_price: 10_000_000,
        total_burned_supply: 0,
        total_treasury_spent: 0,
        early_bird_pool: 55,
        total_buyers: 4,
        total_early_bird_fees_accrued: 0,
        early_bird_valid_count: 2,
        early_bird_share_per_seat: 0,
    }
}

fn resting() -> BuybackOutcome {
    BuybackOutcome {
        is_buyback: false,
        token_amount: 0,
        sol_cost: 0,
        burn_amount: 0,
        price_lamports_per_token: 0,
    }
}

#[test]
fn lot_is_one_whole_token() {
    assert_eq!(DECIMALS, 6);
    assert_eq!(LOT_SIZE, 1_000_000);
}

#[test]
fn triggered_buyback_buys_and_burns() {
    let mut c = curve();
    let outcome = run_buyback(&mut c, &config(params()), 1_000_000_000);
    assert_eq!(
        outcome,
        Ok(BuybackOutcome {
            is_buyback: true,
            token_amount: 50_000_000,
            sol_cost: 52_632,
            burn_amount: 50_000_000,
            price_lamports_per_token: 0,
        })
    );
    let mut expected = curve();
    expected.virtual_token_reserves = 950_000_000;
    expected.virtual_sol_reserves = 1_052_632;
    expected.real_token_reserves = 450_000_000;
    expected.real_sol_reserves = 52_632;
    expected.circulating_supply = 950_000_000;
    expected.treasury_fee_pool = 9_947_368;
    expected.ema_lot_price = 8_000_200;
    expected.total_burned_supply = 50_000_000;
    expected.total_treasury_spent = 52_632;
    assert_eq!(c, expected);
    assert_eq!(c.circulating_supply + c.total_burned_supply, c.token_total_supply);
}

#[test]
fn buyback_without_inventory_moves_reserves_but_burns_nothing() {
    let mut c = curve();
    let outcome = run_buyback(&mut c, &config(params()), 49_999_999).unwrap();
    assert!(outcome.is_buyback);
    assert_eq!(outcome.token_amount, 50_000_000);
    assert_eq!(outcome.sol_cost, 52_632);
    assert_eq!(outcome.burn_amount, 0);
    assert_eq!(c.virtual_token_reserves, 950_000_000);
    assert_eq!(c.real_token_reserves, 450_000_000);
    assert_eq!(c.treasury_fee_pool, 9_947_368);
    assert_eq!(c.total_treasury_spent, 52_632);
    assert_eq!(c.circulating_supply, 1_000_000_000);
    assert_eq!(c.total_burned_supply, 0);
}

#[test]
fn buyback_with_exactly_enough_inventory_burns() {
    let mut c = curve();
    let outcome = run_buyback(&mut c, &config(params()), 50_000_000).unwrap();
    assert_eq!(outcome.burn_amount, 50_000_000);
    assert_eq!(c.total_burned_supply, 50_000_000);
}

#[test]
fn first_observation_seeds_the_average_and_backing_can_trigger() {
    let mut c = curve();
    c.ema_lot_price = 0;
    let outcome = run_buyback(&mut c, &config(params()), 1_000_000_000).unwrap();
    assert!(outcome.is_buyback);
    assert_eq!(c.ema_lot_price, 1_002);
}

#[test]
fn untriggered_run_only_updates_the_average() {
    let mut c = curve();
    c.ema_lot_price = 1_040;
    c.treasury_fee_pool = 10;
    let outcome = run_buyback(&mut c, &config(params()), 1_000_000_000);
    assert_eq!(outcome, Ok(resting()));
    let mut expected = curve();
    expected.treasury_fee_pool = 10;
    // (2000 * 1002 + 8000 * 1040) / 10000
    expected.ema_lot_price = 1_032;
    assert_eq!(c, expected);
}

#[test]
fn controller_rests_where_buybacks_are_off() {
    let mut c = curve();
    let mut global = config(params());
    global.buybacks_enabled = false;
    assert_eq!(run_buyback(&mut c, &global, 1_000_000_000), Ok(resting()));
    assert_eq!(c, curve());
}

#[test]
fn controller_rests_once_the_burn_cap_is_reached() {
    let mut c = curve();
    c.total_burned_supply = 250_000_000;
    c.circulating_supply = 750_000_000;
    let before = c.clone();
    assert!(burn_cap_reached(&c, &params()));
    assert_eq!(run_buyback(&mut c, &config(params()), 1_000_000_000), Ok(resting()));
    assert_eq!(c, before);
}

#[test]
fn burn_cap_compares_the_floored_fraction() {
    let mut c = curve();
    c.total_burned_supply = 249_999_999;
    assert!(!burn_cap_reached(&c, &params()));
    c.total_burned_supply = 250_000_000;
    assert!(burn_cap_reached(&c, &params()));
    c.token_total_supply = 0;
    assert!(!burn_cap_reached(&c, &params()));
    let mut none = params();
    none.max_burn_percentage_bps = 0;
    assert!(burn_cap_reached(&c, &none));
}

#[test]
fn controller_rests_without_treasury_or_reserve() {
    let mut c = curve();
    c.treasury_fee_pool = 0;
    let before = c.clone();
    assert_eq!(run_buyback(&mut c, &config(params()), 1_000_000_000), Ok(resting()));
    assert_eq!(c, before);
    let mut c = curve();
    c.virtual_token_reserves = 1;
    let before = c.clone();
    assert_eq!(run_buyback(&mut c, &config(params()), 1_000_000_000), Ok(resting()));
    assert_eq!(c, before);
}

#[test]
fn nothing_for_sale_means_nothing_bought() {
    let mut c = curve();
    c.real_token_reserves = 0;
    let outcome = run_buyback(&mut c, &config(params()), 1_000_000_000);
    assert_eq!(outcome, Ok(resting()));
    assert_eq!(c.virtual_token_reserves, 1_000_000_000);
    assert_eq!(c.treasury_fee_pool, 10_000_000);
    assert_eq!(c.ema_lot_price, 8_000_200);
}

#[test]
fn sizing_that_rounds_to_nothing_falls_back_to_one_unit() {
    let mut c = curve();
    c.virtual_token_reserves = 1_000;
    c.virtual_sol_reserves = 1_000_000_000;
    c.real_token_reserves = 500;
    c.treasury_fee_pool = 2_000_000;
    c.ema_lot_price = 1_000_000_000_000_000;
    let mut p = params();
    p.spend_bps = 0;
    let outcome = run_buyback(&mut c, &config(p), 1_000_000_000);
    assert_eq!(
        outcome,
        Ok(BuybackOutcome {
            is_buyback: true,
            token_amount: 1,
            sol_cost: 1_001_002,
            burn_amount: 1,
            price_lamports_per_token: 1_001_002,
        })
    );
    assert_eq!(c.virtual_token_reserves, 999);
    assert_eq!(c.real_token_reserves, 499);
    assert_eq!(c.treasury_fee_pool, 998_998);
    assert_eq!(c.ema_lot_price, 800_199_800_000_000);
    assert_eq!(c.total_burned_supply, 1);
    assert_eq!(c.circulating_supply, 999_999_999);
}

#[test]
fn unaffordable_buyback_is_refused_and_changes_nothing() {
    let mut c = curve();
    c.virtual_token_reserves = 3;
    c.virtual_sol_reserves = 1;
    c.real_token_reserves = 2;
    c.treasury_fee_pool = 2;
    c.ema_lot_price = 1_000_000_000_000_000;
    let before = c.clone();
    let mut p = params();
    p.spend_bps = 10_000;
    p.max_supply_bps = 10_000;
    assert_eq!(
        run_buyback(&mut c, &config(p), 1_000_000_000),
        Err(HorseFunError::InsufficientTreasuryFunds)
    );
    assert_eq!(c, before);
}

#[test]
fn budget_beyond_64_bits_is_refused() {
    let mut c = curve();
    c.treasury_fee_pool = u64::MAX;
    let before = c.clone();
    let mut p = params();
    p.spend_bps = 20_000;
    assert_eq!(
        run_buyback(&mut c, &config(p), 1_000_000_000),
        Err(HorseFunError::ArithmeticOverflow)
    );
    assert_eq!(c, before);
}

#[test]
fn sharp_drop_triggers_below_the_backing_floor() {
    let mut p = params();
    p.min_backing_lamports = 1_000_000_000;
    // backing 10000 is under the floor, but 1002 <= 8000200 / 2
    assert!(is_triggered(1_002, 10_000, 8_000_200, &p));
    let mut c = curve();
    let outcome = run_buyback(&mut c, &config(p), 1_000_000_000).unwrap();
    assert!(outcome.is_buyback);
}

#[test]
fn backing_floor_blocks_a_mild_drop() {
    let mut p = params();
    p.min_backing_lamports = 1_000_000_000;
    p.backing_mult_bps = 60_000;
    // under the threshold 60000, but backing under the floor and 1002 > 1400 / 2
    assert!(!is_triggered(1_002, 10_000, 1_400, &p));
    p.min_backing_lamports = 10_000;
    assert!(is_triggered(1_002, 10_000, 1_400, &p));
    p.min_backing_lamports = 10_001;
    assert!(!is_triggered(1_002, 10_000, 1_400, &p));
}

#[test]
fn trigger_uses_the_larger_threshold() {
    let p = params();
    // backing threshold 11000, average threshold 950
    assert!(is_triggered(11_000, 10_000, 1_000, &p));
    assert!(!is_triggered(11_001, 10_000, 1_000, &p));
    // backing threshold 110, average threshold 9500
    assert!(is_triggered(9_500, 100, 10_000, &p));
    assert!(!is_triggered(9_501, 100, 10_000, &p));
}

#[test]
fn trigger_holds_for_backing_beyond_64_bits() {
    let p = params();
    assert!(is_triggered(u64::MAX, u128::MAX, 0, &p));
    assert!(is_triggered(u64::MAX, (u64::MAX as u128) * 1_000_000, 0, &p));
    let mut never = params();
    never.backing_mult_bps = 0;
    assert!(!is_triggered(1, u128::MAX, 0, &never));
    assert!(is_triggered(0, u128::MAX, 0, &never));
}

#[test]
fn supply_cap_is_a_share_of_the_reserve_but_at_least_one() {
    assert_eq!(supply_cap_of(500_000_000, 1000), 50_000_000);
    assert_eq!(supply_cap_of(5, 1000), 1);
    assert_eq!(supply_cap_of(1, 1000), 1);
    assert_eq!(supply_cap_of(0, 1000), 0);
    assert_eq!(supply_cap_of(500, 20_000), 500);
    assert_eq!(supply_cap_of(u64::MAX, 10_000), u64::MAX);
    assert_eq!(supply_cap_of(u64::MAX, 1000), 1_844_674_407_370_955_161);
}

#[test]
fn size_is_the_budget_in_tokens_under_the_cap() {
    let c = curve();
    assert_eq!(size_buyback(&c, &params(), 1_000_000, 2_000_000), 50_000_000);
    let mut wide = params();
    wide.max_supply_bps = 10_000;
    assert_eq!(size_buyback(&c, &wide, 1_000_000, 2_000_000), 500_000_000);
    let mut small = curve();
    small.treasury_fee_pool = 500;
    // floor(100 * 1e9 / (1e6 + 100))
    assert_eq!(size_buyback(&small, &params(), 1_000_000, 100), 99_990);
}
