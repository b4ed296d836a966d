use fixed::types::I80F48 as Fixed;
use marginfi::bank::{Bank, BankConfig};
use marginfi::errors::MarginfiError;
use marginfi::fixed_point::{I80F48, WrappedI80F48, ONE_BITS};
use marginfi::pubkey::Pubkey;
use marginfi::interest_rate::InterestRateConfig;
use marginfi::reporting::{
    decimal_scale, get_emissions_flag, has_emissions, loan_to_value, relative_emissions_value,
    reward_rates, utilization_ratio, BaseRates, Emissions, PoolSnapshot, PoolTotals, RewardRates,
    EMISSIONS_FLAG_BORROW_ACTIVE, EMISSIONS_FLAG_LENDING_ACTIVE, MAX_DECIMALS,
};

fn whole(v: i64) -> I80F48 {
    I80F48::from_bits(Fixed::from_num(v).to_bits())
}

fn bits(v: i128) -> I80F48 {
    I80F48::from_bits(v)
}

fn percent(v: i128) -> I80F48 {
    I80F48::from_bits(v * ONE_BITS / 100)
}

fn sample_bank() -> Bank {
    let mint = Pubkey::new_from_array([5; 32]);
    let mut bank = Bank::new(BankConfig::default(), mint, mint, mint, mint);
    bank.total_deposit_shares = whole(8_000_000);
    bank.total_borrow_shares = whole(1_000_000);
    bank.deposit_share_value = bits(5 * ONE_BITS / 4);
    bank.liability_share_value = whole(2);
    bank
}

fn apy(apr: f64, periods: f64) -> f64 {
    (1. + (apr / periods)).powf(periods) - 1.
}

fn to_f64(v: I80F48) -> f64 {
    Fixed::from_bits(v.to_bits()).to_num()
}

#[test]
fn scale_is_a_power_of_ten() {
    assert_eq!(MAX_DECIMALS, 9);
    assert_eq!(decimal_scale(0), Ok(whole(1)));
    assert_eq!(decimal_scale(1), Ok(whole(10)));
    assert_eq!(decimal_scale(6), Ok(whole(1_000_000)));
    assert_eq!(decimal_scale(9), Ok(whole(1_000_000_000)));
    for d in 0..=9u8 {
        assert_eq!(
            decimal_scale(d).unwrap().to_bits(),
            Fixed::from_num(10_i32.pow(d as u32)).to_bits()
        );
    }
}

#[test]
fn scale_fails_beyond_nine_decimals() {
    assert_eq!(decimal_scale(10), Err(MarginfiError::MathError));
    assert_eq!(decimal_scale(255), Err(MarginfiError::MathError));
}

#[test]
fn utilization_is_borrows_over_deposits() {
    assert_eq!(utilization_ratio(whole(200), whole(50)), Ok(bits(ONE_BITS / 4)));
    assert_eq!(utilization_ratio(whole(50), whole(200)), Ok(whole(4)));
    assert_eq!(utilization_ratio(whole(3), whole(1)), Ok(bits(93_824_992_236_885)));
    assert_eq!(utilization_ratio(whole(3), whole(0)), Ok(whole(0)));
}

#[test]
fn utilization_is_zero_without_deposits() {
    assert_eq!(utilization_ratio(whole(0), whole(50)), Ok(whole(0)));
    assert_eq!(utilization_ratio(whole(0), whole(0)), Ok(whole(0)));
    assert_eq!(utilization_ratio(whole(-7), whole(50)), Ok(whole(0)));
}

#[test]
fn utilization_reports_overflow() {
    assert_eq!(utilization_ratio(bits(1), bits(i128::MAX)), Err(MarginfiError::MathError));
}

#[test]
fn loan_to_value_is_the_reciprocal_of_the_initial_liability_weight() {
    let mut config = BankConfig::default();
    config.liability_weight_init = WrappedI80F48 { value: 5 * ONE_BITS / 4 };
    // 1 / 1.25 = 0.8, cut off after 48 binary places
    assert_eq!(loan_to_value(&config), Ok(bits(225_179_981_368_524)));
    config.liability_weight_init = WrappedI80F48 { value: 2 * ONE_BITS };
    assert_eq!(loan_to_value(&config), Ok(bits(ONE_BITS / 2)));
    config.liability_weight_maint = WrappedI80F48 { value: 4 * ONE_BITS };
    assert_eq!(loan_to_value(&config), Ok(bits(ONE_BITS / 2)));
}

#[test]
fn loan_to_value_fails_for_a_zero_weight() {
    assert_eq!(loan_to_value(&BankConfig::default()), Err(MarginfiError::MathError));
}

#[test]
fn totals_of_a_bank() {
    let bank = sample_bank();
    let scale = decimal_scale(6).unwrap();
    let totals = PoolTotals::from_bank(&bank, scale, whole(3)).unwrap();
    assert_eq!(
        totals,
        PoolTotals {
            total_deposits: whole(10),
            total_borrows: whole(2),
            net_supply: whole(8),
            tvl_usd: whole(24),
            total_supply_usd: whole(30),
            total_borrow_usd: whole(6),
            utilization: bits(ONE_BITS / 5),
        }
    );
}

#[test]
fn totals_of_an_empty_bank_are_zero() {
    let mint = Pubkey::new_from_array([5; 32]);
    let bank = Bank::new(BankConfig::default(), mint, mint, mint, mint);
    let totals = PoolTotals::from_bank(&bank, whole(1000), whole(3)).unwrap();
    assert_eq!(totals.total_deposits, whole(0));
    assert_eq!(totals.total_borrows, whole(0));
    assert_eq!(totals.net_supply, whole(0));
    assert_eq!(totals.tvl_usd, whole(0));
    assert_eq!(totals.utilization, whole(0));
}

#[test]
fn totals_fail_where_a_figure_cannot_be_represented() {
    let bank = sample_bank();
    assert_eq!(PoolTotals::from_bank(&bank, whole(0), whole(3)), Err(MarginfiError::MathError));
    assert_eq!(
        PoolTotals::from_bank(&bank, whole(1), bits(i128::MAX)),
        Err(MarginfiError::MathError)
    );
    let mut huge = sample_bank();
    huge.total_deposit_shares = bits(i128::MAX);
    assert_eq!(PoolTotals::from_bank(&huge, whole(1), whole(1)), Err(MarginfiError::MathError));
}

#[test]
fn zero_identity_means_no_emissions() {
    assert!(!has_emissions(&Pubkey::default()));
    assert!(!has_emissions(&Pubkey::new_from_array([0; 32])));
    assert!(has_emissions(&Pubkey::new_from_array([1; 32])));
    let mut bytes = [0u8; 32];
    bytes[31] = 1;
    assert!(has_emissions(&Pubkey::new_from_array(bytes)));
}

#[test]
fn relative_value_is_emitted_value_over_token_price() {
    let emissions = Emissions {
        token_price: whole(4),
        reward_rate_per_token: percent(5),
        lending_active: false,
        borrow_active: false,
    };
    // 4 * 0.05 / 2 = 0.1, with both roundings
    let emitted = Fixed::from_bits(percent(5).to_bits()) * Fixed::from_num(4);
    let expected = emitted / Fixed::from_num(2);
    assert_eq!(
        relative_emissions_value(&emissions, whole(2)),
        Ok(bits(expected.to_bits()))
    );
    assert_eq!(
        relative_emissions_value(&emissions, whole(2)),
        Ok(bits((4 * (5 * ONE_BITS / 100)) / 2))
    );
    assert_eq!(relative_emissions_value(&emissions, whole(0)), Err(MarginfiError::MathError));
}

#[test]
fn no_emission_asset_means_no_reward_rates() {
    let base = BaseRates { lending: percent(3), borrowing: percent(7) };
    assert_eq!(
        reward_rates(&base, None, whole(2)),
        Ok(RewardRates { lending: None, borrowing: None })
    );
    assert_eq!(
        reward_rates(&base, None, whole(0)),
        Ok(RewardRates { lending: None, borrowing: None })
    );
}

#[test]
fn lending_only_emissions_raise_the_lending_side_alone() {
    let base = BaseRates { lending: percent(3), borrowing: percent(7) };
    let emissions = Emissions {
        token_price: whole(4),
        reward_rate_per_token: percent(5),
        lending_active: true,
        borrow_active: false,
    };
    let relative = relative_emissions_value(&emissions, whole(2)).unwrap();
    assert!(relative.is_positive());
    let rates = reward_rates(&base, Some(emissions), whole(2)).unwrap();
    assert_eq!(rates.borrowing, None);
    assert_eq!(rates.lending, Some(bits(percent(3).to_bits() + relative.to_bits())));
    assert!(base.lending.less_than(rates.lending.unwrap()));

    let periods = 31_536_000.;
    let blended = apy(to_f64(rates.lending.unwrap()), periods);
    let unblended = apy(to_f64(base.lending), periods);
    assert!(blended > unblended);
}

#[test]
fn each_flag_switches_its_own_side() {
    let base = BaseRates { lending: percent(3), borrowing: percent(7) };
    let mut emissions = Emissions {
        token_price: whole(1),
        reward_rate_per_token: percent(10),
        lending_active: false,
        borrow_active: true,
    };
    let relative = percent(10).to_bits();
    assert_eq!(
        reward_rates(&base, Some(emissions), whole(1)),
        Ok(RewardRates { lending: None, borrowing: Some(bits(percent(7).to_bits() + relative)) })
    );
    emissions.lending_active = true;
    assert_eq!(
        reward_rates(&base, Some(emissions), whole(1)),
        Ok(RewardRates {
            lending: Some(bits(percent(3).to_bits() + relative)),
            borrowing: Some(bits(percent(7).to_bits() + relative)),
        })
    );
    emissions.lending_active = false;
    emissions.borrow_active = false;
    assert_eq!(
        reward_rates(&base, Some(emissions), whole(1)),
        Ok(RewardRates { lending: None, borrowing: None })
    );
}

#[test]
fn reward_rates_report_overflow() {
    let base = BaseRates { lending: bits(i128::MAX), borrowing: percent(7) };
    let mut emissions = Emissions {
        token_price: whole(1),
        reward_rate_per_token: percent(10),
        lending_active: true,
        borrow_active: false,
    };
    assert_eq!(reward_rates(&base, Some(emissions), whole(1)), Err(MarginfiError::MathError));
    // the relative value is computed whether or not a side earns it
    emissions.lending_active = false;
    assert_eq!(reward_rates(&base, Some(emissions), whole(0)), Err(MarginfiError::MathError));
    assert_eq!(
        reward_rates(&base, Some(emissions), whole(1)),
        Ok(RewardRates { lending: None, borrowing: None })
    );
}

#[test]
fn tiny_emissions_can_round_to_no_reward_at_all() {
    let base = BaseRates { lending: percent(3), borrowing: percent(7) };
    let emissions = Emissions {
        token_price: bits(1),
        reward_rate_per_token: bits(1),
        lending_active: true,
        borrow_active: false,
    };
    assert_eq!(relative_emissions_value(&emissions, whole(1)), Ok(whole(0)));
    assert_eq!(
        reward_rates(&base, Some(emissions), whole(1)),
        Ok(RewardRates { lending: Some(percent(3)), borrowing: None })
    );
}

fn sample_curve() -> InterestRateConfig {
    InterestRateConfig {
        optimal_utilization_rate: WrappedI80F48 { value: ONE_BITS / 2 },
        plateau_interest_rate: WrappedI80F48 { value: ONE_BITS / 4 },
        max_interest_rate: WrappedI80F48 { value: ONE_BITS },
        insurance_fee_fixed_apr: WrappedI80F48 { value: ONE_BITS / 32 },
        insurance_ir_fee: WrappedI80F48 { value: ONE_BITS / 8 },
        protocol_fixed_fee_apr: WrappedI80F48 { value: ONE_BITS / 64 },
        protocol_ir_fee: WrappedI80F48 { value: ONE_BITS / 8 },
    }
}

fn bank_at_a_quarter_utilization() -> Bank {
    let mut bank = sample_bank();
    bank.config.liability_weight_init = WrappedI80F48 { value: 2 * ONE_BITS };
    bank.total_borrow_shares = whole(1_250_000);
    bank
}

#[test]
fn snapshot_puts_the_figures_together() {
    let bank = bank_at_a_quarter_utilization();
    let emissions = Emissions {
        token_price: whole(6),
        reward_rate_per_token: bits(ONE_BITS / 16),
        lending_active: true,
        borrow_active: false,
    };
    let snapshot =
        PoolSnapshot::from_bank(&bank, &sample_curve(), 6, whole(3), Some(emissions)).unwrap();
    assert_eq!(snapshot.ltv, bits(ONE_BITS / 2));
    assert_eq!(
        snapshot.totals,
        PoolTotals {
            total_deposits: whole(10),
            total_borrows: bits(5 * ONE_BITS / 2),
            net_supply: bits(15 * ONE_BITS / 2),
            tvl_usd: bits(45 * ONE_BITS / 2),
            total_supply_usd: whole(30),
            total_borrow_usd: bits(15 * ONE_BITS / 2),
            utilization: bits(ONE_BITS / 4),
        }
    );
    // base rate 1/8 at a quarter utilization
    assert_eq!(
        snapshot.base,
        BaseRates { lending: bits(ONE_BITS / 32), borrowing: bits(13 * ONE_BITS / 64) }
    );
    // 6 * 1/16 / 3 = 1/8 on top for depositors
    assert_eq!(
        snapshot.rewards,
        RewardRates { lending: Some(bits(5 * ONE_BITS / 32)), borrowing: None }
    );
}

#[test]
fn snapshot_without_emissions_has_no_reward_rates() {
    let bank = bank_at_a_quarter_utilization();
    let snapshot = PoolSnapshot::from_bank(&bank, &sample_curve(), 6, whole(3), None).unwrap();
    assert_eq!(snapshot.rewards, RewardRates { lending: None, borrowing: None });
    assert_eq!(snapshot.base.lending, bits(ONE_BITS / 32));
}

#[test]
fn snapshot_fails_where_a_step_fails() {
    let bank = bank_at_a_quarter_utilization();
    let curve = sample_curve();
    // more than nine decimals
    assert_eq!(
        PoolSnapshot::from_bank(&bank, &curve, 10, whole(3), None),
        Err(MarginfiError::MathError)
    );
    // a liability weight of zero
    let mut weightless = bank;
    weightless.config.liability_weight_init = WrappedI80F48 { value: 0 };
    assert_eq!(
        PoolSnapshot::from_bank(&weightless, &curve, 6, whole(3), None),
        Err(MarginfiError::MathError)
    );
    // a curve that bends at zero, on a bank without borrows
    let mut flat = curve;
    flat.optimal_utilization_rate = WrappedI80F48 { value: 0 };
    let mut idle = bank;
    idle.total_borrow_shares = whole(0);
    assert_eq!(
        PoolSnapshot::from_bank(&idle, &flat, 6, whole(3), None),
        Err(MarginfiError::MathError)
    );
    // a token without a price, with emissions to be valued in it
    let emissions = Emissions {
        token_price: whole(6),
        reward_rate_per_token: whole(1),
        lending_active: false,
        borrow_active: false,
    };
    assert_eq!(
        PoolSnapshot::from_bank(&bank, &curve, 6, whole(0), Some(emissions)),
        Err(MarginfiError::MathError)
    );
    assert!(PoolSnapshot::from_bank(&bank, &curve, 6, whole(0), None).is_ok());
}

#[test]
fn emission_flags_are_two_separate_bits() {
    assert_eq!(EMISSIONS_FLAG_BORROW_ACTIVE, 1);
    assert_eq!(EMISSIONS_FLAG_LENDING_ACTIVE, 2);
    assert!(!get_emissions_flag(0, EMISSIONS_FLAG_BORROW_ACTIVE));
    assert!(!get_emissions_flag(0, EMISSIONS_FLAG_LENDING_ACTIVE));
    assert!(get_emissions_flag(1, EMISSIONS_FLAG_BORROW_ACTIVE));
    assert!(!get_emissions_flag(1, EMISSIONS_FLAG_LENDING_ACTIVE));
    assert!(!get_emissions_flag(2, EMISSIONS_FLAG_BORROW_ACTIVE));
    assert!(get_emissions_flag(2, EMISSIONS_FLAG_LENDING_ACTIVE));
    assert!(get_emissions_flag(3, EMISSIONS_FLAG_BORROW_ACTIVE));
    assert!(get_emissions_flag(3, EMISSIONS_FLAG_LENDING_ACTIVE));
    assert!(get_emissions_flag(u64::MAX, EMISSIONS_FLAG_LENDING_ACTIVE));
    assert!(get_emissions_flag(0xf0 | 2, EMISSIONS_FLAG_LENDING_ACTIVE));
    assert!(!get_emissions_flag(0xf0 | 2, EMISSIONS_FLAG_BORROW_ACTIVE));
}
