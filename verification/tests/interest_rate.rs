use fixed::types::I80F48 as Fixed;
use marginfi::errors::MarginfiError;
use marginfi::fixed_point::{I80F48, WrappedI80F48, ONE_BITS};
use marginfi::interest_rate::{calc_fee_rate, InterestRateConfig};

fn frac(numerator: i128, denominator: i128) -> I80F48 {
    I80F48::from_bits(numerator * ONE_BITS / denominator)
}

fn stored(numerator: i128, denominator: i128) -> WrappedI80F48 {
    WrappedI80F48 { value: numerator * ONE_BITS / denominator }
}

fn curve() -> InterestRateConfig {
    InterestRateConfig {
        optimal_utilization_rate: stored(1, 2),
        plateau_interest_rate: stored(1, 4),
        max_interest_rate: stored(1, 1),
        insurance_fee_fixed_apr: stored(1, 32),
        insurance_ir_fee: stored(1, 8),
        protocol_fixed_fee_apr: stored(1, 64),
        protocol_ir_fee: stored(1, 8),
    }
}

fn uneven_curve() -> InterestRateConfig {
    InterestRateConfig {
        optimal_utilization_rate: stored(4, 5),
        plateau_interest_rate: stored(1, 10),
        max_interest_rate: stored(3, 1),
        insurance_fee_fixed_apr: stored(1, 1000),
        insurance_ir_fee: stored(3, 100),
        protocol_fixed_fee_apr: stored(7, 1000),
        protocol_ir_fee: stored(1, 100),
    }
}

#[test]
fn base_rate_rises_to_the_plateau_and_then_to_the_maximum() {
    let curve = curve();
    assert_eq!(curve.interest_rate_curve(frac(0, 1)), Ok(frac(0, 1)));
    assert_eq!(curve.interest_rate_curve(frac(1, 4)), Ok(frac(1, 8)));
    assert_eq!(curve.interest_rate_curve(frac(1, 2)), Ok(frac(1, 4)));
    assert_eq!(curve.interest_rate_curve(frac(3, 4)), Ok(frac(5, 8)));
    assert_eq!(curve.interest_rate_curve(frac(1, 1)), Ok(frac(1, 1)));
}

#[test]
fn rates_below_the_bend() {
    let rates = curve().calc_interest_rate(frac(1, 4)).unwrap();
    // base 1/8: lent out to a quarter; with a quarter in fees on the rate and 3/64 fixed
    assert_eq!(rates.0, frac(1, 32));
    assert_eq!(rates.1, frac(13, 64));
    assert_eq!(rates.2, frac(1, 32));
    assert_eq!(rates.3, frac(3, 64));
}

#[test]
fn rates_beyond_the_bend() {
    let rates = curve().calc_interest_rate(frac(3, 4)).unwrap();
    // base 5/8
    assert_eq!(rates.0, frac(15, 32));
    assert_eq!(rates.1, frac(53, 64));
    assert_eq!(rates.2, frac(6, 64));
    assert_eq!(rates.3, frac(7, 64));
}

#[test]
fn rates_without_utilization_are_the_fixed_fees() {
    let rates = curve().calc_interest_rate(frac(0, 1)).unwrap();
    assert_eq!(rates.0, frac(0, 1));
    assert_eq!(rates.1, frac(3, 64));
    assert_eq!(rates.2, frac(1, 64));
    assert_eq!(rates.3, frac(1, 32));
}

#[test]
fn fee_is_a_share_of_the_base_rate_and_a_fixed_part() {
    assert_eq!(calc_fee_rate(frac(1, 2), frac(1, 4), frac(1, 16)), Ok(frac(3, 16)));
    assert_eq!(calc_fee_rate(frac(1, 2), frac(0, 1), frac(1, 16)), Ok(frac(1, 16)));
    assert_eq!(
        calc_fee_rate(I80F48::from_bits(i128::MAX), frac(2, 1), frac(0, 1)),
        Err(MarginfiError::MathError)
    );
    assert_eq!(
        calc_fee_rate(I80F48::from_bits(i128::MAX), frac(1, 1), I80F48::from_bits(1)),
        Err(MarginfiError::MathError)
    );
}

#[test]
fn curve_fails_where_the_bend_leaves_no_room() {
    let mut flat = curve();
    flat.optimal_utilization_rate = stored(0, 1);
    assert_eq!(flat.interest_rate_curve(frac(0, 1)), Err(MarginfiError::MathError));
    assert_eq!(flat.calc_interest_rate(frac(0, 1)), None);
    assert_eq!(flat.interest_rate_curve(frac(1, 2)), Ok(frac(5, 8)));

    let mut late = curve();
    late.optimal_utilization_rate = stored(1, 1);
    assert_eq!(late.interest_rate_curve(frac(1, 1)), Ok(frac(1, 4)));
    assert_eq!(late.interest_rate_curve(frac(3, 2)), Err(MarginfiError::MathError));
    assert_eq!(late.calc_interest_rate(frac(3, 2)), None);
}

#[test]
fn rates_fail_on_overflow() {
    let mut steep = curve();
    steep.max_interest_rate = WrappedI80F48 { value: i128::MAX };
    assert!(steep.calc_interest_rate(frac(1, 4)).is_some());
    assert_eq!(steep.calc_interest_rate(frac(1, 1)), None);

    let mut costly = curve();
    costly.protocol_ir_fee = WrappedI80F48 { value: i128::MAX };
    assert_eq!(costly.calc_interest_rate(frac(1, 4)), None);
}

#[test]
fn curve_agrees_with_the_formula_in_the_fixed_crate() {
    let curve = uneven_curve();
    let optimal = Fixed::from_bits(curve.optimal_utilization_rate.value);
    let plateau = Fixed::from_bits(curve.plateau_interest_rate.value);
    let max = Fixed::from_bits(curve.max_interest_rate.value);
    for step in 0..=150i128 {
        let ur = Fixed::from_bits(step * ONE_BITS / 100);
        let expected = if ur <= optimal {
            ur.checked_div(optimal).unwrap().checked_mul(plateau).unwrap()
        } else {
            ((ur - optimal) / (Fixed::ONE - optimal)) * (max - plateau) + plateau
        };
        assert_eq!(
            curve.interest_rate_curve(I80F48::from_bits(ur.to_bits())),
            Ok(I80F48::from_bits(expected.to_bits()))
        );
    }
}

#[test]
fn borrowers_pay_no_less_as_utilization_rises() {
    for curve in [curve(), uneven_curve()] {
        let mut last = None;
        for step in 0..=1500i128 {
            let ur = I80F48::from_bits(step * ONE_BITS / 1000);
            let rates = curve.calc_interest_rate(ur).unwrap();
            if let Some(before) = last {
                assert!(!rates.1.less_than(before));
            }
            last = Some(rates.1);
        }
    }
}

#[test]
fn depositors_earn_no_more_than_borrowers_pay() {
    for curve in [curve(), uneven_curve()] {
        for step in 0..=1000i128 {
            let ur = I80F48::from_bits(step * ONE_BITS / 1000);
            let rates = curve.calc_interest_rate(ur).unwrap();
            assert!(rates.0.to_bits() >= 0);
            assert!(rates.0.to_bits() <= rates.1.to_bits());
            assert!(rates.2.to_bits() >= 0 && rates.3.to_bits() >= 0);
        }
    }
}
