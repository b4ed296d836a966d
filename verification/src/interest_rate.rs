//! The curve that turns a bank's utilization into yearly rates.
//!
//! Up to the optimal utilization the base rate rises in a straight line from
//! zero to the plateau rate; beyond it, in a second line from the plateau
//! rate to the maximal rate, which it reaches where everything is lent out.
//! Depositors earn the base rate on the part that is lent out; borrowers pay
//! the base rate and the fees on top of it.

use crate::errors::MarginfiResult;
use crate::fixed_point::{quotient_bits, I80F48, WrappedI80F48, ONE_BITS};
use crate::rounding::{
    lemma_one_is_neutral, lemma_product_monotone, lemma_product_not_negative,
    lemma_quotient_monotone, lemma_quotient_of_self,
};
use vstd::prelude::*;

verus! {

/// The parameters of a bank's interest-rate curve.
#[derive(Clone, Copy, Debug, PartialEq, Eq)]
pub struct InterestRateConfig {
    /// The utilization at which the curve bends.
    pub optimal_utilization_rate: WrappedI80F48,
    /// The base rate at the optimal utilization.
    pub plateau_interest_rate: WrappedI80F48,
    /// The base rate at full utilization.
    pub max_interest_rate: WrappedI80F48,
    /// The insurance fee that borrowers pay whatever the base rate is.
    pub insurance_fee_fixed_apr: WrappedI80F48,
    /// The insurance fee as a share of the base rate.
    pub insurance_ir_fee: WrappedI80F48,
    /// The protocol fee that borrowers pay whatever the base rate is.
    pub protocol_fixed_fee_apr: WrappedI80F48,
    /// The protocol fee as a share of the base rate.
    pub protocol_ir_fee: WrappedI80F48,
}

/// `next` applied to the value of `first`, or the error of `first`.
pub open spec fn and_next(
    first: MarginfiResult<I80F48>,
    next: spec_fn(I80F48) -> MarginfiResult<I80F48>,
) -> MarginfiResult<I80F48> {
    match first {
        Ok(v) => next(v),
        Err(e) => Err(e),
    }
}

/// A fee on a base rate: a share of the base rate and a fixed part.
pub open spec fn fee_rate_of(base: I80F48, share: I80F48, fixed: I80F48) -> MarginfiResult<I80F48> {
    and_next(base.product(share), |part: I80F48| part.sum(fixed))
}

impl InterestRateConfig {
    /// Whether the parameters describe a curve: the bend lies strictly
    /// between no and full utilization, the maximal rate is not below the
    /// plateau rate, and no rate or fee is negative.
    pub open spec fn valid(self) -> bool {
        &&& 0 < self.optimal_utilization_rate@ < ONE_BITS
        &&& 0 <= self.plateau_interest_rate@ <= self.max_interest_rate@
        &&& 0 <= self.insurance_fee_fixed_apr@
        &&& 0 <= self.insurance_ir_fee@
        &&& 0 <= self.protocol_fixed_fee_apr@
        &&& 0 <= self.protocol_ir_fee@
    }

    /// The base rate at utilization `ur`.
    pub open spec fn base_rate(self, ur: I80F48) -> MarginfiResult<I80F48> {
        let optimal = self.optimal_utilization_rate.number();
        let plateau = self.plateau_interest_rate.number();
        let max = self.max_interest_rate.number();
        if ur@ <= optimal@ {
            and_next(ur.quotient(optimal), |q: I80F48| q.product(plateau))
        } else {
            and_next(
                ur.difference(optimal),
                |over: I80F48|
                    and_next(
                        (I80F48 { bits: ONE_BITS }).difference(optimal),
                        |room: I80F48|
                            and_next(
                                over.quotient(room),
                                |q: I80F48|
                                    and_next(
                                        max.difference(plateau),
                                        |rise: I80F48|
                                            and_next(
                                                q.product(rise),
                                                |p: I80F48| p.sum(plateau),
                                            ),
                                    ),
                            ),
                    ),
            )
        }
    }

    /// The lending rate for a base rate at utilization `ur`.
    pub open spec fn lending_rate(self, base: I80F48, ur: I80F48) -> MarginfiResult<I80F48> {
        base.product(ur)
    }

    /// The borrowing rate for a base rate.
    pub open spec fn borrowing_rate(self, base: I80F48) -> MarginfiResult<I80F48> {
        and_next(
            self.protocol_ir_fee.number().sum(self.insurance_ir_fee.number()),
            |rate_fee: I80F48|
                and_next(
                    self.protocol_fixed_fee_apr.number().sum(self.insurance_fee_fixed_apr.number()),
                    |fixed_fee: I80F48|
                        and_next(
                            (I80F48 { bits: ONE_BITS }).sum(rate_fee),
                            |factor: I80F48|
                                and_next(base.product(factor), |gross: I80F48| gross.sum(fixed_fee)),
                        ),
                ),
        )
    }

    /// What [`InterestRateConfig::calc_interest_rate`] returns: the lending
    /// rate, the borrowing rate, the protocol's fee and the insurance fee.
    pub open spec fn rates(self, ur: I80F48) -> Option<(I80F48, I80F48, I80F48, I80F48)> {
        match self.base_rate(ur) {
            Err(_) => None,
            Ok(base) => match (
                self.lending_rate(base, ur),
                self.borrowing_rate(base),
                fee_rate_of(
                    base,
                    self.protocol_ir_fee.number(),
                    self.protocol_fixed_fee_apr.number(),
                ),
                fee_rate_of(
                    base,
                    self.insurance_ir_fee.number(),
                    self.insurance_fee_fixed_apr.number(),
                ),
            ) {
                (Ok(lending), Ok(borrowing), Ok(group_fee), Ok(insurance_fee)) => Some(
                    (lending, borrowing, group_fee, insurance_fee),
                ),
                _ => None,
            },
        }
    }

    /// On a valid curve the base rate is never negative, for any
    /// utilization that is not negative.
    pub proof fn lemma_base_rate_not_negative(self, ur: I80F48)
        requires
            self.valid(),
            ur@ >= 0,
            self.base_rate(ur) is Ok,
        ensures
            self.base_rate(ur)->Ok_0@ >= 0,
    {
        let optimal = self.optimal_utilization_rate@;
        let plateau = self.plateau_interest_rate@;
        let max = self.max_interest_rate@;
        if ur@ <= optimal {
            lemma_quotient_monotone(ur@, ur@, optimal);
            lemma_product_not_negative(quotient_bits(ur@, optimal), plateau);
        } else {
            lemma_quotient_monotone(ur@ - optimal, ur@ - optimal, ONE_BITS - optimal);
            lemma_product_not_negative(
                quotient_bits(ur@ - optimal, ONE_BITS - optimal),
                max - plateau,
            );
        }
    }

    /// On a valid curve the base rate does not fall when the utilization
    /// rises.
    pub proof fn lemma_base_rate_monotone(self, ur1: I80F48, ur2: I80F48)
        requires
            self.valid(),
            ur1@ <= ur2@,
            self.base_rate(ur1) is Ok,
            self.base_rate(ur2) is Ok,
        ensures
            self.base_rate(ur1)->Ok_0@ <= self.base_rate(ur2)->Ok_0@,
    {
        let optimal = self.optimal_utilization_rate@;
        let plateau = self.plateau_interest_rate@;
        let max = self.max_interest_rate@;
        let room = ONE_BITS - optimal;
        if ur2@ <= optimal {
            lemma_quotient_monotone(ur1@, ur2@, optimal);
            lemma_product_monotone(quotient_bits(ur1@, optimal), quotient_bits(ur2@, optimal), plateau);
        } else if ur1@ > optimal {
            lemma_quotient_monotone(ur1@ - optimal, ur2@ - optimal, room);
            lemma_product_monotone(
                quotient_bits(ur1@ - optimal, room),
                quotient_bits(ur2@ - optimal, room),
                max - plateau,
            );
        } else {
            // below the bend the base rate is at most the plateau rate
            lemma_quotient_monotone(ur1@, optimal, optimal);
            lemma_quotient_of_self(optimal);
            lemma_product_monotone(quotient_bits(ur1@, optimal), ONE_BITS as int, plateau);
            lemma_one_is_neutral(plateau);
            // beyond it, at least the plateau rate
            lemma_quotient_monotone(ur2@ - optimal, ur2@ - optimal, room);
            lemma_product_not_negative(quotient_bits(ur2@ - optimal, room), max - plateau);
        }
    }

    /// The borrowing rate does not fall when the base rate rises, as long
    /// as the fees on the base rate are not negative.
    pub proof fn lemma_borrowing_rate_monotone(self, base1: I80F48, base2: I80F48)
        requires
            self.valid(),
            base1@ <= base2@,
            self.borrowing_rate(base1) is Ok,
            self.borrowing_rate(base2) is Ok,
        ensures
            self.borrowing_rate(base1)->Ok_0@ <= self.borrowing_rate(base2)->Ok_0@,
    {
        let factor = ONE_BITS + self.protocol_ir_fee@ + self.insurance_ir_fee@;
        lemma_product_monotone(base1@, base2@, factor);
    }

    /// On a valid curve, and while no more is lent out than is deposited,
    /// neither rate is negative and depositors earn no more than borrowers
    /// pay: the difference is what the fees and the idle deposits take.
    pub proof fn lemma_lending_at_most_borrowing(self, ur: I80F48)
        requires
            self.valid(),
            0 <= ur@ <= ONE_BITS,
            self.rates(ur) is Some,
        ensures
            ({
                let (lending, borrowing, group_fee, insurance_fee) = self.rates(ur)->0;
                &&& 0 <= lending@ <= borrowing@
                &&& group_fee@ >= 0
                &&& insurance_fee@ >= 0
            }),
    {
        let base = self.base_rate(ur)->Ok_0;
        let factor = ONE_BITS + self.protocol_ir_fee@ + self.insurance_ir_fee@;
        self.lemma_base_rate_not_negative(ur);
        lemma_one_is_neutral(base@);
        // lending: the base rate times a utilization of at most one
        lemma_product_not_negative(base@, ur@);
        lemma_product_monotone(ur@, ONE_BITS as int, base@);
        // borrowing: the base rate times a factor of at least one, and fees
        lemma_product_monotone(ONE_BITS as int, factor, base@);
        lemma_product_not_negative(base@, self.protocol_ir_fee@);
        lemma_product_not_negative(base@, self.insurance_ir_fee@);
    }

    /// On a valid curve what borrowers pay does not fall when the
    /// utilization rises.
    pub proof fn lemma_borrowing_monotone_in_utilization(self, ur1: I80F48, ur2: I80F48)
        requires
            self.valid(),
            ur1@ <= ur2@,
            self.rates(ur1) is Some,
            self.rates(ur2) is Some,
        ensures
            ({
                let (_, borrowing1, _, _) = self.rates(ur1)->0;
                let (_, borrowing2, _, _) = self.rates(ur2)->0;
                borrowing1@ <= borrowing2@
            }),
    {
        self.lemma_base_rate_monotone(ur1, ur2);
        self.lemma_borrowing_rate_monotone(
            self.base_rate(ur1)->Ok_0,
            self.base_rate(ur2)->Ok_0,
        );
    }

    /// The base rate at utilization `ur`, or the overflow error where a
    /// step of the computation cannot be represented or the bend lies at
    /// zero or full utilization.
    pub fn interest_rate_curve(&self, ur: I80F48) -> (r: MarginfiResult<I80F48>)
        ensures
            r == self.base_rate(ur),
    {
        let optimal_ur = I80F48::from(self.optimal_utilization_rate);
        let plateau_ir = I80F48::from(self.plateau_interest_rate);
        let max_ir = I80F48::from(self.max_interest_rate);

        if !optimal_ur.less_than(ur) {
            ur.checked_div(optimal_ur)?.checked_mul(plateau_ir)
        } else {
            let over = ur.checked_sub(optimal_ur)?;
            let room = I80F48::one().checked_sub(optimal_ur)?;
            let share = over.checked_div(room)?;
            let rise = max_ir.checked_sub(plateau_ir)?;
            share.checked_mul(rise)?.checked_add(plateau_ir)
        }
    }

    /// The yearly rates at utilization `utilization_ratio`, in this order:
    /// what depositors earn, what borrowers pay, the protocol's fee and the
    /// insurance fee. Nothing where one of them cannot be represented.
    pub fn calc_interest_rate(&self, utilization_ratio: I80F48) -> (r: Option<
        (I80F48, I80F48, I80F48, I80F48),
    >)
        ensures
            r == self.rates(utilization_ratio),
    {
        match self.rates_or_error(utilization_ratio) {
            Ok(rates) => Some(rates),
            Err(_) => None,
        }
    }

    fn rates_or_error(&self, utilization_ratio: I80F48) -> (r: MarginfiResult<
        (I80F48, I80F48, I80F48, I80F48),
    >)
        ensures
            match r {
                Ok(rates) => self.rates(utilization_ratio) == Some(rates),
                Err(_) => self.rates(utilization_ratio) is None,
            },
    {
        let protocol_ir_fee = I80F48::from(self.protocol_ir_fee);
        let insurance_ir_fee = I80F48::from(self.insurance_ir_fee);
        let protocol_fixed_fee_apr = I80F48::from(self.protocol_fixed_fee_apr);
        let insurance_fee_fixed_apr = I80F48::from(self.insurance_fee_fixed_apr);

        let base_rate = self.interest_rate_curve(utilization_ratio)?;

        // Depositors earn on the part of the deposits that is lent out.
        let lending_rate = base_rate.checked_mul(utilization_ratio)?;

        // Borrowers pay the base rate, the fees on it, and the fixed fees.
        let rate_fee = protocol_ir_fee.checked_add(insurance_ir_fee)?;
        let total_fixed_fee_apr = protocol_fixed_fee_apr.checked_add(insurance_fee_fixed_apr)?;
        let borrowing_rate = base_rate.checked_mul(I80F48::one().checked_add(rate_fee)?)?.checked_add(
            total_fixed_fee_apr,
        )?;

        let group_fees_apr = calc_fee_rate(base_rate, protocol_ir_fee, protocol_fixed_fee_apr)?;
        let insurance_fees_apr = calc_fee_rate(
            base_rate,
            insurance_ir_fee,
            insurance_fee_fixed_apr,
        )?;

        Ok((lending_rate, borrowing_rate, group_fees_apr, insurance_fees_apr))
    }
}

/// A fee on the base rate: the given share of the base rate and the fixed
/// part on top.
pub fn calc_fee_rate(base_rate: I80F48, rate_fees: I80F48, fixed_fees: I80F48) -> (r: MarginfiResult<
    I80F48,
>)
    ensures
        r == fee_rate_of(base_rate, rate_fees, fixed_fees),
{
    base_rate.checked_mul(rate_fees)?.checked_add(fixed_fees)
}

} // verus!
