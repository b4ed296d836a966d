//! The figures that a pool-statistics exporter derives from a bank: totals
//! in whole tokens and in the quote currency, utilization, loan-to-value,
//! and the yearly rates with and without reward emissions.
//!
//! Everything here is fixed-point arithmetic on values that the caller
//! already has: fetching prices and compounding yearly rates into yields
//! are the caller's.

use crate::bank::{Bank, BankConfig};
use crate::errors::{MarginfiError, MarginfiResult};
use crate::fixed_point::{product_bits, I80F48, ONE_BITS};
use crate::interest_rate::InterestRateConfig;
use crate::pubkey::Pubkey;
use vstd::arithmetic::power::{lemma_pow0, pow};
use vstd::prelude::*;

verus! {

/// The largest number of decimals whose power of ten fits in 32 bits.
pub const MAX_DECIMALS: u8 = 9;

/// What [`decimal_scale`] returns.
pub open spec fn scale_of(decimals: u8) -> MarginfiResult<I80F48> {
    if decimals <= MAX_DECIMALS {
        Ok(I80F48 { bits: (pow(10, decimals as nat) * ONE_BITS) as i128 })
    } else {
        Err(MarginfiError::MathError)
    }
}

/// The number of smallest units in one whole token of an asset with the
/// given number of decimals: ten to that power, as long as it fits in 32
/// bits.
pub fn decimal_scale(decimals: u8) -> (r: MarginfiResult<I80F48>)
    ensures
        r == scale_of(decimals),
{
    if decimals > MAX_DECIMALS {
        return Err(MarginfiError::MathError);
    }
    let mut power: i32 = 1;
    let mut i: u8 = 0;
    proof {
        lemma_pow0(10);
    }
    while i < decimals
        invariant
            i <= decimals <= MAX_DECIMALS,
            power == pow(10, i as nat),
            1 <= power <= 1_000_000_000,
            i < MAX_DECIMALS ==> power <= 100_000_000,
        decreases decimals - i,
    {
        proof {
            reveal_with_fuel(pow, 2);
            assert(pow(10, (i + 1) as nat) == 10 * pow(10, i as nat));
            lemma_power_of_ten_bound(i as nat);
        }
        power = power * 10;
        i += 1;
    }
    Ok(I80F48::from_num(power))
}

/// Below the ninth, a power of ten is at most a tenth of the ninth.
proof fn lemma_power_of_ten_bound(e: nat)
    ensures
        e + 1 < MAX_DECIMALS ==> pow(10, e + 1) <= 100_000_000,
        e + 1 <= MAX_DECIMALS ==> pow(10, e + 1) <= 1_000_000_000,
{
    reveal_with_fuel(pow, 11);
}

/// What [`utilization_ratio`] returns.
pub open spec fn utilization_of(total_deposits: I80F48, total_borrows: I80F48) -> MarginfiResult<
    I80F48,
> {
    if total_deposits@ > 0 {
        total_borrows.quotient(total_deposits)
    } else {
        Ok(I80F48 { bits: 0 })
    }
}

/// The share of the deposits that is lent out: borrows divided by
/// deposits, and zero while nothing is deposited.
pub fn utilization_ratio(total_deposits: I80F48, total_borrows: I80F48) -> (r: MarginfiResult<
    I80F48,
>)
    ensures
        r == utilization_of(total_deposits, total_borrows),
{
    if total_deposits.is_positive() {
        total_borrows.checked_div(total_deposits)
    } else {
        Ok(I80F48::zero())
    }
}

/// What [`loan_to_value`] returns.
pub open spec fn loan_to_value_of(config: BankConfig) -> MarginfiResult<I80F48> {
    (I80F48 { bits: ONE_BITS }).quotient(config.liability_weight_init.number())
}

/// The loan-to-value ratio of an asset: the reciprocal of its initial
/// liability weight. Fails where that weight is zero.
pub fn loan_to_value(config: &BankConfig) -> (r: MarginfiResult<I80F48>)
    ensures
        r == loan_to_value_of(*config),
{
    I80F48::one().checked_div(I80F48::from(config.liability_weight_init))
}

/// The totals of a bank, in whole tokens and in the quote currency.
#[derive(Clone, Copy, Debug, PartialEq, Eq)]
pub struct PoolTotals {
    /// The value of all deposit shares, in whole tokens.
    pub total_deposits: I80F48,
    /// The value of all borrow shares, in whole tokens.
    pub total_borrows: I80F48,
    /// Deposits less borrows.
    pub net_supply: I80F48,
    /// The net supply at the token's price.
    pub tvl_usd: I80F48,
    /// The deposits at the token's price.
    pub total_supply_usd: I80F48,
    /// The borrows at the token's price.
    pub total_borrow_usd: I80F48,
    /// Borrows divided by deposits.
    pub utilization: I80F48,
}

/// Whether `totals` are the totals of `bank` for a token of which `scale`
/// smallest units make one and which costs `token_price`.
pub open spec fn totals_match(
    totals: PoolTotals,
    bank: Bank,
    scale: I80F48,
    token_price: I80F48,
) -> bool {
    &&& bank.deposit_value(bank.total_deposit_shares) is Ok
    &&& bank.liability_value(bank.total_borrow_shares) is Ok
    &&& bank.deposit_value(bank.total_deposit_shares)->Ok_0.quotient(scale) == Ok::<
        I80F48,
        MarginfiError,
    >(totals.total_deposits)
    &&& bank.liability_value(bank.total_borrow_shares)->Ok_0.quotient(scale) == Ok::<
        I80F48,
        MarginfiError,
    >(totals.total_borrows)
    &&& totals.total_deposits.difference(totals.total_borrows) == Ok::<I80F48, MarginfiError>(
        totals.net_supply,
    )
    &&& token_price.product(totals.net_supply) == Ok::<I80F48, MarginfiError>(totals.tvl_usd)
    &&& token_price.product(totals.total_deposits) == Ok::<I80F48, MarginfiError>(
        totals.total_supply_usd,
    )
    &&& token_price.product(totals.total_borrows) == Ok::<I80F48, MarginfiError>(
        totals.total_borrow_usd,
    )
    &&& utilization_of(totals.total_deposits, totals.total_borrows) == Ok::<I80F48, MarginfiError>(
        totals.utilization,
    )
}

impl PoolTotals {
    /// The totals of `bank`. The call succeeds exactly where every figure
    /// can be represented and `scale` is not zero; the only error is
    /// [`MarginfiError::MathError`].
    pub fn from_bank(bank: &Bank, scale: I80F48, token_price: I80F48) -> (r: MarginfiResult<
        PoolTotals,
    >)
        ensures
            match r {
                Ok(totals) => totals_match(totals, *bank, scale, token_price),
                Err(e) => e == MarginfiError::MathError && forall|totals: PoolTotals|
                    !totals_match(totals, *bank, scale, token_price),
            },
    {
        let total_deposits = bank.get_deposit_value(bank.total_deposit_shares)?.checked_div(scale)?;
        let total_borrows = bank.get_liability_value(bank.total_borrow_shares)?.checked_div(
            scale,
        )?;
        let net_supply = total_deposits.checked_sub(total_borrows)?;
        let tvl_usd = token_price.checked_mul(net_supply)?;
        let total_supply_usd = token_price.checked_mul(total_deposits)?;
        let total_borrow_usd = token_price.checked_mul(total_borrows)?;
        let utilization = utilization_ratio(total_deposits, total_borrows)?;
        Ok(
            PoolTotals {
                total_deposits,
                total_borrows,
                net_supply,
                tvl_usd,
                total_supply_usd,
                total_borrow_usd,
                utilization,
            },
        )
    }
}

/// The yearly lending and borrowing rates that the interest-rate curve
/// gives for the current utilization.
#[derive(Clone, Copy, Debug, PartialEq, Eq)]
pub struct BaseRates {
    pub lending: I80F48,
    pub borrowing: I80F48,
}

/// The reward emissions configured for a bank.
#[derive(Clone, Copy, Debug, PartialEq, Eq)]
pub struct Emissions {
    /// The price of the emission asset.
    pub token_price: I80F48,
    /// Whole emission tokens paid out per unit of time.
    pub reward_rate_per_token: I80F48,
    /// Whether depositors earn the emissions.
    pub lending_active: bool,
    /// Whether borrowers earn the emissions.
    pub borrow_active: bool,
}

/// The yearly rates with the rewards blended in, one per side. A side that
/// earns no reward has no such rate, which is not the same as a rate of
/// zero.
#[derive(Clone, Copy, Debug, PartialEq, Eq)]
pub struct RewardRates {
    pub lending: Option<I80F48>,
    pub borrowing: Option<I80F48>,
}

/// The bit of a bank's emission flags that says that borrowers earn the
/// emissions.
pub const EMISSIONS_FLAG_BORROW_ACTIVE: u64 = 1 << 0;

/// The bit of a bank's emission flags that says that depositors earn the
/// emissions.
pub const EMISSIONS_FLAG_LENDING_ACTIVE: u64 = 1 << 1;

/// Whether every bit of `flag` is set in `emissions_flags`.
pub fn get_emissions_flag(emissions_flags: u64, flag: u64) -> (r: bool)
    ensures
        r == (emissions_flags & flag == flag),
{
    (emissions_flags & flag) == flag
}

/// Whether a bank pays out emissions at all: it does unless its emission
/// asset is the zero identity.
pub fn has_emissions(emissions_mint: &Pubkey) -> (r: bool)
    ensures
        r == (emissions_mint@ != Seq::new(32, |i: int| 0u8)),
{
    *emissions_mint != Pubkey::default()
}

/// What [`relative_emissions_value`] returns.
pub open spec fn relative_value_of(emissions: Emissions, token_price: I80F48) -> MarginfiResult<
    I80F48,
> {
    match emissions.token_price.product(emissions.reward_rate_per_token) {
        Ok(value) => value.quotient(token_price),
        Err(e) => Err(e),
    }
}

/// The rate that one side of [`reward_rates`] gets.
pub open spec fn blended_rate_of(base: I80F48, relative: I80F48, active: bool) -> MarginfiResult<
    Option<I80F48>,
> {
    if active {
        match base.sum(relative) {
            Ok(rate) => Ok(Some(rate)),
            Err(e) => Err(e),
        }
    } else {
        Ok(None)
    }
}

/// What [`reward_rates`] returns.
pub open spec fn reward_rates_of(
    base: BaseRates,
    emissions: Option<Emissions>,
    token_price: I80F48,
) -> MarginfiResult<RewardRates> {
    match emissions {
        None => Ok(RewardRates { lending: None, borrowing: None }),
        Some(emissions) => match relative_value_of(emissions, token_price) {
            Err(e) => Err(e),
            Ok(relative) => match (
                blended_rate_of(base.lending, relative, emissions.lending_active),
                blended_rate_of(base.borrowing, relative, emissions.borrow_active),
            ) {
                (Ok(lending), Ok(borrowing)) => Ok(RewardRates { lending, borrowing }),
                _ => Err(MarginfiError::MathError),
            },
        },
    }
}

/// The value paid out in emissions per unit of time, relative to the price
/// of the bank's own token: the emission asset's price times the emission
/// rate, divided by the token's price.
pub fn relative_emissions_value(emissions: &Emissions, token_price: I80F48) -> (r: MarginfiResult<
    I80F48,
>)
    ensures
        r == relative_value_of(*emissions, token_price),
{
    emissions.token_price.checked_mul(emissions.reward_rate_per_token)?.checked_div(token_price)
}

/// The yearly rates with the rewards blended in. Without an emission asset
/// neither side has one, whatever else is configured. With one, each side
/// whose flag is set gets its base rate plus the relative value of the
/// emissions, and a side whose flag is not set gets none.
pub fn reward_rates(base: &BaseRates, emissions: Option<Emissions>, token_price: I80F48) -> (r:
    MarginfiResult<RewardRates>)
    ensures
        r == reward_rates_of(*base, emissions, token_price),
{
    match emissions {
        None => Ok(RewardRates { lending: None, borrowing: None }),
        Some(emissions) => {
            let relative = relative_emissions_value(&emissions, token_price)?;
            let lending = if emissions.lending_active {
                Some(base.lending.checked_add(relative)?)
            } else {
                None
            };
            let borrowing = if emissions.borrow_active {
                Some(base.borrowing.checked_add(relative)?)
            } else {
                None
            };
            Ok(RewardRates { lending, borrowing })
        },
    }
}

/// Everything that the snapshot of a bank holds before it is compounded and
/// printed.
#[derive(Clone, Copy, Debug, PartialEq, Eq)]
pub struct PoolSnapshot {
    /// The loan-to-value ratio of the asset.
    pub ltv: I80F48,
    pub totals: PoolTotals,
    /// The yearly rates at the current utilization.
    pub base: BaseRates,
    /// The yearly rates with the rewards blended in.
    pub rewards: RewardRates,
}

/// Whether `snapshot` is the snapshot of `bank` under the curve `curve`, for
/// a token with `mint_decimals` decimals that costs `token_price`, with the
/// given emissions.
pub open spec fn snapshot_matches(
    snapshot: PoolSnapshot,
    bank: Bank,
    curve: InterestRateConfig,
    mint_decimals: u8,
    token_price: I80F48,
    emissions: Option<Emissions>,
) -> bool {
    &&& loan_to_value_of(bank.config) == Ok::<I80F48, MarginfiError>(snapshot.ltv)
    &&& scale_of(mint_decimals) is Ok
    &&& totals_match(snapshot.totals, bank, scale_of(mint_decimals)->Ok_0, token_price)
    &&& curve.rates(snapshot.totals.utilization) is Some
    &&& ({
        let (lending, borrowing, _, _) = curve.rates(snapshot.totals.utilization)->0;
        snapshot.base == (BaseRates { lending, borrowing })
    })
    &&& reward_rates_of(snapshot.base, emissions, token_price) == Ok::<RewardRates, MarginfiError>(
        snapshot.rewards,
    )
}

impl PoolSnapshot {
    /// The snapshot of `bank`: its loan-to-value ratio, its totals, the
    /// rates that `curve` gives at its utilization, and those rates with the
    /// emissions blended in. The call succeeds exactly where every figure
    /// can be represented; the only error is [`MarginfiError::MathError`].
    pub fn from_bank(
        bank: &Bank,
        curve: &InterestRateConfig,
        mint_decimals: u8,
        token_price: I80F48,
        emissions: Option<Emissions>,
    ) -> (r: MarginfiResult<PoolSnapshot>)
        ensures
            match r {
                Ok(snapshot) => snapshot_matches(
                    snapshot,
                    *bank,
                    *curve,
                    mint_decimals,
                    token_price,
                    emissions,
                ),
                Err(e) => e == MarginfiError::MathError && forall|snapshot: PoolSnapshot|
                    !snapshot_matches(snapshot, *bank, *curve, mint_decimals, token_price, emissions),
            },
    {
        let ltv = loan_to_value(&bank.config)?;
        let scale = decimal_scale(mint_decimals)?;
        let totals = PoolTotals::from_bank(bank, scale, token_price)?;
        let base = match curve.calc_interest_rate(totals.utilization) {
            Some((lending, borrowing, _, _)) => BaseRates { lending, borrowing },
            None => {
                return Err(MarginfiError::MathError);
            },
        };
        let rewards = reward_rates(&base, emissions, token_price)?;
        Ok(PoolSnapshot { ltv, totals, base, rewards })
    }
}

/// With positive prices and a positive emission rate, the relative value of
/// the emissions is never negative, and it is positive unless it is too
/// small to be represented: exactly where the emitted value, in raw units,
/// is at least the token's price divided by `2^48`.
pub proof fn lemma_relative_value_sign(emissions: Emissions, token_price: I80F48)
    requires
        emissions.token_price@ > 0,
        emissions.reward_rate_per_token@ > 0,
        token_price@ > 0,
        relative_value_of(emissions, token_price) is Ok,
    ensures
        ({
            let relative = relative_value_of(emissions, token_price)->Ok_0;
            let emitted = product_bits(emissions.token_price@, emissions.reward_rate_per_token@);
            &&& relative@ >= 0
            &&& relative@ > 0 <==> emitted * ONE_BITS >= token_price@
        }),
{
    let a = emissions.token_price@;
    let b = emissions.reward_rate_per_token@;
    let one = ONE_BITS as int;
    let emitted = product_bits(a, b);
    assert(emitted >= 0) by (nonlinear_arith)
        requires
            a > 0,
            b > 0,
            one > 0,
            emitted == (a * b) / one,
    ;
    let n = emitted * one;
    let d = token_price@;
    assert(n >= 0 && (n / d >= 0) && (n / d > 0 <==> n >= d)) by (nonlinear_arith)
        requires
            emitted >= 0,
            one > 0,
            n == emitted * one,
            d > 0,
    ;
}

/// Where only depositors earn the emissions, the borrowing side has no
/// reward rate, and the lending side has one that is at least the base
/// lending rate: greater by what the emissions are worth relative to the
/// token.
pub proof fn lemma_lending_only_emissions(
    base: BaseRates,
    emissions: Emissions,
    token_price: I80F48,
)
    requires
        emissions.lending_active,
        !emissions.borrow_active,
        reward_rates_of(base, Some(emissions), token_price) is Ok,
    ensures
        ({
            let rates = reward_rates_of(base, Some(emissions), token_price)->Ok_0;
            let relative = relative_value_of(emissions, token_price)->Ok_0;
            &&& rates.borrowing is None
            &&& rates.lending is Some
            &&& rates.lending->0@ == base.lending@ + relative@
            &&& emissions.token_price@ > 0 && emissions.reward_rate_per_token@ > 0 && token_price@
                > 0 ==> rates.lending->0@ >= base.lending@
            &&& emissions.token_price@ > 0 && emissions.reward_rate_per_token@ > 0 && token_price@
                > 0 && relative@ > 0 ==> rates.lending->0@ > base.lending@
        }),
{
    if emissions.token_price@ > 0 && emissions.reward_rate_per_token@ > 0 && token_price@ > 0 {
        lemma_relative_value_sign(emissions, token_price);
    }
}

/// Without an emission asset neither side has a reward rate, whatever the
/// base rates and the price are, and the call cannot fail.
pub proof fn lemma_no_emissions_no_reward(base: BaseRates, token_price: I80F48)
    ensures
        reward_rates_of(base, None, token_price) == Ok::<RewardRates, MarginfiError>(
            RewardRates { lending: None, borrowing: None },
        ),
{
}

} // verus!
