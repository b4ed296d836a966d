//! The ledger of one asset: deposit and borrow shares, their exchange rates,
//! and the risk parameters of the asset.
//!
//! Ownership of the pool is counted in shares. Interest accrues by moving the
//! value of a share, never by rewriting balances, so converting between
//! shares and asset amounts is one multiplication or one division.

use crate::errors::{MarginfiError, MarginfiResult};
use crate::fixed_point::{representable, I80F48, WrappedI80F48, ONE_BITS};
use crate::pubkey::Pubkey;
use crate::rounding::{
    lemma_one_is_neutral, lemma_product_of_quotient, lemma_product_of_quotient_in_range,
    round_trip_slack,
};
use vstd::prelude::*;

verus! {

/// The two tiers of risk weights: the stricter one applies when a position
/// is opened, the looser one during ongoing solvency checks.
#[derive(Clone, Copy, Debug, PartialEq, Eq, Structural, Hash)]
pub enum WeightType {
    Initial,
    Maintenance,
}

/// The risk parameters of a bank.
#[derive(Clone, Copy, Debug, PartialEq, Eq)]
pub struct BankConfig {
    pub deposit_weight_init: WrappedI80F48,
    pub deposit_weight_maint: WrappedI80F48,
    pub liability_weight_init: WrappedI80F48,
    pub liability_weight_maint: WrappedI80F48,
    /// The ceiling on the total deposited value, in units of the asset.
    pub max_capacity: u64,
    pub pyth_oracle: Pubkey,
}

/// A patch to a [`BankConfig`]: a field that is present replaces the live
/// one, a field that is absent leaves it as it is.
#[derive(Clone, Copy, Debug, PartialEq, Eq)]
pub struct BankConfigOpt {
    pub deposit_weight_init: Option<WrappedI80F48>,
    pub deposit_weight_maint: Option<WrappedI80F48>,
    pub liability_weight_init: Option<WrappedI80F48>,
    pub liability_weight_maint: Option<WrappedI80F48>,
    pub max_capacity: Option<u64>,
    pub pyth_oracle: Option<Pubkey>,
}

/// The ledger of one asset.
#[derive(Clone, Copy, Debug, PartialEq, Eq)]
pub struct Bank {
    /// The identity of the asset.
    pub mint: Pubkey,
    /// The value of one deposit share, in units of the asset.
    pub deposit_share_value: I80F48,
    /// The value of one liability share, in units of the asset.
    pub liability_share_value: I80F48,
    pub liquidity_vault: Pubkey,
    pub insurance_vault: Pubkey,
    pub fee_vault: Pubkey,
    pub config: BankConfig,
    pub total_borrow_shares: I80F48,
    pub total_deposit_shares: I80F48,
}

/// The live value `current` after a patch field `patch` was applied to it.
pub open spec fn patched<T>(current: T, patch: Option<T>) -> T {
    match patch {
        Some(v) => v,
        None => current,
    }
}

impl BankConfigOpt {
    /// The patch that changes nothing.
    pub open spec fn spec_empty() -> BankConfigOpt {
        BankConfigOpt {
            deposit_weight_init: None,
            deposit_weight_maint: None,
            liability_weight_init: None,
            liability_weight_maint: None,
            max_capacity: None,
            pyth_oracle: None,
        }
    }

    /// The patch that changes nothing.
    pub fn empty() -> (r: BankConfigOpt)
        ensures
            r == BankConfigOpt::spec_empty(),
    {
        BankConfigOpt {
            deposit_weight_init: None,
            deposit_weight_maint: None,
            liability_weight_init: None,
            liability_weight_maint: None,
            max_capacity: None,
            pyth_oracle: None,
        }
    }
}

impl BankConfig {
    /// The deposit weight and the liability weight of a tier.
    pub open spec fn weights(self, weight_type: WeightType) -> (I80F48, I80F48) {
        match weight_type {
            WeightType::Initial => (
                self.deposit_weight_init.number(),
                self.liability_weight_init.number(),
            ),
            WeightType::Maintenance => (
                self.deposit_weight_maint.number(),
                self.liability_weight_maint.number(),
            ),
        }
    }

    /// The configuration that results from applying `patch` to this one.
    pub open spec fn merged(self, patch: BankConfigOpt) -> BankConfig {
        BankConfig {
            deposit_weight_init: patched(self.deposit_weight_init, patch.deposit_weight_init),
            deposit_weight_maint: patched(self.deposit_weight_maint, patch.deposit_weight_maint),
            liability_weight_init: patched(self.liability_weight_init, patch.liability_weight_init),
            liability_weight_maint: patched(
                self.liability_weight_maint,
                patch.liability_weight_maint,
            ),
            max_capacity: patched(self.max_capacity, patch.max_capacity),
            pyth_oracle: patched(self.pyth_oracle, patch.pyth_oracle),
        }
    }

    /// The deposit weight and the liability weight of the given tier, in
    /// that order.
    pub fn get_weights(&self, weight_type: WeightType) -> (r: (I80F48, I80F48))
        ensures
            r == self.weights(weight_type),
    {
        match weight_type {
            WeightType::Initial => (
                I80F48::from(self.deposit_weight_init),
                I80F48::from(self.liability_weight_init),
            ),
            WeightType::Maintenance => (
                I80F48::from(self.deposit_weight_maint),
                I80F48::from(self.liability_weight_maint),
            ),
        }
    }
}

impl BankConfig {
    /// A patch that holds no maintenance weight leaves the maintenance tier
    /// as it was, whatever it does to the initial tier.
    pub proof fn lemma_patch_keeps_maintenance(self, patch: BankConfigOpt)
        requires
            patch.deposit_weight_maint is None,
            patch.liability_weight_maint is None,
        ensures
            self.merged(patch).weights(WeightType::Maintenance) == self.weights(
                WeightType::Maintenance,
            ),
    {
    }

    /// A patch that holds no initial weight leaves the initial tier as it
    /// was, whatever it does to the maintenance tier.
    pub proof fn lemma_patch_keeps_initial(self, patch: BankConfigOpt)
        requires
            patch.deposit_weight_init is None,
            patch.liability_weight_init is None,
        ensures
            self.merged(patch).weights(WeightType::Initial) == self.weights(WeightType::Initial),
    {
    }

    /// A tier whose two weights are both in the patch reads back exactly
    /// those two weights.
    pub proof fn lemma_patch_sets_tier(self, patch: BankConfigOpt)
        ensures
            patch.deposit_weight_init is Some && patch.liability_weight_init is Some
                ==> self.merged(patch).weights(WeightType::Initial) == (
                patch.deposit_weight_init->0.number(),
                patch.liability_weight_init->0.number(),
            ),
            patch.deposit_weight_maint is Some && patch.liability_weight_maint is Some
                ==> self.merged(patch).weights(WeightType::Maintenance) == (
                patch.deposit_weight_maint->0.number(),
                patch.liability_weight_maint->0.number(),
            ),
    {
    }

    /// Applying a patch twice is the same as applying it once.
    pub proof fn lemma_merge_idempotent(self, patch: BankConfigOpt)
        ensures
            self.merged(patch).merged(patch) == self.merged(patch),
    {
    }

    /// The patch with no field present changes nothing.
    pub proof fn lemma_empty_patch_changes_nothing(self)
        ensures
            self.merged(BankConfigOpt::spec_empty()) == self,
    {
    }
}

impl Default for BankConfig {
    /// All weights zero, no capacity, and the zero identity as oracle.
    fn default() -> (r: BankConfig)
        ensures
            r.deposit_weight_init@ == 0,
            r.deposit_weight_maint@ == 0,
            r.liability_weight_init@ == 0,
            r.liability_weight_maint@ == 0,
            r.max_capacity == 0,
            r.pyth_oracle@ == Seq::new(32, |i: int| 0u8),
    {
        BankConfig {
            deposit_weight_init: WrappedI80F48::default(),
            deposit_weight_maint: WrappedI80F48::default(),
            liability_weight_init: WrappedI80F48::default(),
            liability_weight_maint: WrappedI80F48::default(),
            max_capacity: 0,
            pyth_oracle: Pubkey::default(),
        }
    }
}

impl Default for BankConfigOpt {
    /// The patch that changes nothing.
    fn default() -> (r: BankConfigOpt)
        ensures
            r == BankConfigOpt::spec_empty(),
    {
        BankConfigOpt::empty()
    }
}

impl Default for Bank {
    /// The all-zero record: no asset, no shares, and share values of zero.
    /// Such a record is a blank to be overwritten; a bank that is to be used
    /// is made by [`Bank::new`].
    fn default() -> (r: Bank)
        ensures
            r.mint@ == Seq::new(32, |i: int| 0u8),
            r.liquidity_vault@ == r.mint@,
            r.insurance_vault@ == r.mint@,
            r.fee_vault@ == r.mint@,
            r.config.pyth_oracle@ == r.mint@,
            r.deposit_share_value@ == 0,
            r.liability_share_value@ == 0,
            r.total_deposit_shares@ == 0,
            r.total_borrow_shares@ == 0,
            r.config.deposit_weight_init@ == 0,
            r.config.deposit_weight_maint@ == 0,
            r.config.liability_weight_init@ == 0,
            r.config.liability_weight_maint@ == 0,
            r.config.max_capacity == 0,
    {
        Bank {
            mint: Pubkey::default(),
            deposit_share_value: I80F48::default(),
            liability_share_value: I80F48::default(),
            liquidity_vault: Pubkey::default(),
            insurance_vault: Pubkey::default(),
            fee_vault: Pubkey::default(),
            config: BankConfig::default(),
            total_borrow_shares: I80F48::default(),
            total_deposit_shares: I80F48::default(),
        }
    }
}

impl Bank {
    /// The value of `shares` deposit shares.
    pub open spec fn deposit_value(self, shares: I80F48) -> MarginfiResult<I80F48> {
        shares.product(self.deposit_share_value)
    }

    /// The value of `shares` liability shares.
    pub open spec fn liability_value(self, shares: I80F48) -> MarginfiResult<I80F48> {
        shares.product(self.liability_share_value)
    }

    /// The number of deposit shares that are worth `value`.
    pub open spec fn deposit_shares(self, value: I80F48) -> MarginfiResult<I80F48> {
        value.quotient(self.deposit_share_value)
    }

    /// The number of liability shares that are worth `value`.
    pub open spec fn liability_shares(self, value: I80F48) -> MarginfiResult<I80F48> {
        value.quotient(self.liability_share_value)
    }

    /// The value that comes back when `value` is converted to deposit
    /// shares and the shares are converted to their value again.
    pub open spec fn deposit_round_trip(self, value: I80F48) -> MarginfiResult<I80F48> {
        match self.deposit_shares(value) {
            Ok(shares) => self.deposit_value(shares),
            Err(e) => Err(e),
        }
    }

    /// The value that comes back when `value` is converted to liability
    /// shares and the shares are converted to their value again.
    pub open spec fn liability_round_trip(self, value: I80F48) -> MarginfiResult<I80F48> {
        match self.liability_shares(value) {
            Ok(shares) => self.liability_value(shares),
            Err(e) => Err(e),
        }
    }

    /// The configured capacity as a fixed-point number of asset units.
    pub open spec fn capacity(self) -> I80F48 {
        I80F48 { bits: (self.config.max_capacity * ONE_BITS) as i128 }
    }

    /// Whether the total deposited value can be computed and does not
    /// exceed the value of the configured capacity.
    pub open spec fn within_capacity(self) -> bool {
        match (self.deposit_value(self.total_deposit_shares), self.deposit_value(self.capacity())) {
            (Ok(total), Ok(ceiling)) => total@ <= ceiling@,
            _ => false,
        }
    }

    /// The bank as [`Bank::change_deposit_shares`] leaves it: the total
    /// moves by `shares` as soon as the sum can be represented, whatever
    /// the capacity check then says.
    pub open spec fn after_deposit_change(self, shares: I80F48) -> Bank {
        match self.total_deposit_shares.sum(shares) {
            Ok(total) => Bank { total_deposit_shares: total, ..self },
            Err(_) => self,
        }
    }

    /// What [`Bank::change_deposit_shares`] returns.
    pub open spec fn deposit_change_outcome(self, shares: I80F48) -> MarginfiResult {
        let after = self.after_deposit_change(shares);
        if self.total_deposit_shares.sum(shares) is Err {
            Err(MarginfiError::MathError)
        } else if shares@ <= 0 {
            Ok(())
        } else if after.deposit_value(after.total_deposit_shares) is Err
            || after.deposit_value(after.capacity()) is Err {
            Err(MarginfiError::MathError)
        } else if after.within_capacity() {
            Ok(())
        } else {
            Err(MarginfiError::BankDepositCapacityExceeded)
        }
    }

    /// The bank as [`Bank::change_liability_shares`] leaves it.
    pub open spec fn after_liability_change(self, shares: I80F48) -> Bank {
        match self.total_borrow_shares.sum(shares) {
            Ok(total) => Bank { total_borrow_shares: total, ..self },
            Err(_) => self,
        }
    }

    /// A value that is converted to deposit shares and back comes back
    /// within the rounding slack of the share value, and it never gains: a
    /// value that is not negative does not grow, one that is not positive
    /// does not shrink.
    pub proof fn lemma_deposit_round_trip(self, value: I80F48)
        requires
            self.deposit_round_trip(value) is Ok,
        ensures
            ({
                let back = self.deposit_round_trip(value)->Ok_0;
                let slack = round_trip_slack(self.deposit_share_value@);
                &&& value@ - slack <= back@ <= value@ + slack
                &&& value@ >= 0 ==> back@ <= value@
                &&& value@ <= 0 ==> back@ >= value@
            }),
    {
        lemma_product_of_quotient(value@, self.deposit_share_value@);
    }

    /// A value that is converted to liability shares and back comes back
    /// within the rounding slack of the share value, and it never gains: a
    /// value that is not negative does not grow, one that is not positive
    /// does not shrink.
    pub proof fn lemma_liability_round_trip(self, value: I80F48)
        requires
            self.liability_round_trip(value) is Ok,
        ensures
            ({
                let back = self.liability_round_trip(value)->Ok_0;
                let slack = round_trip_slack(self.liability_share_value@);
                &&& value@ - slack <= back@ <= value@ + slack
                &&& value@ >= 0 ==> back@ <= value@
                &&& value@ <= 0 ==> back@ >= value@
            }),
    {
        lemma_product_of_quotient(value@, self.liability_share_value@);
    }

    /// While the value of a share is at least one, which it is from the
    /// start and for as long as it only grows, every value can be converted
    /// to shares and back: neither step overflows.
    pub proof fn lemma_round_trip_succeeds(self, value: I80F48)
        ensures
            self.deposit_share_value@ >= ONE_BITS ==> self.deposit_round_trip(value) is Ok,
            self.liability_share_value@ >= ONE_BITS ==> self.liability_round_trip(value) is Ok,
    {
        if self.deposit_share_value@ >= ONE_BITS {
            lemma_product_of_quotient_in_range(value@, self.deposit_share_value@);
        }
        if self.liability_share_value@ >= ONE_BITS {
            lemma_product_of_quotient_in_range(value@, self.liability_share_value@);
        }
    }

    /// While the value of a share is exactly one, as in a fresh bank, every
    /// value converts to as many shares and back without loss.
    pub proof fn lemma_round_trip_at_unit_share_value(self, value: I80F48)
        ensures
            self.deposit_share_value@ == ONE_BITS ==> self.deposit_shares(value) == Ok::<
                I80F48,
                MarginfiError,
            >(value) && self.deposit_round_trip(value) == Ok::<I80F48, MarginfiError>(value),
            self.liability_share_value@ == ONE_BITS ==> self.liability_shares(value) == Ok::<
                I80F48,
                MarginfiError,
            >(value) && self.liability_round_trip(value) == Ok::<I80F48, MarginfiError>(value),
    {
        lemma_one_is_neutral(value@);
    }

    /// A fresh ledger for the asset `mint_pk`: both share values are one
    /// and no shares exist.
    pub fn new(
        config: BankConfig,
        mint_pk: Pubkey,
        liquidity_vault: Pubkey,
        insurance_vault: Pubkey,
        fee_vault: Pubkey,
    ) -> (r: Bank)
        ensures
            r == (Bank {
                mint: mint_pk,
                deposit_share_value: I80F48 { bits: ONE_BITS },
                liability_share_value: I80F48 { bits: ONE_BITS },
                liquidity_vault,
                insurance_vault,
                fee_vault,
                config,
                total_borrow_shares: I80F48 { bits: 0 },
                total_deposit_shares: I80F48 { bits: 0 },
            }),
            r.within_capacity(),
    {
        proof {
            lemma_one_is_neutral(0);
            lemma_one_is_neutral(config.max_capacity * ONE_BITS);
        }
        Bank {
            mint: mint_pk,
            deposit_share_value: I80F48::one(),
            liability_share_value: I80F48::one(),
            liquidity_vault,
            insurance_vault,
            fee_vault,
            config,
            total_borrow_shares: I80F48::zero(),
            total_deposit_shares: I80F48::zero(),
        }
    }

    /// The value of `shares` liability shares: the product with the value
    /// of a liability share, rounded down.
    pub fn get_liability_value(&self, shares: I80F48) -> (r: MarginfiResult<I80F48>)
        ensures
            r == self.liability_value(shares),
            self.liability_share_value@ == ONE_BITS ==> r == Ok::<I80F48, MarginfiError>(shares),
    {
        proof {
            lemma_one_is_neutral(shares@);
        }
        shares.checked_mul(self.liability_share_value)
    }

    /// The value of `shares` deposit shares: the product with the value of
    /// a deposit share, rounded down.
    pub fn get_deposit_value(&self, shares: I80F48) -> (r: MarginfiResult<I80F48>)
        ensures
            r == self.deposit_value(shares),
            self.deposit_share_value@ == ONE_BITS ==> r == Ok::<I80F48, MarginfiError>(shares),
    {
        proof {
            lemma_one_is_neutral(shares@);
        }
        shares.checked_mul(self.deposit_share_value)
    }

    /// The number of liability shares worth `value`: the quotient by the
    /// value of a liability share, rounded towards zero. Fails where that
    /// share value is zero.
    pub fn get_liability_shares(&self, value: I80F48) -> (r: MarginfiResult<I80F48>)
        ensures
            r == self.liability_shares(value),
            self.liability_share_value@ == ONE_BITS ==> r == Ok::<I80F48, MarginfiError>(value),
    {
        proof {
            lemma_one_is_neutral(value@);
        }
        value.checked_div(self.liability_share_value)
    }

    /// The number of deposit shares worth `value`: the quotient by the
    /// value of a deposit share, rounded towards zero. Fails where that
    /// share value is zero.
    pub fn get_deposit_shares(&self, value: I80F48) -> (r: MarginfiResult<I80F48>)
        ensures
            r == self.deposit_shares(value),
            self.deposit_share_value@ == ONE_BITS ==> r == Ok::<I80F48, MarginfiError>(value),
    {
        proof {
            lemma_one_is_neutral(value@);
        }
        value.checked_div(self.deposit_share_value)
    }

    /// Moves the total of deposit shares by `shares`.
    ///
    /// The total is updated first. Only then, and only for a positive
    /// `shares`, is the new total's value held against the value of the
    /// configured capacity: where it is strictly greater the call fails with
    /// [`MarginfiError::BankDepositCapacityExceeded`], and the updated total
    /// stays in place. A caller that gets an error must discard the bank as
    /// a whole, or restore the value it had before the call.
    ///
    /// While the value of a share is one, the values are the numbers
    /// themselves: a deposit succeeds exactly where the new total is at most
    /// the capacity.
    pub fn change_deposit_shares(&mut self, shares: I80F48) -> (r: MarginfiResult)
        ensures
            *final(self) == old(self).after_deposit_change(shares),
            r == old(self).deposit_change_outcome(shares),
            r is Ok && shares@ > 0 ==> final(self).within_capacity(),
            old(self).deposit_share_value@ == ONE_BITS && shares@ > 0 && representable(
                old(self).total_deposit_shares@ + shares@,
            ) ==> (r is Ok <==> old(self).total_deposit_shares@ + shares@
                <= old(self).config.max_capacity * ONE_BITS),
    {
        proof {
            lemma_one_is_neutral(old(self).total_deposit_shares@ + shares@);
            lemma_one_is_neutral(old(self).config.max_capacity * ONE_BITS);
        }
        self.total_deposit_shares = self.total_deposit_shares.checked_add(shares)?;

        if shares.is_positive() {
            let total_shares_value = self.get_deposit_value(self.total_deposit_shares)?;
            let max_deposit_capacity = self.get_deposit_value(
                I80F48::from(self.config.max_capacity),
            )?;

            if max_deposit_capacity.less_than(total_shares_value) {
                return Err(MarginfiError::BankDepositCapacityExceeded);
            }
        }

        Ok(())
    }

    /// Moves the total of borrow shares by `shares`. No ceiling applies: the
    /// call fails only where the new total cannot be represented, and then
    /// leaves the bank as it was.
    pub fn change_liability_shares(&mut self, shares: I80F48) -> (r: MarginfiResult)
        ensures
            *final(self) == old(self).after_liability_change(shares),
            old(self).total_borrow_shares.sum(shares) is Ok ==> r == Ok::<(), MarginfiError>(()),
            old(self).total_borrow_shares.sum(shares) is Err ==> r == Err::<(), MarginfiError>(
                MarginfiError::MathError,
            ),
    {
        self.total_borrow_shares = self.total_borrow_shares.checked_add(shares)?;
        Ok(())
    }

    /// Applies a patch to the risk parameters. Never fails, and touches
    /// nothing but the configuration.
    pub fn configure(&mut self, config: BankConfigOpt) -> (r: MarginfiResult)
        ensures
            r is Ok,
            *final(self) == (Bank { config: old(self).config.merged(config), ..*old(self) }),
    {
        if let Some(v) = config.deposit_weight_init {
            self.config.deposit_weight_init = v;
        }
        if let Some(v) = config.deposit_weight_maint {
            self.config.deposit_weight_maint = v;
        }
        if let Some(v) = config.liability_weight_init {
            self.config.liability_weight_init = v;
        }
        if let Some(v) = config.liability_weight_maint {
            self.config.liability_weight_maint = v;
        }
        if let Some(v) = config.max_capacity {
            self.config.max_capacity = v;
        }
        if let Some(v) = config.pyth_oracle {
            self.config.pyth_oracle = v;
        }
        Ok(())
    }
}

} // verus!
