//! The registry of banks: a fixed array of slots, searched by asset identity.

use crate::bank::Bank;
use crate::pubkey::Pubkey;
use vstd::prelude::*;

verus! {

/// The number of slots of a lending pool.
pub const MAX_LENDING_POOL_RESERVES: usize = 128;

/// Up to 128 banks, each in a slot of its own. A slot keeps its position
/// whether it is populated or not.
#[derive(Clone, Copy, Debug, PartialEq, Eq)]
pub struct LendingPool {
    pub banks: [Option<Bank>; MAX_LENDING_POOL_RESERVES],
}

impl LendingPool {
    /// Whether slot `i` holds a bank for the asset `mint`.
    pub open spec fn holds(self, i: int, mint: Pubkey) -> bool {
        &&& 0 <= i < MAX_LENDING_POOL_RESERVES
        &&& self.banks[i] is Some
        &&& self.banks[i]->0.mint@ == mint@
    }

    /// Whether slot `i` is the first that holds a bank for the asset `mint`.
    pub open spec fn is_first(self, i: int, mint: Pubkey) -> bool {
        &&& self.holds(i, mint)
        &&& forall|j: int| 0 <= j < i ==> !self.holds(j, mint)
    }

    /// The first slot that holds a bank for the asset `mint`, if any does.
    pub open spec fn slot_of(self, mint: Pubkey) -> Option<int> {
        if exists|i: int| self.holds(i, mint) {
            Some(choose|i: int| self.is_first(i, mint))
        } else {
            None
        }
    }

    /// The bank that a lookup of the asset `mint` finds.
    pub open spec fn bank_of(self, mint: Pubkey) -> Option<Bank> {
        match self.slot_of(mint) {
            Some(i) => self.banks[i],
            None => None,
        }
    }

    /// Whether no slot is populated.
    pub open spec fn is_empty(self) -> bool {
        forall|i: int| 0 <= i < MAX_LENDING_POOL_RESERVES ==> self.banks[i] is None
    }

    /// Whether no two populated slots hold banks for the same asset.
    pub open spec fn distinct(self) -> bool {
        forall|i: int, j: int|
            0 <= i < j < MAX_LENDING_POOL_RESERVES && self.banks[i] is Some && self.banks[j] is Some
                ==> self.banks[i]->0.mint@ != self.banks[j]->0.mint@
    }

    /// A slot that is the first for an asset is the slot that lookup finds.
    pub proof fn lemma_first_is_slot(self, i: int, mint: Pubkey)
        requires
            self.is_first(i, mint),
        ensures
            self.slot_of(mint) == Some(i),
    {
        let c = choose|k: int| self.is_first(k, mint);
        assert(self.is_first(c, mint));
        if c < i {
            assert(!self.holds(c, mint));
        } else if i < c {
            assert(!self.holds(i, mint));
        }
    }

    /// In a pool where no two populated slots hold the same asset, looking
    /// up the asset of any populated slot finds that slot and its bank.
    pub proof fn lemma_lookup_in_distinct_pool(self, i: int)
        requires
            self.distinct(),
            0 <= i < MAX_LENDING_POOL_RESERVES,
            self.banks[i] is Some,
        ensures
            self.slot_of(self.banks[i]->0.mint) == Some(i),
            self.bank_of(self.banks[i]->0.mint) == self.banks[i],
    {
        self.lemma_first_is_slot(i, self.banks[i]->0.mint);
    }

    /// Looking up an asset that no populated slot holds finds nothing.
    pub proof fn lemma_lookup_of_unregistered(self, mint: Pubkey)
        requires
            forall|i: int|
                0 <= i < MAX_LENDING_POOL_RESERVES && self.banks[i] is Some
                    ==> self.banks[i]->0.mint@ != mint@,
        ensures
            self.bank_of(mint) is None,
    {
    }

    /// What a lookup finds holds the asset that was asked for.
    pub proof fn lemma_lookup_matches(self, mint: Pubkey)
        ensures
            self.bank_of(mint) is Some ==> self.bank_of(mint)->0.mint == mint,
            self.slot_of(mint) is Some ==> self.is_first(self.slot_of(mint)->0, mint),
    {
        if self.slot_of(mint) is Some {
            let i = choose|i: int| self.holds(i, mint);
            self.lemma_some_slot_is_first(i, mint);
            Pubkey::lemma_view_injective(self.bank_of(mint)->0.mint, mint);
        }
    }

    /// Where some slot holds the asset, one of them is the first.
    proof fn lemma_some_slot_is_first(self, i: int, mint: Pubkey)
        requires
            self.holds(i, mint),
        ensures
            exists|k: int| self.is_first(k, mint),
        decreases i,
    {
        if exists|j: int| 0 <= j < i && self.holds(j, mint) {
            let j = choose|j: int| 0 <= j < i && self.holds(j, mint);
            self.lemma_some_slot_is_first(j, mint);
        } else {
            assert(self.is_first(i, mint));
        }
    }

    /// There is only one empty pool.
    pub proof fn lemma_empty_pools_are_equal(self, other: LendingPool)
        requires
            self.is_empty(),
            other.is_empty(),
        ensures
            self == other,
    {
        assert(self.banks =~= other.banks);
    }

    fn find_slot(&self, mint_pk: &Pubkey) -> (r: Option<usize>)
        ensures
            match r {
                Some(i) => self.is_first(i as int, *mint_pk) && self.slot_of(*mint_pk) == Some(
                    i as int,
                ),
                None => self.slot_of(*mint_pk) is None,
            },
    {
        let mut i: usize = 0;
        while i < MAX_LENDING_POOL_RESERVES
            invariant
                i <= MAX_LENDING_POOL_RESERVES,
                forall|j: int| 0 <= j < i ==> !self.holds(j, *mint_pk),
            decreases MAX_LENDING_POOL_RESERVES - i,
        {
            let found = match &self.banks[i] {
                Some(bank) => bank.mint == *mint_pk,
                None => false,
            };
            if found {
                proof {
                    self.lemma_first_is_slot(i as int, *mint_pk);
                }
                return Some(i);
            }
            i += 1;
        }
        None
    }

    /// The bank of the asset `mint_pk`: the one in the first populated slot
    /// whose asset has that identity, or nothing where no slot has it.
    pub fn get_bank(&self, mint_pk: &Pubkey) -> (r: Option<&Bank>)
        ensures
            match r {
                Some(bank) => self.bank_of(*mint_pk) == Some(*bank),
                None => self.bank_of(*mint_pk) is None,
            },
    {
        match self.find_slot(mint_pk) {
            Some(i) => self.banks[i].as_ref(),
            None => None,
        }
    }

    /// Exclusive access to the bank of the asset `mint_pk`, found as
    /// [`LendingPool::get_bank`] finds it. What the caller writes through
    /// the handle ends up in that bank's slot; every other slot stays as it
    /// was.
    pub fn get_bank_mut(&mut self, mint_pk: &Pubkey) -> (r: Option<&mut Bank>)
        ensures
            match r {
                Some(bank) => {
                    &&& old(self).slot_of(*mint_pk) is Some
                    &&& Some(*bank) == old(self).bank_of(*mint_pk)
                    &&& final(self).banks@ =~= old(self).banks@.update(
                        old(self).slot_of(*mint_pk)->0,
                        Some(*final(bank)),
                    )
                },
                None => old(self).slot_of(*mint_pk) is None && *final(self) == *old(self),
            },
    {
        match self.find_slot(mint_pk) {
            Some(i) => match &mut self.banks[i] {
                Some(bank) => Some(bank),
                None => None,
            },
            None => None,
        }
    }
}

impl Default for LendingPool {
    /// The pool with no bank in any slot.
    fn default() -> (r: LendingPool)
        ensures
            r.is_empty(),
            r.distinct(),
    {
        LendingPool { banks: [None; MAX_LENDING_POOL_RESERVES] }
    }
}

} // verus!
