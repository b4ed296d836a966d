//! The group: one administrator and one lending pool.

use crate::bank::patched;
use crate::errors::MarginfiResult;
use crate::lending_pool::LendingPool;
use crate::pubkey::Pubkey;
use vstd::prelude::*;

verus! {

/// The one record of a deployment: who administers it, and its banks.
#[derive(Clone, Copy, Debug, PartialEq, Eq)]
pub struct MarginfiGroup {
    pub lending_pool: LendingPool,
    pub admin: Pubkey,
}

/// A patch to a [`MarginfiGroup`]: a field that is present replaces the live
/// one, a field that is absent leaves it as it is.
#[derive(Clone, Copy, Debug, PartialEq, Eq)]
pub struct GroupConfig {
    pub admin: Option<Pubkey>,
}

impl Default for GroupConfig {
    /// The patch that changes nothing.
    fn default() -> (r: GroupConfig)
        ensures
            r.admin is None,
    {
        GroupConfig { admin: None }
    }
}

impl Default for MarginfiGroup {
    /// The group with an empty lending pool and the zero identity as
    /// administrator.
    fn default() -> (r: MarginfiGroup)
        ensures
            r.admin@ == Seq::new(32, |i: int| 0u8),
            r.lending_pool.is_empty(),
    {
        MarginfiGroup { lending_pool: LendingPool::default(), admin: Pubkey::default() }
    }
}

impl MarginfiGroup {
    /// Applies a patch to the group's parameters. Never fails, and leaves
    /// the lending pool as it is. All changes to the parameters of a group
    /// that is in use go through this function.
    pub fn configure(&mut self, config: GroupConfig) -> (r: MarginfiResult)
        ensures
            r is Ok,
            final(self).admin == patched(old(self).admin, config.admin),
            final(self).lending_pool == old(self).lending_pool,
    {
        if let Some(admin) = config.admin {
            self.admin = admin;
        }
        Ok(())
    }

    /// Resets the group to its initial state under the administrator
    /// `admin_pk`: whatever the lending pool held is gone. Meant to be
    /// called once, when the group is created.
    pub fn set_initial_configuration(&mut self, admin_pk: Pubkey)
        ensures
            final(self).admin == admin_pk,
            final(self).lending_pool.is_empty(),
    {
        *self = MarginfiGroup { admin: admin_pk, lending_pool: LendingPool::default() };
    }
}

} // verus!
