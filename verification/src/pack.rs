//! Traits for fixed-layout account records.

use vstd::prelude::*;

use crate::state::{AccountType, StakePool};
use crate::validator_list::ValidatorListHeader;

verus! {

/// Marker for record types with a packed fixed-width form.
pub trait Sealed: Sized {

}

/// Records that can tell whether their account has been initialized.
pub trait IsInitialized {
    /// Whether the account holds an initialized record.
    fn is_initialized(&self) -> bool;
}

impl Sealed for StakePool {

}

impl IsInitialized for StakePool {
    fn is_initialized(&self) -> (r: bool)
        ensures
            r <==> self.account_type != AccountType::Uninitialized,
    {
        !self.is_uninitialized()
    }
}

impl Sealed for ValidatorListHeader {

}

impl IsInitialized for ValidatorListHeader {
    fn is_initialized(&self) -> (r: bool)
        ensures
            r <==> self.account_type != AccountType::Uninitialized,
    {
        !self.is_uninitialized()
    }
}

} // verus!
