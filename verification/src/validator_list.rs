//! The capped list of per-validator stake records.
//!
//! Lookup is a linear scan: the list is bounded at pool creation and the
//! authoritative use batches updates once per epoch, so no index is kept.

use vstd::prelude::*;

use crate::address::Pubkey;
use crate::error::StakePoolError;

verus! {

/// Status of a validator's stake accounts, for accounting.
#[derive(Clone, Copy, Debug, PartialEq, Eq, Structural)]
pub enum StakeStatus {
    /// The canonical stake account is active; a transient account may exist
    /// beside it.
    Active,
    /// Only a deactivating transient stake account remains, on the way to
    /// removal.
    DeactivatingTransient,
    /// No stake accounts remain; the entry is dropped on the next full-list
    /// update.
    ReadyForRemoval,
}

impl Default for StakeStatus {
    fn default() -> (r: Self)
        ensures
            r == StakeStatus::Active,
    {
        StakeStatus::Active
    }
}

/// One validator's entry in the list.
///
/// The two lamport fields are only accurate when `last_update_epoch` matches
/// the current epoch.
#[derive(Clone, Copy, Debug, PartialEq)]
pub struct ValidatorStakeInfo {
    /// Lamports delegated through the canonical stake account.
    pub active_stake_lamports: u64,
    /// Lamports in flight through the derived transient stake account. A
    /// transient account exists exactly while this is nonzero or the status
    /// says it is deactivating.
    pub transient_stake_lamports: u64,
    /// Epoch at which the lamport fields were last refreshed.
    pub last_update_epoch: u64,
    /// Status of the validator's stake accounts.
    pub status: StakeStatus,
    /// The validator's vote account, the unique key of the entry.
    pub vote_account_address: Pubkey,
}

impl ValidatorStakeInfo {
    /// A zeroed entry, as appended when a validator joins the pool.
    pub open spec fn is_zeroed_for(self, vote_account_address: Pubkey) -> bool {
        &&& self.active_stake_lamports == 0
        &&& self.transient_stake_lamports == 0
        &&& self.last_update_epoch == 0
        &&& self.status == StakeStatus::Active
        &&& self.vote_account_address == vote_account_address
    }

    /// Builds the zeroed entry for a validator that just joined.
    pub fn zeroed_for(vote_account_address: Pubkey) -> (r: ValidatorStakeInfo)
        ensures
            r.is_zeroed_for(vote_account_address),
    {
        ValidatorStakeInfo {
            active_stake_lamports: 0,
            transient_stake_lamports: 0,
            last_update_epoch: 0,
            status: StakeStatus::Active,
            vote_account_address,
        }
    }

    /// Total lamports delegated to this validator, active and in flight.
    pub fn stake_lamports(&self) -> (r: u64)
        requires
            self.active_stake_lamports + self.transient_stake_lamports <= u64::MAX,
        ensures
            r == self.active_stake_lamports + self.transient_stake_lamports,
    {
        self.active_stake_lamports + self.transient_stake_lamports
    }
}

impl Default for ValidatorStakeInfo {
    fn default() -> (r: Self)
        ensures
            r.is_zeroed_for(Pubkey { bytes: vstd::array::spec_array_fill_for_copy_type(0u8) }),
    {
        ValidatorStakeInfo {
            active_stake_lamports: 0,
            transient_stake_lamports: 0,
            last_update_epoch: 0,
            status: StakeStatus::Active,
            vote_account_address: Pubkey::new_from_array([0; 32]),
        }
    }
}

/// The part of the validator list that is read without touching the entries.
#[derive(Clone, Copy, Debug, PartialEq)]
pub struct ValidatorListHeader {
    /// Kind tag, must be `AccountType::ValidatorList` once initialized.
    pub account_type: crate::state::AccountType,
    /// Number of entries the backing storage was sized for.
    pub max_validators: u32,
}

impl Default for ValidatorListHeader {
    fn default() -> (r: Self)
        ensures
            r.account_type == crate::state::AccountType::Uninitialized,
            r.max_validators == 0,
    {
        ValidatorListHeader {
            account_type: crate::state::AccountType::Uninitialized,
            max_validators: 0,
        }
    }
}

impl ValidatorListHeader {
    /// Whether the record is initialized as a validator list.
    pub fn is_valid(&self) -> (r: bool)
        ensures
            r <==> self.account_type == crate::state::AccountType::ValidatorList,
    {
        self.account_type == crate::state::AccountType::ValidatorList
    }

    /// Whether the record is still uninitialized.
    pub fn is_uninitialized(&self) -> (r: bool)
        ensures
            r <==> self.account_type == crate::state::AccountType::Uninitialized,
    {
        self.account_type == crate::state::AccountType::Uninitialized
    }
}

/// Whether some entry of `s` is keyed by `key`.
pub open spec fn spec_contains_key(s: Seq<ValidatorStakeInfo>, key: Pubkey) -> bool {
    exists|i: int| 0 <= i < s.len() && s[i].vote_account_address == key
}

/// Whether `i` is the first index of `s` keyed by `key`.
pub open spec fn is_first_match(s: Seq<ValidatorStakeInfo>, key: Pubkey, i: int) -> bool {
    &&& 0 <= i < s.len()
    &&& s[i].vote_account_address == key
    &&& forall|j: int| 0 <= j < i ==> s[j].vote_account_address != key
}

/// Whether some entry of `s` has nonzero active stake.
pub open spec fn spec_has_active_stake(s: Seq<ValidatorStakeInfo>) -> bool {
    exists|i: int| 0 <= i < s.len() && s[i].active_stake_lamports > 0
}

/// The full validator list: a header and one entry per managed validator.
#[derive(Clone, Debug, PartialEq)]
pub struct ValidatorList {
    /// Data outside the entries, separated for cheaper partial reads.
    pub header: ValidatorListHeader,
    /// One record per validator in the pool.
    pub validators: Vec<ValidatorStakeInfo>,
}

impl ValidatorList {
    /// A full-capacity list of zeroed entries, used to size the backing
    /// storage for `max_validators` entries.
    pub fn new(max_validators: u32) -> (r: Self)
        ensures
            r.header.account_type == crate::state::AccountType::ValidatorList,
            r.header.max_validators == max_validators,
            r.validators@.len() == max_validators,
            forall|i: int|
                0 <= i < r.validators@.len() ==> (#[trigger] r.validators@[i]).is_zeroed_for(
                    Pubkey { bytes: vstd::array::spec_array_fill_for_copy_type(0u8) },
                ),
    {
        let mut validators: Vec<ValidatorStakeInfo> = Vec::new();
        let mut i: u32 = 0;
        while i < max_validators
            invariant
                i <= max_validators,
                validators@.len() == i,
                forall|j: int|
                    0 <= j < validators@.len() ==> (#[trigger] validators@[j]).is_zeroed_for(
                        Pubkey { bytes: vstd::array::spec_array_fill_for_copy_type(0u8) },
                    ),
            decreases max_validators - i,
        {
            validators.push(ValidatorStakeInfo::default());
            i = i + 1;
        }
        ValidatorList {
            header: ValidatorListHeader {
                account_type: crate::state::AccountType::ValidatorList,
                max_validators,
            },
            validators,
        }
    }

    /// Number of entries in the list.
    pub fn len(&self) -> (r: usize)
        ensures
            r == self.validators@.len(),
    {
        self.validators.len()
    }

    /// The index of the entry keyed by `vote_account_address`, scanning from
    /// the front, if any entry has that key.
    pub fn find_index(&self, vote_account_address: &Pubkey) -> (r: Option<usize>)
        ensures
            match r {
                Some(i) => is_first_match(self.validators@, *vote_account_address, i as int),
                None => !spec_contains_key(self.validators@, *vote_account_address),
            },
    {
        let n = self.validators.len();
        let mut i: usize = 0;
        while i < n
            invariant
                n == self.validators@.len(),
                i <= n,
                forall|j: int|
                    0 <= j < i ==> self.validators@[j].vote_account_address
                        != *vote_account_address,
            decreases n - i,
        {
            if self.validators[i].vote_account_address == *vote_account_address {
                return Some(i);
            }
            i = i + 1;
        }
        None
    }

    /// Whether the list holds an entry for `vote_account_address`.
    pub fn contains(&self, vote_account_address: &Pubkey) -> (r: bool)
        ensures
            r <==> spec_contains_key(self.validators@, *vote_account_address),
    {
        self.find_index(vote_account_address).is_some()
    }

    /// A copy of the entry keyed by `vote_account_address`, if any.
    pub fn find(&self, vote_account_address: &Pubkey) -> (r: Option<ValidatorStakeInfo>)
        ensures
            match r {
                Some(info) => exists|i: int|
                    is_first_match(self.validators@, *vote_account_address, i)
                        && info == self.validators@[i],
                None => !spec_contains_key(self.validators@, *vote_account_address),
            },
    {
        match self.find_index(vote_account_address) {
            Some(i) => Some(self.validators[i]),
            None => None,
        }
    }

    /// Overwrites the entry at `i`.
    pub fn set_entry(&mut self, i: usize, entry: ValidatorStakeInfo)
        requires
            i < old(self).validators@.len(),
        ensures
            final(self).header == old(self).header,
            final(self).validators@ == old(self).validators@.update(i as int, entry),
    {
        self.validators[i] = entry;
    }

    /// Whether any entry still has active stake delegated; reserve-only
    /// withdrawals are permitted only once this is false.
    pub fn has_active_stake(&self) -> (r: bool)
        ensures
            r <==> spec_has_active_stake(self.validators@),
    {
        let n = self.validators.len();
        let mut i: usize = 0;
        while i < n
            invariant
                n == self.validators@.len(),
                i <= n,
                forall|j: int| 0 <= j < i ==> self.validators@[j].active_stake_lamports == 0,
            decreases n - i,
        {
            if self.validators[i].active_stake_lamports > 0 {
                return true;
            }
            i = i + 1;
        }
        false
    }

    /// Appends an entry, failing exactly when the list already holds as many
    /// entries as it was sized for.
    pub fn push(&mut self, info: ValidatorStakeInfo) -> (r: Result<(), StakePoolError>)
        ensures
            old(self).validators@.len() >= old(self).header.max_validators ==> {
                &&& r == Err::<(), StakePoolError>(StakePoolError::MaxValidatorsReached)
                &&& *final(self) == *old(self)
            },
            old(self).validators@.len() < old(self).header.max_validators ==> {
                &&& r is Ok
                &&& final(self).validators@ == old(self).validators@.push(info)
                &&& final(self).header == old(self).header
            },
    {
        if self.validators.len() >= self.header.max_validators as usize {
            return Err(StakePoolError::MaxValidatorsReached);
        }
        self.validators.push(info);
        Ok(())
    }

    /// Removes the entry keyed by `vote_account_address`.
    ///
    /// Fails with `ValidatorNotFound` where no entry has that key, and with
    /// `ValidatorStakeStillActive` unless the entry's active and transient
    /// lamports are both zero; otherwise removes exactly that entry.
    pub fn remove(&mut self, vote_account_address: &Pubkey) -> (r: Result<(), StakePoolError>)
        ensures
            r == Err::<(), StakePoolError>(StakePoolError::ValidatorNotFound) <==> !spec_contains_key(
                old(self).validators@,
                *vote_account_address,
            ),
            forall|i: int|
                #[trigger] is_first_match(old(self).validators@, *vote_account_address, i) ==> (
                if old(self).validators@[i].active_stake_lamports == 0
                    && old(self).validators@[i].transient_stake_lamports == 0 {
                    r is Ok && final(self).validators@ == old(self).validators@.remove(i)
                } else {
                    r == Err::<(), StakePoolError>(StakePoolError::ValidatorStakeStillActive)
                }),
            r is Err ==> *final(self) == *old(self),
            final(self).header == old(self).header,
    {
        match self.find_index(vote_account_address) {
            None => Err(StakePoolError::ValidatorNotFound),
            Some(i) => {
                let entry = self.validators[i];
                if entry.active_stake_lamports != 0 || entry.transient_stake_lamports != 0 {
                    return Err(StakePoolError::ValidatorStakeStillActive);
                }
                self.validators.remove(i);
                Ok(())
            },
        }
    }
}

/// Bytes of one packed entry in the flat backing storage.
pub const VALIDATOR_STAKE_INFO_LEN: usize = 57;

/// Bytes of the packed header (one tag byte and the capacity), before the
/// entry count.
pub const VALIDATOR_LIST_HEADER_LEN: usize = 5;

/// Bytes in front of the first packed entry: the header and the entry count.
pub const VALIDATOR_LIST_PREFIX_LEN: usize = 9;

/// Packed size in bytes of a list with `n` entries: the header, the entry
/// count, and one fixed-width slot per entry.
pub open spec fn spec_packed_len(n: int) -> int {
    9 + 57 * n
}

/// Number of whole packed entries that fit in a buffer of `buffer_length`
/// bytes after the header and entry count.
pub open spec fn spec_calculate_max_validators(buffer_length: int) -> int {
    if buffer_length <= 9 {
        0
    } else {
        (buffer_length - 9) / 57
    }
}

impl ValidatorList {
    /// Calculates the number of validator entries that fit in backing storage
    /// of the given length; the exact inverse of the packed size, so a pool
    /// can size its storage for a requested validator count.
    pub fn calculate_max_validators(buffer_length: usize) -> (r: usize)
        ensures
            r == spec_calculate_max_validators(buffer_length as int),
    {
        let body = if buffer_length <= VALIDATOR_LIST_PREFIX_LEN {
            0
        } else {
            buffer_length - VALIDATOR_LIST_PREFIX_LEN
        };
        body / VALIDATOR_STAKE_INFO_LEN
    }
}


/// The list's own invariants: vote accounts are unique across the entries,
/// and an entry flagged for removal holds no stake of either kind.
pub open spec fn spec_wf_entries(s: Seq<ValidatorStakeInfo>) -> bool {
    &&& forall|i: int, j: int|
        0 <= i < j < s.len() ==> (#[trigger] s[i]).vote_account_address != (
        #[trigger] s[j]).vote_account_address
    &&& forall|i: int|
        0 <= i < s.len() && (#[trigger] s[i]).status == StakeStatus::ReadyForRemoval ==> s[
            i
        ].active_stake_lamports == 0 && s[i].transient_stake_lamports == 0
}

/// Appending an entry for a validator the list does not yet track, in a
/// state that holds stake or is not flagged for removal, keeps the list
/// well-formed: this is what adding a validator does.
pub proof fn lemma_wf_push(s: Seq<ValidatorStakeInfo>, entry: ValidatorStakeInfo)
    requires
        spec_wf_entries(s),
        !spec_contains_key(s, entry.vote_account_address),
        entry.status == StakeStatus::ReadyForRemoval ==> entry.active_stake_lamports == 0
            && entry.transient_stake_lamports == 0,
    ensures
        spec_wf_entries(s.push(entry)),
{
    assert forall|i: int, j: int| 0 <= i < j < s.push(entry).len() implies (
    #[trigger] s.push(entry)[i]).vote_account_address != (
    #[trigger] s.push(entry)[j]).vote_account_address by {
        if j == s.len() {
            assert(s.push(entry)[i] == s[i]);
        }
    }
}

/// Dropping any entry keeps the list well-formed: this is what removing a
/// validator does.
pub proof fn lemma_wf_remove(s: Seq<ValidatorStakeInfo>, i: int)
    requires
        spec_wf_entries(s),
        0 <= i < s.len(),
    ensures
        spec_wf_entries(s.remove(i)),
{
    let shorter = s.remove(i);
    assert forall|m: int, n: int| 0 <= m < n < shorter.len() implies (
    #[trigger] shorter[m]).vote_account_address != (
    #[trigger] shorter[n]).vote_account_address by {
        let m0 = if m < i {
            m
        } else {
            m + 1
        };
        let n0 = if n < i {
            n
        } else {
            n + 1
        };
        assert(shorter[m] == s[m0]);
        assert(shorter[n] == s[n0]);
    }
    assert forall|m: int|
        0 <= m < shorter.len() && (#[trigger] shorter[m]).status
            == StakeStatus::ReadyForRemoval implies shorter[m].active_stake_lamports == 0
        && shorter[m].transient_stake_lamports == 0 by {
        let m0 = if m < i {
            m
        } else {
            m + 1
        };
        assert(shorter[m] == s[m0]);
    }
}

/// Rewriting one entry under its own key, with no stake left behind a
/// removal flag, keeps the list well-formed: this is what the stake
/// movements and the balance refresh do to an entry.
pub proof fn lemma_wf_update(s: Seq<ValidatorStakeInfo>, i: int, entry: ValidatorStakeInfo)
    requires
        spec_wf_entries(s),
        0 <= i < s.len(),
        entry.vote_account_address == s[i].vote_account_address,
        entry.status == StakeStatus::ReadyForRemoval ==> entry.active_stake_lamports == 0
            && entry.transient_stake_lamports == 0,
    ensures
        spec_wf_entries(s.update(i, entry)),
{
}

/// Keeping a subset of entries in order keeps the list well-formed: this is
/// what compaction does when the flagged entries are dropped.
pub proof fn lemma_wf_filter(s: Seq<ValidatorStakeInfo>, pred: spec_fn(ValidatorStakeInfo) -> bool)
    requires
        spec_wf_entries(s),
    ensures
        spec_wf_entries(s.filter(pred)),
    decreases s.len(),
{
    reveal(Seq::filter);
    if s.len() > 0 {
        let prefix = s.drop_last();
        let last = s.last();
        assert(spec_wf_entries(prefix));
        lemma_wf_filter(prefix, pred);
        let kept = prefix.filter(pred);
        let out = s.filter(pred);
        if pred(last) {
            assert(out == kept.push(last));
            assert forall|m: int|
                0 <= m < kept.len() implies (#[trigger] kept[m]).vote_account_address
                != last.vote_account_address by {
                assert(kept.contains(kept[m]));
                prefix.lemma_filter_contains_rev(pred, kept[m]);
                let n0 = choose|n0: int| 0 <= n0 < prefix.len() && prefix[n0] == kept[m];
                assert(prefix[n0] == s[n0]);
                assert(s[n0].vote_account_address != s[s.len() - 1].vote_account_address);
            }
            assert forall|m: int, n: int|
                0 <= m < n < out.len() implies (#[trigger] out[m]).vote_account_address != (
            #[trigger] out[n]).vote_account_address by {
                assert(out[m] == kept[m]);
                if n == out.len() - 1 {
                    assert(out[n] == last);
                } else {
                    assert(out[n] == kept[n]);
                }
            }
            assert forall|m: int|
                0 <= m < out.len() && (#[trigger] out[m]).status
                    == StakeStatus::ReadyForRemoval implies out[m].active_stake_lamports == 0
                && out[m].transient_stake_lamports == 0 by {
                if m == out.len() - 1 {
                    assert(out[m] == last);
                    assert(last == s[s.len() - 1]);
                } else {
                    assert(out[m] == kept[m]);
                }
            }
        }
    }
}

} // verus!
