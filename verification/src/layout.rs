//! The flat fixed-width layout of the validator list.
//!
//! The list is persisted as a header, an entry count, and one 57-byte slot
//! per entry, so that a slice of entries can be read or rewritten without
//! touching the rest of the account: the backing storage can be sized for
//! many validators, and decoding all of it on every call would be
//! prohibitive. The layout is explicit byte arithmetic; nothing depends on
//! in-memory representation.

use vstd::prelude::*;

use crate::address::Pubkey;
use crate::error::StakePoolError;
use crate::state::AccountType;
use crate::validator_list::{
    StakeStatus, ValidatorList, ValidatorListHeader, ValidatorStakeInfo, VALIDATOR_STAKE_INFO_LEN,
};

verus! {

broadcast use vstd::array::group_array_axioms;

/// The tag byte that stands for a stake status.
pub open spec fn spec_status_tag(status: StakeStatus) -> u8 {
    match status {
        StakeStatus::Active => 0u8,
        StakeStatus::DeactivatingTransient => 1u8,
        StakeStatus::ReadyForRemoval => 2u8,
    }
}

/// Whether a byte is the tag of some stake status.
pub open spec fn spec_valid_status_tag(tag: u8) -> bool {
    tag == 0 || tag == 1 || tag == 2
}

/// The tag byte of a stake status.
pub fn status_to_u8(status: StakeStatus) -> (r: u8)
    ensures
        r == spec_status_tag(status),
{
    match status {
        StakeStatus::Active => 0,
        StakeStatus::DeactivatingTransient => 1,
        StakeStatus::ReadyForRemoval => 2,
    }
}

/// The stake status a tag byte stands for, if any.
pub fn status_from_u8(tag: u8) -> (r: Option<StakeStatus>)
    ensures
        match r {
            Some(status) => spec_status_tag(status) == tag,
            None => !spec_valid_status_tag(tag),
        },
{
    match tag {
        0 => Some(StakeStatus::Active),
        1 => Some(StakeStatus::DeactivatingTransient),
        2 => Some(StakeStatus::ReadyForRemoval),
        _ => None,
    }
}

/// The tag byte that discriminates the kind of a pool account, stored first
/// so the kind is read before any full decode.
pub open spec fn spec_account_type_tag(account_type: AccountType) -> u8 {
    match account_type {
        AccountType::Uninitialized => 0u8,
        AccountType::StakePool => 1u8,
        AccountType::ValidatorList => 2u8,
    }
}

/// Whether a byte is the tag of some account kind.
pub open spec fn spec_valid_account_type_tag(tag: u8) -> bool {
    tag == 0 || tag == 1 || tag == 2
}

/// The tag byte of an account kind.
pub fn account_type_to_u8(account_type: AccountType) -> (r: u8)
    ensures
        r == spec_account_type_tag(account_type),
{
    match account_type {
        AccountType::Uninitialized => 0,
        AccountType::StakePool => 1,
        AccountType::ValidatorList => 2,
    }
}

/// The account kind a tag byte stands for, if any.
pub fn account_type_from_u8(tag: u8) -> (r: Option<AccountType>)
    ensures
        match r {
            Some(account_type) => spec_account_type_tag(account_type) == tag,
            None => !spec_valid_account_type_tag(tag),
        },
{
    match tag {
        0 => Some(AccountType::Uninitialized),
        1 => Some(AccountType::StakePool),
        2 => Some(AccountType::ValidatorList),
        _ => None,
    }
}

/// The 57 packed bytes of one entry: three 64-bit lamport and epoch fields
/// little-endian, the status tag, then the vote account address.
pub open spec fn spec_entry_bytes(entry: ValidatorStakeInfo) -> Seq<u8> {
    vstd::bytes::spec_u64_to_le_bytes(entry.active_stake_lamports) + vstd::bytes::spec_u64_to_le_bytes(
        entry.transient_stake_lamports,
    ) + vstd::bytes::spec_u64_to_le_bytes(entry.last_update_epoch) + seq![
        spec_status_tag(entry.status),
    ] + entry.vote_account_address@
}

/// The 5 packed bytes of the header: the kind tag, then the capacity
/// little-endian.
pub open spec fn spec_header_bytes(header: ValidatorListHeader) -> Seq<u8> {
    seq![spec_account_type_tag(header.account_type)] + vstd::bytes::spec_u32_to_le_bytes(
        header.max_validators,
    )
}

impl ValidatorStakeInfo {
    /// Packs the entry into its 57-byte form.
    pub fn pack(&self) -> (r: Vec<u8>)
        ensures
            r@ == spec_entry_bytes(*self),
            r@.len() == VALIDATOR_STAKE_INFO_LEN,
    {
        proof {
            vstd::bytes::lemma_auto_spec_u64_to_from_le_bytes();
        }
        let mut out: Vec<u8> = Vec::new();
        let mut field = vstd::bytes::u64_to_le_bytes(self.active_stake_lamports);
        out.append(&mut field);
        let mut field = vstd::bytes::u64_to_le_bytes(self.transient_stake_lamports);
        out.append(&mut field);
        let mut field = vstd::bytes::u64_to_le_bytes(self.last_update_epoch);
        out.append(&mut field);
        out.push(status_to_u8(self.status));
        let mut field = vstd::slice::slice_to_vec(self.vote_account_address.bytes.as_slice());
        out.append(&mut field);
        proof {
            assert(out@ =~= spec_entry_bytes(*self));
        }
        out
    }

    /// Unpacks an entry from its 57-byte form: the exact inverse of `pack`,
    /// failing on any other length or an unknown status tag.
    pub fn unpack(bytes: &[u8]) -> (r: Result<ValidatorStakeInfo, StakePoolError>)
        ensures
            bytes@.len() != VALIDATOR_STAKE_INFO_LEN ==> r == Err::<
                ValidatorStakeInfo,
                StakePoolError,
            >(StakePoolError::AccountDataTooSmall),
            bytes@.len() == VALIDATOR_STAKE_INFO_LEN && !spec_valid_status_tag(bytes@[24]) ==> r
                == Err::<ValidatorStakeInfo, StakePoolError>(StakePoolError::InvalidAccountData),
            bytes@.len() == VALIDATOR_STAKE_INFO_LEN && spec_valid_status_tag(bytes@[24]) ==> {
                &&& r is Ok
                &&& spec_entry_bytes(r.unwrap()) == bytes@
            },
    {
        if bytes.len() != VALIDATOR_STAKE_INFO_LEN {
            return Err(StakePoolError::AccountDataTooSmall);
        }
        proof {
            vstd::bytes::lemma_auto_spec_u64_to_from_le_bytes();
        }
        let active = vstd::bytes::u64_from_le_bytes(vstd::slice::slice_subrange(bytes, 0, 8));
        let transient = vstd::bytes::u64_from_le_bytes(vstd::slice::slice_subrange(bytes, 8, 16));
        let epoch = vstd::bytes::u64_from_le_bytes(vstd::slice::slice_subrange(bytes, 16, 24));
        let status = match status_from_u8(*vstd::slice::slice_index_get(bytes, 24)) {
            Some(status) => status,
            None => {
                return Err(StakePoolError::InvalidAccountData);
            },
        };
        let vote_slice = vstd::slice::slice_subrange(bytes, 25, 57);
        let mut vote_bytes: [u8; 32] = [0; 32];
        let mut i: usize = 0;
        while i < 32
            invariant
                i <= 32,
                vote_slice@.len() == 32,
                vote_slice@ == bytes@.subrange(25, 57),
                forall|j: int| 0 <= j < i ==> vote_bytes@[j] == vote_slice@[j],
        decreases 32 - i,
        {
            let b = *vstd::slice::slice_index_get(vote_slice, i);
            vote_bytes[i] = b;
            i = i + 1;
        }
        let entry = ValidatorStakeInfo {
            active_stake_lamports: active,
            transient_stake_lamports: transient,
            last_update_epoch: epoch,
            status,
            vote_account_address: Pubkey { bytes: vote_bytes },
        };
        proof {
            assert(vote_bytes@ =~= bytes@.subrange(25, 57));
            assert(spec_entry_bytes(entry) =~= bytes@);
        }
        Ok(entry)
    }
}


/// The packed entries, one 57-byte slot each, in list order.
pub open spec fn spec_entries_bytes(entries: Seq<ValidatorStakeInfo>) -> Seq<u8>
    decreases entries.len(),
{
    if entries.len() == 0 {
        Seq::empty()
    } else {
        spec_entries_bytes(entries.drop_last()) + spec_entry_bytes(entries.last())
    }
}

/// Packed entries take one slot per entry.
pub proof fn lemma_entries_bytes_len(entries: Seq<ValidatorStakeInfo>)
    ensures
        spec_entries_bytes(entries).len() == 57 * entries.len(),
    decreases entries.len(),
{
    vstd::bytes::lemma_auto_spec_u64_to_from_le_bytes();
    if entries.len() > 0 {
        lemma_entries_bytes_len(entries.drop_last());
    }
}

/// Extending the entries by one appends exactly its slot.
proof fn lemma_entries_bytes_step(entries: Seq<ValidatorStakeInfo>, i: int)
    requires
        0 <= i < entries.len(),
    ensures
        spec_entries_bytes(entries.subrange(0, i + 1)) == spec_entries_bytes(
            entries.subrange(0, i),
        ) + spec_entry_bytes(entries[i]),
{
    let pre = entries.subrange(0, i + 1);
    assert(pre.drop_last() =~= entries.subrange(0, i));
    assert(pre.last() == entries[i]);
}

/// The whole packed list: the header, the entry count little-endian, then
/// the packed entries.
pub open spec fn spec_list_bytes(list: ValidatorList) -> Seq<u8> {
    spec_header_bytes(list.header) + vstd::bytes::spec_u32_to_le_bytes(
        list.validators.len() as u32,
    ) + spec_entries_bytes(list.validators@)
}

impl ValidatorList {
    /// Serializes the whole list into its flat form.
    pub fn serialize(&self) -> (r: Vec<u8>)
        requires
            self.validators@.len() <= u32::MAX,
        ensures
            r@ == spec_list_bytes(*self),
            r@.len() == crate::validator_list::spec_packed_len(self.validators@.len() as int),
    {
        proof {
            vstd::bytes::lemma_auto_spec_u32_to_from_le_bytes();
        }
        let mut out: Vec<u8> = Vec::new();
        out.push(account_type_to_u8(self.header.account_type));
        let mut field = vstd::bytes::u32_to_le_bytes(self.header.max_validators);
        out.append(&mut field);
        let n = self.validators.len();
        let mut field = vstd::bytes::u32_to_le_bytes(n as u32);
        out.append(&mut field);
        proof {
            assert(out@ =~= spec_header_bytes(self.header) + vstd::bytes::spec_u32_to_le_bytes(
                self.validators.len() as u32,
            ));
            assert(spec_entries_bytes(self.validators@.subrange(0, 0)) =~= Seq::<u8>::empty());
        }
        let ghost prefix = out@;
        let mut i: usize = 0;
        while i < n
            invariant
                n == self.validators@.len(),
                i <= n,
                out@ == prefix + spec_entries_bytes(self.validators@.subrange(0, i as int)),
            decreases n - i,
        {
            proof {
                lemma_entries_bytes_step(self.validators@, i as int);
            }
            let mut entry_bytes = self.validators[i].pack();
            out.append(&mut entry_bytes);
            i = i + 1;
        }
        proof {
            assert(self.validators@.subrange(0, n as int) =~= self.validators@);
            lemma_entries_bytes_len(self.validators@);
            vstd::bytes::lemma_auto_spec_u64_to_from_le_bytes();
        }
        out
    }
}

/// Reads the header alone: the kind tag and the capacity, with nothing of
/// the entries touched.
pub fn read_header(data: &[u8]) -> (r: Result<ValidatorListHeader, StakePoolError>)
    ensures
        data@.len() < 5 ==> r == Err::<ValidatorListHeader, StakePoolError>(
            StakePoolError::AccountDataTooSmall,
        ),
        data@.len() >= 5 && !spec_valid_account_type_tag(data@[0]) ==> r == Err::<
            ValidatorListHeader,
            StakePoolError,
        >(StakePoolError::InvalidAccountData),
        data@.len() >= 5 && spec_valid_account_type_tag(data@[0]) ==> {
            &&& r is Ok
            &&& spec_header_bytes(r.unwrap()) == data@.subrange(0, 5)
        },
{
    if data.len() < 5 {
        return Err(StakePoolError::AccountDataTooSmall);
    }
    let account_type = match account_type_from_u8(*vstd::slice::slice_index_get(data, 0)) {
        Some(t) => t,
        None => {
            return Err(StakePoolError::InvalidAccountData);
        },
    };
    proof {
        vstd::bytes::lemma_auto_spec_u32_to_from_le_bytes();
    }
    let max_validators = vstd::bytes::u32_from_le_bytes(vstd::slice::slice_subrange(data, 1, 5));
    let header = ValidatorListHeader { account_type, max_validators };
    proof {
        assert(spec_header_bytes(header) =~= data@.subrange(0, 5));
    }
    Ok(header)
}

/// The entry count stored in the flat form.
pub open spec fn spec_entry_count(data: Seq<u8>) -> int {
    vstd::bytes::spec_u32_from_le_bytes(data.subrange(5, 9)) as int
}

/// The byte range of entry slot `k`.
pub open spec fn spec_entry_offset(k: int) -> int {
    9 + 57 * k
}

/// Whether the buffer is long enough for the count it declares.
pub open spec fn spec_holds_declared_entries(data: Seq<u8>) -> bool {
    data.len() >= 9 && spec_entry_offset(spec_entry_count(data)) <= data.len()
}

/// Reads the `len` entries starting at entry `skip`, without touching the
/// rest of the buffer.
///
/// Fails where the buffer is shorter than the count it declares, or where
/// `skip + len` runs past that count.
pub fn read_entries(data: &[u8], skip: usize, len: usize) -> (r: Result<
    Vec<ValidatorStakeInfo>,
    StakePoolError,
>)
    ensures
        data@.len() < 9 ==> r == Err::<Vec<ValidatorStakeInfo>, StakePoolError>(
            StakePoolError::AccountDataTooSmall,
        ),
        data@.len() >= 9 && !(spec_holds_declared_entries(data@) && skip + len
            <= spec_entry_count(data@)) ==> r == Err::<Vec<ValidatorStakeInfo>, StakePoolError>(
            StakePoolError::AccountDataTooSmall,
        ),
        data@.len() >= 9 && spec_holds_declared_entries(data@) && skip + len <= spec_entry_count(
            data@,
        ) ==> match r {
            Ok(entries) => {
                &&& entries@.len() == len
                &&& forall|k: int|
                    0 <= k < len ==> spec_entry_bytes(#[trigger] entries@[k]) == data@.subrange(
                        spec_entry_offset(skip + k),
                        spec_entry_offset(skip + k) + 57,
                    )
            },
            Err(e) => {
                &&& e == StakePoolError::InvalidAccountData
                &&& exists|k: int|
                    0 <= k < len && !spec_valid_status_tag(
                        data@[#[trigger] spec_entry_offset(skip + k) + 24],
                    )
            },
        },
{
    if data.len() < 9 {
        return Err(StakePoolError::AccountDataTooSmall);
    }
    proof {
        vstd::bytes::lemma_auto_spec_u32_to_from_le_bytes();
    }
    let count = vstd::bytes::u32_from_le_bytes(vstd::slice::slice_subrange(data, 5, 9));
    let wide_end: u128 = 9u128 + 57u128 * (count as u128);
    if wide_end > data.len() as u128 {
        return Err(StakePoolError::AccountDataTooSmall);
    }
    let end: usize = match skip.checked_add(len) {
        Some(e) => e,
        None => {
            return Err(StakePoolError::AccountDataTooSmall);
        },
    };
    if end > count as usize {
        return Err(StakePoolError::AccountDataTooSmall);
    }
    let data_len = data.len();
    let mut entries: Vec<ValidatorStakeInfo> = Vec::new();
    let mut k: usize = 0;
    while k < len
        invariant
            skip + len <= count,
            9 + 57 * (count as int) <= data_len,
            data@.len() == data_len,
            count as int == spec_entry_count(data@),
            spec_holds_declared_entries(data@),
            k <= len,
            entries@.len() == k,
            forall|m: int|
                0 <= m < k ==> spec_entry_bytes(#[trigger] entries@[m]) == data@.subrange(
                    spec_entry_offset(skip + m),
                    spec_entry_offset(skip + m) + 57,
                ),
        decreases len - k,
    {
        proof {
            vstd::arithmetic::mul::lemma_mul_inequality(skip as int + k + 1, count as int, 57);
            vstd::arithmetic::mul::lemma_mul_is_distributive_add_other_way(
                57,
                skip as int + k,
                1,
            );
            vstd::arithmetic::mul::lemma_mul_is_commutative(skip as int + k, 57);
            vstd::arithmetic::mul::lemma_mul_is_commutative(skip as int + k + 1, 57);
            vstd::arithmetic::mul::lemma_mul_is_commutative(count as int, 57);
        }
        let offset: usize = 9 + 57 * (skip + k);
        let slot = vstd::slice::slice_subrange(data, offset, offset + 57);
        match ValidatorStakeInfo::unpack(slot) {
            Ok(entry) => {
                entries.push(entry);
            },
            Err(_) => {
                proof {
                    assert(slot@[24] == data@[spec_entry_offset(skip as int + k) + 24]);
                }
                return Err(StakePoolError::InvalidAccountData);
            },
        }
        k = k + 1;
    }
    Ok(entries)
}

/// Rewrites entry slot `index` in place, leaving every other byte of the
/// buffer as it was.
pub fn write_entry_at(data: &mut Vec<u8>, index: usize, entry: &ValidatorStakeInfo) -> (r: Result<
    (),
    StakePoolError,
>)
    ensures
        !(spec_entry_offset(index as int) + 57 <= old(data)@.len()) ==> r == Err::<
            (),
            StakePoolError,
        >(StakePoolError::AccountDataTooSmall) && final(data)@ == old(data)@,
        spec_entry_offset(index as int) + 57 <= old(data)@.len() ==> {
            &&& r is Ok
            &&& final(data)@.len() == old(data)@.len()
            &&& final(data)@.subrange(
                spec_entry_offset(index as int),
                spec_entry_offset(index as int) + 57,
            ) == spec_entry_bytes(*entry)
            &&& forall|j: int|
                0 <= j < old(data)@.len() && !(spec_entry_offset(index as int) <= j
                    < spec_entry_offset(index as int) + 57) ==> final(data)@[j] == old(data)@[j]
        },
{
    let wide_end: u128 = 9u128 + 57u128 * (index as u128) + 57u128;
    if wide_end > data.len() as u128 {
        return Err(StakePoolError::AccountDataTooSmall);
    }
    let offset: usize = 9 + 57 * index;
    let data_len = data.len();
    let bytes = entry.pack();
    let mut j: usize = 0;
    while j < 57
        invariant
            offset + 57 <= data_len,
            data@.len() == data_len,
            offset == spec_entry_offset(index as int),
            bytes@.len() == 57,
            bytes@ == spec_entry_bytes(*entry),
            j <= 57,
            data@.len() == old(data)@.len(),
            forall|m: int| 0 <= m < j ==> data@[offset + m] == bytes@[m],
            forall|m: int|
                0 <= m < old(data)@.len() && !(offset <= m < offset + j) ==> data@[m] == old(
                    data,
                )@[m],
        decreases 57 - j,
    {
        let b = bytes[j];
        data[offset + j] = b;
        j = j + 1;
    }
    proof {
        assert(data@.subrange(
            spec_entry_offset(index as int),
            spec_entry_offset(index as int) + 57,
        ) =~= spec_entry_bytes(*entry));
    }
    Ok(())
}

impl ValidatorStakeInfo {
    /// Whether the packed entry at the front of `data` is keyed by the given
    /// address bytes, comparing only those 32 bytes.
    pub fn memcmp_pubkey(data: &[u8], vote_address_bytes: &[u8]) -> (r: bool)
        requires
            data@.len() >= 57,
            vote_address_bytes@.len() >= 32,
        ensures
            r <==> data@.subrange(25, 57) == vote_address_bytes@.subrange(0, 32),
    {
        let mut i: usize = 0;
        while i < 32
            invariant
                data@.len() >= 57,
                vote_address_bytes@.len() >= 32,
                i <= 32,
                forall|j: int| 0 <= j < i ==> data@[25 + j] == vote_address_bytes@[j],
            decreases 32 - i,
        {
            if *vstd::slice::slice_index_get(data, 25 + i) != *vstd::slice::slice_index_get(
                vote_address_bytes,
                i,
            ) {
                proof {
                    assert(data@.subrange(25, 57)[i as int] != vote_address_bytes@.subrange(
                        0,
                        32,
                    )[i as int]);
                }
                return false;
            }
            i = i + 1;
        }
        proof {
            assert(data@.subrange(25, 57) =~= vote_address_bytes@.subrange(0, 32));
        }
        true
    }

    /// Whether the packed entry at the front of `data` holds active lamports
    /// other than the given little-endian bytes.
    pub fn memcmp_active_lamports(data: &[u8], lamports_le_bytes: &[u8]) -> (r: bool)
        requires
            data@.len() >= 57,
            lamports_le_bytes@.len() >= 8,
        ensures
            r <==> data@.subrange(0, 8) != lamports_le_bytes@.subrange(0, 8),
    {
        !eq_range_8(data, 0, lamports_le_bytes)
    }

    /// Whether the packed entry at the front of `data` holds transient
    /// lamports other than the given little-endian bytes.
    pub fn memcmp_transient_lamports(data: &[u8], lamports_le_bytes: &[u8]) -> (r: bool)
        requires
            data@.len() >= 57,
            lamports_le_bytes@.len() >= 8,
        ensures
            r <==> data@.subrange(8, 16) != lamports_le_bytes@.subrange(0, 8),
    {
        !eq_range_8(data, 8, lamports_le_bytes)
    }

    /// Whether the packed entry at the front of `data` is not yet flagged for
    /// removal, read from the status tag alone.
    pub fn is_not_removed(data: &[u8]) -> (r: bool)
        requires
            data@.len() >= 57,
        ensures
            r <==> data@[24] != spec_status_tag(StakeStatus::ReadyForRemoval),
    {
        *vstd::slice::slice_index_get(data, 24) != 2
    }
}

/// Whether the 8 bytes of `data` at `offset` equal the first 8 of `needle`.
fn eq_range_8(data: &[u8], offset: usize, needle: &[u8]) -> (r: bool)
    requires
        offset + 8 <= data@.len(),
        needle@.len() >= 8,
    ensures
        r <==> data@.subrange(offset as int, offset as int + 8) == needle@.subrange(0, 8),
{
    let data_len = data.len();
    let mut i: usize = 0;
    while i < 8
        invariant
            offset + 8 <= data_len,
            data@.len() == data_len,
            needle@.len() >= 8,
            i <= 8,
            forall|j: int| 0 <= j < i ==> data@[offset + j] == needle@[j],
        decreases 8 - i,
    {
        if *vstd::slice::slice_index_get(data, offset + i) != *vstd::slice::slice_index_get(
            needle,
            i,
        ) {
            proof {
                assert(data@.subrange(offset as int, offset as int + 8)[i as int]
                    != needle@.subrange(0, 8)[i as int]);
            }
            return false;
        }
        i = i + 1;
    }
    proof {
        assert(data@.subrange(offset as int, offset as int + 8) =~= needle@.subrange(0, 8));
    }
    true
}


/// Entries whose slots sit consecutively in `data` from slot `skip` pack to
/// exactly that byte range.
proof fn lemma_entries_bytes_concat(entries: Seq<ValidatorStakeInfo>, data: Seq<u8>, skip: int)
    requires
        0 <= skip,
        spec_entry_offset(skip + entries.len()) <= data.len(),
        forall|k: int|
            0 <= k < entries.len() ==> spec_entry_bytes(#[trigger] entries[k]) == data.subrange(
                spec_entry_offset(skip + k),
                spec_entry_offset(skip + k) + 57,
            ),
    ensures
        spec_entries_bytes(entries) == data.subrange(
            spec_entry_offset(skip),
            spec_entry_offset(skip + entries.len()),
        ),
    decreases entries.len(),
{
    if entries.len() == 0 {
        assert(spec_entries_bytes(entries) =~= data.subrange(
            spec_entry_offset(skip),
            spec_entry_offset(skip),
        ));
    } else {
        let n = entries.len() as int;
        let prefix = entries.drop_last();
        assert(forall|k: int|
            0 <= k < prefix.len() ==> spec_entry_bytes(#[trigger] prefix[k]) == data.subrange(
                spec_entry_offset(skip + k),
                spec_entry_offset(skip + k) + 57,
            ));
        lemma_entries_bytes_concat(prefix, data, skip);
        assert(spec_entry_bytes(entries[n - 1]) == data.subrange(
            spec_entry_offset(skip + n - 1),
            spec_entry_offset(skip + n - 1) + 57,
        ));
        assert(spec_entries_bytes(entries) =~= data.subrange(
            spec_entry_offset(skip),
            spec_entry_offset(skip + n),
        ));
    }
}

/// Decodes a whole list: the header, the declared count, then every entry.
///
/// Bytes past the declared entries are ignored: the backing storage is sized
/// for the capacity, not for the entries currently present.
pub fn deserialize_validator_list(data: &[u8]) -> (r: Result<ValidatorList, StakePoolError>)
    ensures
        data@.len() < 9 ==> r == Err::<ValidatorList, StakePoolError>(
            StakePoolError::AccountDataTooSmall,
        ),
        data@.len() >= 9 && !spec_valid_account_type_tag(data@[0]) ==> r == Err::<
            ValidatorList,
            StakePoolError,
        >(StakePoolError::InvalidAccountData),
        data@.len() >= 9 && spec_valid_account_type_tag(data@[0]) && !spec_holds_declared_entries(
            data@,
        ) ==> r == Err::<ValidatorList, StakePoolError>(StakePoolError::AccountDataTooSmall),
        data@.len() >= 9 && spec_valid_account_type_tag(data@[0]) && spec_holds_declared_entries(
            data@,
        ) ==> match r {
            Ok(list) => {
                &&& list.validators@.len() == spec_entry_count(data@)
                &&& spec_list_bytes(list) == data@.subrange(
                    0,
                    spec_entry_offset(spec_entry_count(data@)),
                )
            },
            Err(e) => {
                &&& e == StakePoolError::InvalidAccountData
                &&& exists|k: int|
                    0 <= k < spec_entry_count(data@) && !spec_valid_status_tag(
                        data@[#[trigger] spec_entry_offset(k) + 24],
                    )
            },
        },
{
    if data.len() < 9 {
        return Err(StakePoolError::AccountDataTooSmall);
    }
    let header = match read_header(data) {
        Ok(h) => h,
        Err(e) => {
            return Err(e);
        },
    };
    proof {
        vstd::bytes::lemma_auto_spec_u32_to_from_le_bytes();
    }
    let count = vstd::bytes::u32_from_le_bytes(vstd::slice::slice_subrange(data, 5, 9));
    let validators = match read_entries(data, 0, count as usize) {
        Ok(v) => v,
        Err(e) => {
            return Err(e);
        },
    };
    let list = ValidatorList { header, validators };
    proof {
        lemma_entries_bytes_concat(list.validators@, data@, 0);
        assert(vstd::bytes::spec_u32_to_le_bytes(list.validators.len() as u32) == data@.subrange(
            5,
            9,
        ));
        assert(spec_list_bytes(list) =~= data@.subrange(
            0,
            spec_entry_offset(spec_entry_count(data@)),
        ));
    }
    Ok(list)
}


/// Reads the 8 little-endian bytes at `offset` as a `u64`.
fn read_u64_at(data: &[u8], offset: usize) -> (r: u64)
    requires
        offset + 8 <= data@.len(),
    ensures
        vstd::bytes::spec_u64_to_le_bytes(r) == data@.subrange(offset as int, offset as int + 8),
{
    let data_len = data.len();
    proof {
        vstd::bytes::lemma_auto_spec_u64_to_from_le_bytes();
        assert(offset + 8 <= data_len);
    }
    vstd::bytes::u64_from_le_bytes(vstd::slice::slice_subrange(data, offset, offset + 8))
}

/// Reads the 8 little-endian bytes at `offset` as an `i64`.
fn read_i64_at(data: &[u8], offset: usize) -> (r: i64)
    requires
        offset + 8 <= data@.len(),
    ensures
        vstd::bytes::spec_u64_to_le_bytes(r as u64) == data@.subrange(
            offset as int,
            offset as int + 8,
        ),
{
    let wide = read_u64_at(data, offset);
    proof {
        assert(wide as i64 as u64 == wide) by (bit_vector);
    }
    wide as i64
}

/// Reads the 32 bytes at `offset` as an address.
fn read_pubkey_at(data: &[u8], offset: usize) -> (r: Pubkey)
    requires
        offset + 32 <= data@.len(),
    ensures
        r@ == data@.subrange(offset as int, offset as int + 32),
{
    let data_len = data.len();
    let mut bytes: [u8; 32] = [0; 32];
    let mut i: usize = 0;
    while i < 32
        invariant
            offset + 32 <= data_len,
            data@.len() == data_len,
            i <= 32,
            forall|j: int| 0 <= j < i ==> bytes@[j] == data@[offset + j],
        decreases 32 - i,
    {
        let b = *vstd::slice::slice_index_get(data, offset + i);
        bytes[i] = b;
        i = i + 1;
    }
    proof {
        assert(bytes@ =~= data@.subrange(offset as int, offset as int + 32));
    }
    Pubkey { bytes }
}

/// The 16 packed bytes of a fee: denominator then numerator, little-endian.
pub open spec fn spec_fee_bytes(fee: crate::state::Fee) -> Seq<u8> {
    vstd::bytes::spec_u64_to_le_bytes(fee.denominator) + vstd::bytes::spec_u64_to_le_bytes(
        fee.numerator,
    )
}

/// The 48 packed bytes of a lockup: timestamp, epoch, custodian.
pub open spec fn spec_lockup_bytes(lockup: crate::state::Lockup) -> Seq<u8> {
    vstd::bytes::spec_u64_to_le_bytes(lockup.unix_timestamp as u64) + vstd::bytes::spec_u64_to_le_bytes(
        lockup.epoch,
    ) + lockup.custodian@
}

/// An optional fee: one presence byte, then the fee if present.
pub open spec fn spec_option_fee_bytes(fee: Option<crate::state::Fee>) -> Seq<u8> {
    match fee {
        None => seq![0u8],
        Some(f) => seq![1u8] + spec_fee_bytes(f),
    }
}

/// An optional address: one presence byte, then the address if present.
pub open spec fn spec_option_pubkey_bytes(key: Option<Pubkey>) -> Seq<u8> {
    match key {
        None => seq![0u8],
        Some(k) => seq![1u8] + k@,
    }
}

/// The fixed front of the packed pool record: the kind tag, the
/// authorities and references, the cached totals, the lockup and the fee.
pub open spec fn spec_pool_fixed_bytes(pool: crate::state::StakePool) -> Seq<u8> {
    seq![spec_account_type_tag(pool.account_type)] + pool.manager@ + pool.staker@
        + pool.deposit_authority@ + seq![pool.withdraw_bump_seed] + pool.validator_list@
        + pool.reserve_stake@ + pool.pool_mint@ + pool.manager_fee_account@
        + pool.token_program_id@ + vstd::bytes::spec_u64_to_le_bytes(pool.total_stake_lamports)
        + vstd::bytes::spec_u64_to_le_bytes(pool.pool_token_supply)
        + vstd::bytes::spec_u64_to_le_bytes(pool.last_update_epoch) + spec_lockup_bytes(
        pool.lockup,
    ) + spec_fee_bytes(pool.fee)
}

/// The packed pool record: the fixed front, then the three optional
/// trailing fields, each behind a presence byte.
pub open spec fn spec_pool_bytes(pool: crate::state::StakePool) -> Seq<u8> {
    spec_pool_fixed_bytes(pool) + spec_option_fee_bytes(pool.next_epoch_fee)
        + spec_option_pubkey_bytes(pool.preferred_deposit_validator_vote_address)
        + spec_option_pubkey_bytes(pool.preferred_withdraw_validator_vote_address)
}

impl crate::state::StakePool {
    /// Serializes the pool record into its flat form.
    #[verifier::rlimit(100)]
    pub fn serialize(&self) -> (r: Vec<u8>)
        ensures
            r@ == spec_pool_bytes(*self),
    {
        proof {
            vstd::bytes::lemma_auto_spec_u64_to_from_le_bytes();
        }
        let mut out: Vec<u8> = Vec::new();
        out.push(account_type_to_u8(self.account_type));
        push_pubkey(&mut out, &self.manager);
        push_pubkey(&mut out, &self.staker);
        push_pubkey(&mut out, &self.deposit_authority);
        out.push(self.withdraw_bump_seed);
        push_pubkey(&mut out, &self.validator_list);
        push_pubkey(&mut out, &self.reserve_stake);
        push_pubkey(&mut out, &self.pool_mint);
        push_pubkey(&mut out, &self.manager_fee_account);
        push_pubkey(&mut out, &self.token_program_id);
        push_u64(&mut out, self.total_stake_lamports);
        push_u64(&mut out, self.pool_token_supply);
        push_u64(&mut out, self.last_update_epoch);
        let timestamp = self.lockup.unix_timestamp;
        proof {
            assert(timestamp as u64 as i64 == timestamp) by (bit_vector);
        }
        push_u64(&mut out, timestamp as u64);
        push_u64(&mut out, self.lockup.epoch);
        push_pubkey(&mut out, &self.lockup.custodian);
        push_u64(&mut out, self.fee.denominator);
        push_u64(&mut out, self.fee.numerator);
        match self.next_epoch_fee {
            None => out.push(0),
            Some(f) => {
                out.push(1);
                push_u64(&mut out, f.denominator);
                push_u64(&mut out, f.numerator);
            },
        }
        match self.preferred_deposit_validator_vote_address {
            None => out.push(0),
            Some(k) => {
                out.push(1);
                push_pubkey(&mut out, &k);
            },
        }
        match self.preferred_withdraw_validator_vote_address {
            None => out.push(0),
            Some(k) => {
                out.push(1);
                push_pubkey(&mut out, &k);
            },
        }
        proof {
            assert(out@ =~= spec_pool_bytes(*self));
        }
        out
    }
}

/// Appends an address's bytes.
fn push_pubkey(out: &mut Vec<u8>, key: &Pubkey)
    ensures
        final(out)@ == old(out)@ + key@,
{
    let mut bytes = vstd::slice::slice_to_vec(key.bytes.as_slice());
    out.append(&mut bytes);
}

/// Appends a `u64` little-endian.
fn push_u64(out: &mut Vec<u8>, value: u64)
    ensures
        final(out)@ == old(out)@ + vstd::bytes::spec_u64_to_le_bytes(value),
{
    let mut bytes = vstd::bytes::u64_to_le_bytes(value);
    out.append(&mut bytes);
}

/// How far the pool record that starts at the front of `data` runs, read
/// from its three trailing presence bytes; the error that stops the read
/// where a presence byte is missing, out of range, or cuts the record
/// short.
pub open spec fn spec_pool_record_outcome(data: Seq<u8>) -> Result<int, StakePoolError> {
    if data.len() < 347 {
        Err(StakePoolError::AccountDataTooSmall)
    } else {
        let fee_tag = data[346];
        if !(fee_tag == 0 || fee_tag == 1) {
            Err(StakePoolError::InvalidAccountData)
        } else {
            let fee_len: int = if fee_tag == 1 {
                16
            } else {
                0
            };
            if data.len() < 348 + fee_len {
                Err(StakePoolError::AccountDataTooSmall)
            } else {
                let deposit_tag = data[347 + fee_len];
                if !(deposit_tag == 0 || deposit_tag == 1) {
                    Err(StakePoolError::InvalidAccountData)
                } else {
                    let deposit_len: int = if deposit_tag == 1 {
                        32
                    } else {
                        0
                    };
                    if data.len() < 349 + fee_len + deposit_len {
                        Err(StakePoolError::AccountDataTooSmall)
                    } else {
                        let withdraw_tag = data[348 + fee_len + deposit_len];
                        if !(withdraw_tag == 0 || withdraw_tag == 1) {
                            Err(StakePoolError::InvalidAccountData)
                        } else {
                            let withdraw_len: int = if withdraw_tag == 1 {
                                32
                            } else {
                                0
                            };
                            if data.len() < 349 + fee_len + deposit_len + withdraw_len {
                                Err(StakePoolError::AccountDataTooSmall)
                            } else {
                                Ok(349 + fee_len + deposit_len + withdraw_len)
                            }
                        }
                    }
                }
            }
        }
    }
}

/// Decodes a pool record from the front of `data`; bytes past the record
/// are ignored, as the account is sized once and the three trailing fields
/// vary.
///
/// The kind tag is read before anything else: a validator-list account is
/// rejected as the wrong kind, not decoded further.
#[verifier::rlimit(100)]
pub fn deserialize_stake_pool(data: &[u8]) -> (r: Result<crate::state::StakePool, StakePoolError>)
    ensures
        data@.len() < 347 ==> r == Err::<crate::state::StakePool, StakePoolError>(
            StakePoolError::AccountDataTooSmall,
        ),
        data@.len() >= 347 && !spec_valid_account_type_tag(data@[0]) ==> r == Err::<
            crate::state::StakePool,
            StakePoolError,
        >(StakePoolError::InvalidAccountData),
        data@.len() >= 347 && data@[0] == spec_account_type_tag(AccountType::ValidatorList) ==> r
            == Err::<crate::state::StakePool, StakePoolError>(StakePoolError::WrongAccountType),
        data@.len() >= 347 && spec_valid_account_type_tag(data@[0]) && data@[0]
            != spec_account_type_tag(AccountType::ValidatorList) ==> match spec_pool_record_outcome(
            data@,
        ) {
            Err(e) => r == Err::<crate::state::StakePool, StakePoolError>(e),
            Ok(record_len) => {
                &&& r is Ok
                &&& spec_pool_bytes(r.unwrap()) == data@.subrange(0, record_len)
            },
        },
{
    if data.len() < 347 {
        return Err(StakePoolError::AccountDataTooSmall);
    }
    let account_type = match account_type_from_u8(*vstd::slice::slice_index_get(data, 0)) {
        Some(t) => t,
        None => {
            return Err(StakePoolError::InvalidAccountData);
        },
    };
    if matches!(account_type, AccountType::ValidatorList) {
        return Err(StakePoolError::WrongAccountType);
    }
    let manager = read_pubkey_at(data, 1);
    let staker = read_pubkey_at(data, 33);
    let deposit_authority = read_pubkey_at(data, 65);
    let withdraw_bump_seed = *vstd::slice::slice_index_get(data, 97);
    let validator_list = read_pubkey_at(data, 98);
    let reserve_stake = read_pubkey_at(data, 130);
    let pool_mint = read_pubkey_at(data, 162);
    let manager_fee_account = read_pubkey_at(data, 194);
    let token_program_id = read_pubkey_at(data, 226);
    let total_stake_lamports = read_u64_at(data, 258);
    let pool_token_supply = read_u64_at(data, 266);
    let last_update_epoch = read_u64_at(data, 274);
    let lockup = crate::state::Lockup {
        unix_timestamp: read_i64_at(data, 282),
        epoch: read_u64_at(data, 290),
        custodian: read_pubkey_at(data, 298),
    };
    let fee = crate::state::Fee {
        denominator: read_u64_at(data, 330),
        numerator: read_u64_at(data, 338),
    };
    let fee_tag = *vstd::slice::slice_index_get(data, 346);
    let (next_epoch_fee, fee_len): (Option<crate::state::Fee>, usize) = match fee_tag {
        0 => (None, 0),
        1 => {
            if data.len() < 364 {
                return Err(StakePoolError::AccountDataTooSmall);
            }
            let f = crate::state::Fee {
                denominator: read_u64_at(data, 347),
                numerator: read_u64_at(data, 355),
            };
            (Some(f), 16)
        },
        _ => {
            return Err(StakePoolError::InvalidAccountData);
        },
    };
    if data.len() < 348 + fee_len {
        return Err(StakePoolError::AccountDataTooSmall);
    }
    let deposit_tag = *vstd::slice::slice_index_get(data, 347 + fee_len);
    let (preferred_deposit_validator_vote_address, deposit_len): (Option<Pubkey>, usize) =
        match deposit_tag {
        0 => (None, 0),
        1 => {
            if data.len() < 380 + fee_len {
                return Err(StakePoolError::AccountDataTooSmall);
            }
            (Some(read_pubkey_at(data, 348 + fee_len)), 32)
        },
        _ => {
            return Err(StakePoolError::InvalidAccountData);
        },
    };
    if data.len() < 349 + fee_len + deposit_len {
        return Err(StakePoolError::AccountDataTooSmall);
    }
    let withdraw_tag = *vstd::slice::slice_index_get(data, 348 + fee_len + deposit_len);
    let (preferred_withdraw_validator_vote_address, withdraw_len): (Option<Pubkey>, usize) =
        match withdraw_tag {
        0 => (None, 0),
        1 => {
            if data.len() < 381 + fee_len + deposit_len {
                return Err(StakePoolError::AccountDataTooSmall);
            }
            (Some(read_pubkey_at(data, 349 + fee_len + deposit_len)), 32)
        },
        _ => {
            return Err(StakePoolError::InvalidAccountData);
        },
    };
    let pool = crate::state::StakePool {
        account_type,
        manager,
        staker,
        deposit_authority,
        withdraw_bump_seed,
        validator_list,
        reserve_stake,
        pool_mint,
        manager_fee_account,
        token_program_id,
        total_stake_lamports,
        pool_token_supply,
        last_update_epoch,
        lockup,
        fee,
        next_epoch_fee,
        preferred_deposit_validator_vote_address,
        preferred_withdraw_validator_vote_address,
    };
    proof {
        let record_len = 349 + fee_len as int + deposit_len as int + withdraw_len as int;
        assert(spec_pool_record_outcome(data@) == Ok::<int, StakePoolError>(record_len));
        assert(spec_pool_fixed_bytes(pool) =~= data@.subrange(0, 346));
        assert(spec_option_fee_bytes(pool.next_epoch_fee) =~= data@.subrange(
            346,
            347 + fee_len as int,
        ));
        assert(spec_option_pubkey_bytes(pool.preferred_deposit_validator_vote_address)
            =~= data@.subrange(347 + fee_len as int, 348 + fee_len as int + deposit_len as int));
        assert(spec_option_pubkey_bytes(pool.preferred_withdraw_validator_vote_address)
            =~= data@.subrange(348 + fee_len as int + deposit_len as int, record_len));
        assert(spec_pool_bytes(pool) =~= data@.subrange(0, record_len));
    }
    Ok(pool)
}

} // verus!
