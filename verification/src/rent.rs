//! The rent sysvar: which account it is, and the rent-exempt minimum balance it sets.
use vstd::prelude::*;
use solana_program::account_info::AccountInfo;
use solana_program::sysvar::rent::Rent;
use solana_program::sysvar::Sysvar;
use crate::account::Account;
use crate::encoding::u64_from_le;

verus! {

/// The bytes of the rent sysvar's data that hold its fields: the lamports charged per
/// byte-year (eight bytes), the exemption threshold (eight bytes) and the burn
/// percentage (one byte).
pub const RENT_DATA_LEN: usize = 17;

/// The storage overhead, in bytes, that the runtime adds to an account's data length
/// when it computes rent.
pub const ACCOUNT_STORAGE_OVERHEAD: u64 = 128;

/// The address of the rent sysvar.
pub open spec fn rent_sysvar_id() -> Seq<u8> {
    seq![
        6u8, 167u8, 213u8, 23u8, 25u8, 44u8, 92u8, 81u8, 33u8, 140u8, 201u8, 76u8, 61u8, 74u8,
        241u8, 127u8, 88u8, 218u8, 238u8, 8u8, 155u8, 161u8, 253u8, 68u8, 227u8, 219u8, 217u8,
        138u8, 0u8, 0u8, 0u8, 0u8,
    ]
}

/// Whether an account can be read as the rent sysvar: it has the rent sysvar's address
/// and its data holds the sysvar's fields (bytes after them are ignored).
pub open spec fn rent_account_readable(account: Account) -> bool {
    account.key@ == rent_sysvar_id() && account.data@.len() >= RENT_DATA_LEN
}

/// The lamports charged per byte-year that rent sysvar data holds.
pub open spec fn rent_lamports_per_byte_year(rent_data: Seq<u8>) -> u64 {
    u64_from_le(rent_data.take(8))
}

/// Whether computing the minimum balance for `data_len` bytes under the rent that
/// `rent_data` holds stays within `u64`: the storage overhead plus the length, and that
/// sum times the lamports per byte-year.
pub open spec fn rent_minimum_balance_fits(rent_data: Seq<u8>, data_len: usize) -> bool {
    &&& ACCOUNT_STORAGE_OVERHEAD + data_len <= u64::MAX
    &&& (ACCOUNT_STORAGE_OVERHEAD + data_len) * rent_lamports_per_byte_year(rent_data) <= u64::MAX
}

/// The rent-exempt minimum balance, in lamports, for an account of `data_len` bytes
/// under the rent whose fields are `rent_data`, as `Rent::minimum_balance` computes it
/// (with floating-point arithmetic).
pub uninterp spec fn rent_minimum_balance(rent_data: Seq<u8>, data_len: usize) -> u64;

/// Whether `Rent::from_account_info` (of `solana_program`'s rent sysvar) accepts the
/// account: the call checks the account's address against the rent sysvar's and then
/// decodes the data with bincode, whose fixed-width layout of the three fields takes
/// seventeen bytes and allows bytes after them. Any seventeen bytes decode.
#[verifier::external_body]
pub(crate) fn rent_account_accepted(account: &Account) -> (r: bool)
    ensures
        r == rent_account_readable(*account),
{
    let key = solana_program::pubkey::Pubkey::new_from_array(account.key.0);
    let owner = solana_program::pubkey::Pubkey::new_from_array(account.owner.0);
    let mut lamports: u64 = account.lamports;
    let mut data = account.data.clone();
    let info = AccountInfo::new(&key, account.is_signer, account.is_writable, &mut lamports,
        &mut data, &owner, false, 0);
    Rent::from_account_info(&info).is_ok()
}

/// `Rent::minimum_balance` for `data_len` bytes, under the rent that
/// `Rent::from_account_info` reads from the rent sysvar account. The result depends
/// on the seventeen bytes of the sysvar's fields alone; it is named, not stated, as it
/// is computed in floating point. `requires` leaves out the inputs on which the
/// integer part of the computation overflows, where the call panics.
#[verifier::external_body]
pub(crate) fn rent_account_minimum_balance(rent_account: &Account, data_len: usize) -> (r: u64)
    requires
        rent_account_readable(*rent_account),
        rent_minimum_balance_fits(rent_account.data@, data_len),
    ensures
        r == rent_minimum_balance(rent_account.data@.take(RENT_DATA_LEN as int), data_len),
{
    let key = solana_program::pubkey::Pubkey::new_from_array(rent_account.key.0);
    let owner = solana_program::pubkey::Pubkey::new_from_array(rent_account.owner.0);
    let mut lamports: u64 = rent_account.lamports;
    let mut data = rent_account.data.clone();
    let info = AccountInfo::new(&key, rent_account.is_signer, rent_account.is_writable,
        &mut lamports, &mut data, &owner, false, 0);
    Rent::from_account_info(&info).unwrap().minimum_balance(data_len)
}

/// The little-endian value of the first eight bytes of `bytes`.
fn u64_from_le_prefix(bytes: &[u8]) -> (r: u64)
    requires
        bytes@.len() >= 8,
    ensures
        r == u64_from_le(bytes@.take(8)),
{
    (bytes[0] as u64) | ((bytes[1] as u64) << 8u64) | ((bytes[2] as u64) << 16u64) | ((
    bytes[3] as u64) << 24u64) | ((bytes[4] as u64) << 32u64) | ((bytes[5] as u64) << 40u64)
        | ((bytes[6] as u64) << 48u64) | ((bytes[7] as u64) << 56u64)
}

/// Whether the minimum balance for `data_len` bytes under the rent that the account
/// holds can be computed within `u64`.
pub(crate) fn minimum_balance_fits(rent_account: &Account, data_len: usize) -> (r: bool)
    requires
        rent_account_readable(*rent_account),
    ensures
        r == rent_minimum_balance_fits(rent_account.data@, data_len),
{
    let per_byte_year: u64 = u64_from_le_prefix(rent_account.data.as_slice());
    let len: u64 = data_len as u64;
    if len > u64::MAX - ACCOUNT_STORAGE_OVERHEAD {
        return false;
    }
    (ACCOUNT_STORAGE_OVERHEAD + len).checked_mul(per_byte_year).is_some()
}

} // verus!
