//! The initialize instruction: store the admin and the amount per request in the
//! faucet account.
use vstd::prelude::*;
use crate::account::{spread_data, data_written, accounts_unchanged, Account};
use crate::error::FaucetError;
use crate::pubkey::Pubkey;
use crate::rent::{
    rent_account_accepted, rent_account_minimum_balance, rent_account_readable,
    rent_minimum_balance, rent_minimum_balance_fits, rent_sysvar_id, RENT_DATA_LEN,
};
use crate::state::{borsh_write_state, state_bytes, FaucetState, FAUCET_STATE_LEN};

verus! {

/// The rent-exempt minimum balance of the faucet account (position 0) under the rent
/// sysvar (position 2).
pub open spec fn faucet_rent_minimum(accounts: Seq<Account>) -> u64 {
    rent_minimum_balance(
        accounts[2].data@.take(RENT_DATA_LEN as int),
        accounts[0].data@.len() as usize,
    )
}

/// The error with which the initialize instruction refuses the accounts before it
/// writes anything, in the order in which it checks: the faucet, admin and rent sysvar
/// accounts must be passed; the rent sysvar must be readable; the faucet account must
/// be owned by the program and writable; the admin must sign; the faucet's balance
/// must be rent-exempt for its data length.
pub open spec fn initialize_refusal(program_id: Seq<u8>, accounts: Seq<Account>) -> Option<FaucetError> {
    if accounts.len() < 3 {
        Some(FaucetError::NotEnoughAccountKeys)
    } else if !rent_account_readable(accounts[2]) {
        Some(FaucetError::InvalidArgument)
    } else if accounts[0].owner@ != program_id {
        Some(FaucetError::InvalidAccountData)
    } else if !accounts[0].is_writable {
        Some(FaucetError::InvalidAccountData)
    } else if !accounts[1].is_signer {
        Some(FaucetError::MissingRequiredSignature)
    } else if accounts[0].lamports < faucet_rent_minimum(accounts) {
        Some(FaucetError::AccountNotRentExempt)
    } else {
        None
    }
}

/// Whether the rent check can be computed where the initialize instruction reaches it:
/// once the checks before it pass, the minimum balance for the faucet's data length
/// stays within `u64`.
pub open spec fn initialize_rent_computable(program_id: Seq<u8>, accounts: Seq<Account>) -> bool {
    accounts.len() >= 3 && rent_account_readable(accounts[2]) && accounts[0].owner@ == program_id
        && accounts[0].is_writable && accounts[1].is_signer ==> rent_minimum_balance_fits(
        accounts[2].data@,
        accounts[0].data@.len() as usize,
    )
}

/// The faucet's data after the state is written over it: the stored state and then
/// the bytes that were there after it, or, where the data is shorter than the state,
/// as much of the state as fits.
pub open spec fn initialized_data(old_data: Seq<u8>, admin: Seq<u8>, amount: u64) -> Seq<u8> {
    if old_data.len() >= FAUCET_STATE_LEN {
        state_bytes(admin, amount) + old_data.skip(FAUCET_STATE_LEN as int)
    } else {
        state_bytes(admin, amount).take(old_data.len() as int)
    }
}

/// Whether the initialize instruction succeeds on these accounts.
pub open spec fn initialize_succeeds(program_id: Seq<u8>, accounts: Seq<Account>) -> bool {
    initialize_refusal(program_id, accounts) is None && accounts[0].data@.len() >= FAUCET_STATE_LEN
}

/// What the initialize instruction does to the accounts once the checks pass: the
/// faucet account's data, at every position where the faucet stands, receives the
/// state with the admin's key and `amount`.
pub open spec fn initialized(old: Seq<Account>, new: Seq<Account>, amount: u64) -> bool {
    data_written(old, new, old[0].key@, initialized_data(old[0].data@, old[1].key@, amount))
}

/// The checks of the initialize instruction before its rent check pass: three accounts,
/// a readable rent sysvar, a faucet owned by the program and writable, a signing admin.
pub open spec fn initialize_checks_pass_but_rent(program_id: Seq<u8>, accounts: Seq<Account>) -> bool {
    &&& accounts.len() >= 3
    &&& accounts[2].key@ == rent_sysvar_id()
    &&& accounts[2].data@.len() >= RENT_DATA_LEN
    &&& accounts[0].owner@ == program_id
    &&& accounts[0].is_writable
    &&& accounts[1].is_signer
}

/// The rent-exempt minimum for the faucet's data length under the rent sysvar's fields.
pub open spec fn faucet_minimum_balance(accounts: Seq<Account>) -> u64 {
    rent_minimum_balance(accounts[2].data@.take(17), accounts[0].data@.len() as usize)
}

/// Runs the initialize instruction's checks, in its order, on the faucet (position 0),
/// admin (position 1) and rent sysvar (position 2) accounts.
pub(crate) fn check_initialize_faucet(program_id: &Pubkey, accounts: &[Account]) -> (r: Result<(), FaucetError>)
    requires
        initialize_rent_computable(program_id@, accounts@),
    ensures
        r == (match initialize_refusal(program_id@, accounts@) {
            Some(e) => Err(e),
            None => Ok(()),
        }),
{
    if accounts.len() < 3 {
        return Err(FaucetError::NotEnoughAccountKeys);
    }
    let faucet_account = &accounts[0];
    let admin_account = &accounts[1];
    let rent_account = &accounts[2];
    if !rent_account_accepted(rent_account) {
        return Err(FaucetError::InvalidArgument);
    }
    if faucet_account.owner != *program_id {
        return Err(FaucetError::InvalidAccountData);
    }
    if !faucet_account.is_writable {
        return Err(FaucetError::InvalidAccountData);
    }
    if !admin_account.is_signer {
        return Err(FaucetError::MissingRequiredSignature);
    }
    let minimum: u64 = rent_account_minimum_balance(rent_account, faucet_account.data.len());
    if faucet_account.lamports < minimum {
        return Err(FaucetError::AccountNotRentExempt);
    }
    Ok(())
}

/// Initializes the faucet: the faucet account (position 0) must be owned by the
/// program, writable and rent-exempt under the rent sysvar (position 2), and the admin
/// (position 1) must sign. Then the state, with the admin's key and `amount`, is
/// written at the start of the faucet's data; where the data is too short for it, as
/// much as fits is written and the encoder's error is returned. A refusal leaves the
/// accounts unchanged.
pub fn initialize_faucet(program_id: &Pubkey, accounts: &mut Vec<Account>, amount: u64) -> (r: Result<(), FaucetError>)
    requires
        initialize_rent_computable(program_id@, old(accounts)@),
    ensures
        match initialize_refusal(program_id@, old(accounts)@) {
            Some(e) => r == Err::<(), FaucetError>(e) && accounts_unchanged(old(accounts)@, final(accounts)@),
            None => {
                &&& initialized(old(accounts)@, final(accounts)@, amount)
                &&& (r is Ok <==> old(accounts)@[0].data@.len() >= FAUCET_STATE_LEN)
                &&& (old(accounts)@[0].data@.len() >= FAUCET_STATE_LEN ==> r == Ok::<(), FaucetError>(()))
                &&& (r is Err ==> r matches Err(FaucetError::BorshIoError(_)))
            },
        },
        initialize_checks_pass_but_rent(program_id@, old(accounts)@) ==> {
            &&& (old(accounts)@[0].lamports < faucet_minimum_balance(old(accounts)@) <==> r == Err::<
                (),
                FaucetError,
            >(FaucetError::AccountNotRentExempt))
            &&& (old(accounts)@[0].lamports >= faucet_minimum_balance(old(accounts)@)
                && old(accounts)@[0].data@.len() >= FAUCET_STATE_LEN ==> r == Ok::<(), FaucetError>(()))
        },
{
    match check_initialize_faucet(program_id, accounts.as_slice()) {
        Err(e) => {
            return Err(e);
        },
        Ok(()) => {},
    }
    let state = FaucetState { admin: accounts[1].key, amount };
    let ghost before = accounts@;
    let written = borsh_write_state(&state, &mut accounts[0].data);
    let ghost mid = accounts@;
    spread_data(accounts, 0);
    proof {
        assert(state.encoded() == state_bytes(before[1].key@, amount));
        assert(mid[0].data@ == initialized_data(before[0].data@, before[1].key@, amount));
        assert forall|i: int| 0 <= i < mid.len() implies #[trigger] mid[i].key == before[i].key
            && (i != 0 ==> mid[i].data@ == before[i].data@) by {}
    }
    match written {
        Ok(()) => Ok(()),
        Err(message) => Err(FaucetError::BorshIoError(message)),
    }
}

/// Rent exemption decides by the balance alone: once the other checks pass, the faucet is
/// accepted exactly when its balance reaches the rent-exempt minimum for its data
/// length.
pub proof fn law_initialize_rent_exemption(program_id: Seq<u8>, accounts: Seq<Account>)
    requires
        initialize_checks_pass_but_rent(program_id, accounts),
    ensures
        initialize_refusal(program_id, accounts) is None <==> accounts[0].lamports
            >= faucet_minimum_balance(accounts),
        initialize_refusal(program_id, accounts) is Some ==> initialize_refusal(program_id, accounts)
            == Some(FaucetError::AccountNotRentExempt),
{
}

/// Rent exemption is monotone in the balance: accounts that pass the initialize checks
/// still pass them with more lamports in the faucet.
pub proof fn law_initialize_accepts_larger_balance(program_id: Seq<u8>, a: Seq<Account>, b: Seq<Account>)
    requires
        initialize_refusal(program_id, a) is None,
        a.len() == b.len(),
        forall|i: int|
            #![trigger a[i], b[i]]
            0 <= i < a.len() ==> {
                &&& a[i].key == b[i].key
                &&& a[i].owner == b[i].owner
                &&& a[i].data@ == b[i].data@
                &&& a[i].is_signer == b[i].is_signer
                &&& a[i].is_writable == b[i].is_writable
                &&& (i != 0 ==> a[i].lamports == b[i].lamports)
            },
        b[0].lamports >= a[0].lamports,
    ensures
        initialize_refusal(program_id, b) is None,
{
    assert(a[0].key == b[0].key && a[1].key == b[1].key && a[2].key == b[2].key);
}

} // verus!
