//! The request instruction: pay the stored amount from the faucet to a user.
use vstd::prelude::*;
use crate::account::{accounts_unchanged, lamports_after, write_lamports, Account};
use crate::error::FaucetError;
use crate::pubkey::Pubkey;
use crate::processor::initialize_faucet::{initialize_succeeds, initialized};
use crate::state::{
    borsh_read_state, lemma_state_decode_encode, state_read_error, stored_admin, stored_amount,
    FAUCET_STATE_LEN,
};

verus! {

/// The error with which the request instruction refuses the accounts before it reads
/// the faucet state, in the order in which it checks: the faucet and user accounts must
/// be passed; the faucet must hold lamports; it must be owned by the program.
pub open spec fn request_refusal(program_id: Seq<u8>, accounts: Seq<Account>) -> Option<FaucetError> {
    if accounts.len() < 2 {
        Some(FaucetError::NotEnoughAccountKeys)
    } else if accounts[0].lamports == 0 {
        Some(FaucetError::InsufficientFunds)
    } else if accounts[0].owner@ != program_id {
        Some(FaucetError::IncorrectProgramId)
    } else {
        None
    }
}

/// The amount that the faucet (position 0) pays per request, as its data stores it.
pub open spec fn requested_amount(accounts: Seq<Account>) -> u64 {
    stored_amount(accounts[0].data@)
}

/// The faucet's balance after it pays.
pub open spec fn faucet_balance_after(accounts: Seq<Account>) -> u64 {
    (accounts[0].lamports - requested_amount(accounts)) as u64
}

/// The user's balance (position 1) once the faucet has paid and before the user is
/// credited: the faucet's new balance where the user is the faucet itself.
pub open spec fn user_balance_before_credit(accounts: Seq<Account>) -> u64 {
    lamports_after(accounts, 1, accounts[0].key@, faucet_balance_after(accounts))
}

/// Whether the payment stays within `u64` where the request instruction reaches it:
/// once the checks pass and the state is read, the faucet holds at least the amount,
/// and the user's balance plus the amount fits.
pub open spec fn request_arithmetic_fits(program_id: Seq<u8>, accounts: Seq<Account>) -> bool {
    request_refusal(program_id, accounts) is None && accounts[0].data@.len() == FAUCET_STATE_LEN
        ==> {
        &&& requested_amount(accounts) <= accounts[0].lamports
        &&& user_balance_before_credit(accounts) + requested_amount(accounts) <= u64::MAX
    }
}

/// Whether the request instruction succeeds on these accounts.
pub open spec fn request_succeeds(program_id: Seq<u8>, accounts: Seq<Account>) -> bool {
    request_refusal(program_id, accounts) is None && accounts[0].data@.len() == FAUCET_STATE_LEN
}

/// What a successful request does: the faucet's balance drops by the amount and then
/// the user's rises by it, at every position where each stands; nothing else changes.
pub open spec fn tokens_paid(old: Seq<Account>, new: Seq<Account>) -> bool {
    let faucet_key = old[0].key@;
    let user_key = old[1].key@;
    let amount: u64 = requested_amount(old);
    &&& new.len() == old.len()
    &&& forall|i: int|
        #![trigger new[i]]
        0 <= i < old.len() ==> {
            &&& new[i].key == old[i].key
            &&& new[i].owner == old[i].owner
            &&& new[i].data@ == old[i].data@
            &&& new[i].is_signer == old[i].is_signer
            &&& new[i].is_writable == old[i].is_writable
            &&& new[i].lamports == (if old[i].key@ == user_key {
                (user_balance_before_credit(old) + amount) as u64
            } else if old[i].key@ == faucet_key {
                faucet_balance_after(old)
            } else {
                old[i].lamports
            })
        }
}

/// What the request instruction returns and does: a refusal with the accounts
/// unchanged; borsh's read error, with the accounts unchanged, where the faucet's data
/// is not exactly the stored state; otherwise success, with the stored amount paid.
pub open spec fn requested(
    program_id: Seq<u8>,
    old: Seq<Account>,
    new: Seq<Account>,
    r: Result<(), FaucetError>,
) -> bool {
    match request_refusal(program_id, old) {
        Some(e) => r == Err::<(), FaucetError>(e) && accounts_unchanged(old, new),
        None => if old[0].data@.len() == FAUCET_STATE_LEN {
            r == Ok::<(), FaucetError>(()) && tokens_paid(old, new)
        } else {
            &&& r matches Err(FaucetError::BorshIoError(m)) && m@ == state_read_error(old[0].data@.len())
            &&& accounts_unchanged(old, new)
        },
    }
}

/// Runs the request instruction's checks, in its order, and reads the amount it pays.
pub(crate) fn check_request_tokens(program_id: &Pubkey, accounts: &[Account]) -> (r: Result<u64, FaucetError>)
    ensures
        match request_refusal(program_id@, accounts@) {
            Some(e) => r == Err::<u64, FaucetError>(e),
            None => if accounts@[0].data@.len() == FAUCET_STATE_LEN {
                r == Ok::<u64, FaucetError>(requested_amount(accounts@))
            } else {
                r matches Err(FaucetError::BorshIoError(m)) && m@ == state_read_error(
                    accounts@[0].data@.len(),
                )
            },
        },
{
    if accounts.len() < 2 {
        return Err(FaucetError::NotEnoughAccountKeys);
    }
    let faucet_account = &accounts[0];
    if faucet_account.lamports == 0 {
        return Err(FaucetError::InsufficientFunds);
    }
    if faucet_account.owner != *program_id {
        return Err(FaucetError::IncorrectProgramId);
    }
    match borsh_read_state(faucet_account.data.as_slice()) {
        Ok(state) => Ok(state.amount),
        Err(message) => Err(FaucetError::BorshIoError(message)),
    }
}

/// Pays the amount stored in the faucet account (position 0) to the user account
/// (position 1): the faucet must hold lamports and be owned by the program, and its
/// data must hold exactly the stored state. A refusal leaves the accounts unchanged.
pub fn request_tokens(program_id: &Pubkey, accounts: &mut Vec<Account>) -> (r: Result<(), FaucetError>)
    requires
        request_arithmetic_fits(program_id@, old(accounts)@),
    ensures
        requested(program_id@, old(accounts)@, final(accounts)@, r),
{
    let request_amount: u64 = match check_request_tokens(program_id, accounts.as_slice()) {
        Ok(amount) => amount,
        Err(e) => {
            return Err(e);
        },
    };
    let ghost before = accounts@;
    let faucet_key = accounts[0].key;
    let user_key = accounts[1].key;
    let faucet_lamports: u64 = accounts[0].lamports - request_amount;
    write_lamports(accounts, &faucet_key, faucet_lamports);
    let ghost mid = accounts@;
    let user_lamports: u64 = accounts[1].lamports + request_amount;
    write_lamports(accounts, &user_key, user_lamports);
    proof {
        assert(mid[1].lamports == user_balance_before_credit(before));
        assert forall|i: int| 0 <= i < before.len() implies #[trigger] mid[i].key == before[i].key by {}
    }
    Ok(())
}

/// A request pays what initialization stored. After the initialize instruction
/// succeeds with `amount` on a faucet whose data is exactly the state's size, the
/// faucet's data holds the admin and `amount`; on any later accounts whose faucet entry
/// still holds that data, the request instruction passes its read of the state, and a
/// payment to a user other than the faucet takes `amount` from the faucet and gives it
/// to the user.
pub proof fn law_request_pays_initialized_amount(
    program_id: Seq<u8>,
    initial: Seq<Account>,
    initialized_accounts: Seq<Account>,
    amount: u64,
    later: Seq<Account>,
    paid: Seq<Account>,
)
    requires
        initialize_succeeds(program_id, initial),
        initial[0].data@.len() == FAUCET_STATE_LEN,
        initialized(initial, initialized_accounts, amount),
        later.len() >= 2,
        later[0].data@ == initialized_accounts[0].data@,
        later[0].key@ != later[1].key@,
        request_refusal(program_id, later) is None,
        request_arithmetic_fits(program_id, later),
        tokens_paid(later, paid),
    ensures
        stored_admin(initialized_accounts[0].data@) == initial[1].key@,
        requested_amount(later) == amount,
        request_succeeds(program_id, later),
        paid[0].lamports == later[0].lamports - amount,
        paid[1].lamports == later[1].lamports + amount,
{
    lemma_state_decode_encode(initial[1].key@, amount);
    let stored = crate::state::state_bytes(initial[1].key@, amount);
    assert(initialized_accounts[0].data@ =~= stored + initial[0].data@.skip(FAUCET_STATE_LEN as int));
    assert(initialized_accounts[0].data@ =~= stored);
}

/// A request moves lamports and creates none: where the user is not the faucet, the
/// two balances add up to what they did before; where the user is the faucet, its
/// balance is unchanged. Every other account keeps its balance.
pub proof fn law_request_conserves_lamports(program_id: Seq<u8>, old: Seq<Account>, new: Seq<Account>)
    requires
        request_succeeds(program_id, old),
        request_arithmetic_fits(program_id, old),
        tokens_paid(old, new),
    ensures
        old[0].key@ != old[1].key@ ==> new[0].lamports + new[1].lamports == old[0].lamports
            + old[1].lamports,
        old[0].key@ == old[1].key@ ==> new[0].lamports == old[0].lamports,
        forall|i: int|
            0 <= i < old.len() && old[i].key@ != old[0].key@ && old[i].key@ != old[1].key@
                ==> #[trigger] new[i].lamports == old[i].lamports,
{
}

/// `a` and `b` hold the same accounts but for who signed.
pub open spec fn same_but_signers(a: Seq<Account>, b: Seq<Account>) -> bool {
    &&& a.len() == b.len()
    &&& forall|i: int|
        #![trigger a[i], b[i]]
        0 <= i < a.len() ==> {
            &&& a[i].key == b[i].key
            &&& a[i].owner == b[i].owner
            &&& a[i].lamports == b[i].lamports
            &&& a[i].data@ == b[i].data@
            &&& a[i].is_writable == b[i].is_writable
        }
}

/// Two results of the faucet that agree: equal, where a borsh error's message is
/// compared by its text.
pub open spec fn results_agree(a: Result<(), FaucetError>, b: Result<(), FaucetError>) -> bool {
    match (a, b) {
        (Err(FaucetError::BorshIoError(x)), Err(FaucetError::BorshIoError(y))) => x@ == y@,
        _ => a == b,
    }
}

/// Nobody has to sign for a request: on accounts that differ only in who signed, the
/// request instruction can run on both or on neither, and it returns the same result
/// and leaves the same balances.
pub proof fn law_request_ignores_signers(
    program_id: Seq<u8>,
    a: Seq<Account>,
    b: Seq<Account>,
    new_a: Seq<Account>,
    new_b: Seq<Account>,
    ra: Result<(), FaucetError>,
    rb: Result<(), FaucetError>,
)
    requires
        same_but_signers(a, b),
        requested(program_id, a, new_a, ra),
        requested(program_id, b, new_b, rb),
    ensures
        request_arithmetic_fits(program_id, a) == request_arithmetic_fits(program_id, b),
        results_agree(ra, rb),
        new_a.len() == new_b.len(),
        forall|i: int| 0 <= i < new_a.len() ==> #[trigger] new_a[i].lamports == new_b[i].lamports,
{
    if a.len() >= 2 {
        assert(a[0].key == b[0].key && a[1].key == b[1].key);
    }
    assert forall|i: int| 0 <= i < new_a.len() implies #[trigger] new_a[i].lamports == new_b[i].lamports by {
        assert(a[i].key == b[i].key && a[i].lamports == b[i].lamports);
    }
}

} // verus!
