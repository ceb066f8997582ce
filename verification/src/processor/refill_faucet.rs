//! The refill instruction: move lamports from the admin to the faucet.
use vstd::prelude::*;
use crate::account::Account;
use crate::error::FaucetError;
use crate::pubkey::Pubkey;
use crate::system::{is_system_transfer, system_transfer, Instruction};

verus! {

/// The error with which the refill instruction refuses the accounts, in the order in
/// which it checks: the faucet and admin accounts must be passed; the admin must sign;
/// the faucet must be owned by the program.
pub open spec fn refill_refusal(program_id: Seq<u8>, accounts: Seq<Account>) -> Option<FaucetError> {
    if accounts.len() < 2 {
        Some(FaucetError::NotEnoughAccountKeys)
    } else if !accounts[1].is_signer {
        Some(FaucetError::MissingRequiredSignature)
    } else if accounts[0].owner@ != program_id {
        Some(FaucetError::IncorrectProgramId)
    } else {
        None
    }
}

/// Refills the faucet (position 0) from the admin (position 1): the admin must sign and
/// the faucet must be owned by the program. The result is the system program's
/// instruction to transfer `amount` lamports from the admin to the faucet, which the
/// caller invokes with the two accounts; this function changes no account.
pub fn refill_faucet(program_id: &Pubkey, accounts: &[Account], amount: u64) -> (r: Result<Instruction, FaucetError>)
    ensures
        match refill_refusal(program_id@, accounts@) {
            Some(e) => r == Err::<Instruction, FaucetError>(e),
            None => r matches Ok(ix) && is_system_transfer(ix, accounts@[1].key@, accounts@[0].key@, amount),
        },
        accounts@.len() >= 2 && accounts@[1].is_signer && accounts@[0].owner@ == program_id@ ==> (
        r matches Ok(ix) && is_system_transfer(ix, accounts@[1].key@, accounts@[0].key@, amount)),
        r == Err::<Instruction, FaucetError>(FaucetError::NotEnoughAccountKeys) <==> accounts@.len() < 2,
{
    if accounts.len() < 2 {
        return Err(FaucetError::NotEnoughAccountKeys);
    }
    let faucet_account = &accounts[0];
    let admin_account = &accounts[1];
    if !admin_account.is_signer {
        return Err(FaucetError::MissingRequiredSignature);
    }
    if faucet_account.owner != *program_id {
        return Err(FaucetError::IncorrectProgramId);
    }
    Ok(system_transfer(&admin_account.key, &faucet_account.key, amount))
}

/// A refill reads two accounts and needs no third: it is refused for want of accounts
/// exactly when fewer than two are passed, and whenever the account at position 1 signs
/// and the account at position 0 is owned by the program, it is not refused at all.
pub proof fn law_refill_accepts_signed_owned_faucet(program_id: Seq<u8>, accounts: Seq<Account>)
    ensures
        refill_refusal(program_id, accounts) == Some(FaucetError::NotEnoughAccountKeys)
            <==> accounts.len() < 2,
        accounts.len() >= 2 && accounts[1].is_signer && accounts[0].owner@ == program_id
            ==> refill_refusal(program_id, accounts) is None,
{
}

} // verus!
