//! Dispatching instruction data to the faucet's instructions.
use vstd::prelude::*;
use crate::account::{accounts_unchanged, Account};
use crate::error::FaucetError;
use crate::instructions::{payload_readable, unpack_spec, FaucetInstruction};
use crate::pubkey::Pubkey;
use crate::rent::{minimum_balance_fits, rent_account_accepted};
use crate::encoding::u64_from_le;
use crate::instructions::{instruction_bytes, lemma_unpack_instruction_bytes};
use crate::rent::rent_minimum_balance_fits;
use crate::state::{FAUCET_STATE_LEN, lemma_state_decode_encode, state_bytes, state_read_error, stored_admin, stored_amount};
use crate::system::{is_system_transfer, Instruction};
use initialize_faucet::{
    check_initialize_faucet, initialize_faucet, initialize_refusal, initialize_rent_computable,
    initialize_succeeds, initialized,
};
use refill_faucet::{refill_faucet, refill_refusal};
use request_tokens::{
    check_request_tokens, request_arithmetic_fits, request_refusal, request_succeeds, request_tokens,
    tokens_paid,
};

pub mod initialize_faucet;
pub mod refill_faucet;
pub mod request_tokens;

verus! {

/// The faucet program's entry point.
pub struct Processor {}

/// Why the program stops without returning, where instruction data or accounts make it
/// fail outright rather than refuse.
#[derive(Debug, Clone, PartialEq, Eq)]
pub enum Halt {
    /// An initialize or refill instruction does not carry exactly the eight bytes of
    /// its amount.
    PayloadUnreadable,
    /// A balance computation leaves `u64`: the rent-exempt minimum for the faucet's
    /// size, or the payment of a request.
    ArithmeticOverflow,
    /// The instruction that the data names refused the accounts, with this error.
    InstructionFailed(FaucetError),
}

/// Whether the instruction that `data` names can compute its balances on these
/// accounts (data that names no instruction can).
pub open spec fn instruction_computable(program_id: Seq<u8>, accounts: Seq<Account>, data: Seq<u8>) -> bool {
    match unpack_spec(data) {
        Ok(FaucetInstruction::InitializeFaucet { .. }) => initialize_rent_computable(program_id, accounts),
        Ok(FaucetInstruction::RequestTokens) => request_arithmetic_fits(program_id, accounts),
        _ => true,
    }
}

/// Whether the instruction that `data` names succeeds on these accounts (data that
/// names no instruction is refused without running one).
pub open spec fn instruction_succeeds(program_id: Seq<u8>, accounts: Seq<Account>, data: Seq<u8>) -> bool {
    match unpack_spec(data) {
        Ok(FaucetInstruction::InitializeFaucet { .. }) => initialize_succeeds(program_id, accounts),
        Ok(FaucetInstruction::RequestTokens) => request_succeeds(program_id, accounts),
        Ok(FaucetInstruction::RefillFaucet { .. }) => refill_refusal(program_id, accounts) is None,
        Err(_) => true,
    }
}

/// Whether processing `data` runs to its end: the payload is readable, and the
/// instruction it names can compute its balances and succeeds.
pub open spec fn instruction_completes(program_id: Seq<u8>, accounts: Seq<Account>, data: Seq<u8>) -> bool {
    &&& payload_readable(data)
    &&& instruction_computable(program_id, accounts, data)
    &&& instruction_succeeds(program_id, accounts, data)
}

/// What processing `data` returns and does to the accounts once it runs to its end:
/// data that names no instruction is refused with the unpacking error; the initialize
/// instruction stores the state; the request instruction pays the stored amount; the
/// refill instruction hands back the system transfer of its amount from the admin to
/// the faucet, to be invoked by the caller.
pub open spec fn processed(
    program_id: Seq<u8>,
    old: Seq<Account>,
    new: Seq<Account>,
    data: Seq<u8>,
    r: Result<Option<Instruction>, FaucetError>,
) -> bool {
    match unpack_spec(data) {
        Err(e) => r == Err::<Option<Instruction>, FaucetError>(e) && accounts_unchanged(old, new),
        Ok(FaucetInstruction::InitializeFaucet { amount }) => r == Ok::<
            Option<Instruction>,
            FaucetError,
        >(None) && initialized(old, new, amount),
        Ok(FaucetInstruction::RequestTokens) => r == Ok::<Option<Instruction>, FaucetError>(None)
            && tokens_paid(old, new),
        Ok(FaucetInstruction::RefillFaucet { amount }) => {
            &&& r matches Ok(Some(ix)) && is_system_transfer(ix, old[1].key@, old[0].key@, amount)
            &&& accounts_unchanged(old, new)
        },
    }
}

/// How the instruction that `data` names fails with `e`: the error of its checks and
/// accounts unchanged, or, once its checks pass, the encoder's error, with the faucet's
/// data partly written by the initialize instruction.
pub open spec fn instruction_failed(
    program_id: Seq<u8>,
    old: Seq<Account>,
    new: Seq<Account>,
    data: Seq<u8>,
    e: FaucetError,
) -> bool {
    match unpack_spec(data) {
        Ok(FaucetInstruction::InitializeFaucet { amount }) => match initialize_refusal(program_id, old) {
            Some(refusal) => e == refusal && accounts_unchanged(old, new),
            None => e is BorshIoError && initialized(old, new, amount),
        },
        Ok(FaucetInstruction::RequestTokens) => {
            &&& accounts_unchanged(old, new)
            &&& match request_refusal(program_id, old) {
                Some(refusal) => e == refusal,
                None => e matches FaucetError::BorshIoError(m) && m@ == state_read_error(
                    old[0].data@.len(),
                ),
            }
        },
        Ok(FaucetInstruction::RefillFaucet { .. }) => {
            &&& accounts_unchanged(old, new)
            &&& refill_refusal(program_id, old) == Some(e)
        },
        Err(_) => false,
    }
}

/// Whether instruction data names no instruction: it is empty, or its first byte is
/// none of the three variant bytes.
pub open spec fn names_no_instruction(data: Seq<u8>) -> bool {
    data.len() == 0 || data[0] > 2
}

/// Whether instruction data can be unpacked.
fn payload_is_readable(input: &[u8]) -> (r: bool)
    ensures
        r == payload_readable(input@),
{
    if input.len() > 0 && (input[0] == 0 || input[0] == 2) {
        input.len() == 9
    } else {
        true
    }
}

impl Processor {
    /// Processes instruction data on the accounts. Data that names no instruction is
    /// refused; otherwise the instruction it names runs on the accounts, which it must
    /// accept. A refill returns the system transfer that the caller invokes.
    pub fn process_instruction(
        program_id: &Pubkey,
        accounts: &mut Vec<Account>,
        instruction_data: &[u8],
    ) -> (r: Result<Option<Instruction>, FaucetError>)
        requires
            instruction_completes(program_id@, old(accounts)@, instruction_data@),
        ensures
            processed(program_id@, old(accounts)@, final(accounts)@, instruction_data@, r),
            r is Err ==> r == Err::<Option<Instruction>, FaucetError>(
                FaucetError::InvalidInstructionData,
            ) && names_no_instruction(instruction_data@),
            instruction_data@.len() > 0 && instruction_data@[0] == 0 ==> {
                &&& stored_admin(final(accounts)@[0].data@) == old(accounts)@[1].key@
                &&& stored_amount(final(accounts)@[0].data@) == u64_from_le(instruction_data@.drop_first())
            },
    {
        let instruction = match FaucetInstruction::unpack(instruction_data) {
            Ok(instruction) => instruction,
            Err(e) => {
                return Err(e);
            },
        };
        match instruction {
            FaucetInstruction::InitializeFaucet { amount } => {
                let ghost before = accounts@;
                initialize_faucet(program_id, accounts, amount).expect("failed to initialize faucet");
                proof {
                    lemma_initialized_reads_back(before, accounts@, amount);
                }
                Ok(None)
            },
            FaucetInstruction::RequestTokens => {
                request_tokens(program_id, accounts).expect("failed to request tokens");
                Ok(None)
            },
            FaucetInstruction::RefillFaucet { amount } => {
                let transfer = refill_faucet(program_id, accounts.as_slice(), amount).expect(
                    "failed to refill faucet",
                );
                Ok(Some(transfer))
            },
        }
    }

    /// Processes instruction data on any accounts: where `process_instruction` runs to
    /// its end, its result; otherwise why the program stops, with the accounts as the
    /// failing instruction leaves them.
    pub fn process_instruction_checked(
        program_id: &Pubkey,
        accounts: &mut Vec<Account>,
        instruction_data: &[u8],
    ) -> (r: Result<Result<Option<Instruction>, FaucetError>, Halt>)
        ensures
            r is Ok <==> instruction_completes(program_id@, old(accounts)@, instruction_data@),
            r matches Ok(Err(e)) ==> e == FaucetError::InvalidInstructionData && names_no_instruction(
                instruction_data@,
            ),
            instruction_data@.len() > 0 && instruction_data@[0] == 0 && r == Err::<
                Result<Option<Instruction>, FaucetError>,
                Halt,
            >(Halt::ArithmeticOverflow) ==> {
                &&& old(accounts)@.len() >= 3
                &&& !rent_minimum_balance_fits(old(accounts)@[2].data@, old(accounts)@[0].data@.len() as usize)
            },
            match r {
                Ok(result) => processed(program_id@, old(accounts)@, final(accounts)@, instruction_data@, result),
                Err(Halt::PayloadUnreadable) => {
                    &&& !payload_readable(instruction_data@)
                    &&& accounts_unchanged(old(accounts)@, final(accounts)@)
                },
                Err(Halt::ArithmeticOverflow) => {
                    &&& payload_readable(instruction_data@)
                    &&& !instruction_computable(program_id@, old(accounts)@, instruction_data@)
                    &&& accounts_unchanged(old(accounts)@, final(accounts)@)
                },
                Err(Halt::InstructionFailed(e)) => {
                    &&& payload_readable(instruction_data@)
                    &&& instruction_computable(program_id@, old(accounts)@, instruction_data@)
                    &&& instruction_failed(program_id@, old(accounts)@, final(accounts)@, instruction_data@, e)
                },
            },
    {
        if !payload_is_readable(instruction_data) {
            return Err(Halt::PayloadUnreadable);
        }
        let instruction = match FaucetInstruction::unpack(instruction_data) {
            Ok(instruction) => instruction,
            Err(_) => {
                return Ok(Processor::process_instruction(program_id, accounts, instruction_data));
            },
        };
        match instruction {
            FaucetInstruction::InitializeFaucet { amount } => {
                if accounts.len() >= 3 && rent_account_accepted(&accounts[2]) && accounts[0].owner
                    == *program_id && accounts[0].is_writable && accounts[1].is_signer {
                    if !minimum_balance_fits(&accounts[2], accounts[0].data.len()) {
                        return Err(Halt::ArithmeticOverflow);
                    }
                }
                match check_initialize_faucet(program_id, accounts.as_slice()) {
                    Err(e) => {
                        return Err(Halt::InstructionFailed(e));
                    },
                    Ok(()) => {},
                }
                if accounts[0].data.len() < crate::state::FAUCET_STATE_LEN {
                    return match initialize_faucet(program_id, accounts, amount) {
                        Ok(()) => Ok(Ok(None)),
                        Err(e) => Err(Halt::InstructionFailed(e)),
                    };
                }
                Ok(Processor::process_instruction(program_id, accounts, instruction_data))
            },
            FaucetInstruction::RequestTokens => {
                let amount: u64 = match check_request_tokens(program_id, accounts.as_slice()) {
                    Ok(amount) => amount,
                    Err(e) => {
                        return Err(Halt::InstructionFailed(e));
                    },
                };
                if amount > accounts[0].lamports {
                    return Err(Halt::ArithmeticOverflow);
                }
                let user_before_credit: u64 = if accounts[1].key == accounts[0].key {
                    accounts[0].lamports - amount
                } else {
                    accounts[1].lamports
                };
                if user_before_credit > u64::MAX - amount {
                    return Err(Halt::ArithmeticOverflow);
                }
                Ok(Processor::process_instruction(program_id, accounts, instruction_data))
            },
            FaucetInstruction::RefillFaucet { amount } => {
                match refill_faucet(program_id, accounts.as_slice(), amount) {
                    Err(e) => {
                        return Err(Halt::InstructionFailed(e));
                    },
                    Ok(_) => {},
                }
                Ok(Processor::process_instruction(program_id, accounts, instruction_data))
            },
        }
    }
}

/// Whether the initialize instruction halts on overflow does not depend on its amount:
/// the bytes of an initialize instruction with either of two amounts are computable on
/// the same accounts, or on neither.
pub proof fn law_initialize_halt_ignores_amount(
    program_id: Seq<u8>,
    accounts: Seq<Account>,
    amount1: u64,
    amount2: u64,
)
    ensures
        instruction_computable(
            program_id,
            accounts,
            instruction_bytes(FaucetInstruction::InitializeFaucet { amount: amount1 }),
        ) == instruction_computable(
            program_id,
            accounts,
            instruction_bytes(FaucetInstruction::InitializeFaucet { amount: amount2 }),
        ),
        instruction_succeeds(
            program_id,
            accounts,
            instruction_bytes(FaucetInstruction::InitializeFaucet { amount: amount1 }),
        ) == instruction_succeeds(
            program_id,
            accounts,
            instruction_bytes(FaucetInstruction::InitializeFaucet { amount: amount2 }),
        ),
{
    lemma_unpack_instruction_bytes(FaucetInstruction::InitializeFaucet { amount: amount1 });
    lemma_unpack_instruction_bytes(FaucetInstruction::InitializeFaucet { amount: amount2 });
}

/// Processing the bytes of an initialize instruction stores exactly its amount, and
/// the admin's key, for every amount: a later read of the faucet's state gives them
/// back.
pub proof fn law_process_initialize_stores_amount(
    program_id: Seq<u8>,
    old: Seq<Account>,
    new: Seq<Account>,
    amount: u64,
    r: Result<Option<Instruction>, FaucetError>,
)
    requires
        instruction_completes(program_id, old, instruction_bytes(FaucetInstruction::InitializeFaucet { amount })),
        processed(program_id, old, new, instruction_bytes(FaucetInstruction::InitializeFaucet { amount }), r),
    ensures
        r == Ok::<Option<Instruction>, FaucetError>(None),
        stored_admin(new[0].data@) == old[1].key@,
        stored_amount(new[0].data@) == amount,
{
    lemma_unpack_instruction_bytes(FaucetInstruction::InitializeFaucet { amount });
    lemma_initialized_reads_back(old, new, amount);
}

/// The faucet data that initialization leaves reads back as the admin and the amount.
proof fn lemma_initialized_reads_back(old: Seq<Account>, new: Seq<Account>, amount: u64)
    requires
        old.len() >= 2,
        old[0].data@.len() >= FAUCET_STATE_LEN,
        initialized(old, new, amount),
    ensures
        stored_admin(new[0].data@) == old[1].key@,
        stored_amount(new[0].data@) == amount,
{
    lemma_state_decode_encode(old[1].key@, amount);
    let stored = state_bytes(old[1].key@, amount);
    assert(new[0].data@ == stored + old[0].data@.skip(FAUCET_STATE_LEN as int));
    let data = new[0].data@;
    assert(data.take(32) =~= stored.take(32));
    assert(data.subrange(32, 40) =~= stored.subrange(32, 40));
}

} // verus!
