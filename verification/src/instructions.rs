//! The faucet's instructions and their byte format.
use vstd::prelude::*;
use borsh::BorshDeserialize;
use crate::encoding::{lemma_u64_le_decode_encode, u64_from_le, u64_le_bytes};
use crate::error::FaucetError;

verus! {

/// An instruction to the faucet.
#[derive(Clone, Copy, Debug, PartialEq, Eq, Structural)]
pub enum FaucetInstruction {
    /// Store the admin and the amount paid per request in the faucet account.
    InitializeFaucet { amount: u64 },
    /// Pay the stored amount from the faucet to a user.
    RequestTokens,
    /// Move `amount` lamports from the admin to the faucet.
    RefillFaucet { amount: u64 },
}

/// The first element of a slice and the rest of it, or `None` for an empty slice,
/// as the documentation of `split_first` says.
pub assume_specification<T>[ <[T]>::split_first ](slice: &[T]) -> (r: Option<(&T, &[T])>)
    ensures
        slice@.len() == 0 <==> r is None,
        r matches Some(p) ==> *p.0 == slice@[0] && p.1@ == slice@.drop_first(),
;

/// Reads a `u64` from `bytes` with borsh (`BorshDeserialize::try_from_slice`, the
/// decoder of the instruction payloads, whose one field is a `u64`). It succeeds
/// exactly when `bytes` is eight bytes long (fewer end the input early, more are left
/// unread), with the little-endian value of the bytes.
#[verifier::external_body]
fn borsh_read_u64(bytes: &[u8]) -> (r: Option<u64>)
    ensures
        r is Some <==> bytes@.len() == 8,
        r matches Some(v) ==> v == u64_from_le(bytes@),
{
    match u64::try_from_slice(bytes) {
        Ok(v) => Some(v),
        Err(_) => None,
    }
}

/// The variant byte that starts each instruction: its position in the enum.
pub open spec fn instruction_tag(ix: FaucetInstruction) -> u8 {
    match ix {
        FaucetInstruction::InitializeFaucet { .. } => 0,
        FaucetInstruction::RequestTokens => 1,
        FaucetInstruction::RefillFaucet { .. } => 2,
    }
}

/// The bytes of an instruction as borsh lays out the enum: the variant byte, then
/// the fields.
pub open spec fn instruction_bytes(ix: FaucetInstruction) -> Seq<u8> {
    match ix {
        FaucetInstruction::InitializeFaucet { amount } => seq![0u8] + u64_le_bytes(amount),
        FaucetInstruction::RequestTokens => seq![1u8],
        FaucetInstruction::RefillFaucet { amount } => seq![2u8] + u64_le_bytes(amount),
    }
}

/// Whether the payload of instruction data can be read: the two instructions that
/// carry an amount carry exactly its eight bytes.
pub open spec fn payload_readable(input: Seq<u8>) -> bool {
    input.len() > 0 && (input[0] == 0 || input[0] == 2) ==> input.len() == 9
}

/// What instruction data means.
pub open spec fn unpack_spec(input: Seq<u8>) -> Result<FaucetInstruction, FaucetError> {
    if input.len() == 0 {
        Err(FaucetError::InvalidInstructionData)
    } else if input[0] == 0 {
        Ok(FaucetInstruction::InitializeFaucet { amount: u64_from_le(input.drop_first()) })
    } else if input[0] == 1 {
        Ok(FaucetInstruction::RequestTokens)
    } else if input[0] == 2 {
        Ok(FaucetInstruction::RefillFaucet { amount: u64_from_le(input.drop_first()) })
    } else {
        Err(FaucetError::InvalidInstructionData)
    }
}

impl FaucetInstruction {
    /// Reads an instruction from instruction data: a variant byte, then for the
    /// initialize and refill instructions the amount's eight bytes. The request
    /// instruction ignores bytes after the variant byte. Empty data, or an unknown
    /// variant byte, is refused.
    pub fn unpack(input: &[u8]) -> (r: Result<FaucetInstruction, FaucetError>)
        requires
            payload_readable(input@),
        ensures
            r == unpack_spec(input@),
    {
        let (variant, rest) = match input.split_first() {
            Some(p) => p,
            None => {
                return Err(FaucetError::InvalidInstructionData);
            },
        };
        let variant: u8 = *variant;
        if variant == 0 {
            let amount: u64 = borsh_read_u64(rest).unwrap();
            Ok(FaucetInstruction::InitializeFaucet { amount })
        } else if variant == 1 {
            Ok(FaucetInstruction::RequestTokens)
        } else if variant == 2 {
            let amount: u64 = borsh_read_u64(rest).unwrap();
            Ok(FaucetInstruction::RefillFaucet { amount })
        } else {
            Err(FaucetError::InvalidInstructionData)
        }
    }
}

/// Reading the bytes of an instruction gives the instruction back.
pub proof fn lemma_unpack_instruction_bytes(ix: FaucetInstruction)
    ensures
        payload_readable(instruction_bytes(ix)),
        unpack_spec(instruction_bytes(ix)) == Ok::<FaucetInstruction, FaucetError>(ix),
{
    match ix {
        FaucetInstruction::InitializeFaucet { amount } => {
            lemma_u64_le_decode_encode(amount);
            assert(instruction_bytes(ix).drop_first() =~= u64_le_bytes(amount));
        },
        FaucetInstruction::RequestTokens => {},
        FaucetInstruction::RefillFaucet { amount } => {
            lemma_u64_le_decode_encode(amount);
            assert(instruction_bytes(ix).drop_first() =~= u64_le_bytes(amount));
        },
    }
}

} // verus!
