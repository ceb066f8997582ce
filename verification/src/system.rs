//! Instructions to other programs, and the system program's transfer.
use vstd::prelude::*;
use crate::encoding::{u32_le_bytes, u64_le_bytes};
use crate::pubkey::Pubkey;

verus! {

/// An account that an instruction names, with the access it asks for.
#[derive(Clone, Copy, Debug)]
pub struct AccountMeta {
    pub pubkey: Pubkey,
    pub is_signer: bool,
    pub is_writable: bool,
}

/// An instruction for a program to run.
#[derive(Clone, Debug)]
pub struct Instruction {
    pub program_id: Pubkey,
    pub accounts: Vec<AccountMeta>,
    pub data: Vec<u8>,
}

/// The address of the system program: 32 zero bytes.
pub open spec fn system_program_id() -> Seq<u8> {
    Seq::new(32, |i: int| 0u8)
}

/// The position of the transfer instruction in the system program's instruction enum.
pub const SYSTEM_TRANSFER_TAG: u32 = 2;

/// The data of a system transfer of `lamports`: the variant index as four
/// little-endian bytes, then the amount's eight.
pub open spec fn transfer_data(lamports: u64) -> Seq<u8> {
    u32_le_bytes(SYSTEM_TRANSFER_TAG) + u64_le_bytes(lamports)
}

/// Whether `ix` is the system program's instruction to move `lamports` from `from`,
/// which signs, to `to`; both are written.
pub open spec fn is_system_transfer(ix: Instruction, from: Seq<u8>, to: Seq<u8>, lamports: u64) -> bool {
    &&& ix.program_id@ == system_program_id()
    &&& ix.accounts@.len() == 2
    &&& ix.accounts@[0].pubkey@ == from
    &&& ix.accounts@[0].is_signer
    &&& ix.accounts@[0].is_writable
    &&& ix.accounts@[1].pubkey@ == to
    &&& !ix.accounts@[1].is_signer
    &&& ix.accounts@[1].is_writable
    &&& ix.data@ == transfer_data(lamports)
}

/// `solana_program::system_instruction::transfer`, read field by field into the
/// library's instruction type. Its source builds the instruction for the system program
/// with the sender as a writable signer and the recipient as writable, and encodes
/// `SystemInstruction::Transfer { lamports }` with bincode: the variant index (2) as a
/// little-endian `u32`, then the amount as a little-endian `u64`.
#[verifier::external_body]
#[allow(deprecated)]
pub(crate) fn system_transfer(from: &Pubkey, to: &Pubkey, lamports: u64) -> (r: Instruction)
    ensures
        is_system_transfer(r, from@, to@, lamports),
{
    let ix = solana_program::system_instruction::transfer(
        &solana_program::pubkey::Pubkey::new_from_array(from.0),
        &solana_program::pubkey::Pubkey::new_from_array(to.0), lamports);
    let mut accounts: Vec<AccountMeta> = Vec::new();
    for m in ix.accounts.iter() {
        accounts.push(AccountMeta { pubkey: Pubkey(m.pubkey.to_bytes()), is_signer: m.is_signer,
            is_writable: m.is_writable });
    }
    Instruction { program_id: Pubkey(ix.program_id.to_bytes()), accounts, data: ix.data }
}

} // verus!
