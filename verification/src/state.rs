//! The faucet's stored state and its byte layout in the faucet account's data.
use vstd::prelude::*;
use borsh::{BorshDeserialize, BorshSerialize};
use crate::encoding::{
    lemma_u64_le_decode_encode, lemma_u64_le_encode_decode, u64_from_le, u64_le_bytes,
};
use crate::pubkey::Pubkey;

verus! {

/// What the faucet account stores: who administers it, and how many lamports it
/// pays out per request.
#[derive(Clone, Copy, Debug)]
pub struct FaucetState {
    pub admin: Pubkey,
    pub amount: u64,
}

/// The number of bytes that the stored state takes.
pub const FAUCET_STATE_LEN: usize = 40;

/// The stored form of a state: the admin's 32 bytes, then the amount's eight
/// little-endian bytes.
pub open spec fn state_bytes(admin: Seq<u8>, amount: u64) -> Seq<u8> {
    admin + u64_le_bytes(amount)
}

/// The admin that stored bytes hold.
pub open spec fn stored_admin(bytes: Seq<u8>) -> Seq<u8> {
    bytes.take(32)
}

/// The amount that stored bytes hold.
pub open spec fn stored_amount(bytes: Seq<u8>) -> u64 {
    u64_from_le(bytes.subrange(32, 40))
}

impl FaucetState {
    /// The stored form of this state.
    pub open spec fn encoded(&self) -> Seq<u8> {
        state_bytes(self.admin@, self.amount)
    }
}

/// Reading back stored state gives the state that was stored.
pub proof fn lemma_state_decode_encode(admin: Seq<u8>, amount: u64)
    requires
        admin.len() == 32,
    ensures
        state_bytes(admin, amount).len() == FAUCET_STATE_LEN,
        stored_admin(state_bytes(admin, amount)) == admin,
        stored_amount(state_bytes(admin, amount)) == amount,
{
    lemma_u64_le_decode_encode(amount);
    let b = state_bytes(admin, amount);
    assert(b.take(32) =~= admin);
    assert(b.subrange(32, 40) =~= u64_le_bytes(amount));
}

/// Storing what stored bytes hold gives the bytes back.
pub proof fn lemma_state_encode_decode(bytes: Seq<u8>)
    requires
        bytes.len() == FAUCET_STATE_LEN,
    ensures
        state_bytes(stored_admin(bytes), stored_amount(bytes)) == bytes,
{
    lemma_u64_le_encode_decode(bytes.subrange(32, 40));
    assert(state_bytes(stored_admin(bytes), stored_amount(bytes)) =~= bytes);
}

/// Writes `state` at the start of `out` with borsh (`BorshSerialize::serialize` of the
/// admin's `solana_program::pubkey::Pubkey` and the amount, into the slice `&mut out[..]`),
/// as the faucet state's derived serializer lays it out: the admin's bytes, then the
/// amount's little-endian bytes. The slice writer copies as many bytes as fit and fails
/// when the slice is full before the end, so `out` receives the longest prefix of the
/// encoding that fits, and the call succeeds exactly when all of it fits. The error's
/// text (the slice writer's message) is not stated.
#[verifier::external_body]
pub(crate) fn borsh_write_state(state: &FaucetState, out: &mut Vec<u8>) -> (r: Result<(), String>)
    ensures
        final(out)@.len() == old(out)@.len(),
        r is Ok <==> old(out)@.len() >= FAUCET_STATE_LEN,
        old(out)@.len() >= FAUCET_STATE_LEN ==> final(out)@ == state.encoded() + old(out)@.skip(
            FAUCET_STATE_LEN as int,
        ),
        old(out)@.len() < FAUCET_STATE_LEN ==> final(out)@ == state.encoded().take(
            old(out)@.len() as int,
        ),
{
    let admin = solana_program::pubkey::Pubkey::new_from_array(state.admin.0);
    match (admin, state.amount).serialize(&mut &mut out[..]) {
        Ok(()) => Ok(()),
        Err(e) => Err(format!("{}", e)),
    }
}

/// The message of the error with which borsh refuses stored state of `len` bytes:
/// reading ends early when there are fewer than forty, and bytes are left unread when
/// there are more.
pub open spec fn state_read_error(len: nat) -> Seq<char> {
    if len < FAUCET_STATE_LEN {
        "Unexpected length of input"@
    } else {
        "Not all bytes read"@
    }
}

/// Reads a state from `data` with borsh (`BorshDeserialize::try_from_slice` of a
/// `solana_program::pubkey::Pubkey` followed by a `u64`, the faucet state's field
/// layout). It succeeds exactly when `data` is forty bytes long: fewer bytes end the
/// input early, more are left unread; then the admin is the first 32 bytes and the
/// amount the little-endian value of the last eight. Otherwise the error's text is
/// borsh's message for the case (`ERROR_UNEXPECTED_LENGTH_OF_INPUT`, to which a short
/// read is mapped, or `ERROR_NOT_ALL_BYTES_READ`), which the I/O error it is wrapped in
/// displays as it is.
#[verifier::external_body]
pub(crate) fn borsh_read_state(data: &[u8]) -> (r: Result<FaucetState, String>)
    ensures
        r is Ok <==> data@.len() == FAUCET_STATE_LEN,
        r matches Ok(s) ==> s.admin@ == stored_admin(data@) && s.amount == stored_amount(data@),
        r matches Err(m) ==> m@ == state_read_error(data@.len()),
{
    match <(solana_program::pubkey::Pubkey, u64)>::try_from_slice(data) {
        Ok((admin, amount)) => Ok(FaucetState { admin: Pubkey(admin.to_bytes()), amount }),
        Err(e) => Err(format!("{}", e)),
    }
}

} // verus!
