//! The accounts that an instruction is given, as plain values.
//!
//! The runtime may pass one account at several positions; such entries share a
//! key, and a write to the account is a write to every entry with its key.
use vstd::prelude::*;
use crate::pubkey::Pubkey;

verus! {

/// An account as the program sees it.
#[derive(Clone, Debug)]
pub struct Account {
    /// The account's address.
    pub key: Pubkey,
    /// The program that owns the account.
    pub owner: Pubkey,
    /// The account's balance.
    pub lamports: u64,
    /// The account's data.
    pub data: Vec<u8>,
    /// Whether the transaction was signed by the account's key.
    pub is_signer: bool,
    /// Whether the account may be written.
    pub is_writable: bool,
}

/// `new` is `old` with the lamports of every entry keyed `key` set to `value`.
pub open spec fn lamports_written(old: Seq<Account>, new: Seq<Account>, key: Seq<u8>, value: u64) -> bool {
    &&& new.len() == old.len()
    &&& forall|i: int|
        #![trigger new[i]]
        0 <= i < old.len() ==> {
            &&& new[i].key == old[i].key
            &&& new[i].owner == old[i].owner
            &&& new[i].data@ == old[i].data@
            &&& new[i].is_signer == old[i].is_signer
            &&& new[i].is_writable == old[i].is_writable
            &&& new[i].lamports == (if old[i].key@ == key { value } else { old[i].lamports })
        }
}

/// `new` is `old` with the data of every entry keyed `key` set to `data`.
pub open spec fn data_written(old: Seq<Account>, new: Seq<Account>, key: Seq<u8>, data: Seq<u8>) -> bool {
    &&& new.len() == old.len()
    &&& forall|i: int|
        #![trigger new[i]]
        0 <= i < old.len() ==> {
            &&& new[i].key == old[i].key
            &&& new[i].owner == old[i].owner
            &&& new[i].lamports == old[i].lamports
            &&& new[i].is_signer == old[i].is_signer
            &&& new[i].is_writable == old[i].is_writable
            &&& new[i].data@ == (if old[i].key@ == key { data } else { old[i].data@ })
        }
}

/// `new` holds the same accounts as `old`.
pub open spec fn accounts_unchanged(old: Seq<Account>, new: Seq<Account>) -> bool {
    &&& new.len() == old.len()
    &&& forall|i: int|
        #![trigger new[i]]
        0 <= i < old.len() ==> {
            &&& new[i].key == old[i].key
            &&& new[i].owner == old[i].owner
            &&& new[i].lamports == old[i].lamports
            &&& new[i].data@ == old[i].data@
            &&& new[i].is_signer == old[i].is_signer
            &&& new[i].is_writable == old[i].is_writable
        }
}

/// The balance of the account keyed `key` after `lamports_written`, as seen
/// through the entry at `i`.
pub open spec fn lamports_after(accounts: Seq<Account>, i: int, key: Seq<u8>, value: u64) -> u64 {
    if accounts[i].key@ == key { value } else { accounts[i].lamports }
}

/// Sets the balance of the account keyed `key`, at every position where it stands.
pub fn write_lamports(accounts: &mut Vec<Account>, key: &Pubkey, value: u64)
    ensures
        lamports_written(old(accounts)@, final(accounts)@, key@, value),
{
    let n: usize = accounts.len();
    let mut i: usize = 0;
    while i < n
        invariant
            n == old(accounts)@.len(),
            i <= n,
            accounts@.len() == n,
            forall|j: int|
                #![trigger accounts@[j]]
                0 <= j < n ==> {
                    &&& accounts@[j].key == old(accounts)@[j].key
                    &&& accounts@[j].owner == old(accounts)@[j].owner
                    &&& accounts@[j].data@ == old(accounts)@[j].data@
                    &&& accounts@[j].is_signer == old(accounts)@[j].is_signer
                    &&& accounts@[j].is_writable == old(accounts)@[j].is_writable
                    &&& accounts@[j].lamports == (if j < i && old(accounts)@[j].key@ == key@ {
                        value
                    } else {
                        old(accounts)@[j].lamports
                    })
                },
        decreases n - i,
    {
        if accounts[i].key == *key {
            accounts[i].lamports = value;
        }
        i = i + 1;
    }
}

/// Copies the bytes of `src` into a new vector.
fn copy_bytes(src: &Vec<u8>) -> (r: Vec<u8>)
    ensures
        r@ == src@,
{
    let mut r: Vec<u8> = Vec::with_capacity(src.len());
    let mut i: usize = 0;
    while i < src.len()
        invariant
            i <= src@.len(),
            r@ == src@.take(i as int),
        decreases src@.len() - i,
    {
        r.push(src[i]);
        i = i + 1;
        assert(r@ =~= src@.take(i as int));
    }
    assert(src@.take(src@.len() as int) =~= src@);
    r
}

/// Gives every entry that shares the key of the entry at `at` the data of that entry.
pub fn spread_data(accounts: &mut Vec<Account>, at: usize)
    requires
        at < old(accounts)@.len(),
    ensures
        data_written(old(accounts)@, final(accounts)@, old(accounts)@[at as int].key@,
            old(accounts)@[at as int].data@),
{
    let n: usize = accounts.len();
    let ghost key = accounts@[at as int].key@;
    let ghost data = accounts@[at as int].data@;
    let source = copy_bytes(&accounts[at].data);
    let k = accounts[at].key;
    let mut i: usize = 0;
    while i < n
        invariant
            n == old(accounts)@.len(),
            i <= n,
            accounts@.len() == n,
            k@ == key,
            source@ == data,
            key == old(accounts)@[at as int].key@,
            data == old(accounts)@[at as int].data@,
            forall|j: int|
                #![trigger accounts@[j]]
                0 <= j < n ==> {
                    &&& accounts@[j].key == old(accounts)@[j].key
                    &&& accounts@[j].owner == old(accounts)@[j].owner
                    &&& accounts@[j].lamports == old(accounts)@[j].lamports
                    &&& accounts@[j].is_signer == old(accounts)@[j].is_signer
                    &&& accounts@[j].is_writable == old(accounts)@[j].is_writable
                    &&& accounts@[j].data@ == (if j < i && old(accounts)@[j].key@ == key {
                        data
                    } else {
                        old(accounts)@[j].data@
                    })
                },
        decreases n - i,
    {
        if accounts[i].key == k {
            accounts[i].data = copy_bytes(&source);
        }
        i = i + 1;
    }
}

} // verus!
