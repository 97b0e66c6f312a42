//! Fixed-size and variable-length fields as they cross the boundary:
//! 32-byte ids, little-endian 64-bit integers, and the account record
//! assembled from them.

use vstd::bytes::{spec_u64_from_le_bytes, spec_u64_to_le_bytes, u64_from_le_bytes};
use vstd::prelude::*;

verus! {

/// A 32-byte account id (an address or an owner).
pub type Address = [u8; 32];

/// The state of one account as the test driver seeds it.
#[derive(Debug)]
pub struct AccountRecord {
    pub lamports: u64,
    pub data: Vec<u8>,
    pub owner: Address,
    pub executable: bool,
    pub rent_epoch: u64,
}

/// Mathematical view of an [`AccountRecord`].
pub struct AccountView {
    pub lamports: u64,
    pub data: Seq<u8>,
    pub owner: Seq<u8>,
    pub executable: bool,
    pub rent_epoch: u64,
}

impl View for AccountRecord {
    type V = AccountView;

    open spec fn view(&self) -> AccountView {
        AccountView {
            lamports: self.lamports,
            data: self.data@,
            owner: self.owner@,
            executable: self.executable,
            rent_epoch: self.rent_epoch,
        }
    }
}

/// The record that the boundary fields denote: integers little-endian,
/// the flag set by any non-zero byte.
pub open spec fn decoded_record(
    lamports: Seq<u8>,
    data: Seq<u8>,
    owner: Seq<u8>,
    executable: u8,
    rent_epoch: Seq<u8>,
) -> AccountView {
    AccountView {
        lamports: spec_u64_from_le_bytes(lamports),
        data: data,
        owner: owner,
        executable: executable != 0,
        rent_epoch: spec_u64_from_le_bytes(rent_epoch),
    }
}

/// Reads a 32-byte id.
fn read_pubkey(p: &[u8]) -> (r: Address)
    requires
        p@.len() == 32,
    ensures
        r@ == p@,
{
    let mut a: Address = [0u8; 32];
    let mut i: usize = 0;
    while i < 32
        invariant
            p@.len() == 32,
            0 <= i <= 32,
            forall|j: int| 0 <= j < i ==> a@[j] == p@[j],
        decreases 32 - i,
    {
        a[i] = p[i];
        i = i + 1;
    }
    assert(a@ =~= p@);
    a
}

/// Copies a byte buffer.
fn read_bytes(p: &[u8]) -> (r: Vec<u8>)
    ensures
        r@ == p@,
{
    let mut v: Vec<u8> = Vec::with_capacity(p.len());
    let mut i: usize = 0;
    while i < p.len()
        invariant
            0 <= i <= p@.len(),
            v@ == p@.subrange(0, i as int),
        decreases p@.len() - i,
    {
        v.push(p[i]);
        i = i + 1;
    }
    assert(p@.subrange(0, p@.len() as int) =~= p@);
    v
}

/// Reads a little-endian 64-bit integer.
fn read_u64(p: &[u8]) -> (r: u64)
    requires
        p@.len() == 8,
    ensures
        r == spec_u64_from_le_bytes(p@),
{
    u64_from_le_bytes(p)
}

/// Decodes the fields of an account handed over the boundary into its
/// address and record. The data bytes are copied.
pub fn account_from_fields(
    address: &[u8],
    lamports: &[u8],
    data: &[u8],
    owner: &[u8],
    executable: u8,
    rent_epoch: &[u8],
) -> (r: (Address, AccountRecord))
    requires
        address@.len() == 32,
        lamports@.len() == 8,
        owner@.len() == 32,
        rent_epoch@.len() == 8,
    ensures
        r.0@ == address@,
        r.1@ == decoded_record(lamports@, data@, owner@, executable, rent_epoch@),
{
    let record = AccountRecord {
        lamports: read_u64(lamports),
        data: read_bytes(data),
        owner: read_pubkey(owner),
        executable: executable != 0,
        rent_epoch: read_u64(rent_epoch),
    };
    (read_pubkey(address), record)
}

/// Encoding a record's fields for the boundary (integers little-endian, the
/// flag as 0 or 1) and decoding them again gives back an equal record:
/// balance, data, owner, flag and rent epoch all exact.
pub proof fn lemma_account_fields_round_trip(rec: AccountView)
    requires
        rec.owner.len() == 32,
    ensures
        decoded_record(
            spec_u64_to_le_bytes(rec.lamports),
            rec.data,
            rec.owner,
            if rec.executable { 1u8 } else { 0u8 },
            spec_u64_to_le_bytes(rec.rent_epoch),
        ) == rec,
{
    vstd::bytes::lemma_auto_spec_u64_to_from_le_bytes();
}

} // verus!
