use vstd::prelude::*;
use vstd::utf8::encode_utf8;
use anchor_lang::prelude::Pubkey;
use crate::error::LedgerError;

verus! {

/// A 32-byte identity or storage address.
pub type Address = [u8; 32];

/// The most bytes that one seed of an address may hold.
pub const MAX_SEED_LEN: usize = 32;

/// The namespace tag that precedes the identifier among the seeds of a record's
/// address: the ASCII bytes of `transaction`.
pub open spec fn record_seed() -> Seq<u8> {
    seq![116u8, 114u8, 97u8, 110u8, 115u8, 97u8, 99u8, 116u8, 105u8, 111u8, 110u8]
}

/// The bytes of a transaction identifier as they enter the derivation.
pub open spec fn id_bytes(transaction_id: Seq<char>) -> Seq<u8> {
    encode_utf8(transaction_id)
}

/// What `Pubkey::try_find_program_address` of solana-program returns for the
/// two seeds `tag` and `key` under the program `program`: the program address
/// with its bump, or `None` where the search finds none. Nothing more is
/// claimed of it than that it depends on these three alone.
pub uninterp spec fn program_address(tag: Seq<u8>, key: Seq<u8>, program: Seq<u8>) -> Option<(Seq<u8>, u8)>;

/// Where a record is stored, and the bump that made the address valid.
#[derive(Clone, Copy, Debug)]
pub struct RecordHandle {
    pub address: Address,
    pub bump: u8,
}

/// The outcome of an address search as plain sequences.
pub open spec fn search_view(found: Option<(Address, u8)>) -> Option<(Seq<u8>, u8)> {
    match found {
        Some((address, bump)) => Some((address@, bump)),
        None => None,
    }
}

/// What the derivation yields for an identifier of `key_len` bytes, given the
/// outcome of the address search on them.
pub open spec fn spec_resolve(key_len: nat, found: Option<(Seq<u8>, u8)>) -> Result<(Seq<u8>, u8), LedgerError> {
    if key_len == 0 || key_len > MAX_SEED_LEN {
        Err(LedgerError::AddressDerivation)
    } else {
        match found {
            Some(slot) => Ok(slot),
            None => Err(LedgerError::AddressDerivation),
        }
    }
}

/// The address of the record of `transaction_id` under `program`, with its bump.
/// It depends on nothing but these two.
pub open spec fn spec_record_address(program: Seq<u8>, transaction_id: Seq<char>) -> Result<(Seq<u8>, u8), LedgerError> {
    spec_resolve(
        id_bytes(transaction_id).len(),
        program_address(record_seed(), id_bytes(transaction_id), program),
    )
}

/// A handle as plain values.
pub open spec fn handle_view(handle: RecordHandle) -> (Seq<u8>, u8) {
    (handle.address@, handle.bump)
}

/// Calls `Pubkey::try_find_program_address` of solana-program with the seeds
/// `tag` and `key`. The contract claims only that what comes back is the value
/// that `program_address` names for these arguments: the search hashes its
/// arguments and nothing else.
#[verifier::external_body]
fn find_program_address(tag: &[u8], key: &[u8], program: &Address) -> (found: Option<(Address, u8)>)
    ensures
        search_view(found) == program_address(tag@, key@, program@),
{
    let program_key = Pubkey::new_from_array(*program);
    match Pubkey::try_find_program_address(&[tag, key], &program_key) {
        Some((address, bump)) => Some((address.to_bytes(), bump)),
        None => None,
    }
}

/// The namespace tag as bytes.
pub fn record_seed_bytes() -> (tag: [u8; 11])
    ensures
        tag@ == record_seed(),
{
    let tag: [u8; 11] = [116u8, 114u8, 97u8, 110u8, 115u8, 97u8, 99u8, 116u8, 105u8, 111u8, 110u8];
    assert(tag@ =~= record_seed());
    tag
}

/// Whether two addresses hold the same bytes.
pub fn same_address(a: &Address, b: &Address) -> (same: bool)
    ensures
        same == (a@ == b@),
{
    let mut i: usize = 0;
    while i < 32
        invariant
            i <= 32,
            forall|j: int| 0 <= j < i ==> a@[j] == b@[j],
        decreases 32 - i,
    {
        if a[i] != b[i] {
            return false;
        }
        i += 1;
    }
    assert(a@ =~= b@);
    true
}

/// Decides the derivation from the length of the identifier in bytes and the
/// outcome of the address search on it.
pub fn resolve_address(key_len: usize, found: Option<(Address, u8)>) -> (r: Result<RecordHandle, LedgerError>)
    ensures
        match r {
            Ok(handle) => spec_resolve(key_len as nat, search_view(found)) == Ok::<_, LedgerError>(handle_view(handle)),
            Err(e) => spec_resolve(key_len as nat, search_view(found)) == Err::<(Seq<u8>, u8), _>(e),
        },
{
    if key_len == 0 || key_len > MAX_SEED_LEN {
        return Err(LedgerError::AddressDerivation);
    }
    match found {
        Some((address, bump)) => Ok(RecordHandle { address, bump }),
        None => Err(LedgerError::AddressDerivation),
    }
}

/// Searches the address of the record of `transaction_id` under `program`,
/// with the namespace tag and the identifier's bytes as the two seeds.
pub(crate) fn search_record_address(program: &Address, transaction_id: &str) -> (found: Option<(Address, u8)>)
    ensures
        search_view(found) == program_address(record_seed(), id_bytes(transaction_id@), program@),
{
    let tag = record_seed_bytes();
    find_program_address(tag.as_slice(), transaction_id.as_bytes(), program)
}

/// Derives the storage address of the record of `transaction_id` under the
/// program `program`. Fails on an empty identifier, on one of more than
/// `MAX_SEED_LEN` bytes, and where the search finds no address.
pub fn derive_address(program: &Address, transaction_id: &str) -> (r: Result<RecordHandle, LedgerError>)
    ensures
        match r {
            Ok(handle) => spec_record_address(program@, transaction_id@) == Ok::<_, LedgerError>(handle_view(handle)),
            Err(e) => spec_record_address(program@, transaction_id@) == Err::<(Seq<u8>, u8), _>(e),
        },
{
    let found = search_record_address(program, transaction_id);
    resolve_address(transaction_id.as_bytes().len(), found)
}

/// Equal identifiers derive equal addresses, whoever asks and whenever.
pub proof fn lemma_derivation_is_deterministic(program: Seq<u8>, first: Seq<char>, second: Seq<char>)
    requires
        first == second,
    ensures
        spec_record_address(program, first) == spec_record_address(program, second),
{
}

} // verus!
