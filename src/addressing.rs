//! Where a depositor's escrow slot lives: a program-derived address computed
//! from a fixed domain tag and the depositor's key.

use anchor_lang::solana_program::pubkey::Pubkey;
use vstd::prelude::*;
use vstd::string::StringSliceAdditionalSpecFns;

verus! {

/// The domain tag that, with the depositor's key, seeds the slot address.
pub const DATA_ACCOUNT_SEED: &'static str = "data_account";

/// The program-derived address found from the seeds `tag` and `depositor` under
/// `program_id`, with its bump, or `None` where no bump gives an address off
/// the curve.
pub uninterp spec fn program_address(tag: Seq<u8>, depositor: Seq<u8>, program_id: Seq<u8>) -> Option<(Seq<u8>, u8)>;

/// Relies on `Pubkey::try_find_program_address`: a deterministic search, from
/// bump 255 down, for the first address of the seeds `[tag, depositor, bump]`
/// that is not a valid public key; `None` where none is found.
#[verifier::external_body]
fn find_program_address(tag: &[u8], depositor: &[u8; 32], program_id: &[u8; 32]) -> (r: Option<([u8; 32], u8)>)
    ensures
        program_address(tag@, depositor@, program_id@) == (match r {
            Some(p) => Some((p.0@, p.1)),
            None => None::<(Seq<u8>, u8)>,
        }),
{
    Pubkey::try_find_program_address(&[tag, depositor.as_slice()], &Pubkey::new_from_array(*program_id))
        .map(|(key, bump)| (key.to_bytes(), bump))
}

/// The address of the escrow slot of `depositor` under `program_id`, with its
/// bump; `None` where the derivation finds no address.
pub open spec fn spec_data_account_address(depositor: Seq<u8>, program_id: Seq<u8>) -> Option<(Seq<u8>, u8)> {
    program_address(DATA_ACCOUNT_SEED.spec_bytes(), depositor, program_id)
}

/// Whether two keys are the same 32 bytes.
pub fn same_key(a: &[u8; 32], b: &[u8; 32]) -> (r: bool)
    ensures
        r == (a@ == b@),
{
    let mut i: usize = 0;
    while i < 32
        invariant
            0 <= i <= 32,
            a@.len() == 32,
            b@.len() == 32,
            a@.subrange(0, i as int) == b@.subrange(0, i as int),
        decreases 32 - i,
    {
        if a[i] != b[i] {
            assert(a@[i as int] != b@[i as int]);
            return false;
        }
        assert(a@.subrange(0, i + 1) == a@.subrange(0, i as int).push(a@[i as int]));
        assert(b@.subrange(0, i + 1) == b@.subrange(0, i as int).push(b@[i as int]));
        i = i + 1;
    }
    assert(a@ == a@.subrange(0, 32));
    assert(b@ == b@.subrange(0, 32));
    true
}

/// The address of the escrow slot of `depositor` under `program_id`, with its
/// bump, or `None` where the derivation finds no address.
pub fn data_account_address(depositor: &[u8; 32], program_id: &[u8; 32]) -> (r: Option<([u8; 32], u8)>)
    ensures
        spec_data_account_address(depositor@, program_id@) == (match r {
            Some(p) => Some((p.0@, p.1)),
            None => None::<(Seq<u8>, u8)>,
        }),
{
    find_program_address(DATA_ACCOUNT_SEED.as_bytes(), depositor, program_id)
}

/// Whether `address` is the escrow slot of `depositor` under `program_id`.
pub fn is_data_account_of(address: &[u8; 32], depositor: &[u8; 32], program_id: &[u8; 32]) -> (r: bool)
    ensures
        r == (match spec_data_account_address(depositor@, program_id@) {
            Some(p) => p.0 == address@,
            None => false,
        }),
{
    match data_account_address(depositor, program_id) {
        Some(p) => same_key(&p.0, address),
        None => false,
    }
}

} // verus!
