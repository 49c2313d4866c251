use vstd::prelude::*;

use crate::key::Key;

verus! {

/// The address that `Pubkey::create_program_address` derives from the seeds
/// `[prefix, mint, [bump]]` under `program`, or `None` where it refuses them.
pub uninterp spec fn program_address(prefix: Seq<u8>, mint: Seq<u8>, bump: u8, program: Seq<u8>) -> Option<Seq<u8>>;

/// `bump` is the canonical bump seed: the largest non-zero bump that derives
/// an address.
pub open spec fn is_canonical_bump(prefix: Seq<u8>, mint: Seq<u8>, program: Seq<u8>, bump: u8) -> bool {
    &&& 1 <= bump
    &&& program_address(prefix, mint, bump, program) is Some
    &&& forall|c: u8| bump < c ==> (#[trigger] program_address(prefix, mint, c, program)) is None
}

/// Some non-zero bump derives an address.
pub open spec fn has_canonical_bump(prefix: Seq<u8>, mint: Seq<u8>, program: Seq<u8>) -> bool {
    exists|b: u8| is_canonical_bump(prefix, mint, program, b)
}

/// The canonical bump seed, where there is one.
pub open spec fn canonical_bump(prefix: Seq<u8>, mint: Seq<u8>, program: Seq<u8>) -> u8 {
    choose|b: u8| is_canonical_bump(prefix, mint, program, b)
}

/// The address derived with the canonical bump seed.
pub open spec fn canonical_address(prefix: Seq<u8>, mint: Seq<u8>, program: Seq<u8>) -> Seq<u8> {
    program_address(prefix, mint, canonical_bump(prefix, mint, program), program)->Some_0
}

/// There is at most one canonical bump seed.
pub proof fn lemma_canonical_bump_unique(prefix: Seq<u8>, mint: Seq<u8>, program: Seq<u8>, b1: u8, b2: u8)
    requires
        is_canonical_bump(prefix, mint, program, b1),
        is_canonical_bump(prefix, mint, program, b2),
    ensures
        b1 == b2,
{
    if b1 < b2 {
        assert(program_address(prefix, mint, b2, program) is None);
    } else if b2 < b1 {
        assert(program_address(prefix, mint, b1, program) is None);
    }
}

/// A canonical bump is the one that `canonical_bump` picks.
pub proof fn lemma_canonical_bump_is_chosen(prefix: Seq<u8>, mint: Seq<u8>, program: Seq<u8>, b: u8)
    requires
        is_canonical_bump(prefix, mint, program, b),
    ensures
        has_canonical_bump(prefix, mint, program),
        canonical_bump(prefix, mint, program) == b,
        program_address(prefix, mint, b, program) == Some(canonical_address(prefix, mint, program)),
{
    let c = canonical_bump(prefix, mint, program);
    assert(is_canonical_bump(prefix, mint, program, c));
    lemma_canonical_bump_unique(prefix, mint, program, b, c);
}

/// Relies on `Pubkey::create_program_address` (solana-program, re-exported by
/// anchor-lang): it hashes the seeds `[prefix, mint, [bump]]` with the program
/// id and returns the address, or an error where the hash lies on the curve or
/// a seed is too long.
#[verifier::external_body]
pub(crate) fn create_program_address(prefix: &[u8], mint: &Key, bump: u8, program: &Key) -> (r: Option<Key>)
    ensures
        match r {
            Some(k) => program_address(prefix@, mint@, bump, program@) == Some(k@),
            None => program_address(prefix@, mint@, bump, program@) is None,
        },
{
    let program_id = anchor_lang::prelude::Pubkey::new_from_array(program.bytes);
    match anchor_lang::prelude::Pubkey::create_program_address(&[prefix, &mint.bytes, &[bump]], &program_id) {
        Ok(address) => Some(Key { bytes: address.to_bytes() }),
        Err(_) => None,
    }
}

/// Relies on `Pubkey::try_find_program_address` (solana-program, re-exported
/// by anchor-lang): off-chain it tries the bumps from 255 down to 1 with
/// `create_program_address` on `[prefix, mint, [bump]]` and returns the first
/// address found with its bump, or `None` where none is found.
#[verifier::external_body]
pub(crate) fn find_program_address(prefix: &[u8], mint: &Key, program: &Key) -> (r: Option<(Key, u8)>)
    ensures
        match r {
            Some((k, b)) => {
                &&& is_canonical_bump(prefix@, mint@, program@, b)
                &&& program_address(prefix@, mint@, b, program@) == Some(k@)
            },
            None => forall|b: u8| 1 <= b ==> (#[trigger] program_address(prefix@, mint@, b, program@)) is None,
        },
{
    let program_id = anchor_lang::prelude::Pubkey::new_from_array(program.bytes);
    match anchor_lang::prelude::Pubkey::try_find_program_address(&[prefix, &mint.bytes], &program_id) {
        Some((address, bump)) => Some((Key { bytes: address.to_bytes() }, bump)),
        None => None,
    }
}

} // verus!
