use anchor_lang::solana_program::pubkey::Pubkey;
use vstd::prelude::*;

use crate::state::ErrorCode;

verus! {

/// A 32-byte account address (an owner key, a program id or a derived address).
#[derive(Debug, Clone, Copy, PartialEq, Eq)]
pub struct Address {
    pub bytes: [u8; 32],
}

impl View for Address {
    type V = Seq<u8>;

    open spec fn view(&self) -> Seq<u8> {
        self.bytes@
    }
}

/// The seed tag of an owner's state record: the bytes of "state".
pub open spec fn state_seed_tag() -> Seq<u8> {
    seq![115u8, 116u8, 97u8, 116u8, 101u8]
}

/// The seed tag of an owner's vault account: the bytes of "vault".
pub open spec fn vault_seed_tag() -> Seq<u8> {
    seq![118u8, 97u8, 117u8, 108u8, 116u8]
}

/// The seed list `[tag, key, [bump]]` from which a derived address is hashed.
pub open spec fn pda_seeds(tag: Seq<u8>, key: Seq<u8>, bump: u8) -> Seq<Seq<u8>> {
    seq![tag, key, seq![bump]]
}

/// The program-derived address of `seeds` under `program`, or `None` where the
/// hash of the seeds lies on the curve and so is no valid derived address.
pub uninterp spec fn program_address_of(seeds: Seq<Seq<u8>>, program: Seq<u8>) -> Option<Seq<u8>>;

/// The first bump, counting down from `bump` to 1, for which `[tag, key, [bump]]`
/// gives a valid derived address, with that address.
pub open spec fn canonical_from(tag: Seq<u8>, key: Seq<u8>, program: Seq<u8>, bump: int) -> Option<
    (Seq<u8>, u8),
>
    decreases bump,
{
    if bump < 1 {
        None
    } else {
        match program_address_of(pda_seeds(tag, key, bump as u8), program) {
            Some(a) => Some((a, bump as u8)),
            None => canonical_from(tag, key, program, bump - 1),
        }
    }
}

/// The canonical derivation of `(tag, key)` under `program`: the highest bump
/// that gives a valid derived address, and that address.
pub open spec fn canonical_derivation(tag: Seq<u8>, key: Seq<u8>, program: Seq<u8>) -> Option<
    (Seq<u8>, u8),
> {
    canonical_from(tag, key, program, 255)
}

/// Relies on `Pubkey::create_program_address` (solana-program, re-exported by
/// anchor_lang): with at most 16 seeds of at most 32 bytes each, it returns the
/// derived address, or `InvalidSeeds` when the hash lies on the curve.
#[verifier::external_body]
fn create_address(tag: &[u8], key: &[u8; 32], bump: u8, program: &[u8; 32]) -> (r: Option<
    [u8; 32],
>)
    requires
        tag@.len() <= 32,
    ensures
        r matches Some(a) ==> program_address_of(pda_seeds(tag@, key@, bump), program@) == Some(
            a@,
        ),
        r is None ==> program_address_of(pda_seeds(tag@, key@, bump), program@) is None,
{
    let program_id = Pubkey::new_from_array(*program);
    match Pubkey::create_program_address(&[tag, key, &[bump]], &program_id) {
        Ok(a) => Some(a.to_bytes()),
        Err(_) => None,
    }
}

/// Relies on `Pubkey::try_find_program_address` (solana-program, re-exported by
/// anchor_lang): off-chain it tries the bumps from 255 down to 1 with
/// `create_program_address` and returns the first address found, with its bump.
#[verifier::external_body]
fn find_address(tag: &[u8], key: &[u8; 32], program: &[u8; 32]) -> (r: Option<([u8; 32], u8)>)
    requires
        tag@.len() <= 32,
    ensures
        r matches Some(p) ==> canonical_derivation(tag@, key@, program@) == Some((p.0@, p.1)),
        r is None ==> canonical_derivation(tag@, key@, program@) is None,
{
    let program_id = Pubkey::new_from_array(*program);
    match Pubkey::try_find_program_address(&[tag, key], &program_id) {
        Some((a, b)) => Some((a.to_bytes(), b)),
        None => None,
    }
}

/// The bytes of "state", the seed tag of a state record.
pub fn state_tag() -> (r: Vec<u8>)
    ensures
        r@ == state_seed_tag(),
{
    let mut t: Vec<u8> = Vec::new();
    t.push(115);
    t.push(116);
    t.push(97);
    t.push(116);
    t.push(101);
    assert(t@ =~= state_seed_tag());
    t
}

/// The bytes of "vault", the seed tag of a vault account.
pub fn vault_tag() -> (r: Vec<u8>)
    ensures
        r@ == vault_seed_tag(),
{
    let mut t: Vec<u8> = Vec::new();
    t.push(118);
    t.push(97);
    t.push(117);
    t.push(108);
    t.push(116);
    assert(t@ =~= vault_seed_tag());
    t
}

/// Whether two addresses are the same bytes.
pub fn same_address(a: &Address, b: &Address) -> (r: bool)
    ensures
        r == (a@ == b@),
{
    let mut i: usize = 0;
    while i < 32
        invariant
            i <= 32,
            a@.len() == 32,
            b@.len() == 32,
            forall|j: int| 0 <= j < i ==> a@[j] == b@[j],
        decreases 32 - i,
    {
        if a.bytes[i] != b.bytes[i] {
            return false;
        }
        i = i + 1;
    }
    assert(a@ =~= b@);
    true
}

/// Derives the address of `(tag, seed)` under `program`, with its proof byte
/// (the bump): the canonical derivation, or `None` where no bump gives one.
pub fn derive_address(tag: &[u8], seed: &Address, program: &Address) -> (r: Option<(Address, u8)>)
    requires
        tag@.len() <= 32,
    ensures
        r matches Some(p) ==> canonical_derivation(tag@, seed@, program@) == Some((p.0@, p.1)),
        r is None ==> canonical_derivation(tag@, seed@, program@) is None,
{
    match find_address(tag, &seed.bytes, &program.bytes) {
        Some((a, b)) => Some((Address { bytes: a }, b)),
        None => None,
    }
}

/// Re-derives the address of `(tag, seed)` with the stored proof byte `proof`.
pub fn rederive(tag: &[u8], seed: &Address, proof: u8, program: &Address) -> (r: Option<Address>)
    requires
        tag@.len() <= 32,
    ensures
        r matches Some(a) ==> program_address_of(pda_seeds(tag@, seed@, proof), program@) == Some(
            a@,
        ),
        r is None ==> program_address_of(pda_seeds(tag@, seed@, proof), program@) is None,
{
    match create_address(tag, &seed.bytes, proof, &program.bytes) {
        Some(a) => Some(Address { bytes: a }),
        None => None,
    }
}

/// Checks that `expected` is the address that `(tag, seed)` derives with the
/// stored proof byte `proof`.
pub fn check_derivation(tag: &[u8], seed: &Address, proof: u8, program: &Address, expected: &Address) -> (r:
    Result<(), ErrorCode>)
    requires
        tag@.len() <= 32,
    ensures
        r is Ok <==> program_address_of(pda_seeds(tag@, seed@, proof), program@) == Some(expected@),
        r is Err ==> r == Err::<(), ErrorCode>(ErrorCode::AddressMismatch),
{
    match rederive(tag, seed, proof, program) {
        Some(a) => {
            if same_address(&a, expected) {
                Ok(())
            } else {
                Err(ErrorCode::AddressMismatch)
            }
        },
        None => Err(ErrorCode::AddressMismatch),
    }
}

} // verus!
