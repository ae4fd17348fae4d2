//! Address derivation: maps a namespace tag and (for per-user records) an
//! owner identity to a unique record address plus a correctness code (the
//! "bump"), and re-verifies stored records against their derived address.

use vstd::prelude::*;

use crate::errors::SolCreatorError;

use anchor_lang::solana_program::pubkey::Pubkey;

verus! {

broadcast use vstd::array::group_array_axioms;

/// A 32-byte identity or record address.
pub type AccountId = [u8; 32];

/// What `Pubkey::try_find_program_address` returns for the given seeds:
/// the derived address and its bump, a pure function of seeds and program id.
pub uninterp spec fn pda_of(seeds: Seq<Seq<u8>>, program_id: Seq<u8>) -> Option<(Seq<u8>, u8)>;

/// What `Pubkey::create_program_address` returns for the given seeds (the
/// bump seed included), a pure function of seeds and program id.
pub uninterp spec fn pda_create(seeds: Seq<Seq<u8>>, program_id: Seq<u8>) -> Option<Seq<u8>>;

/// The namespace tag of the singleton global record: `"global_state"`.
pub open spec fn global_tag() -> Seq<u8> {
    seq![103u8, 108u8, 111u8, 98u8, 97u8, 108u8, 95u8, 115u8, 116u8, 97u8, 116u8, 101u8]
}

/// The namespace tag of per-user records: `"user_state"`.
pub open spec fn user_tag() -> Seq<u8> {
    seq![117u8, 115u8, 101u8, 114u8, 95u8, 115u8, 116u8, 97u8, 116u8, 101u8]
}

/// The seed list that addresses the global record.
pub open spec fn global_seeds() -> Seq<Seq<u8>> {
    seq![global_tag()]
}

/// The seed list that addresses the record owned by `owner`.
pub open spec fn user_seeds(owner: Seq<u8>) -> Seq<Seq<u8>> {
    seq![user_tag(), owner]
}

/// A seed list extended with its bump seed, as re-verification derives it.
pub open spec fn with_bump(seeds: Seq<Seq<u8>>, bump: u8) -> Seq<Seq<u8>> {
    seeds.push(seq![bump])
}

/// Relies on `Pubkey::try_find_program_address` of anchor_lang's re-exported
/// Solana address type: searches for the derived address and bump of the
/// given seeds, deterministically from the seeds and program id alone; a
/// found pair re-derives through `create_program_address` with the bump
/// seed appended.
#[verifier::external_body]
fn find_program_address(seeds: &Vec<Vec<u8>>, program_id: &AccountId) -> (r: Option<(
    AccountId,
    u8,
)>)
    ensures
        match r {
            Some(p) => pda_of(seeds@.map_values(|s: Vec<u8>| s@), program_id@) == Some(
                (p.0@, p.1),
            ) && pda_create(
                with_bump(seeds@.map_values(|s: Vec<u8>| s@), p.1),
                program_id@,
            ) == Some(p.0@),
            None => pda_of(seeds@.map_values(|s: Vec<u8>| s@), program_id@) is None,
        },
{
    let refs: Vec<&[u8]> = seeds.iter().map(|s| s.as_slice()).collect();
    let pid = Pubkey::new_from_array(*program_id);
    Pubkey::try_find_program_address(&refs, &pid).map(|(a, b)| (a.to_bytes(), b))
}

/// Relies on `Pubkey::create_program_address` of anchor_lang's re-exported
/// Solana address type: derives the address of the given seeds (bump seed
/// included), deterministically from the seeds and program id alone; `None`
/// stands for its rejection of the seeds.
#[verifier::external_body]
fn create_program_address(seeds: &Vec<Vec<u8>>, program_id: &AccountId) -> (r: Option<AccountId>)
    ensures
        match r {
            Some(a) => pda_create(seeds@.map_values(|s: Vec<u8>| s@), program_id@) == Some(a@),
            None => pda_create(seeds@.map_values(|s: Vec<u8>| s@), program_id@) is None,
        },
{
    let refs: Vec<&[u8]> = seeds.iter().map(|s| s.as_slice()).collect();
    let pid = Pubkey::new_from_array(*program_id);
    Pubkey::create_program_address(&refs, &pid).ok().map(|a| a.to_bytes())
}

/// The bytes of the global namespace tag.
fn global_tag_bytes() -> (v: Vec<u8>)
    ensures
        v@ == global_tag(),
{
    let mut v: Vec<u8> = Vec::new();
    v.push(103);
    v.push(108);
    v.push(111);
    v.push(98);
    v.push(97);
    v.push(108);
    v.push(95);
    v.push(115);
    v.push(116);
    v.push(97);
    v.push(116);
    v.push(101);
    proof {
        assert(v@ =~= global_tag());
    }
    v
}

/// The bytes of the per-user namespace tag.
fn user_tag_bytes() -> (v: Vec<u8>)
    ensures
        v@ == user_tag(),
{
    let mut v: Vec<u8> = Vec::new();
    v.push(117);
    v.push(115);
    v.push(101);
    v.push(114);
    v.push(95);
    v.push(115);
    v.push(116);
    v.push(97);
    v.push(116);
    v.push(101);
    proof {
        assert(v@ =~= user_tag());
    }
    v
}

/// The identity's bytes as a growable buffer, for use as a seed.
fn id_to_vec(id: &AccountId) -> (v: Vec<u8>)
    ensures
        v@ == id@,
{
    let mut v: Vec<u8> = Vec::new();
    let mut i: usize = 0;
    while i < 32
        invariant
            i <= 32,
            v@ == id@.subrange(0, i as int),
        decreases 32 - i,
    {
        v.push(id[i]);
        proof {
            assert(v@ =~= id@.subrange(0, i + 1 as int));
        }
        i = i + 1;
    }
    proof {
        assert(v@ =~= id@);
    }
    v
}

/// Whether two identities are the same.
pub fn id_eq(a: &AccountId, b: &AccountId) -> (r: bool)
    ensures
        r == (a@ == b@),
{
    let mut i: usize = 0;
    while i < 32
        invariant
            i <= 32,
            forall|j: int| 0 <= j < i ==> a@[j] == b@[j],
        decreases 32 - i,
    {
        if a[i] != b[i] {
            return false;
        }
        i = i + 1;
    }
    proof {
        assert(a@ =~= b@);
    }
    true
}

/// Derive the address and bump of the singleton global record.
pub fn derive_global_address(program_id: &AccountId) -> (r: Option<(AccountId, u8)>)
    ensures
        match r {
            Some(p) => pda_of(global_seeds(), program_id@) == Some((p.0@, p.1)) && pda_create(
                with_bump(global_seeds(), p.1),
                program_id@,
            ) == Some(p.0@),
            None => pda_of(global_seeds(), program_id@) is None,
        },
{
    let mut seeds: Vec<Vec<u8>> = Vec::new();
    seeds.push(global_tag_bytes());
    proof {
        assert(seeds@.map_values(|s: Vec<u8>| s@) =~= global_seeds());
    }
    find_program_address(&seeds, program_id)
}

/// Derive the address and bump of the record owned by `owner`.
pub fn derive_user_address(owner: &AccountId, program_id: &AccountId) -> (r: Option<(
    AccountId,
    u8,
)>)
    ensures
        match r {
            Some(p) => pda_of(user_seeds(owner@), program_id@) == Some((p.0@, p.1)) && pda_create(
                with_bump(user_seeds(owner@), p.1),
                program_id@,
            ) == Some(p.0@),
            None => pda_of(user_seeds(owner@), program_id@) is None,
        },
{
    let mut seeds: Vec<Vec<u8>> = Vec::new();
    seeds.push(user_tag_bytes());
    seeds.push(id_to_vec(owner));
    proof {
        assert(seeds@.map_values(|s: Vec<u8>| s@) =~= user_seeds(owner@));
    }
    find_program_address(&seeds, program_id)
}

/// Re-derive the global record's address from its stored bump.
pub fn rederive_global_address(bump: u8, program_id: &AccountId) -> (r: Option<AccountId>)
    ensures
        match r {
            Some(a) => pda_create(with_bump(global_seeds(), bump), program_id@) == Some(a@),
            None => pda_create(with_bump(global_seeds(), bump), program_id@) is None,
        },
{
    let mut seeds: Vec<Vec<u8>> = Vec::new();
    seeds.push(global_tag_bytes());
    let mut bump_seed: Vec<u8> = Vec::new();
    bump_seed.push(bump);
    seeds.push(bump_seed);
    proof {
        assert(seeds@.map_values(|s: Vec<u8>| s@) =~= with_bump(global_seeds(), bump));
    }
    create_program_address(&seeds, program_id)
}

/// Re-derive a user record's address from its stored owner and bump.
pub fn rederive_user_address(owner: &AccountId, bump: u8, program_id: &AccountId) -> (r: Option<
    AccountId,
>)
    ensures
        match r {
            Some(a) => pda_create(with_bump(user_seeds(owner@), bump), program_id@) == Some(a@),
            None => pda_create(with_bump(user_seeds(owner@), bump), program_id@) is None,
        },
{
    let mut seeds: Vec<Vec<u8>> = Vec::new();
    seeds.push(user_tag_bytes());
    seeds.push(id_to_vec(owner));
    let mut bump_seed: Vec<u8> = Vec::new();
    bump_seed.push(bump);
    seeds.push(bump_seed);
    proof {
        assert(seeds@.map_values(|s: Vec<u8>| s@) =~= with_bump(user_seeds(owner@), bump));
    }
    create_program_address(&seeds, program_id)
}

/// Whether the global record's stored bump re-derives the claimed address.
pub open spec fn global_address_checks(bump: u8, program_id: Seq<u8>, claimed: Seq<u8>) -> bool {
    pda_create(with_bump(global_seeds(), bump), program_id) == Some(claimed)
}

/// Whether a user record's stored owner and bump re-derive the claimed address.
pub open spec fn user_address_checks(
    owner: Seq<u8>,
    bump: u8,
    program_id: Seq<u8>,
    claimed: Seq<u8>,
) -> bool {
    pda_create(with_bump(user_seeds(owner), bump), program_id) == Some(claimed)
}

/// Check a claimed global-record address against the stored bump.
pub fn check_global_address(claimed: &AccountId, bump: u8, program_id: &AccountId) -> (r: Result<
    (),
    SolCreatorError,
>)
    ensures
        r is Ok <==> global_address_checks(bump, program_id@, claimed@),
        r is Err ==> r == Err::<(), SolCreatorError>(SolCreatorError::AddressMismatch),
{
    match rederive_global_address(bump, program_id) {
        Some(a) => {
            if id_eq(&a, claimed) {
                Ok(())
            } else {
                Err(SolCreatorError::AddressMismatch)
            }
        },
        None => Err(SolCreatorError::AddressMismatch),
    }
}

/// Check a claimed user-record address against the stored owner and bump.
pub fn check_user_address(
    claimed: &AccountId,
    owner: &AccountId,
    bump: u8,
    program_id: &AccountId,
) -> (r: Result<(), SolCreatorError>)
    ensures
        r is Ok <==> user_address_checks(owner@, bump, program_id@, claimed@),
        r is Err ==> r == Err::<(), SolCreatorError>(SolCreatorError::AddressMismatch),
{
    match rederive_user_address(owner, bump, program_id) {
        Some(a) => {
            if id_eq(&a, claimed) {
                Ok(())
            } else {
                Err(SolCreatorError::AddressMismatch)
            }
        },
        None => Err(SolCreatorError::AddressMismatch),
    }
}

} // verus!
