use vstd::prelude::*;

use vstd::string::StringSliceAdditionalSpecFns;

use crate::state::Address;

verus! {

pub const VAULT_SEED: &'static str = "urbanium_vault";

pub const VAULT_AUTHORITY_SEED: &'static str = "urbanium_vault_authority";

pub const USER_POSITION_SEED: &'static str = "urbanium_user_position";

/// The program-derived address, and its bump seed, of `seeds` under `program_id`.
pub uninterp spec fn program_address(seeds: Seq<Seq<u8>>, program_id: Seq<u8>) -> (Seq<u8>, u8);

/// Relies on anchor_lang's `Pubkey::find_program_address`, which hashes the seeds, a bump
/// seed and the program id, and returns the first off-curve result with its bump; the
/// outcome depends on the seeds and the program id alone. It panics on more than 15
/// seeds or a seed longer than 32 bytes, which `requires` excludes, and otherwise only if
/// all 255 bump seeds land on the curve.
#[verifier::external_body]
fn find_program_address(seeds: &Vec<Vec<u8>>, program_id: &Address) -> (r: (Address, u8))
    requires
        seeds@.len() <= 15,
        forall|i: int| 0 <= i < seeds@.len() ==> #[trigger] seeds@[i]@.len() <= 32,
    ensures
        (r.0.bytes@, r.1) == program_address(seeds.deep_view(), program_id.bytes@),
{
    let refs: Vec<&[u8]> = seeds.iter().map(|s| s.as_slice()).collect();
    let program = anchor_lang::prelude::Pubkey::new_from_array(program_id.bytes);
    let (key, bump) = anchor_lang::prelude::Pubkey::find_program_address(&refs, &program);
    (Address { bytes: key.to_bytes() }, bump)
}

proof fn lemma_seeds_view(seeds: Vec<Vec<u8>>)
    ensures
        seeds.deep_view() =~= Seq::new(seeds@.len(), |i: int| seeds@[i]@),
{
    assert forall|i: int| 0 <= i < seeds@.len() implies seeds.deep_view()[i] == seeds@[i]@ by {
        assert(seeds@[i].deep_view() =~= seeds@[i]@);
    }
}

fn seed_bytes(seed: &str) -> (r: Vec<u8>)
    requires
        seed.is_ascii(),
    ensures
        r@ == seed.spec_bytes(),
        r@.len() == seed@.len(),
{
    proof {
        vstd::string::is_ascii_spec_bytes(seed);
    }
    seed.as_bytes_vec()
}

fn address_bytes(a: &Address) -> (r: Vec<u8>)
    ensures
        r@ == a.bytes@,
        r@.len() == 32,
{
    vstd::slice::slice_to_vec(&a.bytes)
}

/// The address of the vault of `mint`.
pub fn vault_pda(mint: &Address, program_id: &Address) -> (r: (Address, u8))
    ensures
        (r.0.bytes@, r.1) == program_address(
            seq![VAULT_SEED.spec_bytes(), mint.bytes@],
            program_id.bytes@,
        ),
{
    proof {
        reveal_strlit("urbanium_vault");
    }
    let seeds: Vec<Vec<u8>> = vec![seed_bytes(VAULT_SEED), address_bytes(mint)];
    proof {
        lemma_seeds_view(seeds);
        assert(seeds.deep_view() =~= seq![VAULT_SEED.spec_bytes(), mint.bytes@]);
    }
    find_program_address(&seeds, program_id)
}

/// The address of the authority that signs for the reserves of `vault`.
pub fn vault_authority_pda(vault: &Address, program_id: &Address) -> (r: (Address, u8))
    ensures
        (r.0.bytes@, r.1) == program_address(
            seq![VAULT_AUTHORITY_SEED.spec_bytes(), vault.bytes@],
            program_id.bytes@,
        ),
{
    proof {
        reveal_strlit("urbanium_vault_authority");
    }
    let seeds: Vec<Vec<u8>> = vec![seed_bytes(VAULT_AUTHORITY_SEED), address_bytes(vault)];
    proof {
        lemma_seeds_view(seeds);
        assert(seeds.deep_view() =~= seq![VAULT_AUTHORITY_SEED.spec_bytes(), vault.bytes@]);
    }
    find_program_address(&seeds, program_id)
}

/// The address of the position of `owner` in `vault`.
pub fn user_position_pda(vault: &Address, owner: &Address, program_id: &Address) -> (r: (Address, u8))
    ensures
        (r.0.bytes@, r.1) == program_address(
            seq![USER_POSITION_SEED.spec_bytes(), vault.bytes@, owner.bytes@],
            program_id.bytes@,
        ),
{
    proof {
        reveal_strlit("urbanium_user_position");
    }
    let seeds: Vec<Vec<u8>> = vec![
        seed_bytes(USER_POSITION_SEED),
        address_bytes(vault),
        address_bytes(owner),
    ];
    proof {
        lemma_seeds_view(seeds);
        assert(seeds.deep_view() =~= seq![
            USER_POSITION_SEED.spec_bytes(),
            vault.bytes@,
            owner.bytes@,
        ]);
    }
    find_program_address(&seeds, program_id)
}

} // verus!
