//! Seeds of all program-derived addresses, and the derivations themselves.
//!
//! A derivation hashes its seeds together with the owning program's address.
//! Each function here fixes the seeds; the hashing is the address library's.

use vstd::prelude::*;
use vstd::slice::slice_to_vec;
use crate::address::{
    find_program_address, is_base58_address, is_program_address, lemma_precedes_is_strict,
    lemma_precedes_is_total, parse_address, precedes, base58_address, Address,
};
use crate::encoding::{as_unsigned_32, i32_le_bytes, le_bytes, u64_le_bytes};

verus! {

/// `launchr_config`: seed of the global configuration.
pub const CONFIG_SEED: [u8; 14] = [108, 97, 117, 110, 99, 104, 114, 95, 99, 111, 110, 102, 105, 103];

/// `launch`: seed of a launch record, followed by the mint.
pub const LAUNCH_SEED: [u8; 6] = [108, 97, 117, 110, 99, 104];

/// `curve_vault`: seed of the quote vault of a curve, followed by the launch.
pub const CURVE_VAULT_SEED: [u8; 11] = [99, 117, 114, 118, 101, 95, 118, 97, 117, 108, 116];

/// `token_vault`: seed of the base vault of a curve, followed by the launch.
pub const TOKEN_VAULT_SEED: [u8; 11] = [116, 111, 107, 101, 110, 95, 118, 97, 117, 108, 116];

/// `user_position`: seed of a user's position, followed by the launch and
/// the user.
pub const USER_POSITION_SEED: [u8; 13] = [
    117,
    115,
    101,
    114,
    95,
    112,
    111,
    115,
    105,
    116,
    105,
    111,
    110,
];

/// `launch_authority`: seed of the authority over a launch's tokens,
/// followed by the launch.
pub const LAUNCH_AUTHORITY_SEED: [u8; 16] = [
    108,
    97,
    117,
    110,
    99,
    104,
    95,
    97,
    117,
    116,
    104,
    111,
    114,
    105,
    116,
    121,
];

/// `fee_vault`: seed of the protocol fee vault, followed by the
/// configuration.
pub const FEE_VAULT_SEED: [u8; 9] = [102, 101, 101, 95, 118, 97, 117, 108, 116];

/// `graduation_vault`: seed of the graduation reserve vault, followed by the
/// launch.
pub const GRADUATION_VAULT_SEED: [u8; 16] = [
    103,
    114,
    97,
    100,
    117,
    97,
    116,
    105,
    111,
    110,
    95,
    118,
    97,
    117,
    108,
    116,
];

/// `pool`: seed of a pool, followed by the two mints in canonical order.
pub const ORBIT_POOL_SEED: [u8; 4] = [112, 111, 111, 108];

/// `registry`: seed of a pool's registry entry, followed by the two mints in
/// canonical order.
pub const ORBIT_REGISTRY_SEED: [u8; 8] = [114, 101, 103, 105, 115, 116, 114, 121];

/// `vault`: seed of a pool vault, followed by the pool and the vault type.
pub const ORBIT_VAULT_SEED: [u8; 5] = [118, 97, 117, 108, 116];

/// `position`: seed of a liquidity position, followed by the pool, the owner
/// and a nonce.
pub const ORBIT_POSITION_SEED: [u8; 8] = [112, 111, 115, 105, 116, 105, 111, 110];

/// `position_bin`: seed of a position's bin, followed by the position and
/// the bin index.
pub const ORBIT_POSITION_BIN_SEED: [u8; 12] = [112, 111, 115, 105, 116, 105, 111, 110, 95, 98, 105, 110];

/// `bin_array`: seed of a bin array, followed by the pool and the array's
/// lower bin index.
pub const ORBIT_BIN_ARRAY_SEED: [u8; 9] = [98, 105, 110, 95, 97, 114, 114, 97, 121];

/// Vault type `base`.
pub const BASE: [u8; 4] = [98, 97, 115, 101];

/// Vault type `quote`.
pub const QUOTE: [u8; 5] = [113, 117, 111, 116, 101];

/// Vault type `creator_fee`.
pub const CREATOR_FEE: [u8; 11] = [99, 114, 101, 97, 116, 111, 114, 95, 102, 101, 101];

/// Vault type `holders_fee`.
pub const HOLDERS_FEE: [u8; 11] = [104, 111, 108, 100, 101, 114, 115, 95, 102, 101, 101];

/// Vault type `nft_fee`.
pub const NFT_FEE: [u8; 7] = [110, 102, 116, 95, 102, 101, 101];

/// Vault type `protocol_fee`.
pub const PROTOCOL_FEE: [u8; 12] = [112, 114, 111, 116, 111, 99, 111, 108, 95, 102, 101, 101];

/// Address of the program that runs the graduated pools, in base 58.
pub const ORBIT_PROGRAM_ID: &'static str = "Fn3fA3fjsmpULNL7E9U79jKTe1KHxPtQeWdURCbJXCnM";

/// The address derived from the seeds `[tag]`.
fn derive_one(tag: &[u8], program_id: &Address) -> (found: Option<(Address, u8)>)
    ensures
        is_program_address(found, seq![tag@], program_id@),
{
    let mut seeds: Vec<Vec<u8>> = Vec::new();
    seeds.push(slice_to_vec(tag));
    assert(seeds.deep_view() =~~= seq![tag@]);
    find_program_address(&seeds, program_id)
}

/// The address derived from the seeds `[tag, first]`.
fn derive_two(tag: &[u8], first: &[u8], program_id: &Address) -> (found: Option<(Address, u8)>)
    ensures
        is_program_address(found, seq![tag@, first@], program_id@),
{
    let mut seeds: Vec<Vec<u8>> = Vec::new();
    seeds.push(slice_to_vec(tag));
    seeds.push(slice_to_vec(first));
    assert(seeds.deep_view() =~~= seq![tag@, first@]);
    find_program_address(&seeds, program_id)
}

/// The address derived from the seeds `[tag, first, second]`.
fn derive_three(tag: &[u8], first: &[u8], second: &[u8], program_id: &Address) -> (found: Option<
    (Address, u8),
>)
    ensures
        is_program_address(found, seq![tag@, first@, second@], program_id@),
{
    let mut seeds: Vec<Vec<u8>> = Vec::new();
    seeds.push(slice_to_vec(tag));
    seeds.push(slice_to_vec(first));
    seeds.push(slice_to_vec(second));
    assert(seeds.deep_view() =~~= seq![tag@, first@, second@]);
    find_program_address(&seeds, program_id)
}

/// The address derived from the seeds `[tag, first, second, third]`.
fn derive_four(
    tag: &[u8],
    first: &[u8],
    second: &[u8],
    third: &[u8],
    program_id: &Address,
) -> (found: Option<(Address, u8)>)
    ensures
        is_program_address(found, seq![tag@, first@, second@, third@], program_id@),
{
    let mut seeds: Vec<Vec<u8>> = Vec::new();
    seeds.push(slice_to_vec(tag));
    seeds.push(slice_to_vec(first));
    seeds.push(slice_to_vec(second));
    seeds.push(slice_to_vec(third));
    assert(seeds.deep_view() =~~= seq![tag@, first@, second@, third@]);
    find_program_address(&seeds, program_id)
}

/// Derive the address of the global configuration.
pub fn derive_config(program_id: &Address) -> (found: Option<(Address, u8)>)
    ensures
        is_program_address(found, seq![CONFIG_SEED@], program_id@),
{
    derive_one(CONFIG_SEED.as_slice(), program_id)
}

/// Derive the address of a launch from the token mint.
pub fn derive_launch(mint: &Address, program_id: &Address) -> (found: Option<(Address, u8)>)
    ensures
        is_program_address(found, seq![LAUNCH_SEED@, mint@], program_id@),
{
    derive_two(LAUNCH_SEED.as_slice(), mint.bytes.as_slice(), program_id)
}

/// Derive the address of the quote vault of a launch.
pub fn derive_curve_vault(launch: &Address, program_id: &Address) -> (found: Option<(Address, u8)>)
    ensures
        is_program_address(found, seq![CURVE_VAULT_SEED@, launch@], program_id@),
{
    derive_two(CURVE_VAULT_SEED.as_slice(), launch.bytes.as_slice(), program_id)
}

/// Derive the address of the base vault of a launch.
pub fn derive_token_vault(launch: &Address, program_id: &Address) -> (found: Option<(Address, u8)>)
    ensures
        is_program_address(found, seq![TOKEN_VAULT_SEED@, launch@], program_id@),
{
    derive_two(TOKEN_VAULT_SEED.as_slice(), launch.bytes.as_slice(), program_id)
}

/// Derive the address of a user's position in a launch.
pub fn derive_user_position(launch: &Address, user: &Address, program_id: &Address) -> (found:
    Option<(Address, u8)>)
    ensures
        is_program_address(found, seq![USER_POSITION_SEED@, launch@, user@], program_id@),
{
    derive_three(
        USER_POSITION_SEED.as_slice(),
        launch.bytes.as_slice(),
        user.bytes.as_slice(),
        program_id,
    )
}

/// Derive the address of the authority over a launch's tokens.
pub fn derive_launch_authority(launch: &Address, program_id: &Address) -> (found: Option<
    (Address, u8),
>)
    ensures
        is_program_address(found, seq![LAUNCH_AUTHORITY_SEED@, launch@], program_id@),
{
    derive_two(LAUNCH_AUTHORITY_SEED.as_slice(), launch.bytes.as_slice(), program_id)
}

/// Derive the address of the protocol fee vault.
pub fn derive_fee_vault(config: &Address, program_id: &Address) -> (found: Option<(Address, u8)>)
    ensures
        is_program_address(found, seq![FEE_VAULT_SEED@, config@], program_id@),
{
    derive_two(FEE_VAULT_SEED.as_slice(), config.bytes.as_slice(), program_id)
}

/// Derive the address of the graduation reserve vault of a launch.
pub fn derive_graduation_vault(launch: &Address, program_id: &Address) -> (found: Option<
    (Address, u8),
>)
    ensures
        is_program_address(found, seq![GRADUATION_VAULT_SEED@, launch@], program_id@),
{
    derive_two(GRADUATION_VAULT_SEED.as_slice(), launch.bytes.as_slice(), program_id)
}

/// Get the address of the program that runs the graduated pools.
pub fn orbit_program_id() -> (found: Option<Address>)
    ensures
        is_base58_address(found, ORBIT_PROGRAM_ID@),
{
    parse_address(ORBIT_PROGRAM_ID)
}

/// The two mints in canonical order: the one that comes first in the order
/// of addresses stands first.
pub open spec fn canonical(mint_a: Address, mint_b: Address) -> (Address, Address) {
    if precedes(mint_a@, mint_b@) {
        (mint_a, mint_b)
    } else {
        (mint_b, mint_a)
    }
}

/// Whether `found` is the address derived under the pool program from the
/// given seeds: nothing where the program's address does not parse.
pub open spec fn is_orbit_address(found: Option<(Address, u8)>, seeds: Seq<Seq<u8>>) -> bool {
    match base58_address(ORBIT_PROGRAM_ID@) {
        Some(program_id) => is_program_address(found, seeds, program_id),
        None => found is None,
    }
}

/// Derive the address of the pool of two mints. The mints enter in
/// canonical order, whichever way they are given.
pub fn derive_orbit_pool(base_mint: &Address, quote_mint: &Address) -> (found: Option<
    (Address, u8),
>)
    ensures
        is_orbit_address(
            found,
            seq![
                ORBIT_POOL_SEED@,
                canonical(*base_mint, *quote_mint).0@,
                canonical(*base_mint, *quote_mint).1@,
            ],
        ),
{
    let orbit_id: Address = match orbit_program_id() {
        Some(id) => id,
        None => {
            return None;
        },
    };
    let (mint_a, mint_b) = canonical_pair(base_mint, quote_mint);
    derive_three(
        ORBIT_POOL_SEED.as_slice(),
        mint_a.bytes.as_slice(),
        mint_b.bytes.as_slice(),
        &orbit_id,
    )
}

/// Derive the address of the registry entry of the pool of two mints.
pub fn derive_orbit_registry(base_mint: &Address, quote_mint: &Address) -> (found: Option<
    (Address, u8),
>)
    ensures
        is_orbit_address(
            found,
            seq![
                ORBIT_REGISTRY_SEED@,
                canonical(*base_mint, *quote_mint).0@,
                canonical(*base_mint, *quote_mint).1@,
            ],
        ),
{
    let orbit_id: Address = match orbit_program_id() {
        Some(id) => id,
        None => {
            return None;
        },
    };
    let (mint_a, mint_b) = canonical_pair(base_mint, quote_mint);
    derive_three(
        ORBIT_REGISTRY_SEED.as_slice(),
        mint_a.bytes.as_slice(),
        mint_b.bytes.as_slice(),
        &orbit_id,
    )
}

/// Derive the address of a vault of a pool.
pub fn derive_orbit_vault(pool: &Address, vault_type: &[u8]) -> (found: Option<(Address, u8)>)
    ensures
        is_orbit_address(found, seq![ORBIT_VAULT_SEED@, pool@, vault_type@]),
{
    let orbit_id: Address = match orbit_program_id() {
        Some(id) => id,
        None => {
            return None;
        },
    };
    derive_three(ORBIT_VAULT_SEED.as_slice(), pool.bytes.as_slice(), vault_type, &orbit_id)
}

/// Derive the address of a liquidity position in a pool.
pub fn derive_orbit_position(pool: &Address, owner: &Address, nonce: u64) -> (found: Option<
    (Address, u8),
>)
    ensures
        is_orbit_address(
            found,
            seq![ORBIT_POSITION_SEED@, pool@, owner@, le_bytes(nonce as nat, 8)],
        ),
{
    let orbit_id: Address = match orbit_program_id() {
        Some(id) => id,
        None => {
            return None;
        },
    };
    let nonce_bytes: Vec<u8> = u64_le_bytes(nonce);
    derive_four(
        ORBIT_POSITION_SEED.as_slice(),
        pool.bytes.as_slice(),
        owner.bytes.as_slice(),
        nonce_bytes.as_slice(),
        &orbit_id,
    )
}

/// Derive the address of a bin array of a pool.
pub fn derive_orbit_bin_array(pool: &Address, lower_bin_index: i32) -> (found: Option<
    (Address, u8),
>)
    ensures
        is_orbit_address(
            found,
            seq![ORBIT_BIN_ARRAY_SEED@, pool@, le_bytes(as_unsigned_32(lower_bin_index), 4)],
        ),
{
    let orbit_id: Address = match orbit_program_id() {
        Some(id) => id,
        None => {
            return None;
        },
    };
    let index_bytes: Vec<u8> = i32_le_bytes(lower_bin_index);
    derive_three(
        ORBIT_BIN_ARRAY_SEED.as_slice(),
        pool.bytes.as_slice(),
        index_bytes.as_slice(),
        &orbit_id,
    )
}

/// Returns the mints in canonical order, the smaller address first.
pub fn canonical_pair(mint_a: &Address, mint_b: &Address) -> (pair: (Address, Address))
    ensures
        pair == canonical(*mint_a, *mint_b),
{
    if mint_a.is_before(mint_b) {
        (*mint_a, *mint_b)
    } else {
        (*mint_b, *mint_a)
    }
}

/// Check if the mints are in canonical order.
pub fn is_canonical_order(base_mint: &Address, quote_mint: &Address) -> (r: bool)
    ensures
        r == precedes(base_mint@, quote_mint@),
{
    base_mint.is_before(quote_mint)
}

/// Get the base and quote assignment of a pool, and whether it is inverted:
/// whether the token mint, the base of the curve, is not the base of the
/// pool.
pub fn get_orbit_mint_assignment(token_mint: &Address, sol_mint: &Address) -> (r: (
    Address,
    Address,
    bool,
))
    ensures
        (r.0, r.1) == canonical(*token_mint, *sol_mint),
        r.2 == (r.0 != *token_mint),
{
    let (base, quote) = canonical_pair(token_mint, sol_mint);
    let is_inverted: bool = base != *token_mint;
    proof {
        lemma_precedes_is_total(base, *token_mint);
    }
    (base, quote, is_inverted)
}

/// The canonical order does not depend on the order in which the mints are
/// given, and it puts the mints in order unless they are equal.
pub proof fn lemma_canonical_is_symmetric(mint_a: Address, mint_b: Address)
    ensures
        canonical(mint_a, mint_b) == canonical(mint_b, mint_a),
        mint_a != mint_b ==> precedes(canonical(mint_a, mint_b).0@, canonical(mint_a, mint_b).1@),
{
    lemma_precedes_is_strict(mint_a, mint_b);
    lemma_precedes_is_total(mint_a, mint_b);
}

/// The pool is inverted exactly when the quote mint comes strictly before
/// the token mint.
pub proof fn lemma_inverted_iff_quote_first(token_mint: Address, sol_mint: Address)
    ensures
        canonical(token_mint, sol_mint).0 != token_mint <==> precedes(sol_mint@, token_mint@),
{
    lemma_precedes_is_strict(token_mint, sol_mint);
    lemma_precedes_is_total(token_mint, sol_mint);
}

} // verus!
