//! The calls into the pool program that a graduation makes: for each call
//! the program, the accounts in the order the program expects them, and the
//! data, an eight-byte tag followed by the arguments in little-endian order.

use vstd::prelude::*;
use crate::address::Address;
use crate::encoding::{
    as_unsigned_32, i32_le_bytes, le_bytes, push_bytes, push_le, u64_le_bytes,
};

verus! {

/// Tag of the call that initialises a pool.
pub const INIT_POOL_DISCRIMINATOR: [u8; 8] = [116, 233, 199, 204, 115, 159, 171, 36];

/// Tag of the call that initialises the vaults of a pool.
pub const INIT_POOL_VAULTS_DISCRIMINATOR: [u8; 8] = [209, 118, 61, 154, 158, 189, 162, 244];

/// Tag of the call that creates a bin array.
pub const CREATE_BIN_ARRAY_DISCRIMINATOR: [u8; 8] = [107, 26, 23, 62, 137, 213, 131, 235];

/// Tag of the call that initialises a liquidity position.
pub const INIT_POSITION_DISCRIMINATOR: [u8; 8] = [197, 20, 10, 1, 97, 160, 177, 91];

/// Tag of the call that adds liquidity to a position.
pub const ADD_LIQUIDITY_V2_DISCRIMINATOR: [u8; 8] = [126, 118, 210, 37, 80, 190, 19, 105];

/// Accounting mode of a pool that keeps a share per position and bin.
pub const ACCOUNTING_MODE_POSITION_BIN_SHARES: u8 = 1;

/// An account as a call refers to it.
#[derive(Clone, Copy, Debug, PartialEq, Eq)]
pub struct AccountMeta {
    /// Address of the account.
    pub pubkey: Address,
    /// Whether the account signs the call.
    pub is_signer: bool,
    /// Whether the call may change the account.
    pub is_writable: bool,
}

/// A call into another program.
#[derive(Debug, PartialEq, Eq)]
pub struct Instruction {
    /// Address of the program called.
    pub program_id: Address,
    /// The accounts handed to the program, in its order.
    pub accounts: Vec<AccountMeta>,
    /// The data handed to the program.
    pub data: Vec<u8>,
}

/// An account that the call may change.
pub open spec fn writable(pubkey: Address, is_signer: bool) -> AccountMeta {
    AccountMeta { pubkey, is_signer, is_writable: true }
}

/// An account that the call only reads.
pub open spec fn readonly(pubkey: Address, is_signer: bool) -> AccountMeta {
    AccountMeta { pubkey, is_signer, is_writable: false }
}

/// The bin indices one after another, four bytes each.
pub open spec fn encoded_bin_ids(bin_ids: Seq<i32>) -> Seq<u8>
    decreases bin_ids.len(),
{
    if bin_ids.len() == 0 {
        Seq::empty()
    } else {
        encoded_bin_ids(bin_ids.drop_last()) + le_bytes(as_unsigned_32(bin_ids.last()), 4)
    }
}

/// The shares one after another, eight bytes each.
pub open spec fn encoded_shares(shares: Seq<u64>) -> Seq<u8>
    decreases shares.len(),
{
    if shares.len() == 0 {
        Seq::empty()
    } else {
        encoded_shares(shares.drop_last()) + le_bytes(shares.last() as nat, 8)
    }
}

/// The data of the call that initialises a pool: the tag, the initial price
/// in fixed point, the bin step, the base fee, the creator fee, and the
/// accounting mode.
pub open spec fn init_pool_data(
    initial_price_q64_64: u128,
    bin_step_bps: u16,
    base_fee_bps: u16,
    creator_fee_bps: u16,
) -> Seq<u8> {
    INIT_POOL_DISCRIMINATOR@ + le_bytes(initial_price_q64_64 as nat, 16) + le_bytes(
        bin_step_bps as nat,
        2,
    ) + le_bytes(base_fee_bps as nat, 2) + le_bytes(creator_fee_bps as nat, 2)
        + seq![ACCOUNTING_MODE_POSITION_BIN_SHARES]
}

/// The data of the call that adds liquidity: the tag, the number of bins and
/// the bins, the number of shares and the shares. Both numbers are the low
/// four bytes of the count.
pub open spec fn add_liquidity_data(bin_ids: Seq<i32>, distribution: Seq<u64>) -> Seq<u8> {
    ADD_LIQUIDITY_V2_DISCRIMINATOR@ + le_bytes(bin_ids.len(), 4) + encoded_bin_ids(bin_ids)
        + le_bytes(distribution.len(), 4) + encoded_shares(distribution)
}

impl AccountMeta {
    /// An account that the call may change.
    pub fn new(pubkey: Address, is_signer: bool) -> (r: AccountMeta)
        ensures
            r == writable(pubkey, is_signer),
    {
        AccountMeta { pubkey, is_signer, is_writable: true }
    }

    /// An account that the call only reads.
    pub fn new_readonly(pubkey: Address, is_signer: bool) -> (r: AccountMeta)
        ensures
            r == readonly(pubkey, is_signer),
    {
        AccountMeta { pubkey, is_signer, is_writable: false }
    }
}

/// Build the call that initialises a pool.
pub fn build_init_pool_instruction(
    orbit_program: &Address,
    payer: &Address,
    pool: &Address,
    registry: &Address,
    base_mint: &Address,
    quote_mint: &Address,
    system_program: &Address,
    initial_price_q64_64: u128,
    bin_step_bps: u16,
    base_fee_bps: u16,
    creator_fee_bps: u16,
) -> (ix: Instruction)
    ensures
        ix.program_id == *orbit_program,
        ix.accounts@ == seq![
            writable(*payer, true),
            writable(*pool, false),
            writable(*registry, false),
            readonly(*base_mint, false),
            readonly(*quote_mint, false),
            readonly(*system_program, false),
        ],
        ix.data@ == init_pool_data(initial_price_q64_64, bin_step_bps, base_fee_bps, creator_fee_bps),
{
    let mut data: Vec<u8> = Vec::new();
    push_bytes(&mut data, INIT_POOL_DISCRIMINATOR.as_slice());
    push_le(&mut data, initial_price_q64_64, 16);
    push_le(&mut data, bin_step_bps as u128, 2);
    push_le(&mut data, base_fee_bps as u128, 2);
    push_le(&mut data, creator_fee_bps as u128, 2);
    data.push(ACCOUNTING_MODE_POSITION_BIN_SHARES);
    assert(data@ =~= init_pool_data(initial_price_q64_64, bin_step_bps, base_fee_bps, creator_fee_bps));

    let mut accounts: Vec<AccountMeta> = Vec::new();
    accounts.push(AccountMeta::new(*payer, true));
    accounts.push(AccountMeta::new(*pool, false));
    accounts.push(AccountMeta::new(*registry, false));
    accounts.push(AccountMeta::new_readonly(*base_mint, false));
    accounts.push(AccountMeta::new_readonly(*quote_mint, false));
    accounts.push(AccountMeta::new_readonly(*system_program, false));
    Instruction { program_id: *orbit_program, accounts, data }
}

/// Build the call that initialises the vaults of a pool.
pub fn build_init_vaults_instruction(
    orbit_program: &Address,
    payer: &Address,
    pool: &Address,
    base_mint: &Address,
    quote_mint: &Address,
    base_vault: &Address,
    quote_vault: &Address,
    creator_fee_vault: &Address,
    holders_fee_vault: &Address,
    nft_fee_vault: &Address,
    protocol_fee_vault: &Address,
    token_program: &Address,
    system_program: &Address,
) -> (ix: Instruction)
    ensures
        ix.program_id == *orbit_program,
        ix.accounts@ == seq![
            writable(*payer, true),
            writable(*pool, false),
            writable(*base_vault, false),
            writable(*quote_vault, false),
            writable(*creator_fee_vault, false),
            writable(*holders_fee_vault, false),
            writable(*nft_fee_vault, false),
            writable(*protocol_fee_vault, false),
            readonly(*base_mint, false),
            readonly(*quote_mint, false),
            readonly(*token_program, false),
            readonly(*system_program, false),
        ],
        ix.data@ == INIT_POOL_VAULTS_DISCRIMINATOR@,
{
    let mut data: Vec<u8> = Vec::new();
    push_bytes(&mut data, INIT_POOL_VAULTS_DISCRIMINATOR.as_slice());
    assert(data@ =~= INIT_POOL_VAULTS_DISCRIMINATOR@);

    let mut accounts: Vec<AccountMeta> = Vec::new();
    accounts.push(AccountMeta::new(*payer, true));
    accounts.push(AccountMeta::new(*pool, false));
    accounts.push(AccountMeta::new(*base_vault, false));
    accounts.push(AccountMeta::new(*quote_vault, false));
    accounts.push(AccountMeta::new(*creator_fee_vault, false));
    accounts.push(AccountMeta::new(*holders_fee_vault, false));
    accounts.push(AccountMeta::new(*nft_fee_vault, false));
    accounts.push(AccountMeta::new(*protocol_fee_vault, false));
    accounts.push(AccountMeta::new_readonly(*base_mint, false));
    accounts.push(AccountMeta::new_readonly(*quote_mint, false));
    accounts.push(AccountMeta::new_readonly(*token_program, false));
    accounts.push(AccountMeta::new_readonly(*system_program, false));
    Instruction { program_id: *orbit_program, accounts, data }
}

/// Build the call that creates the bin array that starts at
/// `lower_bin_index`.
pub fn build_create_bin_array_instruction(
    orbit_program: &Address,
    payer: &Address,
    pool: &Address,
    bin_array: &Address,
    system_program: &Address,
    lower_bin_index: i32,
) -> (ix: Instruction)
    ensures
        ix.program_id == *orbit_program,
        ix.accounts@ == seq![
            writable(*payer, true),
            writable(*pool, false),
            writable(*bin_array, false),
            readonly(*system_program, false),
        ],
        ix.data@ == CREATE_BIN_ARRAY_DISCRIMINATOR@ + le_bytes(as_unsigned_32(lower_bin_index), 4),
{
    let mut data: Vec<u8> = Vec::new();
    push_bytes(&mut data, CREATE_BIN_ARRAY_DISCRIMINATOR.as_slice());
    let index_bytes: Vec<u8> = i32_le_bytes(lower_bin_index);
    push_bytes(&mut data, index_bytes.as_slice());
    assert(data@ =~= CREATE_BIN_ARRAY_DISCRIMINATOR@ + le_bytes(
        as_unsigned_32(lower_bin_index),
        4,
    ));

    let mut accounts: Vec<AccountMeta> = Vec::new();
    accounts.push(AccountMeta::new(*payer, true));
    accounts.push(AccountMeta::new(*pool, false));
    accounts.push(AccountMeta::new(*bin_array, false));
    accounts.push(AccountMeta::new_readonly(*system_program, false));
    Instruction { program_id: *orbit_program, accounts, data }
}

/// Build the call that initialises the position of `owner` with `nonce`.
pub fn build_init_position_instruction(
    orbit_program: &Address,
    owner: &Address,
    pool: &Address,
    position: &Address,
    system_program: &Address,
    nonce: u64,
) -> (ix: Instruction)
    ensures
        ix.program_id == *orbit_program,
        ix.accounts@ == seq![
            writable(*owner, true),
            writable(*pool, false),
            writable(*position, false),
            readonly(*system_program, false),
        ],
        ix.data@ == INIT_POSITION_DISCRIMINATOR@ + le_bytes(nonce as nat, 8),
{
    let mut data: Vec<u8> = Vec::new();
    push_bytes(&mut data, INIT_POSITION_DISCRIMINATOR.as_slice());
    push_le(&mut data, nonce as u128, 8);
    assert(data@ =~= INIT_POSITION_DISCRIMINATOR@ + le_bytes(nonce as nat, 8));

    let mut accounts: Vec<AccountMeta> = Vec::new();
    accounts.push(AccountMeta::new(*owner, true));
    accounts.push(AccountMeta::new(*pool, false));
    accounts.push(AccountMeta::new(*position, false));
    accounts.push(AccountMeta::new_readonly(*system_program, false));
    Instruction { program_id: *orbit_program, accounts, data }
}

/// Build the call that adds liquidity to a position: the owner's base and
/// quote accounts pay into the pool's vaults, bin by bin. The bin arrays
/// follow the eight fixed accounts.
pub fn build_add_liquidity_v2_instruction(
    orbit_program: &Address,
    pool: &Address,
    owner: &Address,
    owner_base: &Address,
    owner_quote: &Address,
    base_vault: &Address,
    quote_vault: &Address,
    position: &Address,
    token_program: &Address,
    bin_arrays: &[Address],
    bin_ids: &[i32],
    distribution: &[u64],
) -> (ix: Instruction)
    ensures
        ix.program_id == *orbit_program,
        ix.accounts@ == seq![
            writable(*pool, false),
            writable(*owner, true),
            writable(*owner_base, false),
            writable(*owner_quote, false),
            writable(*base_vault, false),
            writable(*quote_vault, false),
            writable(*position, false),
            readonly(*token_program, false),
        ] + bin_arrays@.map_values(|bin_array: Address| writable(bin_array, false)),
        ix.data@ == add_liquidity_data(bin_ids@, distribution@),
{
    let mut data: Vec<u8> = Vec::new();
    push_bytes(&mut data, ADD_LIQUIDITY_V2_DISCRIMINATOR.as_slice());
    push_le(&mut data, bin_ids.len() as u128, 4);
    let ghost head: Seq<u8> = data@;
    let mut i: usize = 0;
    while i < bin_ids.len()
        invariant
            i <= bin_ids@.len(),
            data@ == head + encoded_bin_ids(bin_ids@.take(i as int)),
        decreases bin_ids@.len() - i,
    {
        let id_bytes: Vec<u8> = i32_le_bytes(bin_ids[i]);
        push_bytes(&mut data, id_bytes.as_slice());
        proof {
            let next: Seq<i32> = bin_ids@.take(i + 1);
            assert(next.drop_last() == bin_ids@.take(i as int));
            assert(next.last() == bin_ids@[i as int]);
            assert(data@ =~= head + encoded_bin_ids(next));
        }
        i = i + 1;
    }
    assert(bin_ids@.take(bin_ids@.len() as int) == bin_ids@);

    push_le(&mut data, distribution.len() as u128, 4);
    let ghost middle: Seq<u8> = data@;
    let mut j: usize = 0;
    while j < distribution.len()
        invariant
            j <= distribution@.len(),
            data@ == middle + encoded_shares(distribution@.take(j as int)),
        decreases distribution@.len() - j,
    {
        let share_bytes: Vec<u8> = u64_le_bytes(distribution[j]);
        push_bytes(&mut data, share_bytes.as_slice());
        proof {
            let next: Seq<u64> = distribution@.take(j + 1);
            assert(next.drop_last() == distribution@.take(j as int));
            assert(next.last() == distribution@[j as int]);
            assert(data@ =~= middle + encoded_shares(next));
        }
        j = j + 1;
    }
    assert(distribution@.take(distribution@.len() as int) == distribution@);
    assert(data@ =~= add_liquidity_data(bin_ids@, distribution@));

    let mut accounts: Vec<AccountMeta> = Vec::new();
    accounts.push(AccountMeta::new(*pool, false));
    accounts.push(AccountMeta::new(*owner, true));
    accounts.push(AccountMeta::new(*owner_base, false));
    accounts.push(AccountMeta::new(*owner_quote, false));
    accounts.push(AccountMeta::new(*base_vault, false));
    accounts.push(AccountMeta::new(*quote_vault, false));
    accounts.push(AccountMeta::new(*position, false));
    accounts.push(AccountMeta::new_readonly(*token_program, false));
    let ghost fixed: Seq<AccountMeta> = accounts@;
    let ghost remaining: Seq<AccountMeta> = bin_arrays@.map_values(
        |bin_array: Address| writable(bin_array, false),
    );
    let mut k: usize = 0;
    while k < bin_arrays.len()
        invariant
            k <= bin_arrays@.len(),
            remaining == bin_arrays@.map_values(|bin_array: Address| writable(bin_array, false)),
            accounts@ == fixed + remaining.take(k as int),
        decreases bin_arrays@.len() - k,
    {
        accounts.push(AccountMeta::new(bin_arrays[k], false));
        assert(remaining.take(k + 1) == remaining.take(k as int).push(remaining[k as int]));
        k = k + 1;
    }
    assert(remaining.take(bin_arrays@.len() as int) == remaining);
    Instruction { program_id: *orbit_program, accounts, data }
}

} // verus!
